use vstd::prelude::*;

use crate::constants::{MAX_CONTRIBUTORS, MAX_RISK_RATING, MIN_RISK_RATING};
use crate::error::InvoiceError;
use crate::identity::Identity;
use crate::registry::{
    has_contributor, lemma_total_after_push, total_contributed, ContributionRegistry,
};
use crate::state::invoice::{Contribution, Invoice, InvoiceStatus};

verus! {

/// The error a listing with these terms meets, checked in this order; `None`
/// when it is accepted.
pub open spec fn listing_error(
    total_amount: u64,
    purchase_price: u64,
    due_date: i64,
    risk_rating: u8,
    now: i64,
    already_listed: bool,
) -> Option<InvoiceError> {
    if purchase_price > total_amount {
        Some(InvoiceError::InvalidPurchasePrice)
    } else if risk_rating < MIN_RISK_RATING || risk_rating > MAX_RISK_RATING {
        Some(InvoiceError::InvalidRiskRating)
    } else if due_date <= now {
        Some(InvoiceError::InvalidDueDate)
    } else if already_listed {
        Some(InvoiceError::DuplicateInvoice)
    } else {
        None
    }
}

/// The error a contribution of `amount` by `who` meets, checked in this
/// order; `None` when it is accepted.
pub open spec fn contribution_error(inv: Invoice, who: Identity, amount: u64) -> Option<
    InvoiceError,
> {
    if !(inv.status is Funding) {
        Some(InvoiceError::NotFunding)
    } else if amount == 0 {
        Some(InvoiceError::ZeroContribution)
    } else if amount > inv.purchase_price - inv.total_funded_amount {
        Some(InvoiceError::AmountTooLarge)
    } else if has_contributor(inv.contributors@, who) {
        Some(InvoiceError::DuplicateContributor)
    } else if inv.contributors@.len() >= MAX_CONTRIBUTORS {
        Some(InvoiceError::ContributorLimitExceeded)
    } else {
        None
    }
}

/// The status after an accepted contribution of `amount`.
pub open spec fn status_after_contribution(inv: Invoice, amount: u64) -> InvoiceStatus {
    if inv.total_funded_amount + amount == inv.purchase_price {
        InvoiceStatus::Financed
    } else {
        InvoiceStatus::Funding
    }
}

/// The error a claim by `caller` meets; `None` when it is accepted.
pub open spec fn claim_error(inv: Invoice, caller: Identity) -> Option<InvoiceError> {
    if caller != inv.issuer {
        Some(InvoiceError::Unauthorized)
    } else if !(inv.status is Financed) {
        Some(InvoiceError::NotFunding)
    } else {
        None
    }
}

/// The fixed terms of the two records agree: everything but the funding
/// progress, the status and the claim marker.
pub open spec fn same_terms(a: Invoice, b: Invoice) -> bool {
    &&& a.issuer == b.issuer
    &&& a.total_amount == b.total_amount
    &&& a.due_date == b.due_date
    &&& a.invoice_mint == b.invoice_mint
    &&& a.purchase_price == b.purchase_price
    &&& a.risk_rating == b.risk_rating
}

/// Lists a receivable: validates its terms and creates its record, with
/// nothing raised yet. `now` is the current time and `already_listed` says
/// whether a record exists for `invoice_mint`.
pub fn list_invoice(
    issuer: Identity,
    invoice_mint: Identity,
    total_amount: u64,
    purchase_price: u64,
    due_date: i64,
    risk_rating: u8,
    now: i64,
    already_listed: bool,
) -> (r: Result<Invoice, InvoiceError>)
    ensures
        match r {
            Ok(inv) => {
                &&& listing_error(
                    total_amount,
                    purchase_price,
                    due_date,
                    risk_rating,
                    now,
                    already_listed,
                ) == None::<InvoiceError>
                &&& inv.wf()
                &&& inv.issuer == issuer
                &&& inv.invoice_mint == invoice_mint
                &&& inv.total_amount == total_amount
                &&& inv.purchase_price == purchase_price
                &&& inv.due_date == due_date
                &&& inv.risk_rating == risk_rating
                &&& inv.status == InvoiceStatus::Funding
                &&& inv.total_funded_amount == 0
                &&& inv.contributors@.len() == 0
                &&& !inv.funding_claimed
            },
            Err(e) => listing_error(
                total_amount,
                purchase_price,
                due_date,
                risk_rating,
                now,
                already_listed,
            ) == Some(e),
        },
{
    if purchase_price > total_amount {
        return Err(InvoiceError::InvalidPurchasePrice);
    }
    if risk_rating < MIN_RISK_RATING || risk_rating > MAX_RISK_RATING {
        return Err(InvoiceError::InvalidRiskRating);
    }
    if due_date <= now {
        return Err(InvoiceError::InvalidDueDate);
    }
    if already_listed {
        return Err(InvoiceError::DuplicateInvoice);
    }
    let contributors = ContributionRegistry::new();
    Ok(
        Invoice {
            issuer,
            total_amount,
            due_date,
            invoice_mint,
            total_funded_amount: 0,
            purchase_price,
            contributors,
            risk_rating,
            status: InvoiceStatus::Funding,
            funding_claimed: false,
        },
    )
}

/// Records a contribution of `amount` by `contributor`, and marks the invoice
/// financed once the purchase price is reached. A refused contribution leaves
/// the record as it was.
pub fn contribute(invoice: &mut Invoice, contributor: Identity, amount: u64) -> (r: Result<
    (),
    InvoiceError,
>)
    requires
        old(invoice).wf(),
    ensures
        final(invoice).wf(),
        old(invoice).status.stage() <= final(invoice).status.stage(),
        match contribution_error(*old(invoice), contributor, amount) {
            Some(e) => r == Err::<(), InvoiceError>(e) && *final(invoice) == *old(invoice),
            None => {
                &&& r is Ok
                &&& same_terms(*final(invoice), *old(invoice))
                &&& final(invoice).contributors@ == old(invoice).contributors@.push(
                    Contribution { contributor, amount },
                )
                &&& final(invoice).total_funded_amount == old(invoice).total_funded_amount
                    + amount
                &&& final(invoice).status == status_after_contribution(*old(invoice), amount)
                &&& final(invoice).funding_claimed == old(invoice).funding_claimed
            },
        },
{
    if invoice.status != InvoiceStatus::Funding {
        return Err(InvoiceError::NotFunding);
    }
    if amount == 0 {
        return Err(InvoiceError::ZeroContribution);
    }
    let remaining = invoice.remaining();
    if amount > remaining {
        return Err(InvoiceError::AmountTooLarge);
    }
    if invoice.contributors.contains(&contributor) {
        return Err(InvoiceError::DuplicateContributor);
    }
    if invoice.contributors.is_full() {
        return Err(InvoiceError::ContributorLimitExceeded);
    }
    let entry = Contribution { contributor, amount };
    proof {
        lemma_total_after_push(invoice.contributors@, entry);
    }
    invoice.contributors.push(entry);
    invoice.total_funded_amount = invoice.total_funded_amount + amount;
    if invoice.total_funded_amount == invoice.purchase_price {
        invoice.status = InvoiceStatus::Financed;
    }
    Ok(())
}

/// Lets the issuer draw the raised funds once the invoice is financed.
/// Returns the amount to move out of escrow to the issuer: everything raised
/// the first time, nothing on any later call.
pub fn claim_funding(invoice: &mut Invoice, caller: Identity) -> (r: Result<u64, InvoiceError>)
    requires
        old(invoice).wf(),
    ensures
        final(invoice).wf(),
        old(invoice).status.stage() <= final(invoice).status.stage(),
        match claim_error(*old(invoice), caller) {
            Some(e) => r == Err::<u64, InvoiceError>(e) && *final(invoice) == *old(invoice),
            None => {
                &&& r == Ok::<u64, InvoiceError>(
                    if old(invoice).funding_claimed {
                        0
                    } else {
                        old(invoice).total_funded_amount
                    },
                )
                &&& same_terms(*final(invoice), *old(invoice))
                &&& final(invoice).contributors == old(invoice).contributors
                &&& final(invoice).total_funded_amount == old(invoice).total_funded_amount
                &&& final(invoice).status == old(invoice).status
                &&& final(invoice).funding_claimed
            },
        },
{
    if caller != invoice.issuer {
        return Err(InvoiceError::Unauthorized);
    }
    if invoice.status != InvoiceStatus::Financed {
        return Err(InvoiceError::NotFunding);
    }
    let amount = if invoice.funding_claimed {
        0
    } else {
        invoice.total_funded_amount
    };
    invoice.funding_claimed = true;
    Ok(amount)
}

/// In every record that listing and the operations produce, the funded
/// amount is the sum of the recorded contributions and never exceeds the
/// purchase price. `list_invoice` establishes `wf`, and `contribute`,
/// `claim_funding` and `repay_and_distribute` preserve it.
pub proof fn funded_amount_invariants(inv: Invoice)
    requires
        inv.wf(),
    ensures
        total_contributed(inv.contributors@) == inv.total_funded_amount,
        inv.total_funded_amount <= inv.purchase_price,
{
}

/// A contribution of nothing to an invoice that is raising funds is refused
/// as a zero contribution, whoever offers it and whatever the record holds.
pub proof fn zero_contribution_refused(inv: Invoice, who: Identity)
    requires
        inv.wf(),
        inv.status is Funding,
    ensures
        contribution_error(inv, who, 0) == Some(InvoiceError::ZeroContribution),
{
}

/// Contributing exactly what is left to raise is accepted and finances the
/// invoice; contributing one unit less, where that is still a positive
/// amount, is accepted and leaves it funding.
pub proof fn exact_remainder_finances(inv: Invoice, who: Identity)
    requires
        inv.wf(),
        inv.status is Funding,
        inv.total_funded_amount < inv.purchase_price,
        !has_contributor(inv.contributors@, who),
        inv.contributors@.len() < MAX_CONTRIBUTORS,
    ensures
        contribution_error(inv, who, (inv.purchase_price - inv.total_funded_amount) as u64)
            == None::<InvoiceError>,
        status_after_contribution(inv, (inv.purchase_price - inv.total_funded_amount) as u64)
            == InvoiceStatus::Financed,
        inv.purchase_price - inv.total_funded_amount > 1 ==> {
            &&& contribution_error(
                inv,
                who,
                (inv.purchase_price - inv.total_funded_amount - 1) as u64,
            ) == None::<InvoiceError>
            &&& status_after_contribution(
                inv,
                (inv.purchase_price - inv.total_funded_amount - 1) as u64,
            ) == InvoiceStatus::Funding
        },
{
}

/// Once `who` has contributed, a second contribution by `who` to the same
/// record is refused as a duplicate, whatever its amount, as long as the
/// record is still funding and the amount passes the earlier checks.
pub proof fn repeat_contributor_refused(
    first: Invoice,
    second: Invoice,
    who: Identity,
    amount: u64,
    again: u64,
)
    requires
        first.wf(),
        contribution_error(first, who, amount) == None::<InvoiceError>,
        second.contributors@ == first.contributors@.push(Contribution { contributor: who, amount }),
        second.status is Funding,
        0 < again <= second.purchase_price - second.total_funded_amount,
    ensures
        contribution_error(second, who, again) == Some(InvoiceError::DuplicateContributor),
{
    let last = first.contributors@.len() as int;
    assert(second.contributors@[last].contributor == who);
}

} // verus!
