use vstd::arithmetic::div_mod::{
    lemma_div_by_multiple, lemma_div_is_ordered, lemma_div_pos_is_pos, lemma_fundamental_div_mod,
    lemma_mod_pos_bound,
};
use vstd::arithmetic::mul::{
    lemma_mul_inequality, lemma_mul_inequality_converse, lemma_mul_is_commutative,
    lemma_mul_is_distributive_add, lemma_mul_is_distributive_add_other_way, lemma_mul_nonnegative,
};
use vstd::prelude::*;

use crate::error::InvoiceError;
use crate::identity::Identity;
use crate::lifecycle::same_terms;
use crate::registry::{
    amount_prefix, lemma_amount_prefix_monotone, lemma_entry_within_total, total_contributed,
    ContributionRegistry,
};
use crate::state::invoice::{Contribution, Invoice, InvoiceStatus};

verus! {

/// A contributor's part of the profit: `total_profit * amount / purchase_price`,
/// rounded down.
pub open spec fn profit_share_of(total_profit: int, amount: int, purchase_price: int) -> int {
    total_profit * amount / purchase_price
}

/// Sum of the profit shares of the first `n` contributors.
pub open spec fn shares_prefix(s: Seq<Contribution>, n: int, total_profit: int, purchase_price: int) -> int
    decreases n,
{
    if n <= 0 {
        0
    } else {
        shares_prefix(s, n - 1, total_profit, purchase_price) + profit_share_of(
            total_profit,
            s[n - 1].amount as int,
            purchase_price,
        )
    }
}

/// What contributor `i` is paid back: the principal plus the profit share;
/// the last contributor takes, in place of its share, all of the profit that
/// the others' rounded-down shares leave.
pub open spec fn payout_at(s: Seq<Contribution>, i: int, total_profit: int, purchase_price: int) -> int {
    if i == s.len() - 1 {
        s[i].amount + (total_profit - shares_prefix(s, i, total_profit, purchase_price))
    } else {
        s[i].amount + profit_share_of(total_profit, s[i].amount as int, purchase_price)
    }
}

/// Sum of the payouts to the first `n` contributors.
pub open spec fn payouts_prefix(s: Seq<Contribution>, n: int, total_profit: int, purchase_price: int) -> int
    decreases n,
{
    if n <= 0 {
        0
    } else {
        payouts_prefix(s, n - 1, total_profit, purchase_price) + payout_at(
            s,
            n - 1,
            total_profit,
            purchase_price,
        )
    }
}

/// One transfer out of escrow: `amount` to `destination`.
#[derive(Clone, Copy, Debug)]
pub struct Payout {
    pub destination: Identity,
    pub amount: u64,
}

/// The transfers that settle a repaid invoice: `repayment` into escrow from
/// the payer, then each payout out of escrow, in order.
#[derive(Debug)]
pub struct Settlement {
    pub repayment: u64,
    pub payouts: Vec<Payout>,
}

/// Sum of the amounts of the first `n` payouts.
pub open spec fn payout_amount_prefix(p: Seq<Payout>, n: int) -> int
    decreases n,
{
    if n <= 0 {
        0
    } else {
        payout_amount_prefix(p, n - 1) + p[n - 1].amount
    }
}

/// Sum of the amounts of all payouts.
pub open spec fn payout_total(p: Seq<Payout>) -> int {
    payout_amount_prefix(p, p.len() as int)
}

/// A rounded-down share lies between zero and the profit, and times the
/// price it is at most the profit times the amount.
proof fn lemma_share_bounds(total_profit: int, amount: int, purchase_price: int)
    requires
        0 <= total_profit,
        0 <= amount <= purchase_price,
        0 < purchase_price,
    ensures
        0 <= profit_share_of(total_profit, amount, purchase_price) <= total_profit,
        profit_share_of(total_profit, amount, purchase_price) * purchase_price <= total_profit
            * amount,
{
    let x = total_profit * amount;
    let q = x / purchase_price;
    lemma_mul_nonnegative(total_profit, amount);
    lemma_fundamental_div_mod(x, purchase_price);
    lemma_mod_pos_bound(x, purchase_price);
    lemma_mul_is_commutative(purchase_price, q);
    lemma_div_pos_is_pos(x, purchase_price);
    lemma_mul_inequality(amount, purchase_price, total_profit);
    lemma_mul_is_commutative(amount, total_profit);
    lemma_mul_is_commutative(purchase_price, total_profit);
    lemma_div_is_ordered(x, total_profit * purchase_price, purchase_price);
    lemma_div_by_multiple(total_profit, purchase_price);
}

/// The shares of a prefix, times the price, are at most the profit times
/// the amounts of that prefix.
proof fn lemma_shares_prefix_scaled(
    s: Seq<Contribution>,
    n: int,
    total_profit: int,
    purchase_price: int,
)
    requires
        0 <= n <= s.len(),
        0 <= total_profit,
        0 < purchase_price,
        total_contributed(s) == purchase_price,
    ensures
        0 <= shares_prefix(s, n, total_profit, purchase_price),
        shares_prefix(s, n, total_profit, purchase_price) * purchase_price <= total_profit
            * amount_prefix(s, n),
    decreases n,
{
    if n > 0 {
        let before = shares_prefix(s, n - 1, total_profit, purchase_price);
        let a = s[n - 1].amount as int;
        let share = profit_share_of(total_profit, a, purchase_price);
        lemma_shares_prefix_scaled(s, n - 1, total_profit, purchase_price);
        lemma_entry_within_total(s, n - 1);
        lemma_share_bounds(total_profit, a, purchase_price);
        lemma_mul_is_distributive_add_other_way(purchase_price, before, share);
        lemma_mul_is_distributive_add(total_profit, amount_prefix(s, n - 1), a);
    }
}

/// The shares of any prefix add up to at most the profit.
proof fn lemma_shares_within_profit(
    s: Seq<Contribution>,
    n: int,
    total_profit: int,
    purchase_price: int,
)
    requires
        0 <= n <= s.len(),
        0 <= total_profit,
        0 < purchase_price,
        total_contributed(s) == purchase_price,
    ensures
        0 <= shares_prefix(s, n, total_profit, purchase_price) <= total_profit,
{
    let shares = shares_prefix(s, n, total_profit, purchase_price);
    lemma_shares_prefix_scaled(s, n, total_profit, purchase_price);
    lemma_amount_prefix_monotone(s, n, s.len() as int);
    lemma_mul_inequality(amount_prefix(s, n), purchase_price, total_profit);
    lemma_mul_is_commutative(amount_prefix(s, n), total_profit);
    lemma_mul_is_commutative(purchase_price, total_profit);
    lemma_mul_inequality_converse(shares, total_profit, purchase_price);
}

/// Before the last contributor, the payouts add up to the principal plus the
/// shares.
proof fn lemma_payouts_prefix_split(
    s: Seq<Contribution>,
    n: int,
    total_profit: int,
    purchase_price: int,
)
    requires
        0 <= n < s.len(),
    ensures
        payouts_prefix(s, n, total_profit, purchase_price) == amount_prefix(s, n) + shares_prefix(
            s,
            n,
            total_profit,
            purchase_price,
        ),
    decreases n,
{
    if n > 0 {
        lemma_payouts_prefix_split(s, n - 1, total_profit, purchase_price);
    }
}

/// Conservation: when at least one contributor is paid and the contributions
/// add up to the purchase price, the payouts add up to exactly the face value,
/// whatever the amounts and however the shares round.
pub proof fn payouts_conserve_repayment(
    s: Seq<Contribution>,
    total_amount: int,
    purchase_price: int,
)
    requires
        s.len() > 0,
        total_contributed(s) == purchase_price,
    ensures
        payouts_prefix(s, s.len() as int, total_amount - purchase_price, purchase_price)
            == total_amount,
{
    lemma_payouts_prefix_split(s, s.len() - 1, total_amount - purchase_price, purchase_price);
}

/// A listed payout plan sums, prefix by prefix, to the payouts it lists.
proof fn lemma_payout_amounts_match(
    p: Seq<Payout>,
    s: Seq<Contribution>,
    n: int,
    total_profit: int,
    purchase_price: int,
)
    requires
        0 <= n <= p.len(),
        p.len() == s.len(),
        forall|i: int|
            0 <= i < p.len() ==> #[trigger] p[i].amount == payout_at(
                s,
                i,
                total_profit,
                purchase_price,
            ),
    ensures
        payout_amount_prefix(p, n) == payouts_prefix(s, n, total_profit, purchase_price),
    decreases n,
{
    if n > 0 {
        lemma_payout_amounts_match(p, s, n - 1, total_profit, purchase_price);
    }
}

/// `total_profit * amount / purchase_price`, rounded down, computed through a
/// 128-bit product.
pub fn profit_share(total_profit: u64, amount: u64, purchase_price: u64) -> (r: u64)
    requires
        0 < purchase_price,
        amount <= purchase_price,
    ensures
        r == profit_share_of(total_profit as int, amount as int, purchase_price as int),
{
    proof {
        lemma_share_bounds(total_profit as int, amount as int, purchase_price as int);
        assert(total_profit * amount <= 0xFFFF_FFFF_FFFF_FFFF * 0xFFFF_FFFF_FFFF_FFFF)
            by (nonlinear_arith)
            requires
                total_profit <= 0xFFFF_FFFF_FFFF_FFFF,
                amount <= 0xFFFF_FFFF_FFFF_FFFF,
        ;
    }
    let product: u128 = (total_profit as u128) * (amount as u128);
    (product / (purchase_price as u128)) as u64
}

/// The payout owed to each contributor, in registration order, when
/// `total_amount` is repaid on an invoice bought for `purchase_price`.
pub fn compute_payouts(
    contributors: &ContributionRegistry,
    total_amount: u64,
    purchase_price: u64,
) -> (r: Vec<u64>)
    requires
        contributors.wf(),
        total_contributed(contributors@) == purchase_price,
        purchase_price <= total_amount,
    ensures
        r@.len() == contributors@.len(),
        forall|i: int|
            0 <= i < r@.len() ==> #[trigger] r@[i] == payout_at(
                contributors@,
                i,
                total_amount - purchase_price,
                purchase_price as int,
            ),
{
    let ghost s = contributors@;
    let n = contributors.len();
    let mut payouts: Vec<u64> = Vec::new();
    if n == 0 {
        return payouts;
    }
    let total_profit = total_amount - purchase_price;
    proof {
        lemma_entry_within_total(s, 0);
    }
    let mut distributed: u64 = 0;
    let mut i: usize = 0;
    while i < n - 1
        invariant
            s == contributors@,
            n == s.len(),
            0 < n,
            0 <= i <= n - 1,
            0 < purchase_price,
            total_contributed(s) == purchase_price,
            total_profit == total_amount - purchase_price,
            payouts@.len() == i,
            distributed == shares_prefix(s, i as int, total_profit as int, purchase_price as int),
            forall|j: int|
                0 <= j < i ==> #[trigger] payouts@[j] == payout_at(
                    s,
                    j,
                    total_profit as int,
                    purchase_price as int,
                ),
        decreases n - 1 - i,
    {
        let c = contributors.get(i);
        proof {
            lemma_entry_within_total(s, i as int);
            lemma_shares_within_profit(s, i + 1, total_profit as int, purchase_price as int);
        }
        let share = profit_share(total_profit, c.amount, purchase_price);
        distributed = distributed + share;
        payouts.push(c.amount + share);
        i = i + 1;
    }
    let last = contributors.get(n - 1);
    proof {
        lemma_entry_within_total(s, n - 1);
        lemma_shares_within_profit(s, n - 1, total_profit as int, purchase_price as int);
    }
    payouts.push(last.amount + (total_profit - distributed));
    payouts
}

/// The error a repayment meets when `destination_count` payout destinations
/// are supplied; `None` when it is accepted.
pub open spec fn repayment_error(inv: Invoice, destination_count: nat) -> Option<InvoiceError> {
    if !(inv.status is Financed) {
        Some(InvoiceError::NotFunding)
    } else if destination_count != inv.contributors@.len() {
        Some(InvoiceError::DestinationCountMismatch)
    } else {
        None
    }
}

/// `settlement` takes in the face value of `inv` and pays contributor `i`
/// its payout at `destinations[i]`.
pub open spec fn settles(settlement: Settlement, inv: Invoice, destinations: Seq<Identity>) -> bool {
    &&& settlement.repayment == inv.total_amount
    &&& settlement.payouts@.len() == inv.contributors@.len()
    &&& forall|i: int|
        0 <= i < settlement.payouts@.len() ==> {
            &&& #[trigger] settlement.payouts@[i].destination == destinations[i]
            &&& settlement.payouts@[i].amount == payout_at(
                inv.contributors@,
                i,
                inv.total_amount - inv.purchase_price,
                inv.purchase_price as int,
            )
        }
}

/// Settles a financed invoice: the face value comes into escrow from the
/// payer, each contributor is paid back at the destination supplied in the
/// same position, and the invoice is marked repaid. With no contributors
/// nothing is paid out. A refused repayment leaves the record as it was.
pub fn repay_and_distribute(invoice: &mut Invoice, destinations: &Vec<Identity>) -> (r: Result<
    Settlement,
    InvoiceError,
>)
    requires
        old(invoice).wf(),
    ensures
        final(invoice).wf(),
        old(invoice).status.stage() <= final(invoice).status.stage(),
        match repayment_error(*old(invoice), destinations@.len()) {
            Some(e) => r == Err::<Settlement, InvoiceError>(e) && *final(invoice) == *old(invoice),
            None => {
                &&& r matches Ok(settlement) && settles(settlement, *old(invoice), destinations@)
                    && (old(invoice).contributors@.len() > 0 ==> payout_total(settlement.payouts@)
                    == old(invoice).total_amount)
                &&& final(invoice).status == InvoiceStatus::Repaid
                &&& same_terms(*final(invoice), *old(invoice))
                &&& final(invoice).contributors == old(invoice).contributors
                &&& final(invoice).total_funded_amount == old(invoice).total_funded_amount
                &&& final(invoice).funding_claimed == old(invoice).funding_claimed
            },
        },
{
    if invoice.status != InvoiceStatus::Financed {
        return Err(InvoiceError::NotFunding);
    }
    if destinations.len() != invoice.contributors.len() {
        return Err(InvoiceError::DestinationCountMismatch);
    }
    let ghost s = invoice.contributors@;
    let mut payouts: Vec<Payout> = Vec::new();
    if invoice.contributors.len() > 0 {
        let amounts = compute_payouts(
            &invoice.contributors,
            invoice.total_amount,
            invoice.purchase_price,
        );
        let mut i: usize = 0;
        while i < amounts.len()
            invariant
                amounts@.len() == s.len(),
                destinations@.len() == s.len(),
                0 <= i <= amounts@.len(),
                payouts@.len() == i,
                forall|j: int|
                    0 <= j < i ==> {
                        &&& #[trigger] payouts@[j] == Payout {
                            destination: destinations@[j],
                            amount: amounts@[j],
                        }
                    },
            decreases amounts@.len() - i,
        {
            payouts.push(Payout { destination: destinations[i], amount: amounts[i] });
            i = i + 1;
        }
        proof {
            let profit = invoice.total_amount - invoice.purchase_price;
            let price = invoice.purchase_price as int;
            assert forall|j: int| 0 <= j < payouts@.len() implies #[trigger] payouts@[j].amount
                == payout_at(s, j, profit, price) by {
                assert(payouts@[j] == Payout { destination: destinations@[j], amount: amounts@[j] });
            }
            lemma_payout_amounts_match(payouts@, s, s.len() as int, profit, price);
            payouts_conserve_repayment(s, invoice.total_amount as int, price);
        }
    }
    invoice.status = InvoiceStatus::Repaid;
    Ok(Settlement { repayment: invoice.total_amount, payouts })
}

} // verus!
