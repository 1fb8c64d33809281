use invo_fi::contribute;
use invo_fi::error::InvoiceError;
use invo_fi::identity::Identity;
use invo_fi::list_invoice;
use invo_fi::state::invoice::{Invoice, InvoiceStatus};

fn lp(index: usize) -> Identity {
    let mut bytes = [0u8; 32];
    bytes[0] = 100;
    bytes[1] = (index % 256) as u8;
    bytes[2] = (index / 256) as u8;
    Identity::new(bytes)
}

fn listed_invoice() -> Invoice {
    list_invoice(
        Identity::new([1u8; 32]),
        Identity::new([9u8; 32]),
        1_200_000,
        1_000_000,
        1_700_000_000,
        3,
        0,
        false,
    )
    .unwrap()
}

#[test]
fn zero_amount_is_rejected() {
    let mut invoice = listed_invoice();
    let err = contribute(&mut invoice, lp(0), 0).unwrap_err();
    assert_eq!(err, InvoiceError::ZeroContribution);
    assert_eq!(invoice.contributor_count(), 0);
}

#[test]
fn amount_above_remaining_is_rejected() {
    let mut invoice = listed_invoice();
    let purchase_price = invoice.purchase_price;
    let err = contribute(&mut invoice, lp(0), purchase_price.saturating_add(1)).unwrap_err();
    assert_eq!(err, InvoiceError::AmountTooLarge);
}

#[test]
fn duplicate_contributor_is_rejected() {
    let mut invoice = listed_invoice();
    contribute(&mut invoice, lp(0), 600_000).unwrap();
    let err = contribute(&mut invoice, lp(0), 100).unwrap_err();
    assert_eq!(err, InvoiceError::DuplicateContributor);
}

#[test]
fn contributor_limit_enforced() {
    let mut invoice = listed_invoice();
    for idx in 0..64 {
        contribute(&mut invoice, lp(idx), 10_000).unwrap();
    }
    let err = contribute(&mut invoice, lp(64), 10_000).unwrap_err();
    assert_eq!(err, InvoiceError::ContributorLimitExceeded);
    assert_eq!(invoice.contributor_count(), 64);
    assert_eq!(invoice.total_funded_amount, 640_000);
}

#[test]
fn invoice_stays_funding_until_full_purchase() {
    let mut invoice = listed_invoice();
    contribute(&mut invoice, lp(0), 100_000).unwrap();
    assert_eq!(invoice.status, InvoiceStatus::Funding);
}

#[test]
fn contribution_is_recorded_in_order() {
    let mut invoice = listed_invoice();
    contribute(&mut invoice, lp(0), 600_000).unwrap();
    contribute(&mut invoice, lp(1), 250_000).unwrap();
    assert_eq!(invoice.contributor_count(), 2);
    let first = invoice.contributors.get(0);
    let second = invoice.contributors.get(1);
    assert_eq!(first.contributor, lp(0));
    assert_eq!(first.amount, 600_000);
    assert_eq!(second.contributor, lp(1));
    assert_eq!(second.amount, 250_000);
    assert_eq!(invoice.total_funded_amount, 850_000);
    assert_eq!(invoice.contributors.total(), 850_000);
    assert_eq!(invoice.remaining(), 150_000);
    assert!(invoice.is_well_formed());
}

#[test]
fn exact_remainder_finances_the_invoice() {
    let mut invoice = listed_invoice();
    contribute(&mut invoice, lp(0), 400_000).unwrap();
    let rest = invoice.purchase_price - invoice.total_funded_amount;
    contribute(&mut invoice, lp(1), rest).unwrap();
    assert_eq!(invoice.status, InvoiceStatus::Financed);
    assert_eq!(invoice.total_funded_amount, invoice.purchase_price);
}

#[test]
fn one_unit_short_stays_funding() {
    let mut invoice = listed_invoice();
    contribute(&mut invoice, lp(0), 400_000).unwrap();
    let rest = invoice.purchase_price - invoice.total_funded_amount;
    contribute(&mut invoice, lp(1), rest - 1).unwrap();
    assert_eq!(invoice.status, InvoiceStatus::Funding);
    assert_eq!(invoice.remaining(), 1);
}

#[test]
fn zero_amount_is_rejected_in_any_funding_state() {
    let mut invoice = listed_invoice();
    for idx in 0..10 {
        assert_eq!(contribute(&mut invoice, lp(1000), 0).unwrap_err(), InvoiceError::ZeroContribution);
        contribute(&mut invoice, lp(idx), 50_000).unwrap();
    }
    assert_eq!(contribute(&mut invoice, lp(3), 0).unwrap_err(), InvoiceError::ZeroContribution);
}

#[test]
fn zero_amount_on_financed_invoice_is_not_funding() {
    let mut invoice = listed_invoice();
    contribute(&mut invoice, lp(0), 1_000_000).unwrap();
    assert_eq!(contribute(&mut invoice, lp(1), 0).unwrap_err(), InvoiceError::NotFunding);
}

#[test]
fn second_contribution_by_same_identity_fails_for_any_amount() {
    let mut invoice = listed_invoice();
    contribute(&mut invoice, lp(7), 100_000).unwrap();
    for amount in [1u64, 100_000, 500_000, 900_000] {
        let err = contribute(&mut invoice, lp(7), amount).unwrap_err();
        assert_eq!(err, InvoiceError::DuplicateContributor);
    }
    assert_eq!(invoice.contributor_count(), 1);
    assert_eq!(invoice.total_funded_amount, 100_000);
}

#[test]
fn contribution_after_financing_is_not_funding() {
    let mut invoice = listed_invoice();
    contribute(&mut invoice, lp(0), 1_000_000).unwrap();
    let err = contribute(&mut invoice, lp(1), 1).unwrap_err();
    assert_eq!(err, InvoiceError::NotFunding);
}

#[test]
fn refused_contribution_leaves_record_unchanged() {
    let mut invoice = listed_invoice();
    contribute(&mut invoice, lp(0), 300_000).unwrap();
    let err = contribute(&mut invoice, lp(1), 700_001).unwrap_err();
    assert_eq!(err, InvoiceError::AmountTooLarge);
    assert_eq!(invoice.contributor_count(), 1);
    assert_eq!(invoice.total_funded_amount, 300_000);
    assert_eq!(invoice.status, InvoiceStatus::Funding);
}
