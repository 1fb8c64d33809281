use vstd::prelude::*;

verus! {

/// Every way an operation on an invoice can be refused.
#[derive(Clone, Copy, Debug, PartialEq, Eq, Structural)]
pub enum InvoiceError {
    /// The invoice is not in the stage the operation needs.
    NotFunding,
    /// The contribution exceeds what is left to raise.
    AmountTooLarge,
    /// Every contributor slot is taken.
    ContributorLimitExceeded,
    /// The purchase price exceeds the face value.
    InvalidPurchasePrice,
    /// The risk rating lies outside the accepted range.
    InvalidRiskRating,
    /// The due date is not in the future.
    InvalidDueDate,
    /// A contribution of nothing.
    ZeroContribution,
    /// The contributor already holds a share of this invoice.
    DuplicateContributor,
    /// The caller is not the party the operation is reserved for.
    Unauthorized,
    /// The payout destinations do not line up one for one with the contributors.
    DestinationCountMismatch,
    /// A record already exists for this instrument.
    DuplicateInvoice,
}

} // verus!
