use vstd::prelude::*;

use crate::constants::{MAX_RISK_RATING, MIN_RISK_RATING};
use crate::identity::Identity;
use crate::registry::{total_contributed, ContributionRegistry};

verus! {

/// One contributor's stake: who paid in, and how much.
#[derive(Clone, Copy, Debug)]
pub struct Contribution {
    pub contributor: Identity,
    pub amount: u64,
}

/// Where an invoice stands in its life.
#[derive(Clone, Copy, Debug, PartialEq, Eq, Structural)]
pub enum InvoiceStatus {
    Funding,
    Financed,
    Repaid,
    Defaulted,
}

impl InvoiceStatus {
    /// Position in the lifecycle; a record's status only ever moves forward.
    pub open spec fn stage(self) -> int {
        match self {
            InvoiceStatus::Funding => 0,
            InvoiceStatus::Financed => 1,
            InvoiceStatus::Repaid => 2,
            InvoiceStatus::Defaulted => 3,
        }
    }

    /// The byte that stands for this status in the persisted record.
    pub open spec fn spec_code(self) -> u8 {
        match self {
            InvoiceStatus::Funding => 0,
            InvoiceStatus::Financed => 1,
            InvoiceStatus::Repaid => 2,
            InvoiceStatus::Defaulted => 3,
        }
    }

    pub fn code(self) -> (r: u8)
        ensures
            r == self.spec_code(),
    {
        match self {
            InvoiceStatus::Funding => 0,
            InvoiceStatus::Financed => 1,
            InvoiceStatus::Repaid => 2,
            InvoiceStatus::Defaulted => 3,
        }
    }

    /// Reads a persisted status byte; `None` for a byte that stands for no status.
    pub fn from_code(code: u8) -> (r: Option<InvoiceStatus>)
        ensures
            match r {
                Some(s) => s.spec_code() == code,
                None => code > 3,
            },
    {
        match code {
            0 => Some(InvoiceStatus::Funding),
            1 => Some(InvoiceStatus::Financed),
            2 => Some(InvoiceStatus::Repaid),
            3 => Some(InvoiceStatus::Defaulted),
            _ => None,
        }
    }
}

/// A receivable's terms and its funding and settlement state.
#[derive(Debug)]
pub struct Invoice {
    /// Who listed the receivable and draws the raised funds.
    pub issuer: Identity,
    /// Face value owed at maturity.
    pub total_amount: u64,
    /// Unix seconds.
    pub due_date: i64,
    /// The instrument that stands for the receivable; one record per instrument.
    pub invoice_mint: Identity,
    /// Running sum of accepted contributions.
    pub total_funded_amount: u64,
    /// The amount to raise from contributors.
    pub purchase_price: u64,
    pub contributors: ContributionRegistry,
    pub risk_rating: u8,
    pub status: InvoiceStatus,
    /// Set once the issuer has drawn the raised funds.
    pub funding_claimed: bool,
}

impl Invoice {
    /// What holds of every record that listing and the operations on it produce.
    pub open spec fn wf(&self) -> bool {
        &&& self.contributors.wf()
        &&& total_contributed(self.contributors@) == self.total_funded_amount
        &&& self.total_funded_amount <= self.purchase_price
        &&& self.purchase_price <= self.total_amount
        &&& MIN_RISK_RATING <= self.risk_rating <= MAX_RISK_RATING
        &&& (self.status is Financed || self.status is Repaid) ==> self.total_funded_amount
            == self.purchase_price
        &&& self.funding_claimed ==> !(self.status is Funding)
    }

    /// Checks the record's invariant, for a record read back from storage.
    pub fn is_well_formed(&self) -> (r: bool)
        ensures
            r == self.wf(),
    {
        if !self.contributors.is_valid() {
            return false;
        }
        let funded = self.total_funded_amount;
        if self.contributors.total() != funded as u128 || funded > self.purchase_price {
            return false;
        }
        if self.purchase_price > self.total_amount {
            return false;
        }
        if self.risk_rating < MIN_RISK_RATING || self.risk_rating > MAX_RISK_RATING {
            return false;
        }
        let fully_funded_status = match self.status {
            InvoiceStatus::Financed | InvoiceStatus::Repaid => true,
            _ => false,
        };
        if fully_funded_status && funded != self.purchase_price {
            return false;
        }
        !(self.funding_claimed && self.status == InvoiceStatus::Funding)
    }

    /// Number of filled contributor slots.
    pub fn contributor_count(&self) -> (r: usize)
        ensures
            r == self.contributors@.len(),
    {
        self.contributors.len()
    }

    /// What is still to be raised.
    pub fn remaining(&self) -> (r: u64)
        requires
            self.wf(),
        ensures
            r == self.purchase_price - self.total_funded_amount,
    {
        self.purchase_price - self.total_funded_amount
    }
}

} // verus!
