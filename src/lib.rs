pub mod constants;
pub mod error;
pub mod identity;
pub mod lifecycle;
pub mod registry;
pub mod settlement;
pub mod state;

pub use lifecycle::{claim_funding, contribute, list_invoice};
pub use settlement::repay_and_distribute;
