//! A treasury contract: it collects protocol fees in whitelisted tokens and
//! pays them out under an administrator, a withdrawal cap and timelocks.

pub mod data_key;
pub mod error;
pub mod events;
pub mod host;
pub mod laws;
pub mod model;
pub mod promises;
pub mod reentrancy;
pub mod state;
pub mod treasury;
pub mod validation;

pub use crate::data_key::DataKey;
pub use crate::error::KoraError;
pub use crate::treasury::TreasuryContract;

