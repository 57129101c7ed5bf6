//! A ledger of loyalty points with three roles: one issuer that mints a
//! supply, stores that grant points to users once they are authorized, and
//! users that spend what they hold.
//!
//! The state lives in contract-storage hash maps; every operation is specified
//! against a mathematical model of the ledger, [`state::LedgerState`].

pub mod account;
pub mod events;
pub mod storage;
pub mod sums;
pub mod state;
pub mod ledger;
pub mod laws;

pub use crate::account::AccountId;
pub use crate::account::Balance;
pub use crate::events::Authority;
pub use crate::events::Error;
pub use crate::events::Issuance;
pub use crate::events::UserPoints;
pub use crate::ledger::Point;
pub use crate::state::LedgerState;
pub use crate::state::Operation;
