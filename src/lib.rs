//! A rotating savings and credit association (ROSCA): members of a group
//! contribute a fixed amount each cycle and one member, in join order,
//! receives the pool each cycle until every member has been paid once.
//!
//! The engine takes the host's capabilities as plain values: the caller's
//! proven identity, the current time and the outcome of each transfer.

pub mod contract;
pub mod error;
pub mod events;
pub mod group;
pub mod laws;
pub mod payout;
pub mod status;
pub mod storage;

pub use contract::StellarSave;
pub use error::Error;
pub use events::Event;
pub use group::{Address, Group};
pub use payout::PayoutRecord;
pub use status::{GroupStatus, StatusError};
pub use storage::{StorageKey, StorageKeyBuilder};
