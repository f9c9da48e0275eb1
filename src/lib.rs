//! Achievement-gated issuance: participants run timed eras, turn each finished
//! era into a badge, and spend a badge to have one token minted for them by a
//! separately owned token collection.
//!
//! The caller's identity and the current block number are explicit arguments
//! of every operation, so that the state machine can be driven and checked
//! outside a contract environment.

pub mod account;
pub mod era;
pub mod store;
pub mod wizard;
pub mod magink;
pub mod laws;

pub use account::AccountId;
