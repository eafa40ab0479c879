//! Verified logic of a small family of Casper smart contracts: a counter
//! that announces each count to the contracts registered for its `count`
//! event, a logger that registers itself and records what it hears, and a
//! recorder of who called it.
//!
//! The host environment (storage, arguments, contract installation and
//! cross-contract calls) stays outside this crate: each entry point here takes
//! the values the host handed over and returns the new state and the calls
//! that the host should make.

pub mod hash;

pub mod calls;
pub mod entry_points;
pub mod counter;
pub mod logger;
pub mod caller_recorder;
pub mod contract_caller;
pub mod contract_caller2;
pub mod laws;
