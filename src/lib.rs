//! Verified core of an auction marketplace: the per-auction state machine and
//! the factory that issues auction identifiers and mirrors every auction in a
//! directory.
pub mod auction;
pub mod cards;
pub mod factory;
pub mod laws;
pub mod ledger;
