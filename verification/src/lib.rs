//! Hash-time-locked atomic swaps.
//!
//! A sender escrows funds under a hash lock and a deadline. Whoever presents
//! the preimage of the lock before the deadline releases the funds to the
//! recipient; once the deadline has passed, anyone may send them back to the
//! sender. Every swap ends in exactly one of the two.

pub mod api;
pub mod contract;
pub mod encoding;
pub mod error;
pub mod hashlock;
pub mod laws;
pub mod msg;
pub mod state;
pub mod subkeys;
pub mod types;
