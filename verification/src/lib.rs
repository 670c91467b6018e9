//! A token-bucket rate limiter whose state lives in a keyed store.
//!
//! Every check for a `(user, action)` pair refills that pair's bucket by the
//! whole refill intervals that have passed, takes one token from it, clamps
//! the count to the burst in force, and writes the row back in a single
//! insert-or-update. All time arithmetic is exact, on whole microseconds.

pub mod action;
pub mod bucket;
pub mod error;
pub mod guarantees;
pub mod limiter;
pub mod overrides;
pub mod store;
pub mod time;
