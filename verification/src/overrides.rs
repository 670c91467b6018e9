//! Per-user replacements for the burst of an action.

use vstd::prelude::*;
use crate::action::LimitedAction;
use crate::time::Timestamp;

verus! {

/// One stored row: the burst that `user_id` gets for `action` in place of
/// the configured one, until `expires_at` if that is set.
#[derive(Debug, Clone, Copy, PartialEq, Eq)]
pub struct RateOverride {
    pub user_id: i32,
    pub action: LimitedAction,
    pub burst: i32,
    pub expires_at: Option<Timestamp>,
}

impl RateOverride {
    /// An override is in force at `now` if it never expires, or expires
    /// later than `now`.
    pub open spec fn spec_is_effective(&self, now: Timestamp) -> bool {
        match self.expires_at {
            None => true,
            Some(end) => end@ > now@,
        }
    }

    /// Whether the override is in force at `now`.
    #[verifier::when_used_as_spec(spec_is_effective)]
    pub fn is_effective(&self, now: Timestamp) -> (effective: bool)
        ensures
            effective == self.spec_is_effective(now),
    {
        match self.expires_at {
            None => true,
            Some(end) => end.micros > now.micros,
        }
    }
}

/// The burst in force at `now`: that of the override found for the pair, if
/// one was found and is in force, else the configured one.
pub open spec fn spec_effective_burst(
    config_burst: i32,
    found: Option<RateOverride>,
    now: Timestamp,
) -> i32 {
    match found {
        Some(row) => if row.spec_is_effective(now) {
            row.burst
        } else {
            config_burst
        },
        None => config_burst,
    }
}

/// Resolves the burst in force at `now` from the configured burst and the
/// override row found for the pair, if any.
#[verifier::when_used_as_spec(spec_effective_burst)]
pub fn effective_burst(config_burst: i32, found: Option<RateOverride>, now: Timestamp) -> (burst:
    i32)
    ensures
        burst == spec_effective_burst(config_burst, found, now),
{
    match found {
        Some(row) => if row.is_effective(now) {
            row.burst
        } else {
            config_burst
        },
        None => config_burst,
    }
}

} // verus!
