//! What a check can report besides "allowed".

use vstd::prelude::*;
use crate::time::Timestamp;

verus! {

/// Why the store refused an insert-or-update. A refused write changes no row.
#[derive(Debug, Clone, Copy, PartialEq, Eq, Structural)]
pub enum StoreError {
    /// The refill interval is zero, so the elapsed intervals are undefined.
    DivisionByZero,
    /// The new token count does not fit the `tokens` column.
    IntegerOutOfRange,
    /// The new refill time does not fit the `last_refill` column.
    TimestampOutOfRange,
}

/// Why a check did not allow the action.
#[derive(Debug, Clone, Copy, PartialEq, Eq, Structural)]
pub enum LimitError {
    /// The bucket holds no token. The next one is due at `retry_after`.
    RateLimited { retry_after: Timestamp },
    /// The bucket holds no token, and the time at which the next one is due
    /// is later than any `Timestamp`.
    RetryOutOfRange,
    /// The store refused the write, and the bucket is as it was.
    StorageFailure(StoreError),
}

} // verus!
