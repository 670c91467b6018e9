//! Instants and spans of time, counted in whole microseconds.

use vstd::prelude::*;

verus! {

/// An instant: microseconds since the Unix epoch, negative before it.
#[derive(Debug, Clone, Copy, PartialEq, Eq, Structural)]
pub struct Timestamp {
    pub micros: i64,
}

/// A span of time in microseconds.
#[derive(Debug, Clone, Copy, PartialEq, Eq, Structural)]
pub struct Interval {
    pub micros: u64,
}

impl View for Timestamp {
    type V = int;

    open spec fn view(&self) -> int {
        self.micros as int
    }
}

impl View for Interval {
    type V = int;

    open spec fn view(&self) -> int {
        self.micros as int
    }
}

impl Timestamp {
    /// Whether `micros` is an instant that a `Timestamp` can hold.
    pub open spec fn representable(micros: int) -> bool {
        i64::MIN <= micros <= i64::MAX
    }

    /// The instant `span` after this one, where a `Timestamp` can hold it.
    pub fn checked_add(self, span: Interval) -> (later: Option<Timestamp>)
        ensures
            later is Some <==> Self::representable(self@ + span@),
            later matches Some(t) ==> t@ == self@ + span@,
    {
        let sum: i128 = self.micros as i128 + span.micros as i128;
        if sum <= i64::MAX as i128 {
            Some(Timestamp { micros: sum as i64 })
        } else {
            None
        }
    }
}

} // verus!
