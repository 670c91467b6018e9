//! A user's token bucket for one action, and the arithmetic that refills it.

use vstd::prelude::*;
use vstd::arithmetic::div_mod::lemma_fundamental_div_mod;
use vstd::arithmetic::div_mod::lemma_fundamental_div_mod_converse;
use crate::action::LimitedAction;
use crate::error::StoreError;
use crate::time::Interval;
use crate::time::Timestamp;

verus! {

/// One stored row: the tokens that `user_id` has left for `action`, and the
/// instant up to which refills have been counted.
#[derive(Debug, Clone, Copy, PartialEq, Eq, Structural)]
pub struct Bucket {
    pub user_id: i32,
    pub tokens: i32,
    pub last_refill: Timestamp,
    pub action: LimitedAction,
}

/// The whole refill intervals of length `rate` that lie between
/// `last_refill` and `now`, rounded down.
pub open spec fn elapsed_units(now: int, last_refill: int, rate: int) -> int {
    (now - last_refill) / rate
}

/// What is left of `tokens` once the request has taken its one token. An
/// empty bucket stays empty.
pub open spec fn available_before_add(tokens: int) -> int {
    if tokens >= 1 {
        tokens - 1
    } else {
        0
    }
}

/// The token count after a check: one token taken, `units` added, and the
/// sum cut down to `burst`.
pub open spec fn refilled_tokens(tokens: int, burst: int, units: int) -> int {
    let banked = available_before_add(tokens) + units;
    if banked <= burst {
        banked
    } else {
        burst
    }
}

/// The refill clock after a check: moved on by `units` whole intervals, and
/// by nothing else.
pub open spec fn refilled_clock(last_refill: int, rate: int, units: int) -> int {
    last_refill + units * rate
}

/// Whether `tokens` fits the `tokens` column.
pub open spec fn tokens_representable(tokens: int) -> bool {
    i32::MIN <= tokens <= i32::MAX
}

/// The refill clock after a check at `now` is the latest instant, not after
/// `now`, that lies a whole number of intervals from `last_refill`.
pub proof fn lemma_clock_anchored(now: int, last_refill: int, rate: int)
    requires
        rate > 0,
    ensures
        ({
            let clock = refilled_clock(last_refill, rate, elapsed_units(now, last_refill, rate));
            &&& clock <= now < clock + rate
            &&& clock == now - (now - last_refill) % rate
        }),
{
    let span = now - last_refill;
    lemma_fundamental_div_mod(span, rate);
    assert(rate * (span / rate) == (span / rate) * rate) by (nonlinear_arith);
}

/// No whole interval lies between `last_refill` and `now` exactly when `now`
/// is in the interval that starts at `last_refill`.
pub proof fn lemma_no_units_elapsed(now: int, last_refill: int, rate: int)
    requires
        rate > 0,
    ensures
        elapsed_units(now, last_refill, rate) == 0 <==> last_refill <= now < last_refill + rate,
{
    let span = now - last_refill;
    lemma_fundamental_div_mod(span, rate);
    if 0 <= span < rate {
        lemma_fundamental_div_mod_converse(span, rate, 0, span);
    }
    if span / rate == 0 {
        assert(rate * (span / rate) == 0) by (nonlinear_arith)
            requires
                span / rate == 0,
        ;
    }
}

/// Whether a check at `now` counts back no more intervals than the bucket
/// has tokens left after the one taken. Only a `now` before the last refill
/// counts any back.
pub open spec fn counts_back_within_tokens(
    prior: Option<Bucket>,
    rate: Interval,
    now: Timestamp,
) -> bool {
    prior matches Some(bucket) ==> available_before_add(bucket.tokens as int) + elapsed_units(
        now@,
        bucket.last_refill@,
        rate@,
    ) >= 0
}

/// A check at or after the last refill counts no interval back.
pub proof fn lemma_forward_time_counts_nothing_back(now: int, last_refill: int, rate: int)
    requires
        rate > 0,
        last_refill <= now,
    ensures
        elapsed_units(now, last_refill, rate) >= 0,
        refilled_clock(last_refill, rate, elapsed_units(now, last_refill, rate)) >= last_refill,
{
    lemma_clock_anchored(now, last_refill, rate);
    let units = elapsed_units(now, last_refill, rate);
    assert(units >= 0) by (nonlinear_arith)
        requires
            last_refill + units * rate + rate > now,
            now >= last_refill,
            rate > 0,
    ;
    assert(units * rate >= 0) by (nonlinear_arith)
        requires
            units >= 0,
            rate > 0,
    ;
}

/// Quotient and remainder of `a` by a positive `b`, rounded towards minus
/// infinity.
fn floor_div_rem(a: i128, b: i128) -> (qr: (i128, i128))
    requires
        b > 0,
        a > i128::MIN,
    ensures
        qr.0 == a / b,
        qr.1 == a % b,
{
    if a >= 0 {
        (a / b, a % b)
    } else {
        let n: i128 = -a;
        let q: i128 = n / b;
        let r: i128 = n % b;
        proof {
            lemma_fundamental_div_mod(n as int, b as int);
        }
        if r == 0 {
            proof {
                assert(a == (-q) * b + 0) by (nonlinear_arith)
                    requires
                        a == -n,
                        n == b * q + r,
                        r == 0,
                ;
                lemma_fundamental_div_mod_converse(a as int, b as int, -q as int, 0);
            }
            (-q, 0)
        } else {
            proof {
                assert(a == (-q - 1) * b + (b - r)) by (nonlinear_arith)
                    requires
                        a == -n,
                        n == b * q + r,
                ;
                lemma_fundamental_div_mod_converse(a as int, b as int, -q - 1, b - r);
            }
            (-q - 1, b - r)
        }
    }
}

impl Bucket {
    /// The row that a first check at `now` creates: a full bucket, from
    /// which that check takes nothing.
    pub open spec fn spec_fresh(
        user_id: i32,
        action: LimitedAction,
        burst: i32,
        now: Timestamp,
    ) -> Bucket {
        Bucket { user_id, tokens: burst, last_refill: now, action }
    }

    /// The row that a check at `now` makes of this one, or why the store
    /// cannot hold it.
    pub open spec fn spec_refilled(self, burst: i32, rate: Interval, now: Timestamp) -> Result<
        Bucket,
        StoreError,
    > {
        let units = elapsed_units(now@, self.last_refill@, rate@);
        let tokens = refilled_tokens(self.tokens as int, burst as int, units);
        let clock = refilled_clock(self.last_refill@, rate@, units);
        if rate@ == 0 {
            Err(StoreError::DivisionByZero)
        } else if !tokens_representable(tokens) {
            Err(StoreError::IntegerOutOfRange)
        } else if !Timestamp::representable(clock) {
            Err(StoreError::TimestampOutOfRange)
        } else {
            Ok(
                Bucket {
                    user_id: self.user_id,
                    tokens: tokens as i32,
                    last_refill: Timestamp { micros: clock as i64 },
                    action: self.action,
                },
            )
        }
    }

    /// A full bucket for a pair that has none yet.
    pub fn fresh(user_id: i32, action: LimitedAction, burst: i32, now: Timestamp) -> (bucket:
        Bucket)
        ensures
            bucket == Bucket::spec_fresh(user_id, action, burst, now),
    {
        Bucket { user_id, tokens: burst, last_refill: now, action }
    }

    /// Takes one token for a check at `now`, adds one token for each whole
    /// interval of `rate` since the last refill, and cuts the count down to
    /// `burst`. The refill clock moves on by those whole intervals only.
    pub fn refilled(&self, burst: i32, rate: Interval, now: Timestamp) -> (result: Result<
        Bucket,
        StoreError,
    >)
        ensures
            result == self.spec_refilled(burst, rate, now),
            rate@ > 0 && self.last_refill@ <= now@ ==> result is Ok,
    {
        if rate.micros == 0 {
            return Err(StoreError::DivisionByZero);
        }
        let span: i128 = now.micros as i128 - self.last_refill.micros as i128;
        let (units, rest) = floor_div_rem(span, rate.micros as i128);
        proof {
            lemma_clock_anchored(now@, self.last_refill@, rate@);
            lemma_fundamental_div_mod(span as int, rate@);
            if self.last_refill@ <= now@ {
                lemma_forward_time_counts_nothing_back(now@, self.last_refill@, rate@);
            }
            assert(-span <= units <= span || span <= units <= -span) by (nonlinear_arith)
                requires
                    span == rate@ * units + rest,
                    0 <= rest < rate@,
            ;
        }
        let left: i128 = if self.tokens >= 1 {
            self.tokens as i128 - 1
        } else {
            0
        };
        let banked: i128 = left + units;
        let tokens: i128 = if banked <= burst as i128 {
            banked
        } else {
            burst as i128
        };
        if tokens < i32::MIN as i128 {
            return Err(StoreError::IntegerOutOfRange);
        }
        let clock: i128 = now.micros as i128 - rest;
        if clock < i64::MIN as i128 {
            return Err(StoreError::TimestampOutOfRange);
        }
        Ok(
            Bucket {
                user_id: self.user_id,
                tokens: tokens as i32,
                last_refill: Timestamp { micros: clock as i64 },
                action: self.action,
            },
        )
    }
}

} // verus!
