//! What holds of every check, and of checks that follow one another on the
//! same bucket.
//!
//! Each statement is about a limiter, the two tables as a check finds them,
//! and the pair and time of the check. The tables after a check are those
//! that `RateLimiter::buckets_after` gives.

use vstd::prelude::*;
use vstd::arithmetic::div_mod::lemma_fundamental_div_mod_converse;
use crate::action::LimitedAction;
use crate::bucket::available_before_add;
use crate::bucket::counts_back_within_tokens;
use crate::bucket::elapsed_units;
use crate::bucket::lemma_clock_anchored;
use crate::bucket::lemma_forward_time_counts_nothing_back;
use crate::bucket::lemma_no_units_elapsed;
use crate::bucket::Bucket;
use crate::error::StoreError;
use crate::limiter::RateLimiter;
use crate::overrides::RateOverride;
use crate::store::RowKey;
use crate::time::Timestamp;

verus! {

/// A bucket as written holds at least zero tokens and at most the burst in
/// force, exactly if that burst is not negative and the check counted back
/// no more intervals than there were tokens left.
pub proof fn lemma_tokens_within_burst(
    limiter: RateLimiter,
    buckets: Map<RowKey, Bucket>,
    overrides: Map<RowKey, RateOverride>,
    uploader: i32,
    action: LimitedAction,
    now: Timestamp,
)
    ensures
        limiter.token_taken(buckets, overrides, uploader, action, now) matches Ok(row) ==> (0
            <= row.tokens <= limiter.burst_in_force(overrides, uploader, action, now)
            <==> limiter.burst_in_force(overrides, uploader, action, now) >= 0
            && counts_back_within_tokens(
            buckets.get((uploader, action)),
            limiter.config_of(action).rate,
            now,
        )),
{
}

/// While time does not run backwards and no burst in force is negative,
/// every bucket written holds at least zero tokens and at most the burst in
/// force.
pub proof fn lemma_tokens_within_burst_as_time_advances(
    limiter: RateLimiter,
    buckets: Map<RowKey, Bucket>,
    overrides: Map<RowKey, RateOverride>,
    uploader: i32,
    action: LimitedAction,
    now: Timestamp,
)
    requires
        limiter.burst_in_force(overrides, uploader, action, now) >= 0,
        buckets.get((uploader, action)) matches Some(prior) ==> prior.last_refill@ <= now@,
    ensures
        limiter.token_taken(buckets, overrides, uploader, action, now) matches Ok(row) ==> 0
            <= row.tokens <= limiter.burst_in_force(overrides, uploader, action, now),
{
    let rate = limiter.config_of(action).rate;
    if let Some(prior) = buckets.get((uploader, action)) {
        if rate@ > 0 {
            lemma_forward_time_counts_nothing_back(now@, prior.last_refill@, rate@);
        }
    }
}

/// A check never moves the refill clock past `now`, and leaves less than
/// one interval between the clock and `now`.
pub proof fn lemma_written_clock_anchored(
    limiter: RateLimiter,
    buckets: Map<RowKey, Bucket>,
    overrides: Map<RowKey, RateOverride>,
    uploader: i32,
    action: LimitedAction,
    now: Timestamp,
)
    requires
        limiter.config_of(action).rate@ > 0,
    ensures
        limiter.token_taken(buckets, overrides, uploader, action, now) matches Ok(row)
            ==> row.last_refill@ <= now@ < row.last_refill@ + limiter.config_of(action).rate@,
{
    if let Some(prior) = buckets.get((uploader, action)) {
        lemma_clock_anchored(now@, prior.last_refill@, limiter.config_of(action).rate@);
    }
}

/// A check at or after the bucket's last refill is written, and does not
/// move the refill clock back.
pub proof fn lemma_clock_never_goes_back(
    limiter: RateLimiter,
    buckets: Map<RowKey, Bucket>,
    overrides: Map<RowKey, RateOverride>,
    uploader: i32,
    action: LimitedAction,
    now: Timestamp,
)
    requires
        limiter.config_of(action).rate@ > 0,
        buckets.get((uploader, action)) matches Some(prior) && prior.last_refill@ <= now@,
    ensures
        buckets.get((uploader, action)) matches Some(prior) && limiter.token_taken(
            buckets,
            overrides,
            uploader,
            action,
            now,
        ) matches Ok(row) && prior.last_refill@ <= row.last_refill@,
{
    let prior = buckets.get((uploader, action))->Some_0;
    let rate = limiter.config_of(action).rate;
    lemma_forward_time_counts_nothing_back(now@, prior.last_refill@, rate@);
    lemma_clock_anchored(now@, prior.last_refill@, rate@);
}

/// A check keeps every bucket that the table held, and, unless the write is
/// refused, leaves one for the pair that was checked.
pub proof fn lemma_check_removes_no_bucket(
    limiter: RateLimiter,
    buckets: Map<RowKey, Bucket>,
    overrides: Map<RowKey, RateOverride>,
    uploader: i32,
    action: LimitedAction,
    now: Timestamp,
)
    ensures
        forall|key: RowKey|
            buckets.contains_key(key) ==> #[trigger] limiter.buckets_after(
                buckets,
                overrides,
                uploader,
                action,
                now,
            ).contains_key(key),
        forall|key: RowKey|
            key != (uploader, action) ==> #[trigger] limiter.buckets_after(
                buckets,
                overrides,
                uploader,
                action,
                now,
            ).get(key) == buckets.get(key),
        limiter.token_taken(buckets, overrides, uploader, action, now) is Ok
            ==> limiter.buckets_after(buckets, overrides, uploader, action, now).contains_key(
            (uploader, action),
        ),
{
}

/// The first check of a pair writes a full bucket with the refill clock at
/// `now`, and allows the action exactly if the burst in force is at least
/// one.
pub proof fn lemma_first_check_leaves_full_bucket(
    limiter: RateLimiter,
    buckets: Map<RowKey, Bucket>,
    overrides: Map<RowKey, RateOverride>,
    uploader: i32,
    action: LimitedAction,
    now: Timestamp,
)
    requires
        !buckets.contains_key((uploader, action)),
    ensures
        limiter.token_taken(buckets, overrides, uploader, action, now) == Ok::<Bucket, StoreError>(
            Bucket {
                user_id: uploader,
                tokens: limiter.burst_in_force(overrides, uploader, action, now),
                last_refill: now,
                action,
            },
        ),
        limiter.checked(buckets, overrides, uploader, action, now) is Ok <==> limiter.burst_in_force(
            overrides,
            uploader,
            action,
            now,
        ) >= 1,
{
}

/// A second check at the same `now`, on a bucket that the first left with at
/// least one token, takes exactly one token and leaves the refill clock
/// where it was.
pub proof fn lemma_immediate_check_takes_one_token(
    limiter: RateLimiter,
    buckets: Map<RowKey, Bucket>,
    overrides: Map<RowKey, RateOverride>,
    uploader: i32,
    action: LimitedAction,
    now: Timestamp,
)
    requires
        limiter.config_of(action).rate@ > 0,
        limiter.token_taken(buckets, overrides, uploader, action, now) matches Ok(first)
            && first.tokens > 0,
    ensures
        limiter.token_taken(buckets, overrides, uploader, action, now) matches Ok(first)
            && limiter.token_taken(
            limiter.buckets_after(buckets, overrides, uploader, action, now),
            overrides,
            uploader,
            action,
            now,
        ) == Ok::<Bucket, StoreError>(Bucket { tokens: (first.tokens - 1) as i32, ..first }),
{
    let first = limiter.token_taken(buckets, overrides, uploader, action, now)->Ok_0;
    lemma_written_clock_anchored(limiter, buckets, overrides, uploader, action, now);
    lemma_no_units_elapsed(now@, first.last_refill@, limiter.config_of(action).rate@);
}

/// Once a check has left the bucket empty, every further check at the same
/// `now` is denied with the same answer, so with the same retry time, and
/// leaves the table as it found it, with the count at zero.
pub proof fn lemma_exhausted_bucket_stays_exhausted(
    limiter: RateLimiter,
    buckets: Map<RowKey, Bucket>,
    overrides: Map<RowKey, RateOverride>,
    uploader: i32,
    action: LimitedAction,
    now: Timestamp,
)
    requires
        limiter.config_of(action).rate@ > 0,
        limiter.token_taken(buckets, overrides, uploader, action, now) matches Ok(first)
            && first.tokens == 0,
    ensures
        ({
            let emptied = limiter.buckets_after(buckets, overrides, uploader, action, now);
            &&& limiter.checked(buckets, overrides, uploader, action, now) is Err
            &&& limiter.checked(emptied, overrides, uploader, action, now) == limiter.checked(
                buckets,
                overrides,
                uploader,
                action,
                now,
            )
            &&& limiter.token_taken(emptied, overrides, uploader, action, now)
                == limiter.token_taken(buckets, overrides, uploader, action, now)
            &&& limiter.buckets_after(emptied, overrides, uploader, action, now) == emptied
        }),
{
    let first = limiter.token_taken(buckets, overrides, uploader, action, now)->Ok_0;
    let emptied = limiter.buckets_after(buckets, overrides, uploader, action, now);
    lemma_written_clock_anchored(limiter, buckets, overrides, uploader, action, now);
    lemma_no_units_elapsed(now@, first.last_refill@, limiter.config_of(action).rate@);
    assert(limiter.token_taken(emptied, overrides, uploader, action, now) == Ok::<
        Bucket,
        StoreError,
    >(first));
    assert(limiter.buckets_after(emptied, overrides, uploader, action, now) =~= emptied);
}

/// A check exactly one interval after the check that left the bucket empty
/// is allowed and finds exactly one token, if the burst then in force is at
/// least one. It moves the refill clock on by exactly one interval, which
/// need not bring the clock to the time of the check.
pub proof fn lemma_one_interval_refills_one_token(
    limiter: RateLimiter,
    buckets: Map<RowKey, Bucket>,
    overrides: Map<RowKey, RateOverride>,
    overrides_later: Map<RowKey, RateOverride>,
    uploader: i32,
    action: LimitedAction,
    now: Timestamp,
    later: Timestamp,
)
    requires
        limiter.config_of(action).rate@ > 0,
        later@ == now@ + limiter.config_of(action).rate@,
        limiter.token_taken(buckets, overrides, uploader, action, now) matches Ok(first)
            && first.tokens == 0,
        limiter.burst_in_force(overrides_later, uploader, action, later) >= 1,
    ensures
        ({
            let emptied = limiter.buckets_after(buckets, overrides, uploader, action, now);
            &&& limiter.token_taken(buckets, overrides, uploader, action, now) matches Ok(first)
            &&& limiter.token_taken(emptied, overrides_later, uploader, action, later) matches Ok(
                second,
            )
            &&& second.tokens == 1
            &&& second.last_refill@ == first.last_refill@ + limiter.config_of(action).rate@
            &&& limiter.checked(emptied, overrides_later, uploader, action, later) is Ok
        }),
{
    let rate = limiter.config_of(action).rate;
    let first = limiter.token_taken(buckets, overrides, uploader, action, now)->Ok_0;
    lemma_written_clock_anchored(limiter, buckets, overrides, uploader, action, now);
    let span = later@ - first.last_refill@;
    lemma_fundamental_div_mod_converse(span, rate@, 1, span - rate@);
    assert(1 * rate@ == rate@);
}

/// Where the burst in force has dropped between two checks and no whole
/// interval has passed since the refill clock of the first, the second
/// leaves what the first left less the one token taken, cut down to the
/// lower burst, however many tokens were banked under the higher one. The
/// refill clock stays where it was.
pub proof fn lemma_lowered_burst_cuts_tokens(
    limiter: RateLimiter,
    buckets: Map<RowKey, Bucket>,
    overrides: Map<RowKey, RateOverride>,
    overrides_later: Map<RowKey, RateOverride>,
    uploader: i32,
    action: LimitedAction,
    now: Timestamp,
    later: Timestamp,
)
    requires
        limiter.config_of(action).rate@ > 0,
        limiter.token_taken(buckets, overrides, uploader, action, now) matches Ok(first)
            && elapsed_units(later@, first.last_refill@, limiter.config_of(action).rate@) == 0,
    ensures
        ({
            let lower = limiter.burst_in_force(overrides_later, uploader, action, later);
            let banked = limiter.buckets_after(buckets, overrides, uploader, action, now);
            &&& limiter.token_taken(buckets, overrides, uploader, action, now) matches Ok(first)
            &&& limiter.token_taken(banked, overrides_later, uploader, action, later) matches Ok(
                second,
            )
            &&& second.tokens == if available_before_add(first.tokens as int) <= lower {
                available_before_add(first.tokens as int)
            } else {
                lower as int
            }
            &&& second.tokens <= lower
            &&& second.last_refill == first.last_refill
        }),
{
    assert(0 * limiter.config_of(action).rate@ == 0);
}

} // verus!
