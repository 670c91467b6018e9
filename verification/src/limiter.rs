//! The limiter: settings per action, and the check that takes a token.

use std::collections::HashMap;
use vstd::prelude::*;
use crate::action::LimitedAction;
use crate::bucket::counts_back_within_tokens;
use crate::bucket::Bucket;
use crate::error::LimitError;
use crate::error::StoreError;
use crate::overrides::effective_burst;
use crate::overrides::spec_effective_burst;
use crate::overrides::RateOverride;
use crate::store::upserted;
use crate::store::RowKey;
use crate::store::Store;
use crate::time::Interval;
use crate::time::Timestamp;

verus! {

/// The refill interval and the burst of one action.
#[derive(Debug, Clone, Copy)]
pub struct RateLimiterConfig {
    pub rate: Interval,
    pub burst: i32,
}

/// The settings of the actions that were given any, by action code. An
/// action without an entry runs on its built-in defaults.
#[derive(Debug)]
pub struct RateLimiter {
    config: HashMap<i32, RateLimiterConfig>,
}

/// The settings that `action` runs on where it was given none.
pub open spec fn default_config(action: LimitedAction) -> RateLimiterConfig {
    RateLimiterConfig {
        rate: Interval { micros: (action.spec_default_rate_seconds() * 1_000_000) as u64 },
        burst: action.spec_default_burst(),
    }
}

/// What a check answers once the bucket has been written: allowed while the
/// bucket holds a token, else denied until one interval after its last
/// refill.
pub open spec fn verdict(row: Bucket, rate: Interval) -> Result<(), LimitError> {
    if row.tokens >= 1 {
        Ok(())
    } else if Timestamp::representable(row.last_refill@ + rate@) {
        Err(
            LimitError::RateLimited {
                retry_after: Timestamp { micros: (row.last_refill@ + rate@) as i64 },
            },
        )
    } else {
        Err(LimitError::RetryOutOfRange)
    }
}

/// Reads the answer of a check off the bucket that it wrote.
pub fn decide(row: Bucket, rate: Interval) -> (answer: Result<(), LimitError>)
    ensures
        answer == verdict(row, rate),
{
    if row.tokens >= 1 {
        Ok(())
    } else {
        match row.last_refill.checked_add(rate) {
            Some(retry_after) => Err(LimitError::RateLimited { retry_after }),
            None => Err(LimitError::RetryOutOfRange),
        }
    }
}

impl RateLimiter {
    /// The settings that the limiter was made with, by action code.
    pub closed spec fn configured(&self) -> Map<i32, RateLimiterConfig> {
        self.config@
    }

    /// The settings that `action` runs on: those it was given, else its
    /// built-in defaults.
    pub open spec fn config_of(&self, action: LimitedAction) -> RateLimiterConfig {
        if self.configured().contains_key(action.spec_code()) {
            self.configured()[action.spec_code()]
        } else {
            default_config(action)
        }
    }

    /// The burst in force for `(uploader, action)` at `now`, given the
    /// override table.
    pub open spec fn burst_in_force(
        &self,
        overrides: Map<RowKey, RateOverride>,
        uploader: i32,
        action: LimitedAction,
        now: Timestamp,
    ) -> i32 {
        spec_effective_burst(self.config_of(action).burst, overrides.get((uploader, action)), now)
    }

    /// The row that a check of `(uploader, action)` at `now` writes, given
    /// the two tables, or why the store refuses it.
    pub open spec fn token_taken(
        &self,
        buckets: Map<RowKey, Bucket>,
        overrides: Map<RowKey, RateOverride>,
        uploader: i32,
        action: LimitedAction,
        now: Timestamp,
    ) -> Result<Bucket, StoreError> {
        upserted(
            buckets.get((uploader, action)),
            uploader,
            action,
            self.burst_in_force(overrides, uploader, action, now),
            self.config_of(action).rate,
            now,
        )
    }

    /// The bucket table after a check of `(uploader, action)` at `now`: the
    /// row written stands in place of the pair's bucket, and a refused write
    /// changes nothing.
    pub open spec fn buckets_after(
        &self,
        buckets: Map<RowKey, Bucket>,
        overrides: Map<RowKey, RateOverride>,
        uploader: i32,
        action: LimitedAction,
        now: Timestamp,
    ) -> Map<RowKey, Bucket> {
        match self.token_taken(buckets, overrides, uploader, action, now) {
            Ok(row) => buckets.insert((uploader, action), row),
            Err(_) => buckets,
        }
    }

    /// The answer of a check of `(uploader, action)` at `now`, given the two
    /// tables.
    pub open spec fn checked(
        &self,
        buckets: Map<RowKey, Bucket>,
        overrides: Map<RowKey, RateOverride>,
        uploader: i32,
        action: LimitedAction,
        now: Timestamp,
    ) -> Result<(), LimitError> {
        match self.token_taken(buckets, overrides, uploader, action, now) {
            Ok(row) => verdict(row, self.config_of(action).rate),
            Err(refusal) => Err(LimitError::StorageFailure(refusal)),
        }
    }

    /// A limiter with the settings in `config`, keyed by action code.
    pub fn new(config: HashMap<i32, RateLimiterConfig>) -> (limiter: Self)
        ensures
            limiter.configured() == config@,
    {
        Self { config }
    }

    /// The settings that `action` runs on.
    pub fn config_for_action(&self, action: LimitedAction) -> (config: RateLimiterConfig)
        ensures
            config == self.config_of(action),
    {
        broadcast use vstd::std_specs::hash::group_hash_axioms;

        let code = action.code();
        match self.config.get(&code) {
            Some(config) => *config,
            None => {
                proof {
                    action.lemma_defaults_in_range();
                }
                RateLimiterConfig {
                    rate: Interval { micros: action.default_rate_seconds() * 1_000_000 },
                    burst: action.default_burst(),
                }
            },
        }
    }

    /// Refills the bucket of `(uploader, action)` as far as `now` allows,
    /// takes a token from it, and returns the row as written. A pair without
    /// a bucket gets a full one, from which this call takes nothing.
    ///
    /// The burst is that of the pair's override if it has one in force at
    /// `now`, else the configured one. The count returned lies between zero
    /// and that burst unless the burst is negative, or `now` lies so far
    /// before the bucket's last refill that more tokens are counted back
    /// than the bucket has.
    ///
    /// The write goes through for every pair without a bucket, and for every
    /// bucket whose last refill is not after `now` if the interval is not
    /// zero. A refused write leaves every row as it was.
    pub fn take_token(
        &self,
        uploader: i32,
        action: LimitedAction,
        now: Timestamp,
        store: &mut Store,
    ) -> (result: Result<Bucket, StoreError>)
        ensures
            result == self.token_taken(
                old(store).buckets(),
                old(store).overrides(),
                uploader,
                action,
                now,
            ),
            result matches Ok(row) ==> row.user_id == uploader && row.action == action,
            old(store).bucket_of(uploader, action) is None ==> result is Ok,
            old(store).bucket_of(uploader, action) matches Some(prior) ==> (self.config_of(
                action,
            ).rate@ > 0 && prior.last_refill@ <= now@ ==> result is Ok),
            result matches Ok(row) ==> (0 <= row.tokens <= self.burst_in_force(
                old(store).overrides(),
                uploader,
                action,
                now,
            ) <==> self.burst_in_force(old(store).overrides(), uploader, action, now) >= 0
                && counts_back_within_tokens(
                old(store).bucket_of(uploader, action),
                self.config_of(action).rate,
                now,
            )),
            final(store).buckets() == self.buckets_after(
                old(store).buckets(),
                old(store).overrides(),
                uploader,
                action,
                now,
            ),
            final(store).overrides() == old(store).overrides(),
    {
        let config = self.config_for_action(action);
        let burst = effective_burst(config.burst, store.rate_override(uploader, action), now);
        store.upsert_bucket(uploader, action, burst, config.rate, now)
    }

    /// Takes a token for `(uploader, action)` at `now` and says whether the
    /// action may go ahead: it may if the bucket as written holds at least
    /// one token. The bucket is written whether or not it may. A denial
    /// names the time at which the next token is due, one interval after the
    /// bucket's last refill.
    pub fn check_rate_limit(
        &self,
        uploader: i32,
        action: LimitedAction,
        now: Timestamp,
        store: &mut Store,
    ) -> (result: Result<(), LimitError>)
        ensures
            result == self.checked(
                old(store).buckets(),
                old(store).overrides(),
                uploader,
                action,
                now,
            ),
            result is Ok <==> (self.token_taken(
                old(store).buckets(),
                old(store).overrides(),
                uploader,
                action,
                now,
            ) matches Ok(row) && row.tokens >= 1),
            final(store).buckets() == self.buckets_after(
                old(store).buckets(),
                old(store).overrides(),
                uploader,
                action,
                now,
            ),
            final(store).overrides() == old(store).overrides(),
    {
        match self.take_token(uploader, action, now, store) {
            Ok(row) => decide(row, self.config_for_action(action).rate),
            Err(refusal) => Err(LimitError::StorageFailure(refusal)),
        }
    }
}

} // verus!
