use rate_limiter::action::LimitedAction;
use rate_limiter::bucket::Bucket;
use rate_limiter::limiter::{RateLimiter, RateLimiterConfig};
use rate_limiter::overrides::{effective_burst, RateOverride};
use rate_limiter::store::Store;
use rate_limiter::time::{Interval, Timestamp};
use std::collections::HashMap;

#[test]
fn publish_new_defaults() {
    assert_eq!(3600, LimitedAction::PublishNew.default_rate_seconds());
    assert_eq!(5, LimitedAction::PublishNew.default_burst());
    assert_eq!("PUBLISH_NEW", LimitedAction::PublishNew.env_var_key());
    assert_eq!(0, LimitedAction::PublishNew.code());
}

#[test]
fn config_for_action_falls_back_to_the_defaults() {
    let limiter = RateLimiter::new(HashMap::new());
    let config = limiter.config_for_action(LimitedAction::PublishNew);
    assert_eq!(Interval { micros: 3_600_000_000 }, config.rate);
    assert_eq!(5, config.burst);
}

#[test]
fn config_for_action_prefers_what_was_configured() {
    let mut given = HashMap::new();
    given.insert(
        LimitedAction::PublishNew.code(),
        RateLimiterConfig { rate: Interval { micros: 50_000 }, burst: 20 },
    );
    // An entry under a code that no action has is never looked up.
    given.insert(17, RateLimiterConfig { rate: Interval { micros: 1 }, burst: 1 });
    let limiter = RateLimiter::new(given);
    let config = limiter.config_for_action(LimitedAction::PublishNew);
    assert_eq!(Interval { micros: 50_000 }, config.rate);
    assert_eq!(20, config.burst);
}

#[test]
fn override_is_in_force_strictly_before_its_expiry() {
    let never = RateOverride {
        user_id: 1,
        action: LimitedAction::PublishNew,
        burst: 20,
        expires_at: None,
    };
    assert!(never.is_effective(Timestamp { micros: i64::MAX }));
    assert!(never.is_effective(Timestamp { micros: i64::MIN }));

    let until = RateOverride { expires_at: Some(Timestamp { micros: 100 }), ..never };
    assert!(until.is_effective(Timestamp { micros: 99 }));
    assert!(!until.is_effective(Timestamp { micros: 100 }));
    assert!(!until.is_effective(Timestamp { micros: 101 }));
}

#[test]
fn effective_burst_takes_the_override_only_while_in_force() {
    let now = Timestamp { micros: 100 };
    let row = RateOverride {
        user_id: 1,
        action: LimitedAction::PublishNew,
        burst: 20,
        expires_at: Some(Timestamp { micros: 101 }),
    };
    assert_eq!(10, effective_burst(10, None, now));
    assert_eq!(20, effective_burst(10, Some(row), now));
    assert_eq!(10, effective_burst(10, Some(row), Timestamp { micros: 101 }));
    assert_eq!(20, effective_burst(10, Some(RateOverride { expires_at: None, ..row }), now));
    assert_eq!(-1, effective_burst(10, Some(RateOverride { burst: -1, ..row }), now));
}

#[test]
fn store_keeps_one_row_for_each_pair() {
    let mut store = Store::new();
    assert_eq!(None, store.bucket(1, LimitedAction::PublishNew));
    assert_eq!(None, store.rate_override(1, LimitedAction::PublishNew));

    let first = Bucket {
        user_id: 1,
        tokens: 5,
        last_refill: Timestamp { micros: 10 },
        action: LimitedAction::PublishNew,
    };
    store.put_bucket(first);
    store.put_bucket(Bucket { user_id: 2, ..first });
    let second = Bucket { tokens: 3, last_refill: Timestamp { micros: 20 }, ..first };
    store.put_bucket(second);

    assert_eq!(Some(second), store.bucket(1, LimitedAction::PublishNew));
    assert_eq!(Some(Bucket { user_id: 2, ..first }), store.bucket(2, LimitedAction::PublishNew));
    assert_eq!(None, store.bucket(3, LimitedAction::PublishNew));
    assert_eq!(None, store.rate_override(1, LimitedAction::PublishNew));
}

#[test]
fn upsert_inserts_then_updates() {
    let mut store = Store::new();
    let rate = Interval { micros: 1_000_000 };
    let action = LimitedAction::PublishNew;

    let created = store.upsert_bucket(4, action, 10, rate, Timestamp { micros: 500 });
    let full = Bucket { user_id: 4, tokens: 10, last_refill: Timestamp { micros: 500 }, action };
    assert_eq!(Ok(full), created);
    assert_eq!(Some(full), store.bucket(4, action));

    let updated = store.upsert_bucket(4, action, 10, rate, Timestamp { micros: 3_000_600 });
    let refilled =
        Bucket { user_id: 4, tokens: 10, last_refill: Timestamp { micros: 3_000_500 }, action };
    assert_eq!(Ok(refilled), updated);
    assert_eq!(Some(refilled), store.bucket(4, action));

    let taken = store.upsert_bucket(4, action, 10, rate, Timestamp { micros: 3_000_600 });
    assert_eq!(Ok(Bucket { tokens: 9, ..refilled }), taken);
}
