use rate_limiter::action::LimitedAction;
use rate_limiter::bucket::Bucket;
use rate_limiter::error::StoreError;
use rate_limiter::time::{Interval, Timestamp};

const SECOND: u64 = 1_000_000;
const MILLI: u64 = 1_000;
const T0: i64 = 1_553_029_884_620_401;

fn bucket_at(tokens: i32, micros: i64) -> Bucket {
    Bucket {
        user_id: 42,
        tokens,
        last_refill: Timestamp { micros },
        action: LimitedAction::PublishNew,
    }
}

fn refill(bucket: Bucket, burst: i32, rate: u64, now: i64) -> Result<Bucket, StoreError> {
    bucket.refilled(burst, Interval { micros: rate }, Timestamp { micros: now })
}

#[test]
fn fresh_bucket_is_full_and_starts_its_clock_at_now() {
    let bucket = Bucket::fresh(7, LimitedAction::PublishNew, 10, Timestamp { micros: T0 });
    assert_eq!(bucket_of(7, 10, T0), bucket);
}

fn bucket_of(user_id: i32, tokens: i32, micros: i64) -> Bucket {
    Bucket {
        user_id,
        tokens,
        last_refill: Timestamp { micros },
        action: LimitedAction::PublishNew,
    }
}

#[test]
fn two_whole_seconds_add_two_tokens() {
    let next = refill(bucket_at(5, T0), 10, SECOND, T0 + 2_000_000);
    assert_eq!(Ok(bucket_at(6, T0 + 2_000_000)), next);
}

#[test]
fn a_part_of_an_interval_is_kept_for_the_next_check() {
    let next = refill(bucket_at(5, T0), 10, 100 * MILLI, T0 + 250_000).unwrap();
    assert_eq!(bucket_at(6, T0 + 200_000), next);

    // The 50 ms left over count towards the next interval.
    let next = refill(next, 10, 100 * MILLI, T0 + 300_000).unwrap();
    assert_eq!(bucket_at(6, T0 + 300_000), next);
}

#[test]
fn one_microsecond_short_of_an_interval_adds_nothing() {
    let next = refill(bucket_at(5, T0), 10, SECOND, T0 + 999_999);
    assert_eq!(Ok(bucket_at(4, T0)), next);
}

#[test]
fn refill_keeps_user_and_action_of_the_row() {
    let row = Bucket {
        user_id: -3,
        tokens: 2,
        last_refill: Timestamp { micros: 0 },
        action: LimitedAction::PublishNew,
    };
    let next = refill(row, 10, SECOND, 0).unwrap();
    assert_eq!(-3, next.user_id);
    assert_eq!(LimitedAction::PublishNew, next.action);
    assert_eq!(1, next.tokens);
}

#[test]
fn empty_bucket_stays_empty_without_a_refill() {
    let next = refill(bucket_at(0, T0), 10, SECOND, T0 + 10);
    assert_eq!(Ok(bucket_at(0, T0)), next);
}

#[test]
fn a_stored_negative_count_is_taken_as_empty() {
    let next = refill(bucket_at(-5, T0), 10, SECOND, T0 + 3_000_000);
    assert_eq!(Ok(bucket_at(3, T0 + 3_000_000)), next);
}

#[test]
fn refill_is_cut_down_to_the_burst() {
    let next = refill(bucket_at(8, T0), 10, SECOND, T0 + 4_000_000);
    assert_eq!(Ok(bucket_at(10, T0 + 4_000_000)), next);
}

#[test]
fn banked_tokens_above_a_lowered_burst_are_cut_at_once() {
    let next = refill(bucket_at(20, T0), 10, SECOND, T0);
    assert_eq!(Ok(bucket_at(10, T0)), next);

    let next = refill(bucket_at(3, T0), 10, SECOND, T0);
    assert_eq!(Ok(bucket_at(2, T0)), next);
}

#[test]
fn a_negative_burst_is_applied_as_it_stands() {
    let next = refill(bucket_at(4, T0), -2, SECOND, T0);
    assert_eq!(Ok(bucket_at(-2, T0)), next);
}

#[test]
fn a_very_long_pause_fills_the_bucket_without_overflow() {
    let next = refill(bucket_at(i32::MAX, i64::MIN), i32::MAX, 1, i64::MAX);
    assert_eq!(Ok(bucket_at(i32::MAX, i64::MAX)), next);

    // One whole interval of 2^64 - 1 microseconds fits in a span of 2^64 - 1.
    let next = refill(bucket_at(0, i64::MIN), 5, u64::MAX, i64::MAX);
    assert_eq!(Ok(bucket_at(1, i64::MAX)), next);

    // None fits in a span that is one microsecond shorter.
    let next = refill(bucket_at(0, i64::MIN), 5, u64::MAX, i64::MAX - 1);
    assert_eq!(Ok(bucket_at(0, i64::MIN)), next);
}

#[test]
fn a_clock_behind_the_last_refill_takes_tokens_back() {
    // 2.5 s before the last refill: three intervals are counted back.
    let next = refill(bucket_at(5, 10_000_000), 10, SECOND, 7_500_000);
    assert_eq!(Ok(bucket_at(1, 7_000_000)), next);

    // Exactly 2 s before: two intervals.
    let next = refill(bucket_at(5, 10_000_000), 10, SECOND, 8_000_000);
    assert_eq!(Ok(bucket_at(2, 8_000_000)), next);

    // The count may then fall below zero.
    let next = refill(bucket_at(1, 10_000_000), 10, SECOND, 0);
    assert_eq!(Ok(bucket_at(-10, 0)), next);
}

#[test]
fn zero_rate_is_refused_for_an_existing_bucket() {
    let next = refill(bucket_at(5, T0), 10, 0, T0 + 1);
    assert_eq!(Err(StoreError::DivisionByZero), next);
}

#[test]
fn a_count_below_the_column_range_is_refused() {
    let next = refill(bucket_at(5, 0), 10, 1, -3_000_000_000);
    assert_eq!(Err(StoreError::IntegerOutOfRange), next);

    // The lowest count that still fits.
    let next = refill(bucket_at(1, 0), 10, 1, -2_147_483_648);
    assert_eq!(Ok(bucket_at(i32::MIN, -2_147_483_648)), next);
    let next = refill(bucket_at(1, 0), 10, 1, -2_147_483_649);
    assert_eq!(Err(StoreError::IntegerOutOfRange), next);
}

#[test]
fn a_refill_time_below_the_column_range_is_refused() {
    let rate: u64 = 9_223_372_036_854_776_808;
    let next = refill(bucket_at(5, 0), 10, rate, i64::MIN + 5);
    assert_eq!(Err(StoreError::TimestampOutOfRange), next);

    // With an interval of exactly 2^63 microseconds the clock lands on the
    // earliest instant.
    let rate: u64 = 9_223_372_036_854_775_808;
    let next = refill(bucket_at(5, 0), 10, rate, i64::MIN + 5);
    assert_eq!(Ok(bucket_at(3, i64::MIN)), next);
}

#[test]
fn timestamp_plus_interval() {
    let start = Timestamp { micros: T0 };
    assert_eq!(
        Some(Timestamp { micros: T0 + 3_600_000_000 }),
        start.checked_add(Interval { micros: 3_600_000_000 })
    );
    assert_eq!(
        Some(Timestamp { micros: -1 }),
        Timestamp { micros: i64::MIN }.checked_add(Interval { micros: 9_223_372_036_854_775_807 })
    );
    assert_eq!(
        Some(Timestamp { micros: i64::MAX }),
        Timestamp { micros: i64::MIN }.checked_add(Interval { micros: u64::MAX })
    );
    assert_eq!(None, Timestamp { micros: i64::MIN + 1 }.checked_add(Interval { micros: u64::MAX }));
    assert_eq!(None, Timestamp { micros: i64::MAX }.checked_add(Interval { micros: 1 }));
    assert_eq!(
        Some(Timestamp { micros: i64::MAX }),
        Timestamp { micros: i64::MAX }.checked_add(Interval { micros: 0 })
    );
}
