use dashboard_core::freshness::{age_minutes, age_minutes_from, is_fresh, is_fresh_at, CACHE_TTL_SECS};

#[test]
fn ttl_is_fifteen_minutes() {
    assert_eq!(CACHE_TTL_SECS, 15 * 60);
}

#[test]
fn fresh_within_ttl() {
    assert!(is_fresh_at(1_000, 1_000, 900));
    assert!(is_fresh_at(1_900, 1_000, 900));
    assert!(is_fresh_at(1_450, 1_000, 900));
}

#[test]
fn stale_one_second_past_ttl() {
    assert!(!is_fresh_at(1_901, 1_000, 900));
    assert!(!is_fresh_at(10_000, 1_000, 900));
}

#[test]
fn future_stamp_is_fresh() {
    assert!(is_fresh_at(1_000, 5_000, 900));
    assert!(is_fresh_at(1_000, 5_000, 0));
    assert!(is_fresh_at(0, i64::MAX, 900));
}

#[test]
fn freshness_is_exact_at_the_ends_of_the_range() {
    assert!(!is_fresh_at(i64::MAX, i64::MIN, i64::MAX));
    assert!(is_fresh_at(i64::MAX, 0, i64::MAX));
    assert!(is_fresh_at(i64::MIN, i64::MAX, 0));
    assert!(is_fresh_at(i64::MIN, i64::MAX, i64::MAX));
}

#[test]
fn age_of_a_future_stamp_counts_as_zero() {
    assert!(!is_fresh_at(1_000, 2_000, -5));
    assert!(!is_fresh_at(1_000, 2_000, -1));
    assert!(is_fresh_at(1_000, 2_000, 0));
    assert!(!is_fresh_at(i64::MIN, i64::MAX, i64::MIN));
    assert!(!is_fresh_at(-5, 0, -3));
    assert!(!is_fresh_at(0, 1, -3));
    assert!(!is_fresh_at(1_000, 1_000, -1));
    assert!(!is_fresh_at(1_010, 1_000, -1));
}

#[test]
fn age_counts_whole_minutes() {
    assert_eq!(age_minutes_from(1_000, 1_000), 0);
    assert_eq!(age_minutes_from(1_059, 1_000), 0);
    assert_eq!(age_minutes_from(1_060, 1_000), 1);
    assert_eq!(age_minutes_from(1_000 + 14 * 60 + 59, 1_000), 14);
    assert_eq!(age_minutes_from(7_200, 0), 120);
}

#[test]
fn age_of_future_stamp_is_zero() {
    assert_eq!(age_minutes_from(1_000, 2_000), 0);
    assert_eq!(age_minutes_from(i64::MIN, i64::MAX), 0);
}

#[test]
fn age_does_not_overflow() {
    assert_eq!(age_minutes_from(i64::MAX, i64::MIN), 307_445_734_561_825_860);
}

#[test]
fn clock_is_past_the_epoch_and_before_the_end_of_time() {
    assert!(!is_fresh(0, 900));
    assert!(is_fresh(i64::MAX, 900));
    assert!(age_minutes(0) > 0);
    assert_eq!(age_minutes(i64::MAX), 0);
}
