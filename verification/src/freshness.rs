//! Freshness of cached records: how old a record is and whether it may still
//! be shown without waiting for the network.

use vstd::prelude::*;

verus! {

/// Canonical time-to-live of a cached record, in seconds: fifteen minutes.
pub const CACHE_TTL_SECS: i64 = 900;

/// The seconds that have passed at `now` since `ts`; none when `ts` lies in
/// the future.
pub open spec fn age_secs(now: int, ts: int) -> int {
    if now >= ts {
        now - ts
    } else {
        0
    }
}

/// A record stamped `ts` is fresh at `now` when its age is within `ttl`
/// seconds. A stamp in the future has the age zero.
pub open spec fn fresh_at(now: int, ts: int, ttl: int) -> bool {
    age_secs(now, ts) <= ttl
}

/// The whole minutes that have passed at `now` since `ts`; none when `ts`
/// lies in the future.
pub open spec fn age_minutes_at(now: int, ts: int) -> int {
    age_secs(now, ts) / 60
}

/// Calls `chrono::Utc::now` and `DateTime::timestamp`: the seconds since the
/// epoch by the machine's clock. It depends on the clock, so nothing is
/// promised of it.
#[verifier::external_body]
pub(crate) fn clock_now() -> i64 {
    chrono::Utc::now().timestamp()
}

/// Whether a record stamped `ts` is fresh at `now` under `ttl_secs`.
pub fn is_fresh_at(now: i64, ts: i64, ttl_secs: i64) -> (fresh: bool)
    ensures
        fresh == fresh_at(now as int, ts as int, ttl_secs as int),
{
    let age: i128 = if now >= ts {
        (now as i128) - (ts as i128)
    } else {
        0
    };
    age <= (ttl_secs as i128)
}

/// Whether a record stamped `ts` is fresh now, by the machine's clock.
pub fn is_fresh(ts: i64, ttl_secs: i64) -> (fresh: bool)
    ensures
        exists|now: i64| fresh == #[trigger] fresh_at(now as int, ts as int, ttl_secs as int),
{
    let now = clock_now();
    is_fresh_at(now, ts, ttl_secs)
}

/// The age of a record in whole minutes at `now`, never below zero.
pub fn age_minutes_from(now: i64, ts: i64) -> (minutes: i64)
    ensures
        minutes == age_minutes_at(now as int, ts as int),
        minutes >= 0,
{
    if now >= ts {
        let secs: i128 = (now as i128) - (ts as i128);
        let minutes: i128 = secs / 60;
        minutes as i64
    } else {
        0
    }
}

/// The age of a record in whole minutes now, by the machine's clock.
pub fn age_minutes(ts: i64) -> (minutes: i64)
    ensures
        minutes >= 0,
        exists|now: i64| minutes == #[trigger] age_minutes_at(now as int, ts as int),
{
    let now = clock_now();
    age_minutes_from(now, ts)
}

/// A record is fresh exactly when its age, counted from zero for a stamp in
/// the future, is within the time-to-live. For a stamp that is not in the
/// future that is `now - ts <= ttl`; a stamp in the future is fresh exactly
/// under a time-to-live that is not negative.
pub proof fn lemma_fresh_by_age(now: int, ts: int, ttl: int)
    ensures
        fresh_at(now, ts, ttl) == (age_secs(now, ts) <= ttl),
        ts <= now ==> fresh_at(now, ts, ttl) == (now - ts <= ttl),
        ts >= now ==> fresh_at(now, ts, ttl) == (0 <= ttl),
        ttl >= 0 ==> fresh_at(now, ts, ttl) == (now - ts <= ttl),
{
}

/// Freshness lasts: a record that is stale at one time is stale at every
/// later time, and the age in minutes never goes back.
pub proof fn lemma_staleness_lasts(now: int, later: int, ts: int, ttl: int)
    requires
        now <= later,
    ensures
        !fresh_at(now, ts, ttl) ==> !fresh_at(later, ts, ttl),
        age_minutes_at(now, ts) <= age_minutes_at(later, ts),
{
}

} // verus!
