use chrono::Timelike;
use vstd::prelude::*;

verus! {

/// Every `chrono::DateTime<Utc>` lies between the years 262144 BCE and 262142 CE,
/// so its Unix timestamp in milliseconds is smaller than 2^53 in magnitude.
pub const TIMESTAMP_BOUND: i64 = 9_007_199_254_740_992i64;

/// Reads the clock with `bson::DateTime::now()` (which also takes clocks set
/// before 1970), turns it into a `chrono::DateTime<Utc>` with `to_chrono()`
/// (clamped to chrono's range) and returns its `timestamp_millis()`. The reading
/// depends on the system clock; the contract states only the range of every
/// `DateTime<Utc>` that chrono can represent.
#[verifier::external_body]
pub fn utc_now_millis() -> (ms: i64)
    ensures
        -TIMESTAMP_BOUND < ms < TIMESTAMP_BOUND,
{
    bson::DateTime::now().to_chrono().timestamp_millis()
}

/// Calls `bson::DateTime::now()` and returns its millisecond count.
/// The reading depends on the system clock, so nothing is promised of it.
#[verifier::external_body]
pub fn bson_now_millis() -> (ms: i64) {
    bson::DateTime::now().timestamp_millis()
}

/// Reads the clock with `bson::DateTime::now()` (which also takes clocks set
/// before 1970), turns it into a `chrono::DateTime<Utc>` with `to_chrono()` and
/// returns `hour()` and `minute()` of its `time()`. chrono documents the hour as
/// a number from 0 to 23 and the minute as a number from 0 to 59; which hour and
/// minute come back depends on the system clock.
#[verifier::external_body]
pub fn utc_hour_minute() -> (hm: (u32, u32))
    ensures
        hm.0 < 24,
        hm.1 < 60,
{
    let now = bson::DateTime::now().to_chrono().time();
    (now.hour(), now.minute())
}

} // verus!

verus! {

/// Reads the clock with `bson::DateTime::now()` (which also takes clocks set
/// before 1970), turns it into a `chrono::DateTime<Utc>` with `to_chrono()`, then
/// into local time with `with_timezone(&chrono::Local)`, and returns `hour()` and
/// `minute()` of its `time()`. chrono documents the hour as a number from 0 to 23
/// and the minute as a number from 0 to 59; which come back depends on the clock
/// and the time zone. chrono's zone lookup expects the zone data to give an
/// offset for the instant, which it does for every instant in chrono's range.
#[verifier::external_body]
pub fn local_hour_minute() -> (hm: (u32, u32))
    ensures
        hm.0 < 24,
        hm.1 < 60,
{
    let now = bson::DateTime::now().to_chrono().with_timezone(&chrono::offset::Local).time();
    (now.hour(), now.minute())
}

/// Calls `bson::DateTime::now().to_string()`: the current time as text.
/// It depends on the clock, so nothing is promised of it.
#[verifier::external_body]
pub fn bson_now_text() -> (s: String) {
    bson::DateTime::now().to_string()
}

} // verus!

verus! {

/// An `OffsetDateTime` of the `time` crate has a year between -100000 and
/// 100000, so its Unix timestamp in nanoseconds is below 4 * 10^21 in magnitude.
pub const INSTANT_BOUND_NS: i128 = 4_000_000_000_000_000_000_000i128;

/// Calls `time::OffsetDateTime::now_utc()` and returns its
/// `unix_timestamp_nanos()`. The reading depends on the system clock; the
/// contract states only the range of the dates that the crate represents.
#[verifier::external_body]
pub fn time_now_nanos() -> (ns: i128)
    ensures
        -INSTANT_BOUND_NS < ns < INSTANT_BOUND_NS,
{
    time::OffsetDateTime::now_utc().unix_timestamp_nanos()
}

} // verus!
