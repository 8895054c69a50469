use vstd::prelude::*;

use crate::websockets::time_control::{is_delta, MAX_DELTA_MS};

verus! {

/// Stored form of a duration: its milliseconds, cast to `u64`.
pub fn duration_i32(x: i64) -> (ms: u64)
    ensures
        ms == x as u64,
{
    x as u64
}

/// A stored number of milliseconds as a duration: one minute when it is too
/// large for a duration.
pub fn i32_duration(s: u64) -> (d: i64)
    ensures
        s <= MAX_DELTA_MS ==> d == s,
        s > MAX_DELTA_MS ==> d == 60_000,
        is_delta(d as int),
{
    if s <= 9_223_372_036_854_775_807u64 {
        s as i64
    } else {
        60_000
    }
}

/// Stored form of both clocks.
pub fn duration_i32_array(x: [i64; 2]) -> (ms: [u64; 2])
    ensures
        ms[0] == x[0] as u64,
        ms[1] == x[1] as u64,
{
    [duration_i32(x[0]), duration_i32(x[1])]
}

/// Both clocks from their stored form: one second for a value too large.
pub fn array_i32_duration(s: [u64; 2]) -> (d: [i64; 2])
    ensures
        forall|i: int| 0 <= i < 2 ==> (s[i] <= MAX_DELTA_MS ==> d[i] == s[i]) && (s[i] > MAX_DELTA_MS
            ==> d[i] == 1000),
{
    let mut durations: [i64; 2] = [1000, 1000];
    if s[0] <= 9_223_372_036_854_775_807u64 {
        durations = [s[0] as i64, durations[1]];
    }
    if s[1] <= 9_223_372_036_854_775_807u64 {
        durations = [durations[0], s[1] as i64];
    }
    durations
}

/// Stored form of a sub-variant: its index, or 4 when there is none.
pub fn serialize_subvariant(x: Option<u8>) -> (v: u8)
    ensures
        v == match x {
            Some(i) => i,
            None => 4u8,
        },
{
    match x {
        Some(i) => i,
        None => 4,
    }
}

} // verus!
