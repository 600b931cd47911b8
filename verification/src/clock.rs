//! The wall clock, read through `chrono`.

use vstd::prelude::*;

verus! {

/// Milliseconds since the Unix epoch, as `chrono::Utc::now().timestamp_millis()` gives
/// them. Nothing is claimed of the value: the clock may stand still or go back.
#[verifier::external_body]
pub(crate) fn now_millis() -> (now: i64) {
    chrono::Utc::now().timestamp_millis()
}

/// The milliseconds from `start` to `end`; zero where the clock went back.
pub open spec fn elapsed_ms(start: i64, end: i64) -> u64 {
    if end >= start {
        (end - start) as u64
    } else {
        0
    }
}

/// Computes [`elapsed_ms`].
pub fn elapsed(start: i64, end: i64) -> (d: u64)
    ensures
        d == elapsed_ms(start, end),
        end >= start ==> d == end - start,
{
    let diff: i128 = end as i128 - start as i128;
    if diff >= 0 {
        diff as u64
    } else {
        0
    }
}

} // verus!
