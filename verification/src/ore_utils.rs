//! Arithmetic on what the chain reports.

use vstd::prelude::*;

verus! {

/// Seconds that a miner has for one hash.
pub const HASH_WINDOW_SECS: i64 = 60;

/// `v`, or the nearest `i64` where `v` is none.
pub open spec fn saturate(v: int) -> int {
    if v < i64::MIN {
        i64::MIN as int
    } else if v > i64::MAX {
        i64::MAX as int
    } else {
        v
    }
}

/// The `i64` that has the bits of `v`.
pub open spec fn reinterpret(v: u64) -> int {
    if v > i64::MAX {
        v - 0x1_0000_0000_0000_0000
    } else {
        v as int
    }
}

/// Seconds left at `now` to a miner whose last hash was at `last_hash_at`
/// and who wants to be done `buffer_time` seconds early: `last_hash_at + 60
/// - buffer_time - now`, where each step stays at the end of the range of
/// `i64` rather than pass it.
pub open spec fn cutoff(last_hash_at: i64, buffer_time: u64, now: i64) -> int {
    saturate(saturate(saturate(last_hash_at + HASH_WINDOW_SECS) - reinterpret(buffer_time)) - now)
}

fn saturated(v: i128) -> (r: i64)
    ensures
        r == saturate(v as int),
{
    if v < i64::MIN as i128 {
        i64::MIN
    } else if v > i64::MAX as i128 {
        i64::MAX
    } else {
        v as i64
    }
}

fn reinterpreted(v: u64) -> (r: i64)
    ensures
        r == reinterpret(v),
{
    if v > i64::MAX as u64 {
        ((v - 0x8000_0000_0000_0000) as i64) + i64::MIN
    } else {
        v as i64
    }
}

/// Seconds left at `now` to a miner whose last hash was at `last_hash_at`.
pub fn get_cutoff(last_hash_at: i64, buffer_time: u64, now: i64) -> (left: i64)
    ensures
        left == cutoff(last_hash_at, buffer_time, now),
{
    let deadline: i64 = saturated(last_hash_at as i128 + HASH_WINDOW_SECS as i128);
    let early: i64 = saturated(deadline as i128 - reinterpreted(buffer_time) as i128);
    saturated(early as i128 - now as i128)
}

} // verus!
