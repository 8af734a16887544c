//! The read timeout of the daemon's poll loop.

use vstd::prelude::*;

verus! {

/// The longest wait for input, in milliseconds.
pub const MAX_READ_TIMEOUT_MS: i32 = 500;

/// The milliseconds left until a deadline, given the milliseconds between
/// now and the deadline (zero once it passed), capped at `i32::MAX`.
pub fn timeout_millis_until(remaining_ms: u128) -> (t: i32)
    ensures
        t as int == if remaining_ms > i32::MAX { i32::MAX as int } else { remaining_ms as int },
{
    if remaining_ms > i32::MAX as u128 {
        i32::MAX
    } else {
        remaining_ms as i32
    }
}

/// How long to wait for input: at most 500 ms, and no longer than until the
/// end of the run or the deadline of a held-back left click, when set.
pub fn next_read_timeout(end_remaining_ms: Option<u128>, deadline_remaining_ms: Option<u128>) -> (t: i32)
    ensures
        0 <= t <= MAX_READ_TIMEOUT_MS,
        end_remaining_ms matches Some(e) ==> t <= e,
        deadline_remaining_ms matches Some(d) ==> t <= d,
        t == MAX_READ_TIMEOUT_MS || (end_remaining_ms matches Some(e) && t == e) || (
        deadline_remaining_ms matches Some(d) && t == d),
{
    let mut timeout: i32 = MAX_READ_TIMEOUT_MS;
    match end_remaining_ms {
        Some(e) => {
            let u = timeout_millis_until(e);
            if u < timeout {
                timeout = u;
            }
        },
        None => {},
    }
    match deadline_remaining_ms {
        Some(d) => {
            let u = timeout_millis_until(d);
            if u < timeout {
                timeout = u;
            }
        },
        None => {},
    }
    timeout
}

} // verus!
