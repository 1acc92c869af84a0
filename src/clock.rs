//! The wall clock, in whole milliseconds since the Unix epoch.
use vstd::prelude::*;

verus! {

/// Relies on time::get_time: the wall-clock time as seconds and nanoseconds
/// since the Unix epoch; `Timespec::new` asserts `0 <= nsec < 1_000_000_000`.
#[verifier::external_body]
fn wall_clock() -> (r: (i64, i32))
    ensures
        0 <= r.1 < 1_000_000_000,
{
    let now = time::get_time();
    (now.sec, now.nsec)
}

/// Whole milliseconds of a (seconds, nanoseconds) reading, saturated to the
/// bounds of `i64`.
pub open spec fn millis_of(sec: int, nsec: int) -> int {
    let ms = sec * 1000 + nsec / 1_000_000;
    if ms > i64::MAX {
        i64::MAX as int
    } else if ms < i64::MIN {
        i64::MIN as int
    } else {
        ms
    }
}

fn millis_from(sec: i64, nsec: i32) -> (r: i64)
    requires
        0 <= nsec < 1_000_000_000,
    ensures
        r == millis_of(sec as int, nsec as int),
{
    let ms: i128 = sec as i128 * 1000 + (nsec / 1_000_000) as i128;
    if ms > i64::MAX as i128 {
        i64::MAX
    } else if ms < i64::MIN as i128 {
        i64::MIN
    } else {
        ms as i64
    }
}

/// The current time in whole milliseconds since the Unix epoch.
pub(crate) fn curr_time() -> (r: i64) {
    let (sec, nsec) = wall_clock();
    millis_from(sec, nsec)
}

/// Upper bound on clock reads while waiting for the next millisecond.
pub const MAX_POLLS: u64 = 0xffff_ffff_ffff_ffff;

/// The clock reading when it is later than `last_timestamp`.
pub fn later_reading(reading: i64, last_timestamp: i64) -> (r: Option<i64>)
    ensures
        r == (if reading > last_timestamp { Some(reading) } else { None::<i64> }),
{
    if reading > last_timestamp {
        Some(reading)
    } else {
        None
    }
}

/// Polls the clock until it reads later than `last_timestamp`; `None` if it
/// still has not after `MAX_POLLS` further reads.
pub(crate) fn til_next_millis(last_timestamp: i64) -> (r: Option<i64>)
    ensures
        r matches Some(t) ==> t > last_timestamp,
{
    let mut polls: u64 = MAX_POLLS;
    let mut found = later_reading(curr_time(), last_timestamp);
    while found.is_none()
        invariant
            found matches Some(t) ==> t > last_timestamp,
        decreases polls,
    {
        if polls == 0 {
            return None;
        }
        polls = polls - 1;
        found = later_reading(curr_time(), last_timestamp);
    }
    found
}

} // verus!
