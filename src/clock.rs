//! Day numbers: whole days elapsed since the Unix epoch.
use std::time::{Duration, SystemTime};
use vstd::prelude::*;

verus! {

/// Seconds in one day; day numbers carry no time zone offset.
pub const SECONDS_PER_DAY: u64 = 86400;

/// Why the current day could not be established.
#[derive(Debug, Clone, Copy, PartialEq, Eq, Structural)]
pub enum ClockError {
    /// The system clock reports a time before the Unix epoch.
    BeforeEpoch,
    /// The day count does not fit in a `u32` day number.
    DayOutOfRange,
}

/// The day number that `secs` seconds after the epoch falls on.
pub open spec fn day_of(secs: int) -> int {
    secs / SECONDS_PER_DAY as int
}

/// Converts seconds since the epoch into a day number, or reports that the
/// day does not fit in a `u32`.
pub fn day_from_secs(secs: u64) -> (r: Result<u32, ClockError>)
    ensures
        r is Err <==> day_of(secs as int) > u32::MAX,
        r matches Ok(d) ==> d == day_of(secs as int),
        r matches Err(e) ==> e == ClockError::DayOutOfRange,
{
    let days: u64 = secs / SECONDS_PER_DAY;
    if days > u32::MAX as u64 {
        Err(ClockError::DayOutOfRange)
    } else {
        Ok(days as u32)
    }
}

#[verifier::external_type_specification]
#[verifier::external_body]
pub struct ExSystemTime(SystemTime);

/// Relies on `SystemTime::now`: reads the system clock. Nothing is known of
/// the time it returns.
#[verifier::external_body]
fn system_now() -> (r: SystemTime) {
    SystemTime::now()
}

/// Relies on `SystemTime::duration_since` with `UNIX_EPOCH`: the time elapsed
/// since the epoch, or `None` where `t` lies before it.
#[verifier::external_body]
fn since_epoch(t: &SystemTime) -> (r: Option<Duration>) {
    t.duration_since(std::time::UNIX_EPOCH).ok()
}

/// Relies on `Duration::as_secs`: the whole seconds of a duration.
#[verifier::external_body]
fn whole_secs(d: &Duration) -> (r: u64) {
    d.as_secs()
}

/// The current day number, read from the system clock. A clock set before
/// the epoch, or a day past the `u32` range, is an error rather than a guess.
pub fn today_in_secs() -> (r: Result<u32, ClockError>)
    ensures
        r matches Ok(d) ==> exists|s: u64| #[trigger] day_of(s as int) == d,
{
    let now = system_now();
    match since_epoch(&now) {
        None => Err(ClockError::BeforeEpoch),
        Some(elapsed) => {
            let secs = whole_secs(&elapsed);
            day_from_secs(secs)
        },
    }
}

} // verus!
