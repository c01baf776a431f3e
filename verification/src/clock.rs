//! Time readings for the phases of a dispatch.

use std::time::{Duration, Instant, SystemTime, SystemTimeError};
use vstd::prelude::*;

verus! {

/// `std::time::Instant`, made known to the verifier as an opaque type.
#[verifier::external_type_specification]
#[verifier::external_body]
pub struct ExInstant(Instant);

/// `Instant::now`: the present reading of the monotonic clock.
///
/// Trusted, and nothing is claimed of the reading: it depends on when the
/// call is made.
pub assume_specification[ Instant::now ]() -> (now: Instant);

/// `Instant::elapsed`: the time that has passed since `instant`.
///
/// Trusted, and nothing is claimed of the result: it depends on when the
/// call is made. The standard library gives zero rather than fail where the
/// clock reads earlier than `instant`.
pub assume_specification[ Instant::elapsed ](instant: &Instant) -> (elapsed: Duration);

/// `Duration::as_nanos`: a duration in whole nanoseconds.
///
/// Trusted, and nothing is claimed of the number: a `Duration` is opaque
/// here.
pub assume_specification[ Duration::as_nanos ](duration: &Duration) -> (nanos: u128);

/// `std::time::SystemTime`, made known to the verifier as an opaque type.
#[verifier::external_type_specification]
#[verifier::external_body]
pub struct ExSystemTime(SystemTime);

/// `std::time::SystemTimeError`, made known to the verifier as an opaque type.
#[verifier::external_type_specification]
#[verifier::external_body]
pub struct ExSystemTimeError(SystemTimeError);

/// `SystemTime::now`: the present reading of the system clock.
///
/// Trusted, and nothing is claimed of the reading: it depends on when the
/// call is made and on how the clock is set.
pub assume_specification[ SystemTime::now ]() -> (now: SystemTime);

/// `SystemTime::duration_since`: how far `time` lies after `earlier`, or an
/// error where it lies before.
///
/// Trusted, and nothing is claimed of the result: a `SystemTime` is opaque
/// here.
pub assume_specification[ SystemTime::duration_since ](
    time: &SystemTime,
    earlier: SystemTime,
) -> (since: Result<Duration, SystemTimeError>);

/// `Duration::as_secs`: the whole seconds of a duration.
///
/// Trusted, and nothing is claimed of the number: a `Duration` is opaque
/// here.
pub assume_specification[ Duration::as_secs ](duration: &Duration) -> (secs: u64);

/// `Duration::subsec_nanos`: the part of a duration below one second, in
/// nanoseconds.
///
/// Trusted: the standard library documents that the number is below one
/// billion.
pub assume_specification[ Duration::subsec_nanos ](duration: &Duration) -> (nanos: u32)
    ensures
        nanos < 1_000_000_000,
;

/// `std::time::UNIX_EPOCH`: the start of 1970 in UTC, as a system time.
///
/// Trusted, and nothing is claimed of the value: a `SystemTime` is opaque
/// here.
#[verifier::external_body]
pub(crate) fn unix_epoch() -> SystemTime {
    std::time::UNIX_EPOCH
}

/// Reads the system clock: the whole seconds since the start of 1970 in UTC
/// and the nanoseconds of the second under way, or `None` where the clock is
/// set before 1970.
pub fn unix_time_now() -> (reading: Option<(u64, u32)>)
    ensures
        reading matches Some(time) ==> time.1 < 1_000_000_000,
{
    match SystemTime::now().duration_since(unix_epoch()) {
        Ok(since) => Some((since.as_secs(), since.subsec_nanos())),
        Err(_) => None,
    }
}

/// A stopwatch whose readings never go down.
///
/// Each reading is the time since the stopwatch was started, in nanoseconds.
/// A reading lower than the one before it is raised to the one before it, so
/// that differences between readings taken in order are never negative,
/// whatever the clock underneath does.
#[derive(Clone, Copy)]
pub struct Stopwatch {
    origin: Instant,
    last: u128,
}

impl Stopwatch {
    /// The latest reading taken, or zero where none was.
    pub closed spec fn last_reading(&self) -> u128 {
        self.last
    }

    /// Starts a stopwatch at the present moment.
    pub fn start() -> (watch: Self)
        ensures
            watch.last_reading() == 0,
    {
        Stopwatch { origin: Instant::now(), last: 0 }
    }

    /// The reading that follows `last` when the clock shows `reading`: the
    /// clock's, unless that would go down.
    pub open spec fn spec_advance(last: u128, reading: u128) -> u128 {
        if reading > last {
            reading
        } else {
            last
        }
    }

    /// Takes `reading` as what the clock shows now. The stopwatch's reading
    /// becomes `reading`, or stays what it was where `reading` is lower.
    pub fn advance(&mut self, reading: u128) -> (nanos: u128)
        ensures
            nanos == Self::spec_advance(old(self).last_reading(), reading),
            final(self).last_reading() == nanos,
    {
        if reading > self.last {
            self.last = reading;
        }
        self.last
    }

    /// Takes a reading: the nanoseconds since the start, and never less than
    /// the reading before.
    pub fn elapsed(&mut self) -> (nanos: u128)
        ensures
            nanos >= old(self).last_reading(),
            final(self).last_reading() == nanos,
    {
        let reading = self.origin.elapsed().as_nanos();
        self.advance(reading)
    }
}

} // verus!
