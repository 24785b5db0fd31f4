//! The system clock, read once per query and carried as a plain value so
//! that everything downstream is a pure function of the reading.

use chrono::Timelike;
use vstd::prelude::*;

verus! {

/// Unix seconds of the J2000.0 epoch, January 1, 2000, 12:00 UTC.
pub const J2000_UNIX_SECS: i64 = 946_728_000;

/// One reading of the clock: whole seconds since the J2000.0 epoch
/// (negative before it), and the UTC hour and minute of the same moment.
#[derive(Clone, Copy, PartialEq, Eq, Structural, Debug)]
pub struct Instant {
    pub secs_since_epoch: i64,
    pub hour: u8,
    pub minute: u8,
}

/// Reads the system clock as plain values: whole Unix seconds, and the
/// UTC hour and minute of the same moment.  Nothing is promised of the
/// moment read, only that the seconds are non-negative (a reading before
/// 1970 comes back as the Unix epoch) and that the hour and minute are a
/// valid time of day.  No input reaches a panicking path: the pre-1970
/// error and chrono's out-of-range `None` each have their own arm.
///
/// Relies on std's `SystemTime::now` / `duration_since(UNIX_EPOCH)` for
/// the reading (`Err` exactly when the clock is before 1970), and on
/// chrono: `DateTime::from_timestamp` (`None` exactly when the seconds
/// lie outside its representable years) and `Timelike::hour` (0..=23)
/// and `Timelike::minute` (0..=59) for the time of day.
#[verifier::external_body]
fn read_clock() -> (r: (i64, u8, u8))
    ensures
        0 <= r.0,
        r.1 < 24,
        r.2 < 60,
{
    let unix: i64 = match std::time::SystemTime::now().duration_since(std::time::UNIX_EPOCH) {
        Ok(d) => i64::try_from(d.as_secs()).unwrap_or(i64::MAX),
        Err(_) => 0,
    };
    match chrono::DateTime::from_timestamp(unix, 0) {
        Some(t) => (unix, t.hour() as u8, t.minute() as u8),
        None => (unix, 0, 0),
    }
}

impl Instant {
    /// A well-formed reading: the hour and minute are a time of day.
    pub open spec fn wf(self) -> bool {
        self.hour < 24 && self.minute < 60
    }

    /// Builds a clock reading from its parts, for callers that carry a
    /// fixed time of their own.
    pub fn new(secs_since_epoch: i64, hour: u8, minute: u8) -> (r: Instant)
        requires
            hour < 24,
            minute < 60,
        ensures
            r.wf(),
            r.secs_since_epoch == secs_since_epoch,
            r.hour == hour,
            r.minute == minute,
    {
        Instant { secs_since_epoch, hour, minute }
    }

    /// Reads the system clock once and rebases it from the Unix epoch to
    /// J2000.0 (the subtraction cannot underflow: the reading is
    /// non-negative).
    pub(crate) fn now() -> (r: Instant)
        ensures
            r.wf(),
    {
        let (unix, hour, minute) = read_clock();
        Instant { secs_since_epoch: unix - J2000_UNIX_SECS, hour, minute }
    }
}

} // verus!
