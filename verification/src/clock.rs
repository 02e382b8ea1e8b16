//! Time as the engine sees it: plain readings in whole seconds, and the two
//! clocks of the machine that such readings are taken from.

use std::time::{Duration, Instant, SystemTime, SystemTimeError};
use vstd::prelude::*;

verus! {

/// A reading of a clock, in whole seconds since that clock's origin.
///
/// Readings of one clock can be compared with each other; the engine never
/// compares readings of different clocks.
#[derive(Clone, Copy, Debug, PartialEq, Eq, Structural)]
pub struct Timestamp {
    pub secs: u64,
}

impl Timestamp {
    /// The seconds that passed from `earlier` to `self`, and zero when
    /// `earlier` does not lie in the past of `self`.
    pub open spec fn spec_elapsed_since(self, earlier: Timestamp) -> nat {
        if self.secs >= earlier.secs {
            (self.secs - earlier.secs) as nat
        } else {
            0
        }
    }

    /// The reading `secs` seconds after the clock's origin.
    pub fn from_secs(secs: u64) -> (reading: Timestamp)
        ensures
            reading.secs == secs,
    {
        Timestamp { secs }
    }

    /// The seconds that passed from `earlier` to `self`. A clock that was
    /// set back gives zero, never an underflow.
    pub fn elapsed_since(self, earlier: Timestamp) -> (elapsed: u64)
        ensures
            elapsed == self.spec_elapsed_since(earlier),
    {
        if self.secs >= earlier.secs {
            self.secs - earlier.secs
        } else {
            0
        }
    }
}

/// `std::time::Instant`, a point on the monotonic clock. Opaque here.
#[verifier::external_type_specification]
#[verifier::external_body]
pub struct ExInstant(Instant);

/// `std::time::SystemTime`, a point on the wall clock. Opaque here.
#[verifier::external_type_specification]
#[verifier::external_body]
pub struct ExSystemTime(SystemTime);

/// `std::time::SystemTimeError`, which says that one point of the wall clock
/// lies before another. Opaque here.
#[verifier::external_type_specification]
#[verifier::external_body]
pub struct ExSystemTimeError(SystemTimeError);

/// `Instant::now` reads the monotonic clock. Nothing is claimed of what it
/// returns.
pub assume_specification[ Instant::now ]() -> (now: Instant);

/// `Instant::saturating_duration_since` gives the time from `earlier` to
/// `later`, or zero if `earlier` is the later one. Nothing is claimed of
/// what it returns.
pub assume_specification[ Instant::saturating_duration_since ](
    later: &Instant,
    earlier: Instant,
) -> (elapsed: Duration);

/// `SystemTime::now` reads the wall clock. Nothing is claimed of what it
/// returns.
pub assume_specification[ SystemTime::now ]() -> (now: SystemTime);

/// `SystemTime::duration_since` gives the time from `earlier` to `later`,
/// or an error if `earlier` is the later one. Nothing is claimed of what it
/// returns.
pub assume_specification[ SystemTime::duration_since ](
    later: &SystemTime,
    earlier: SystemTime,
) -> (elapsed: Result<Duration, SystemTimeError>);

/// `Duration::as_secs` gives the whole seconds of a duration. Nothing is
/// claimed of what it returns.
pub assume_specification[ Duration::as_secs ](duration: &Duration) -> (secs: u64);

/// The constant `SystemTime::UNIX_EPOCH`, the origin of the wall clock.
#[verifier::external_body]
fn unix_epoch() -> (origin: SystemTime) {
    SystemTime::UNIX_EPOCH
}

/// The current point on the monotonic clock.
pub fn current_instant() -> (now: Instant) {
    Instant::now()
}

/// A monotonic clock that counts whole seconds from the moment it was
/// started.
#[derive(Clone, Copy, Debug)]
pub struct Clock {
    origin: Instant,
}

impl Clock {
    /// A clock whose origin is now.
    pub fn start() -> (clock: Clock) {
        Clock { origin: current_instant() }
    }

    /// The reading of this clock now.
    pub fn now(&self) -> (reading: Timestamp) {
        let now = current_instant();
        let elapsed = now.saturating_duration_since(self.origin);
        Timestamp::from_secs(elapsed.as_secs())
    }
}

/// The reading of the wall clock now: whole seconds since the Unix epoch,
/// and zero if the clock is set to a time before it.
pub fn system_now() -> (reading: Timestamp) {
    let now = SystemTime::now();
    let since_epoch = match now.duration_since(unix_epoch()) {
        Ok(elapsed) => Some(elapsed.as_secs()),
        Err(_) => None,
    };
    Timestamp::after_epoch(since_epoch)
}

impl Timestamp {
    /// The reading of a wall clock that stands `since_epoch` whole seconds
    /// after the Unix epoch. `None` says that the clock stands before the
    /// epoch, and reads zero.
    pub open spec fn spec_after_epoch(since_epoch: Option<u64>) -> Timestamp {
        match since_epoch {
            Some(secs) => Timestamp { secs },
            None => Timestamp { secs: 0 },
        }
    }

    /// The reading of a wall clock that stands `since_epoch` whole seconds
    /// after the Unix epoch, or before it where `since_epoch` is `None`.
    pub fn after_epoch(since_epoch: Option<u64>) -> (reading: Timestamp)
        ensures
            reading == Timestamp::spec_after_epoch(since_epoch),
    {
        match since_epoch {
            Some(secs) => Timestamp::from_secs(secs),
            None => Timestamp::from_secs(0),
        }
    }
}

} // verus!
