//! Points in time, as the registry stamps them on its records.

use std::time::{Duration, SystemTime, UNIX_EPOCH};
use vstd::prelude::*;

verus! {

/// Number of nanoseconds in one second.
pub const NANOS_PER_SEC: u32 = 1_000_000_000;

/// A point in time, counted from the Unix epoch.
#[derive(Clone, Copy, Debug, PartialEq, Eq, Structural)]
pub struct Timestamp {
    pub secs_since_epoch: u64,
    pub nanos_since_epoch: u32,
}

impl Timestamp {
    /// The sub-second part stays below one second.
    pub open spec fn wf(self) -> bool {
        self.nanos_since_epoch < NANOS_PER_SEC
    }

    /// The point in time as a count of nanoseconds since the epoch.
    pub open spec fn nanos(self) -> int {
        self.secs_since_epoch as int * (NANOS_PER_SEC as int) + self.nanos_since_epoch as int
    }

    /// `self` is not later than `other`.
    pub open spec fn le(self, other: Timestamp) -> bool {
        self.nanos() <= other.nanos()
    }

    /// The reading of the system clock. A clock that stands before the epoch
    /// reads as the epoch itself.
    pub fn now() -> (t: Timestamp)
        ensures
            t.wf(),
    {
        let reading = SystemTime::now();
        let elapsed = match since_epoch(&reading) {
            Some(elapsed) => Some((elapsed.as_secs(), elapsed.subsec_nanos())),
            None => None,
        };
        Timestamp::from_elapsed(elapsed)
    }

    /// The point in time that a clock shows which is `elapsed` past the
    /// epoch, in whole seconds and nanoseconds; the epoch itself for a clock
    /// that stands before it and so has no such amount.
    pub open spec fn after_epoch(elapsed: Option<(u64, u32)>) -> Timestamp {
        match elapsed {
            Some((secs, nanos)) => Timestamp {
                secs_since_epoch: secs,
                nanos_since_epoch: nanos,
            },
            None => Timestamp { secs_since_epoch: 0, nanos_since_epoch: 0 },
        }
    }

    /// The point in time for what a clock says has passed since the epoch,
    /// as [`Timestamp::after_epoch`] gives it. It is well-formed where the
    /// nanoseconds are below one second, and always for `None`.
    pub fn from_elapsed(elapsed: Option<(u64, u32)>) -> (t: Timestamp)
        ensures
            t == Timestamp::after_epoch(elapsed),
            t.wf() <==> (elapsed matches Some((_, nanos)) ==> nanos < NANOS_PER_SEC),
    {
        match elapsed {
            Some((secs, nanos)) => Timestamp { secs_since_epoch: secs, nanos_since_epoch: nanos },
            None => Timestamp { secs_since_epoch: 0, nanos_since_epoch: 0 },
        }
    }
}

/// `std::time::SystemTime`, a reading of the system clock. Nothing is known
/// of what it holds.
#[verifier::external_type_specification]
#[verifier::external_body]
pub struct ExSystemTime(SystemTime);

/// `SystemTime::now` reads the system clock. The reading depends on the
/// machine and the moment, so nothing is claimed of it.
pub assume_specification[ SystemTime::now ]() -> (reading: SystemTime);

/// `SystemTime::duration_since`, taken against `UNIX_EPOCH`: the time that
/// has passed since the epoch, or `None` where the reading lies before it.
/// Nothing is claimed of the amount.
#[verifier::external_body]
fn since_epoch(reading: &SystemTime) -> (elapsed: Option<Duration>) {
    match reading.duration_since(UNIX_EPOCH) {
        Ok(elapsed) => Some(elapsed),
        Err(_) => None,
    }
}

/// `Duration::as_secs` gives the whole seconds of a duration. Nothing is
/// claimed of the number.
pub assume_specification[ Duration::as_secs ](elapsed: &Duration) -> (secs: u64);

/// `Duration::subsec_nanos` gives the part of a duration below one second, in
/// nanoseconds: by its documentation always less than one billion.
pub assume_specification[ Duration::subsec_nanos ](elapsed: &Duration) -> (nanos: u32)
    ensures
        nanos < NANOS_PER_SEC,
;

} // verus!
