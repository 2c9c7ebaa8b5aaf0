//! The monotonic clock that measures how long filters take to build.

use std::time::{Duration, Instant};
#[allow(unused_imports)]
use vstd::prelude::*;

verus! {

/// More nanoseconds than any duration has: a thousand million in each of 2^64 seconds.
pub const NANOS_LIMIT: u128 = 18_446_744_073_709_551_616_000_000_000;

/// More whole microseconds than any duration has.
pub const MICROS_LIMIT: u128 = 18_446_744_073_709_551_616_000_000;

/// `std::time::Instant`: a reading of the monotonic clock.
#[verifier::external_type_specification]
#[verifier::external_body]
pub struct ExInstant(Instant);

/// `Instant::now` reads the clock. Nothing is said of the reading.
pub assume_specification[ Instant::now ]() -> (now: Instant);

/// `Instant::elapsed` gives the time since `instant`. Nothing is said of how long that is.
pub assume_specification[ Instant::elapsed ](instant: &Instant) -> (elapsed: Duration);

/// `Duration::as_nanos` gives the nanoseconds in a duration, whose whole seconds are a `u64`.
pub assume_specification[ Duration::as_nanos ](duration: &Duration) -> (nanos: u128)
    ensures
        nanos < NANOS_LIMIT,
;

/// The time since an instant, which never goes back from one reading to the next.
pub struct Stopwatch {
    started: Instant,
    nanos: u128,
}

impl Stopwatch {
    /// The last reading, in nanoseconds.
    pub closed spec fn last(self) -> u128 {
        self.nanos
    }

    /// Every reading is one that a duration can have.
    pub closed spec fn wf(self) -> bool {
        self.nanos < NANOS_LIMIT
    }

    /// Returns a stopwatch that was started at the given instant and has not been read.
    pub fn since(started: Instant) -> (watch: Self)
        ensures
            watch.wf(),
            watch.last() == 0,
    {
        Stopwatch { started, nanos: 0 }
    }

    /// Reads the nanoseconds since the start, which are no fewer than at the last reading.
    pub fn read(&mut self) -> (nanos: u128)
        requires
            old(self).wf(),
        ensures
            final(self).wf(),
            nanos == final(self).last(),
            old(self).last() <= nanos < NANOS_LIMIT,
    {
        let nanos: u128 = self.started.elapsed().as_nanos();
        if nanos > self.nanos {
            self.nanos = nanos;
        }
        self.nanos
    }
}

} // verus!
