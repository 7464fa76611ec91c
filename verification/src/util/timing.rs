//! Readings of a monotonic clock and the time that lies between two of them.

use std::time::Duration;
use std::time::Instant;
use vstd::prelude::*;

verus! {

/// `std::time::Instant`: a point on the monotonic clock. Nothing in it can
/// be read but through the functions of `std::time`.
#[verifier::external_type_specification]
#[verifier::external_body]
pub struct ExInstant(Instant);

/// `Instant::now` reads the monotonic clock. The reading depends on when
/// the call is made, so nothing is stated of it.
pub assume_specification[ Instant::now ]() -> Instant;

/// `Instant::saturating_duration_since` gives the time from `earlier` to
/// `later`, or no time at all where `earlier` is the later one. It returns
/// for every pair of instants. The clock's readings are not modelled, so
/// nothing is stated of the span.
pub assume_specification[ Instant::saturating_duration_since ](
    later: &Instant,
    earlier: Instant,
) -> Duration;

/// `Duration::as_nanos` gives the whole span in nanoseconds. Spans are not
/// modelled, so nothing is stated of the number.
pub assume_specification[ Duration::as_nanos ](span: &Duration) -> u128;

/// The nanoseconds in a millisecond.
pub const NANOS_PER_MILLI: u128 = 1_000_000;

/// A reading of a monotonic clock: the nanoseconds since the clock's origin.
#[derive(Clone, Copy, Debug, PartialEq, Eq, Structural)]
pub struct Timestamp {
    pub nanos: u128,
}

/// The whole milliseconds from the reading `start` to the reading `end`,
/// both in nanoseconds. What is left of a millisecond is dropped, and an
/// `end` before `start` counts as no time at all.
pub open spec fn whole_millis(start: nat, end: nat) -> nat {
    if start <= end {
        ((end - start) / NANOS_PER_MILLI as int) as nat
    } else {
        0
    }
}

/// The two readings that bracket one run of a test case's logic.
#[derive(Clone, Copy, Debug, PartialEq, Eq, Structural)]
pub struct ExecutionRecord {
    pub start: Timestamp,
    pub end: Timestamp,
}

impl ExecutionRecord {
    /// The elapsed time of the run in whole milliseconds.
    pub open spec fn elapsed(self) -> nat {
        whole_millis(self.start.nanos as nat, self.end.nanos as nat)
    }

    /// Computes the elapsed time of the run in whole milliseconds.
    pub fn elapsed_millis(&self) -> (millis: u128)
        ensures
            millis == self.elapsed(),
    {
        if self.start.nanos <= self.end.nanos {
            (self.end.nanos - self.start.nanos) / NANOS_PER_MILLI
        } else {
            0
        }
    }
}

/// The elapsed time drops less than one millisecond of the time between
/// the two readings, and adds none.
pub proof fn elapsed_drops_less_than_a_milli(start: nat, end: nat)
    requires
        start <= end,
    ensures
        whole_millis(start, end) * NANOS_PER_MILLI <= end - start,
        end - start < (whole_millis(start, end) + 1) * NANOS_PER_MILLI,
{
}

/// The elapsed time depends on the two readings alone, and never shrinks
/// when the logic ends later or began earlier.
pub proof fn elapsed_grows_with_the_run(start: nat, end: nat, earlier_start: nat, later_end: nat)
    requires
        earlier_start <= start,
        end <= later_end,
    ensures
        whole_millis(start, end) <= whole_millis(earlier_start, later_end),
{
}

/// A monotonic clock that counts from the moment it was made.
pub struct Clock {
    origin: Instant,
}

impl Clock {
    /// A clock whose origin is now.
    pub fn new() -> Clock {
        Clock { origin: Instant::now() }
    }

    /// The present reading of the clock.
    pub fn now(&self) -> Timestamp {
        Timestamp { nanos: Instant::now().saturating_duration_since(self.origin).as_nanos() }
    }
}

} // verus!
