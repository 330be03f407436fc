//! Event time at one-second resolution.
//!
//! A `Timestamp` wraps a whole-second Unix epoch count and is totally
//! ordered by that number. A `Clock` reads the wall clock and clamps to the
//! last value it returned, so that the timestamps it hands out never go
//! backwards even when the wall clock does.

use vstd::prelude::*;

verus! {

/// A timestamp from the system time: seconds since the Unix epoch.
#[derive(Debug, Copy, Clone, PartialEq, Eq, PartialOrd, Ord, Structural)]
pub struct Timestamp(pub u64);

impl Timestamp {
    /// The wrapped count of seconds.
    pub open spec fn seconds(self) -> u64 {
        self.0
    }

    /// Total order on timestamps: `self` is at or before `other`.
    pub fn at_or_before(&self, other: &Timestamp) -> (r: bool)
        ensures
            r == (self.seconds() <= other.seconds()),
    {
        self.0 <= other.0
    }
}

/// Relies on `std::time::SystemTime::now` together with
/// `SystemTime::duration_since(UNIX_EPOCH)` and `Duration::as_secs`: the
/// current wall-clock time as whole seconds since the Unix epoch, or 0 when
/// the clock reads before the epoch. The result depends on the host clock,
/// so nothing is promised of it; `Clock::observe` makes the outcome
/// monotonic whatever comes back.
#[verifier::external_body]
fn wall_clock_seconds() -> u64 {
    match std::time::SystemTime::now().duration_since(std::time::UNIX_EPOCH) {
        Ok(d) => d.as_secs(),
        Err(_) => 0,
    }
}

/// One clamping step: the count returned for a wall-clock `reading` when
/// the previous returned count was `last`.
pub open spec fn clamped(last: u64, reading: u64) -> u64 {
    if reading >= last {
        reading
    } else {
        last
    }
}

/// The counts a clock returns for a sequence of wall-clock readings taken
/// one after the other, starting when the last returned count was `last`.
pub open spec fn clamped_outputs(last: u64, readings: Seq<u64>) -> Seq<u64>
    decreases readings.len(),
{
    if readings.len() == 0 {
        Seq::empty()
    } else {
        let t = clamped(last, readings[0]);
        seq![t] + clamped_outputs(t, readings.drop_first())
    }
}

/// A process-wide clock that never runs backwards: it remembers the last
/// timestamp it returned and clamps every new reading to it.
pub struct Clock {
    last: u64,
}

impl Clock {
    /// The last timestamp this clock returned; 0 before the first reading.
    pub closed spec fn last_returned(self) -> u64 {
        self.last
    }

    /// A fresh clock; its first reading is clamped only by the epoch.
    pub fn new() -> (r: Clock)
        ensures
            r.last_returned() == 0,
    {
        Clock { last: 0 }
    }

    /// Turn one wall-clock reading into a timestamp, clamping backwards
    /// jumps: the result is the reading or the previous timestamp, whichever
    /// is later, and becomes the new lower bound.
    pub fn observe(&mut self, reading: u64) -> (t: Timestamp)
        ensures
            t.seconds() == clamped(old(self).last_returned(), reading),
            t.seconds() >= old(self).last_returned(),
            final(self).last_returned() == t.seconds(),
    {
        if reading >= self.last {
            self.last = reading;
        }
        Timestamp(self.last)
    }

    /// The current time, at or after every timestamp this clock returned
    /// before.
    pub fn now(&mut self) -> (t: Timestamp)
        ensures
            t.seconds() >= old(self).last_returned(),
            final(self).last_returned() == t.seconds(),
    {
        let reading = wall_clock_seconds();
        self.observe(reading)
    }
}

/// Every count a clock returns is at or after the count it had returned
/// last when the readings began.
proof fn lemma_outputs_bounded(last: u64, readings: Seq<u64>)
    ensures
        forall|k: int|
            0 <= k < clamped_outputs(last, readings).len() ==> clamped_outputs(last, readings)[k]
                >= last,
    decreases readings.len(),
{
    if readings.len() > 0 {
        let t = clamped(last, readings[0]);
        let tail = clamped_outputs(t, readings.drop_first());
        lemma_outputs_bounded(t, readings.drop_first());
        assert forall|k: int|
            0 <= k < clamped_outputs(last, readings).len() implies clamped_outputs(
            last,
            readings,
        )[k] >= last by {
            if k > 0 {
                assert(clamped_outputs(last, readings)[k] == tail[k - 1]);
                assert(tail[k - 1] >= t);
            }
        }
    }
}

/// Timestamp monotonicity: whatever readings the wall clock delivers, of
/// any two timestamps the clock returns, the one returned earlier is at or
/// before the one returned later, because each reading is clamped to the
/// timestamp before it.
pub proof fn lemma_clock_monotone(last: u64, readings: Seq<u64>)
    ensures
        forall|i: int, j: int|
            0 <= i <= j < clamped_outputs(last, readings).len() ==> clamped_outputs(
                last,
                readings,
            )[i] <= clamped_outputs(last, readings)[j],
    decreases readings.len(),
{
    if readings.len() > 0 {
        let t = clamped(last, readings[0]);
        let tail = clamped_outputs(t, readings.drop_first());
        lemma_outputs_bounded(t, readings.drop_first());
        lemma_clock_monotone(t, readings.drop_first());
        assert forall|i: int, j: int|
            0 <= i <= j < clamped_outputs(last, readings).len() implies clamped_outputs(
            last,
            readings,
        )[i] <= clamped_outputs(last, readings)[j] by {
            if i > 0 {
                assert(clamped_outputs(last, readings)[i] == tail[i - 1]);
                assert(clamped_outputs(last, readings)[j] == tail[j - 1]);
            } else if j > 0 {
                assert(clamped_outputs(last, readings)[j] == tail[j - 1]);
                assert(tail[j - 1] >= t);
            }
        }
    }
}

} // verus!
