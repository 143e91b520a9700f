//! Points in time, as the engine compares them.

use vstd::prelude::*;

verus! {

/// An instant: whole seconds since the Unix epoch and the nanoseconds into
/// that second. Instants are ordered by seconds first, then by nanoseconds.
#[derive(Clone, Copy, Debug, PartialEq, Eq, Structural)]
pub struct Timestamp {
    pub secs: i64,
    pub nanos: u32,
}

impl Timestamp {
    /// `self` lies strictly before `other`.
    pub open spec fn before(self, other: Timestamp) -> bool {
        self.secs < other.secs || (self.secs == other.secs && self.nanos < other.nanos)
    }

    /// The later of two instants; `self` when they are equal.
    pub open spec fn later_of(self, other: Timestamp) -> Timestamp {
        if self.before(other) {
            other
        } else {
            self
        }
    }

    pub fn new(secs: i64, nanos: u32) -> (t: Timestamp)
        ensures
            t == (Timestamp { secs, nanos }),
    {
        Timestamp { secs, nanos }
    }

    pub fn is_before(&self, other: &Timestamp) -> (b: bool)
        ensures
            b == self.before(*other),
    {
        self.secs < other.secs || (self.secs == other.secs && self.nanos < other.nanos)
    }

    pub fn latest(self, other: Timestamp) -> (t: Timestamp)
        ensures
            t == self.later_of(other),
    {
        if self.is_before(&other) {
            other
        } else {
            self
        }
    }

    /// The nanoseconds from `self` to `later`; negative where `later` lies
    /// before `self`.
    pub open spec fn nanos_until(self, later: Timestamp) -> int {
        (later.secs - self.secs) * 1_000_000_000 + (later.nanos - self.nanos)
    }

    /// Whether more than `period_nanos` nanoseconds have passed from `self`
    /// to `later`.
    pub fn has_elapsed(&self, later: &Timestamp, period_nanos: u64) -> (b: bool)
        ensures
            b == (self.nanos_until(*later) > period_nanos),
    {
        let secs: i128 = later.secs as i128 - self.secs as i128;
        let nanos: i128 = later.nanos as i128 - self.nanos as i128;
        secs * 1_000_000_000 + nanos > period_nanos as i128
    }

    /// The current time of the system clock.
    pub fn now() -> Timestamp {
        system_time()
    }
}

/// Reads the clock with `chrono::Local::now` and keeps, of the instant it
/// returns, the seconds since the epoch (`timestamp`) and the nanoseconds
/// into the second (`timestamp_subsec_nanos`). Nothing is claimed of the
/// value: it is whatever the system clock says. On a machine whose clock
/// stands before 1970 `Local::now` panics; no argument can rule that out.
#[verifier::external_body]
fn system_time() -> Timestamp {
    let now = chrono::Local::now();
    Timestamp { secs: now.timestamp(), nanos: now.timestamp_subsec_nanos() }
}

/// Instants are in a total order: of two different instants exactly one
/// lies before the other, no instant lies before itself, and an instant
/// that lies before a second lies before all that the second lies before.
pub proof fn lemma_instants_are_totally_ordered(a: Timestamp, b: Timestamp, c: Timestamp)
    ensures
        !a.before(a),
        a != b ==> (a.before(b) <==> !b.before(a)),
        a.before(b) && b.before(c) ==> a.before(c),
        a.later_of(b) == a || a.later_of(b) == b,
        !a.later_of(b).before(a) && !a.later_of(b).before(b),
{
}

} // verus!
