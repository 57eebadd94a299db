//! Timestamps on the wire, instants in memory, and the header that carries a timestamp.
use vstd::prelude::*;
use crate::error::Error;

verus! {

/// The number of nanoseconds in a second.
pub const NANOS_PER_SECOND: u32 = 1_000_000_000;

/// A timestamp on the wire: seconds and nanoseconds since the epoch, the
/// nanoseconds in any range.
#[derive(Clone, Copy, Debug, PartialEq, Eq, Structural)]
pub struct Timestamp {
    pub seconds: i64,
    pub nanos: i32,
}

/// The header of a message: when it was made.
#[derive(Clone, Copy, Debug, PartialEq, Eq, Structural)]
pub struct Header {
    pub ts: Option<Timestamp>,
}

/// A point in time: whole seconds since the epoch and the nanoseconds into
/// the second that follows.
#[derive(Clone, Copy, Debug, PartialEq, Eq, Structural)]
pub struct Instant {
    pub secs: i64,
    pub nanos: u32,
}

/// The canonical form of a timestamp, as seconds and nanoseconds.
pub uninterp spec fn normal_form(seconds: i64, nanos: i32) -> (i64, i32);

/// Calls `prost_types::Timestamp::normalized` on the timestamp with these
/// fields and hands back the fields of the result. The contract names the
/// result and states two things that the function's text shows: the
/// nanoseconds of the result are in `0..1_000_000_000`, and a timestamp whose
/// nanoseconds are in that range already comes back unchanged.
#[verifier::external_body]
fn normalized(seconds: i64, nanos: i32) -> (out: (i64, i32))
    ensures
        out == normal_form(seconds, nanos),
        0 <= out.1 < NANOS_PER_SECOND,
        0 <= nanos < NANOS_PER_SECOND ==> out == (seconds, nanos),
{
    let t = prost_types::Timestamp { seconds, nanos }.normalized();
    (t.seconds, t.nanos)
}

impl Instant {
    /// The nanoseconds are less than a second.
    pub open spec fn wf(self) -> bool {
        self.nanos < NANOS_PER_SECOND
    }

    /// The instant as nanoseconds since the epoch.
    pub open spec fn as_nanos(self) -> int {
        self.secs * 1_000_000_000 + self.nanos
    }

    /// The instant that a normalized timestamp denotes.
    pub open spec fn of_normal(normal: (i64, i32)) -> Instant {
        Instant { secs: normal.0, nanos: normal.1 as u32 }
    }

    /// The canonical form of a wire timestamp: its own fields where the
    /// nanoseconds are within a second, else the named canonical form.
    pub open spec fn canonical(ts: Timestamp) -> (i64, i32) {
        if 0 <= ts.nanos < NANOS_PER_SECOND {
            (ts.seconds, ts.nanos)
        } else {
            normal_form(ts.seconds, ts.nanos)
        }
    }

    /// The instant that a wire timestamp denotes; none where the seconds of
    /// its canonical form are the least that 64 bits hold, which no instant
    /// stands for.
    pub open spec fn of_timestamp(ts: Timestamp) -> Option<Instant> {
        if Instant::canonical(ts).0 == i64::MIN {
            None
        } else {
            Some(Instant::of_normal(Instant::canonical(ts)))
        }
    }

    /// The instant of a normalized timestamp.
    pub fn from_normal(seconds: i64, nanos: i32) -> (instant: Instant)
        requires
            0 <= nanos < NANOS_PER_SECOND,
        ensures
            instant.wf(),
            instant == Instant::of_normal((seconds, nanos)),
            instant.as_nanos() == seconds * 1_000_000_000 + nanos,
    {
        Instant { secs: seconds, nanos: nanos as u32 }
    }

    /// The instant that a wire timestamp denotes, once in canonical form.
    /// Fails with `Error::Timestamp` exactly where the timestamp denotes none.
    pub fn from_timestamp(ts: Timestamp) -> (out: Result<Instant, Error>)
        ensures
            match out {
                Ok(instant) => instant.wf() && Instant::of_timestamp(ts) == Some(instant),
                Err(e) => e == Error::Timestamp && Instant::of_timestamp(ts).is_none(),
            },
    {
        let normal = normalized(ts.seconds, ts.nanos);
        if normal.0 == i64::MIN {
            Err(Error::Timestamp)
        } else {
            Ok(Instant::from_normal(normal.0, normal.1))
        }
    }

    /// Whether the instant `millis` milliseconds later can be represented.
    pub open spec fn can_add_millis(self, millis: u32) -> bool {
        self.secs + (self.nanos + millis * 1_000_000) / 1_000_000_000 <= i64::MAX
    }

    /// The instant `millis` milliseconds later, where it can be represented.
    pub open spec fn plus_millis(self, millis: u32) -> Instant {
        Instant {
            secs: (self.secs + (self.nanos + millis * 1_000_000) / 1_000_000_000) as i64,
            nanos: ((self.nanos + millis * 1_000_000) % 1_000_000_000) as u32,
        }
    }

    /// The instant `millis` milliseconds later. Fails with `Error::Timestamp`
    /// exactly where the seconds of that instant do not fit.
    pub fn checked_add_millis(self, millis: u32) -> (out: Result<Instant, Error>)
        requires
            self.wf(),
        ensures
            match out {
                Ok(later) => self.can_add_millis(millis) && later == self.plus_millis(millis)
                    && later.wf() && later.as_nanos() == self.as_nanos() + millis * 1_000_000,
                Err(e) => !self.can_add_millis(millis) && e == Error::Timestamp,
            },
    {
        let total: u64 = self.nanos as u64 + (millis as u64) * 1_000_000;
        let carry: u64 = total / 1_000_000_000;
        let nanos: u64 = total % 1_000_000_000;
        assert(carry <= 4_294_968);
        match self.secs.checked_add(carry as i64) {
            Some(secs) => Ok(Instant { secs, nanos: nanos as u32 }),
            None => Err(Error::Timestamp),
        }
    }
}

} // verus!
