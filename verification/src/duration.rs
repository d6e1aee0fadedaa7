//! Spans of time as plain seconds plus a sub-second nanosecond part, and the
//! clamped subtraction that remaining-lifetime queries are built on.

use vstd::prelude::*;

verus! {

/// A non-negative span of time: whole seconds and a nanosecond remainder.
#[derive(Clone, Copy, Debug, PartialEq, Eq)]
pub struct Duration {
    pub secs: u64,
    pub nanos: u32,
}

impl Duration {
    /// Well-formed: the nanosecond part never reaches a whole second.
    pub open spec fn wf(self) -> bool {
        self.nanos < 1_000_000_000
    }

    /// Total length in nanoseconds.
    pub open spec fn total_nanos(self) -> int {
        self.secs as int * 1_000_000_000 + self.nanos as int
    }

    pub open spec fn spec_zero() -> Duration {
        Duration { secs: 0, nanos: 0 }
    }

    /// The longest representable span, used for tokens that never expire.
    pub open spec fn spec_max() -> Duration {
        Duration { secs: u64::MAX, nanos: 999_999_999 }
    }

    pub open spec fn spec_is_zero(self) -> bool {
        self.secs == 0 && self.nanos == 0
    }

    pub fn zero() -> (r: Duration)
        ensures
            r == Self::spec_zero(),
    {
        Duration { secs: 0, nanos: 0 }
    }

    pub fn max_duration() -> (r: Duration)
        ensures
            r == Self::spec_max(),
    {
        Duration { secs: u64::MAX, nanos: 999_999_999 }
    }

    pub fn is_zero(&self) -> (r: bool)
        ensures
            r == self.spec_is_zero(),
    {
        self.secs == 0 && self.nanos == 0
    }

    /// Construct from whole seconds.
    pub fn from_secs(secs: u64) -> (r: Duration)
        ensures
            r == (Duration { secs, nanos: 0 }),
            r.wf(),
    {
        Duration { secs, nanos: 0 }
    }
}

/// The remaining part of `expires_in` once `elapsed` has passed, clamped to
/// zero: never negative, never a panic.
pub fn remaining_from(expires_in: Duration, elapsed: Duration) -> (r: Duration)
    requires
        expires_in.wf(),
        elapsed.wf(),
    ensures
        r.wf(),
        r.total_nanos() == if elapsed.total_nanos() >= expires_in.total_nanos() {
            0int
        } else {
            expires_in.total_nanos() - elapsed.total_nanos()
        },
        elapsed.spec_is_zero() ==> r == expires_in,
        elapsed.total_nanos() >= expires_in.total_nanos() ==> r == Duration::spec_zero(),
{
    if expires_in.secs > elapsed.secs || (expires_in.secs == elapsed.secs
        && expires_in.nanos > elapsed.nanos) {
        if expires_in.nanos >= elapsed.nanos {
            Duration {
                secs: expires_in.secs - elapsed.secs,
                nanos: expires_in.nanos - elapsed.nanos,
            }
        } else {
            Duration {
                secs: expires_in.secs - elapsed.secs - 1,
                nanos: 1_000_000_000 - elapsed.nanos + expires_in.nanos,
            }
        }
    } else {
        Duration { secs: 0, nanos: 0 }
    }
}

/// No well-formed duration is longer than the maximum duration, so a token
/// reporting the maximum outlasts any span a caller can measure.
pub proof fn lemma_max_duration_dominates(d: Duration)
    requires
        d.wf(),
    ensures
        d.total_nanos() <= Duration::spec_max().total_nanos(),
        d != Duration::spec_max() ==> d.total_nanos() < Duration::spec_max().total_nanos(),
{
}

} // verus!
