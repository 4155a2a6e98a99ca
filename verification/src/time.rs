//! Spans of time in whole milliseconds.

use vstd::prelude::*;

verus! {

/// A span of time: whole seconds and the milliseconds beyond them.
#[derive(Debug, Clone, Copy, PartialEq, Eq, Structural)]
pub struct Duration {
    pub(crate) secs: u64,
    pub(crate) millis: u32,
}

impl Duration {
    #[verifier::type_invariant]
    pub(crate) open spec fn millis_make_no_second(self) -> bool {
        self.millis < 1000
    }

    /// The length of the span in milliseconds.
    pub open(crate) spec fn total_millis(self) -> nat {
        (self.secs * 1000 + self.millis) as nat
    }

    /// The whole seconds of the span.
    pub open(crate) spec fn whole_secs(self) -> u64 {
        self.secs
    }

    /// The span of `secs` seconds.
    pub open(crate) spec fn of_secs(secs: u64) -> Duration {
        Duration { secs, millis: 0 }
    }

    /// The span of `millis` milliseconds.
    pub open(crate) spec fn of_millis(millis: u64) -> Duration {
        Duration { secs: millis / 1000, millis: (millis % 1000) as u32 }
    }

    /// The span of `secs` seconds.
    pub fn from_secs(secs: u64) -> (res: Duration)
        ensures
            res == Duration::of_secs(secs),
            res.total_millis() == secs * 1000,
            res.whole_secs() == secs,
    {
        Duration { secs, millis: 0 }
    }

    /// The span of `millis` milliseconds.
    pub fn from_millis(millis: u64) -> (res: Duration)
        ensures
            res == Duration::of_millis(millis),
            res.total_millis() == millis,
            res.whole_secs() == millis / 1000,
    {
        Duration { secs: millis / 1000, millis: (millis % 1000) as u32 }
    }

    /// The whole seconds of the span.
    pub fn as_secs(&self) -> (res: u64)
        ensures
            res == self.whole_secs(),
            res == self.total_millis() / 1000,
    {
        proof {
            use_type_invariant(self);
        }
        self.secs
    }

    /// The length of the span in milliseconds.
    pub fn as_millis(&self) -> (res: u128)
        ensures
            res == self.total_millis(),
    {
        self.secs as u128 * 1000 + self.millis as u128
    }

    /// The longer of two spans.
    pub fn max(self, other: Duration) -> (res: Duration)
        ensures
            res == self || res == other,
            res.total_millis() >= self.total_millis(),
            res.total_millis() >= other.total_millis(),
    {
        if other.as_millis() > self.as_millis() {
            other
        } else {
            self
        }
    }
}

/// A span is as long as it was made, and its whole seconds are those in it.
pub proof fn lemma_spans_are_as_long_as_made(secs: u64, millis: u64)
    ensures
        Duration::of_millis(millis).total_millis() == millis,
        Duration::of_millis(millis).whole_secs() == millis / 1000,
        Duration::of_secs(secs).total_millis() == secs * 1000,
        Duration::of_secs(secs).whole_secs() == secs,
{
}

} // verus!
