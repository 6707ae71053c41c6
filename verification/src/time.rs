//! Spans of time.

use vstd::prelude::*;

verus! {

/// A span of time: whole seconds and the nanoseconds beyond them.
#[derive(Debug, Clone, Copy, PartialEq, Eq, Structural)]
pub struct Duration {
    /// Whole seconds.
    pub secs: u64,
    /// Nanoseconds beyond the whole seconds, below one second.
    pub nanos: u32,
}

impl Duration {
    /// The nanoseconds stay below one second.
    pub open spec fn wf(self) -> bool {
        self.nanos < 1_000_000_000
    }

    /// Length in nanoseconds.
    pub open spec fn total_nanos(self) -> nat {
        self.secs as nat * 1_000_000_000 + self.nanos as nat
    }

    /// Length in whole milliseconds.
    pub open spec fn millis(self) -> nat {
        self.total_nanos() / 1_000_000
    }

    /// The span of `s` seconds.
    pub open spec fn of_secs(s: u64) -> Duration {
        Duration { secs: s, nanos: 0 }
    }

    /// The span of `ms` milliseconds.
    pub open spec fn of_millis(ms: u64) -> Duration {
        Duration { secs: (ms / 1000) as u64, nanos: ((ms % 1000) * 1_000_000) as u32 }
    }

    /// The span of `s` seconds.
    pub fn from_secs(s: u64) -> (r: Duration)
        ensures
            r == Self::of_secs(s),
            r.wf(),
            r.total_nanos() == s as nat * 1_000_000_000,
    {
        Duration { secs: s, nanos: 0 }
    }

    /// The span of `ms` milliseconds.
    pub fn from_millis(ms: u64) -> (r: Duration)
        ensures
            r == Self::of_millis(ms),
            r.wf(),
            r.total_nanos() == ms as nat * 1_000_000,
    {
        Duration { secs: ms / 1000, nanos: ((ms % 1000) * 1_000_000) as u32 }
    }

    /// The span of `n` nanoseconds.
    pub open spec fn of_nanos(n: u64) -> Duration {
        Duration { secs: (n / 1_000_000_000) as u64, nanos: (n % 1_000_000_000) as u32 }
    }

    /// The span of `n` nanoseconds.
    pub fn from_nanos(n: u64) -> (r: Duration)
        ensures
            r == Self::of_nanos(n),
            r.wf(),
            r.total_nanos() == n as nat,
    {
        Duration { secs: n / 1_000_000_000, nanos: (n % 1_000_000_000) as u32 }
    }

    /// Length in nanoseconds, at most what 64 bits hold.
    pub open spec fn capped_nanos(self) -> u64 {
        if self.total_nanos() > u64::MAX {
            u64::MAX
        } else {
            self.total_nanos() as u64
        }
    }

    /// Length in nanoseconds, at most what 64 bits hold.
    pub fn to_nanos(&self) -> (r: u64)
        ensures
            r == self.capped_nanos(),
    {
        let n: u128 = self.secs as u128 * 1_000_000_000 + self.nanos as u128;
        if n > u64::MAX as u128 {
            u64::MAX
        } else {
            n as u64
        }
    }

    /// Whole seconds.
    pub fn as_secs(&self) -> (r: u64)
        ensures
            r == self.secs,
    {
        self.secs
    }

    /// Whole milliseconds.
    pub fn as_millis(&self) -> (r: u128)
        ensures
            r as nat == self.millis(),
    {
        self.secs as u128 * 1000 + (self.nanos / 1_000_000) as u128
    }
}

/// A span is as long as it says, in whichever unit it is given; one that is too long to count in
/// nanoseconds counts as the longest.
pub proof fn spans_are_as_long_as_they_say(n: u64, d: Duration)
    ensures
        Duration::of_secs(n).secs == n && Duration::of_secs(n).nanos == 0,
        Duration::of_millis(n).secs * 1000 + Duration::of_millis(n).nanos / 1_000_000 == n,
        Duration::of_millis(n).nanos % 1_000_000 == 0,
        Duration::of_millis(n).wf(),
        Duration::of_nanos(n).total_nanos() == n,
        Duration::of_nanos(n).wf(),
        Duration::of_nanos(n).capped_nanos() == n,
        Duration::of_millis(n).millis() == n,
        d.total_nanos() <= u64::MAX ==> d.capped_nanos() == d.total_nanos(),
        d.total_nanos() > u64::MAX ==> d.capped_nanos() == u64::MAX,
        d.wf() ==> d.millis() == d.secs * 1000 + d.nanos / 1_000_000,
{
    let m = Duration::of_millis(n);
    assert(m.total_nanos() == n as nat * 1_000_000);
    assert(d.total_nanos() == (d.secs as nat * 1000) * 1_000_000 + d.nanos as nat);
}

} // verus!
