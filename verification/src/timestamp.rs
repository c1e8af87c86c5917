//! Timestamps and the high-water mark of the timestamps seen so far.

use vstd::prelude::*;

verus! {

/// Number of low bits that hold the logical counter of a timestamp.
pub const TSO_PHYSICAL_SHIFT_BITS: u64 = 18;

/// A timestamp: physical milliseconds in the high bits, a logical counter in
/// the low `TSO_PHYSICAL_SHIFT_BITS` bits. Timestamps are ordered as the
/// integers they hold. The greatest value stands for "no upper bound".
#[derive(Clone, Copy, Debug, PartialEq, Eq, PartialOrd, Ord, Hash, Structural)]
pub struct TimeStamp(pub u64);

impl TimeStamp {
    /// The physical part of the timestamp, in milliseconds.
    pub open spec fn spec_physical(self) -> u64 {
        self.0 >> 18
    }

    /// The logical counter of the timestamp.
    pub open spec fn spec_logical(self) -> u64 {
        self.0 & 0x3_ffff
    }

    pub open spec fn spec_is_zero(self) -> bool {
        self.0 == 0
    }

    pub open spec fn spec_is_max(self) -> bool {
        self.0 == u64::MAX
    }

    pub fn new(ts: u64) -> (r: TimeStamp)
        ensures
            r.0 == ts,
    {
        TimeStamp(ts)
    }

    pub fn zero() -> (r: TimeStamp)
        ensures
            r.0 == 0,
    {
        TimeStamp(0)
    }

    pub fn max() -> (r: TimeStamp)
        ensures
            r.0 == u64::MAX,
    {
        TimeStamp(u64::MAX)
    }

    /// Builds a timestamp from its physical and its logical part. A logical
    /// part that fits the logical bits leaves the physical part as given.
    pub fn compose(physical: u64, logical: u64) -> (r: TimeStamp)
        requires
            physical <= 0x3fff_ffff_ffff,
            physical * 0x4_0000 + logical <= u64::MAX,
        ensures
            r.0 == physical * 0x4_0000 + logical,
            logical <= 0x3_ffff ==> r.spec_physical() == physical && r.spec_logical() == logical,
    {
        assert(physical << 18 == physical * 0x4_0000) by (bit_vector)
            requires
                physical <= 0x3fff_ffff_ffff,
        ;
        let r = TimeStamp((physical << 18) + logical);
        assert(logical <= 0x3_ffff ==> ((physical << 18) + logical) as u64 >> 18 == physical && (((
        physical << 18) + logical) as u64) & 0x3_ffff == logical) by (bit_vector)
            requires
                physical <= 0x3fff_ffff_ffff,
        ;
        r
    }

    #[verifier::when_used_as_spec(spec_physical)]
    pub fn physical(self) -> (r: u64)
        ensures
            r == self.spec_physical(),
            r <= 0x3fff_ffff_ffff,
    {
        let v: u64 = self.0;
        assert(v >> 18 <= 0x3fff_ffff_ffff) by (bit_vector);
        v >> 18
    }

    #[verifier::when_used_as_spec(spec_logical)]
    pub fn logical(self) -> (r: u64)
        ensures
            r == self.spec_logical(),
            r <= 0x3_ffff,
    {
        let v: u64 = self.0;
        assert(v & 0x3_ffff <= 0x3_ffff) by (bit_vector);
        v & 0x3_ffff
    }

    /// The timestamp that follows this one.
    pub fn next(self) -> (r: TimeStamp)
        requires
            !self.is_max(),
        ensures
            r.0 == self.0 + 1,
    {
        TimeStamp(self.0 + 1)
    }

    /// The timestamp that precedes this one.
    pub fn prev(self) -> (r: TimeStamp)
        requires
            !self.is_zero(),
        ensures
            r.0 == self.0 - 1,
    {
        TimeStamp(self.0 - 1)
    }

    #[verifier::when_used_as_spec(spec_is_zero)]
    pub fn is_zero(self) -> (r: bool)
        ensures
            r == self.spec_is_zero(),
    {
        self.0 == 0
    }

    #[verifier::when_used_as_spec(spec_is_max)]
    pub fn is_max(self) -> (r: bool)
        ensures
            r == self.spec_is_max(),
    {
        self.0 == u64::MAX
    }

    pub fn into_inner(self) -> (r: u64)
        ensures
            r == self.0,
    {
        self.0
    }
}

impl From<u64> for TimeStamp {
    fn from(ts: u64) -> (r: TimeStamp) {
        TimeStamp(ts)
    }
}

impl vstd::std_specs::convert::FromSpecImpl<u64> for TimeStamp {
    open spec fn obeys_from_spec() -> bool {
        true
    }

    open spec fn from_spec(ts: u64) -> TimeStamp {
        TimeStamp(ts)
    }
}

/// The physical part is the timestamp divided by two to the number of
/// logical bits, and grows with the timestamp.
pub proof fn lemma_physical_monotonic(a: TimeStamp, b: TimeStamp)
    requires
        a.0 <= b.0,
    ensures
        a.spec_physical() <= b.spec_physical(),
        a.spec_physical() == a.0 / 0x4_0000,
{
    let x = a.0;
    let y = b.0;
    assert(x >> 18 <= y >> 18 && x >> 18 == x / 0x4_0000) by (bit_vector)
        requires
            x <= y,
    ;
}

/// The watermark that a status check reports to the timestamp authority: the
/// greatest of the examined transaction's start timestamp and those of the
/// caller's two timestamps that are real clock values.
pub open spec fn spec_observed_max_ts(
    lock_ts: TimeStamp,
    caller_start_ts: TimeStamp,
    current_ts: TimeStamp,
) -> TimeStamp {
    let with_current = if !current_ts.is_max() && current_ts.0 > lock_ts.0 {
        current_ts
    } else {
        lock_ts
    };
    if !caller_start_ts.is_max() && caller_start_ts.0 > with_current.0 {
        caller_start_ts
    } else {
        with_current
    }
}

#[verifier::when_used_as_spec(spec_observed_max_ts)]
pub fn observed_max_ts(lock_ts: TimeStamp, caller_start_ts: TimeStamp, current_ts: TimeStamp) -> (r:
    TimeStamp)
    ensures
        r == spec_observed_max_ts(lock_ts, caller_start_ts, current_ts),
        r.0 >= lock_ts.0,
        !caller_start_ts.is_max() ==> r.0 >= caller_start_ts.0,
        !current_ts.is_max() ==> r.0 >= current_ts.0,
        r == lock_ts || r == caller_start_ts || r == current_ts,
{
    let mut new_max_ts = lock_ts;
    if !current_ts.is_max() && current_ts.0 > new_max_ts.0 {
        new_max_ts = current_ts;
    }
    if !caller_start_ts.is_max() && caller_start_ts.0 > new_max_ts.0 {
        new_max_ts = caller_start_ts;
    }
    new_max_ts
}

/// The high-water mark of all timestamps that status checks have seen. It
/// only ever rises.
pub struct TimestampAuthority {
    max_ts: TimeStamp,
}

impl TimestampAuthority {
    /// The current watermark.
    pub closed spec fn spec_max_ts(&self) -> TimeStamp {
        self.max_ts
    }

    /// The watermark after `ts` has been reported to an authority whose
    /// watermark was `before`: the greater of the two, and `before` where `ts`
    /// is the "no upper bound" value.
    pub open spec fn raised(before: TimeStamp, ts: TimeStamp) -> TimeStamp {
        if !ts.is_max() && ts.0 > before.0 {
            ts
        } else {
            before
        }
    }

    pub fn new(latest_ts: TimeStamp) -> (r: TimestampAuthority)
        ensures
            r.spec_max_ts() == latest_ts,
    {
        TimestampAuthority { max_ts: latest_ts }
    }

    #[verifier::when_used_as_spec(spec_max_ts)]
    pub fn max_ts(&self) -> (r: TimeStamp)
        ensures
            r == self.spec_max_ts(),
    {
        self.max_ts
    }

    /// Raises the watermark to `ts` if `ts` is a real clock value above it.
    pub fn update_max_ts(&mut self, ts: TimeStamp)
        ensures
            final(self).spec_max_ts() == Self::raised(old(self).spec_max_ts(), ts),
            final(self).spec_max_ts().0 >= old(self).spec_max_ts().0,
    {
        if !ts.is_max() && ts.0 > self.max_ts.0 {
            self.max_ts = ts;
        }
    }
}

} // verus!
