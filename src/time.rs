use vstd::prelude::*;

verus! {

/// An absolute instant in UTC: whole seconds since the Unix epoch and the
/// nanoseconds past that second (a leap second carries them past one billion).
#[derive(Clone, Copy, Debug, PartialEq, Eq, Structural, Hash)]
pub struct Timestamp {
    pub secs: i64,
    pub nanos: u32,
}

/// A wall-clock time of day, with no date and no time zone: seconds since
/// midnight and the nanoseconds past that second.
#[derive(Clone, Copy, Debug, PartialEq, Eq, Structural, Hash)]
pub struct TimeOfDay {
    pub secs: u32,
    pub frac: u32,
}

impl Timestamp {
    /// `self` is the same instant as `other` or an earlier one.
    pub open spec fn spec_le(self, other: Timestamp) -> bool {
        self.secs < other.secs || (self.secs == other.secs && self.nanos <= other.nanos)
    }

    /// The later of two instants.
    pub open spec fn spec_later(self, other: Timestamp) -> Timestamp {
        if self.spec_le(other) {
            other
        } else {
            self
        }
    }

    pub fn new(secs: i64, nanos: u32) -> (r: Timestamp)
        ensures
            r.secs == secs,
            r.nanos == nanos,
    {
        Timestamp { secs, nanos }
    }

    /// Key under which instants sort in time order (tuples order
    /// lexicographically).
    pub fn sort_key(&self) -> (r: (i64, u32))
        ensures
            r == (self.secs, self.nanos),
    {
        (self.secs, self.nanos)
    }

    pub fn le(&self, other: &Timestamp) -> (r: bool)
        ensures
            r == self.spec_le(*other),
    {
        self.secs < other.secs || (self.secs == other.secs && self.nanos <= other.nanos)
    }

    pub fn later(&self, other: &Timestamp) -> (r: Timestamp)
        ensures
            r == self.spec_later(*other),
            self.spec_le(r),
            other.spec_le(r),
    {
        if self.le(other) {
            *other
        } else {
            *self
        }
    }
}

impl TimeOfDay {
    pub fn new(secs: u32, frac: u32) -> (r: TimeOfDay)
        ensures
            r.secs == secs,
            r.frac == frac,
    {
        TimeOfDay { secs, frac }
    }
}

} // verus!
