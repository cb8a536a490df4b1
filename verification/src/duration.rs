//! A plain time-span value used for socket timeouts and deadlines.

use vstd::prelude::*;

verus! {

/// A non-negative span of time: whole seconds plus a sub-second nanosecond
/// part below one billion.
#[derive(Clone, Copy, Debug, PartialEq, Eq, Structural)]
pub struct BtDuration {
    pub secs: u64,
    pub nanos: u32,
}

impl BtDuration {
    /// A well-formed span keeps its nanosecond part below one second.
    pub open spec fn wf(self) -> bool {
        self.nanos < 1_000_000_000
    }

    /// The whole span in nanoseconds.
    pub open spec fn as_nanos_spec(self) -> int {
        self.secs * 1_000_000_000 + self.nanos
    }

    /// Builds a span from seconds and a nanosecond remainder.
    pub fn new(secs: u64, nanos: u32) -> (d: BtDuration)
        requires
            nanos < 1_000_000_000,
        ensures
            d == (BtDuration { secs, nanos }),
            d.wf(),
    {
        BtDuration { secs, nanos }
    }

    /// Builds a span from milliseconds.
    pub fn from_millis(ms: u64) -> (d: BtDuration)
        ensures
            d.wf(),
            d.as_nanos_spec() == ms * 1_000_000,
    {
        let d = BtDuration { secs: ms / 1000, nanos: (ms % 1000) as u32 * 1_000_000 };
        proof {
            assert(d.as_nanos_spec() == ms * 1_000_000) by (nonlinear_arith)
                requires
                    d.secs == ms / 1000 && d.nanos == (ms % 1000) * 1_000_000,
            ;
        }
        d
    }

    /// True exactly when the span is zero.
    pub fn is_zero(&self) -> (b: bool)
        ensures
            b == (self.as_nanos_spec() == 0),
    {
        self.secs == 0 && self.nanos == 0
    }

    /// True exactly when `self` lasts at least as long as `other`.
    pub fn ge(&self, other: &BtDuration) -> (b: bool)
        requires
            self.wf(),
            other.wf(),
        ensures
            b == (self.as_nanos_spec() >= other.as_nanos_spec()),
    {
        proof {
            assert((self.secs > other.secs || (self.secs == other.secs && self.nanos
                >= other.nanos)) == (self.as_nanos_spec() >= other.as_nanos_spec()))
                by (nonlinear_arith)
                requires
                    self.nanos < 1_000_000_000,
                    other.nanos < 1_000_000_000,
            ;
        }
        self.secs > other.secs || (self.secs == other.secs && self.nanos >= other.nanos)
    }

    /// The difference `self - other`, defined when `other` is no longer than
    /// `self`.
    pub fn sub(&self, other: &BtDuration) -> (d: BtDuration)
        requires
            self.wf(),
            other.wf(),
            other.as_nanos_spec() <= self.as_nanos_spec(),
        ensures
            d.wf(),
            d.as_nanos_spec() == self.as_nanos_spec() - other.as_nanos_spec(),
    {
        proof {
            assert(self.secs >= other.secs) by (nonlinear_arith)
                requires
                    self.nanos < 1_000_000_000,
                    other.nanos < 1_000_000_000,
                    other.secs * 1_000_000_000 + other.nanos <= self.secs * 1_000_000_000
                        + self.nanos,
            ;
            assert(self.nanos < other.nanos ==> self.secs > other.secs) by (nonlinear_arith)
                requires
                    other.secs * 1_000_000_000 + other.nanos <= self.secs * 1_000_000_000
                        + self.nanos,
            ;
        }
        let d = if self.nanos >= other.nanos {
            BtDuration { secs: self.secs - other.secs, nanos: self.nanos - other.nanos }
        } else {
            BtDuration {
                secs: self.secs - other.secs - 1,
                nanos: 1_000_000_000 - other.nanos + self.nanos,
            }
        };
        proof {
            assert(d.as_nanos_spec() == self.as_nanos_spec() - other.as_nanos_spec())
                by (nonlinear_arith)
                requires
                    self.nanos < 1_000_000_000,
                    other.nanos < 1_000_000_000,
                    d == if self.nanos >= other.nanos {
                        BtDuration { secs: (self.secs - other.secs) as u64, nanos: (self.nanos - other.nanos) as u32 }
                    } else {
                        BtDuration {
                            secs: (self.secs - other.secs - 1) as u64,
                            nanos: (1_000_000_000 - other.nanos + self.nanos) as u32,
                        }
                    },
                    self.secs >= other.secs,
                    self.nanos < other.nanos ==> self.secs > other.secs,
            ;
        }
        d
    }
}

} // verus!
