//! A span of time held as whole seconds plus a sub-second nanosecond count.

use vstd::prelude::*;

verus! {

/// Nanoseconds in one second.
pub const NANOS_PER_SEC: u32 = 1_000_000_000;

/// A span of time: `secs` whole seconds and `nanos` nanoseconds, where
/// `nanos` is always below one second. Its view is the total number of
/// nanoseconds.
#[derive(Clone, Copy, Debug, PartialEq, Eq)]
pub struct Duration {
    secs: u64,
    nanos: u32,
}

impl View for Duration {
    type V = nat;

    open spec fn view(&self) -> nat {
        self.secs_spec() * 1_000_000_000 + self.nanos_spec()
    }
}

impl Duration {
    /// The whole seconds of the span.
    pub closed spec fn secs_spec(self) -> nat {
        self.secs as nat
    }

    /// The nanoseconds below one second.
    pub closed spec fn nanos_spec(self) -> nat {
        self.nanos as nat
    }

    #[verifier::type_invariant]
    closed spec fn normalized(self) -> bool {
        self.nanos < NANOS_PER_SEC
    }

    /// A span of `secs` seconds plus `nanos` nanoseconds; nanoseconds of one
    /// second or more carry into the seconds.
    pub fn new(secs: u64, nanos: u32) -> (r: Duration)
        requires
            secs + nanos / 1_000_000_000 <= u64::MAX,
        ensures
            r@ == secs * 1_000_000_000 + nanos,
            r.secs_spec() == secs + nanos / 1_000_000_000,
            r.nanos_spec() == nanos % 1_000_000_000,
    {
        let carry: u64 = (nanos / NANOS_PER_SEC) as u64;
        let rest: u32 = nanos % NANOS_PER_SEC;
        proof {
            assert(nanos == (nanos / 1_000_000_000) * 1_000_000_000 + nanos % 1_000_000_000) by (nonlinear_arith);
            assert((secs + carry) * 1_000_000_000 + rest == secs * 1_000_000_000 + nanos) by (nonlinear_arith)
                requires
                    nanos == carry * 1_000_000_000 + rest,
            ;
        }
        Duration { secs: secs + carry, nanos: rest }
    }

    /// The span of `secs` whole seconds.
    pub closed spec fn spec_from_secs(secs: u64) -> Duration {
        Duration { secs, nanos: 0 }
    }

    /// The span of `millis` whole milliseconds.
    pub closed spec fn spec_from_millis(millis: u64) -> Duration {
        Duration { secs: millis / 1000, nanos: ((millis % 1000) * 1_000_000) as u32 }
    }

    /// The longer of two spans, `b` when neither is longer.
    pub open spec fn spec_max(a: Duration, b: Duration) -> Duration {
        if b@ < a@ { a } else { b }
    }

    /// The span built from seconds has the expected length.
    pub proof fn lemma_from_secs(secs: u64)
        ensures
            Duration::spec_from_secs(secs)@ == secs * 1_000_000_000,
    {
    }

    /// The span built from milliseconds has the expected length.
    pub proof fn lemma_from_millis(millis: u64)
        ensures
            Duration::spec_from_millis(millis)@ == millis * 1_000_000,
    {
        let secs = millis / 1000;
        let sub = millis % 1000;
        assert(sub * 1_000_000 < 1_000_000_000);
        assert(millis == secs * 1000 + sub) by (nonlinear_arith)
            requires secs == millis / 1000, sub == millis % 1000;
        assert(millis * 1_000_000 == secs * 1_000_000_000 + sub * 1_000_000) by (nonlinear_arith)
            requires millis == secs * 1000 + sub;
    }

    /// A span of whole seconds.
    pub fn from_secs(secs: u64) -> (r: Duration)
        ensures
            r == Duration::spec_from_secs(secs),
            r@ == secs * 1_000_000_000,
    {
        Duration { secs, nanos: 0 }
    }

    /// A span of whole milliseconds.
    pub fn from_millis(millis: u64) -> (r: Duration)
        ensures
            r == Duration::spec_from_millis(millis),
            r@ == millis * 1_000_000,
    {
        let secs: u64 = millis / 1000;
        let sub: u64 = millis % 1000;
        proof {
            assert(millis == secs * 1000 + sub) by (nonlinear_arith)
                requires secs == millis / 1000, sub == millis % 1000;
            assert(millis * 1_000_000 == secs * 1_000_000_000 + sub * 1_000_000) by (nonlinear_arith)
                requires millis == secs * 1000 + sub;
        }
        Duration { secs, nanos: (sub as u32) * 1_000_000 }
    }

    /// The whole seconds of the span.
    pub fn as_secs(&self) -> (r: u64)
        ensures
            r == self.secs_spec(),
    {
        self.secs
    }

    /// The nanoseconds below one second.
    pub fn subsec_nanos(&self) -> (r: u32)
        ensures
            r == self.nanos_spec(),
            r < 1_000_000_000,
    {
        proof { use_type_invariant(self); }
        self.nanos
    }

    /// Whether `self` is strictly shorter than `other`.
    pub fn lt(&self, other: &Duration) -> (r: bool)
        ensures
            r == (self@ < other@),
    {
        proof {
            use_type_invariant(self);
            use_type_invariant(other);
            if self.secs < other.secs {
                assert(self.secs * 1_000_000_000 + self.nanos < other.secs * 1_000_000_000 + other.nanos) by (nonlinear_arith)
                    requires self.secs < other.secs, self.nanos < 1_000_000_000;
            } else if self.secs > other.secs {
                assert(self.secs * 1_000_000_000 + self.nanos > other.secs * 1_000_000_000 + other.nanos) by (nonlinear_arith)
                    requires self.secs > other.secs, other.nanos < 1_000_000_000;
            }
        }
        self.secs < other.secs || (self.secs == other.secs && self.nanos < other.nanos)
    }

    /// The longer of the two spans (`other` when they are equal).
    pub fn max(self, other: Duration) -> (r: Duration)
        ensures
            r == Duration::spec_max(self, other),
            other@ <= self@ ==> r == self,
    {
        proof {
            use_type_invariant(self);
            use_type_invariant(other);
            if self@ == other@ {
                assert(self.secs == other.secs) by (nonlinear_arith)
                    requires
                        self.secs * 1_000_000_000 + self.nanos == other.secs * 1_000_000_000 + other.nanos,
                        self.nanos < 1_000_000_000,
                        other.nanos < 1_000_000_000,
                ;
            }
        }
        if other.lt(&self) { self } else { other }
    }

    /// The sum of two spans; the total seconds must fit in a `u64`.
    pub fn add(self, other: Duration) -> (r: Duration)
        requires
            self@ + other@ < (u64::MAX + 1) * 1_000_000_000,
        ensures
            r@ == self@ + other@,
    {
        proof {
            use_type_invariant(self);
            use_type_invariant(other);
        }
        let nanos: u32 = self.nanos + other.nanos;
        if nanos >= NANOS_PER_SEC {
            proof {
                assert(self.secs + other.secs + 1 <= u64::MAX) by (nonlinear_arith)
                    requires
                        self.secs * 1_000_000_000 + self.nanos + other.secs * 1_000_000_000 + other.nanos
                            < (u64::MAX + 1) * 1_000_000_000,
                        self.nanos + other.nanos >= 1_000_000_000,
                ;
            }
            Duration { secs: self.secs + other.secs + 1, nanos: nanos - NANOS_PER_SEC }
        } else {
            proof {
                assert(self.secs + other.secs <= u64::MAX) by (nonlinear_arith)
                    requires
                        self.secs * 1_000_000_000 + self.nanos + other.secs * 1_000_000_000 + other.nanos
                            < (u64::MAX + 1) * 1_000_000_000,
                ;
            }
            Duration { secs: self.secs + other.secs, nanos }
        }
    }
}

} // verus!
