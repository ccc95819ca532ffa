//! Spans of time with nanosecond resolution.
use vstd::prelude::*;

verus! {

/// Nanoseconds in one second.
pub const NANOS_PER_SEC: u128 = 1_000_000_000;

/// Nanoseconds in one millisecond.
pub const NANOS_PER_MILLI: u128 = 1_000_000;

/// The longest representable span: `u64::MAX` seconds and 999,999,999 nanoseconds.
pub const MAX_NANOS: u128 = 18_446_744_073_709_551_615_999_999_999;

/// A non-negative span of time, at most [`MAX_NANOS`] nanoseconds long.
#[derive(Debug, Clone, Copy, PartialEq, Eq, PartialOrd, Ord, Hash)]
pub struct Duration {
    total: u128,
}

impl Duration {
    /// The length of the span in nanoseconds.
    pub closed spec fn nanos(self) -> nat {
        self.total as nat
    }

    #[verifier::type_invariant]
    spec fn fits(self) -> bool {
        self.total <= MAX_NANOS
    }

    /// Two spans of the same length are the same span.
    pub proof fn lemma_equal_by_nanos(a: Duration, b: Duration)
        requires
            a.nanos() == b.nanos(),
        ensures
            a == b,
    {
    }

    /// The span of `secs` seconds and `subsec_nanos` nanoseconds.
    pub fn from_parts(secs: u64, subsec_nanos: u32) -> (res: Duration)
        requires
            subsec_nanos < 1_000_000_000,
        ensures
            res.nanos() == secs * 1_000_000_000 + subsec_nanos,
            res.nanos() <= MAX_NANOS,
    {
        Duration { total: secs as u128 * NANOS_PER_SEC + subsec_nanos as u128 }
    }

    /// The empty span.
    pub fn zero() -> (res: Duration)
        ensures
            res.nanos() == 0,
    {
        Duration { total: 0 }
    }

    /// The span of `secs` seconds.
    pub fn from_secs(secs: u64) -> (res: Duration)
        ensures
            res.nanos() == secs * 1_000_000_000,
            res.nanos() <= MAX_NANOS,
    {
        Duration { total: secs as u128 * NANOS_PER_SEC }
    }

    /// The span of `millis` milliseconds.
    pub fn from_millis(millis: u64) -> (res: Duration)
        ensures
            res.nanos() == millis * 1_000_000,
            res.nanos() <= MAX_NANOS,
    {
        Duration { total: millis as u128 * NANOS_PER_MILLI }
    }

    /// The whole seconds of the span.
    pub fn as_secs(&self) -> (res: u64)
        ensures
            res == self.nanos() / 1_000_000_000,
    {
        proof {
            use_type_invariant(self);
        }
        (self.total / NANOS_PER_SEC) as u64
    }

    /// The nanoseconds of the span past its last whole second.
    pub fn subsec_nanos(&self) -> (res: u32)
        ensures
            res == self.nanos() % 1_000_000_000,
    {
        (self.total % NANOS_PER_SEC) as u32
    }

    /// Whether the span is empty.
    pub fn is_zero(&self) -> (res: bool)
        ensures
            res == (self.nanos() == 0),
    {
        self.total == 0
    }

    /// Whether the span is shorter than `other`.
    pub fn is_shorter_than(&self, other: &Duration) -> (res: bool)
        ensures
            res == (self.nanos() < other.nanos()),
    {
        self.total < other.total
    }

    /// The span, cut to `limit` where it is longer.
    pub fn at_most(self, limit: Duration) -> (res: Duration)
        ensures
            res == (if self.nanos() <= limit.nanos() {
                self
            } else {
                limit
            }),
    {
        if self.total <= limit.total {
            self
        } else {
            limit
        }
    }

    /// `factor` times the span, or the longest span where that is longer.
    pub fn saturating_mul(self, factor: u32) -> (res: Duration)
        ensures
            res.nanos() == (if self.nanos() * factor <= MAX_NANOS {
                self.nanos() * factor
            } else {
                MAX_NANOS as int
            }),
    {
        proof {
            use_type_invariant(&self);
        }
        let ghost t = self.total as int;
        assert(0 <= t * factor <= MAX_NANOS * 0xffff_ffff) by (nonlinear_arith)
            requires
                0 <= t <= MAX_NANOS,
                factor <= 0xffff_ffff,
        ;
        let product: u128 = self.total * (factor as u128);
        if product <= MAX_NANOS {
            Duration { total: product }
        } else {
            Duration { total: MAX_NANOS }
        }
    }

    /// The span divided into `parts`, rounded down to a nanosecond.
    pub fn divided_by(self, parts: u32) -> (res: Duration)
        requires
            parts > 0,
        ensures
            res.nanos() == self.nanos() as int / parts as int,
    {
        proof {
            use_type_invariant(&self);
        }
        let quotient: u128 = self.total / (parts as u128);
        assert(quotient <= self.total) by (nonlinear_arith)
            requires
                quotient == self.total / (parts as u128),
                parts > 0,
        ;
        Duration { total: quotient }
    }
}

} // verus!
