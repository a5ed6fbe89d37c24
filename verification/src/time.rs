//! Time as plain values: spans and points on a monotonic clock, both counted
//! in whole nanoseconds. The caller reads the clock; nothing here does.

use vstd::prelude::*;

verus! {

/// Nanoseconds in one second.
pub const NANOS_PER_SEC: u128 = 1_000_000_000;

/// Nanoseconds in one millisecond.
pub const NANOS_PER_MILLI: u128 = 1_000_000;

/// The longest span, and the latest point, that can be represented:
/// `u64::MAX` seconds and 999,999,999 nanoseconds.
pub const MAX_NANOS: u128 = 18_446_744_073_709_551_615_999_999_999;

/// A span of time.
#[derive(Debug, Clone, Copy, PartialEq, Eq, Structural)]
pub struct Duration {
    nanos: u128,
}

/// A point on a monotonic clock, as the time elapsed since the clock's origin.
#[derive(Debug, Clone, Copy, PartialEq, Eq, Structural)]
pub struct Instant {
    nanos: u128,
}

impl Duration {
    #[verifier::type_invariant]
    spec fn in_range(self) -> bool {
        self.nanos <= MAX_NANOS
    }

    /// The length of the span in nanoseconds.
    pub closed spec fn total_nanos(self) -> nat {
        self.nanos as nat
    }

    /// The span of `secs` seconds.
    pub closed spec fn seconds(secs: u64) -> Duration {
        Duration { nanos: (secs * NANOS_PER_SEC) as u128 }
    }

    /// The span of `millis` milliseconds.
    pub closed spec fn milliseconds(millis: u64) -> Duration {
        Duration { nanos: (millis * NANOS_PER_MILLI) as u128 }
    }

    /// A span of `secs` seconds.
    pub fn from_secs(secs: u64) -> (d: Duration)
        ensures
            d == Duration::seconds(secs),
            d.total_nanos() == secs * NANOS_PER_SEC,
    {
        assert(secs * NANOS_PER_SEC <= MAX_NANOS) by (nonlinear_arith)
            requires
                secs <= u64::MAX,
        ;
        Duration { nanos: secs as u128 * NANOS_PER_SEC }
    }

    /// A span of `millis` milliseconds.
    pub fn from_millis(millis: u64) -> (d: Duration)
        ensures
            d == Duration::milliseconds(millis),
            d.total_nanos() == millis * NANOS_PER_MILLI,
    {
        assert(millis * NANOS_PER_MILLI <= MAX_NANOS) by (nonlinear_arith)
            requires
                millis <= u64::MAX,
        ;
        Duration { nanos: millis as u128 * NANOS_PER_MILLI }
    }

    /// The spans of whole seconds and milliseconds last as long as their
    /// names say.
    pub proof fn lemma_lengths(n: u64)
        ensures
            Duration::seconds(n).total_nanos() == n * NANOS_PER_SEC,
            Duration::milliseconds(n).total_nanos() == n * NANOS_PER_MILLI,
    {
        assert(n * NANOS_PER_SEC <= MAX_NANOS) by (nonlinear_arith)
            requires
                n <= u64::MAX,
        ;
        assert(n * NANOS_PER_MILLI <= MAX_NANOS) by (nonlinear_arith)
            requires
                n <= u64::MAX,
        ;
    }

    /// A span of `nanos` nanoseconds.
    pub fn from_nanos(nanos: u64) -> (d: Duration)
        ensures
            d.total_nanos() == nanos,
    {
        Duration { nanos: nanos as u128 }
    }

    /// The whole seconds of the span.
    pub fn as_secs(&self) -> (secs: u64)
        ensures
            secs == self.total_nanos() / (NANOS_PER_SEC as nat),
    {
        proof {
            use_type_invariant(self);
        }
        (self.nanos / NANOS_PER_SEC) as u64
    }

    /// The part of the span beyond its whole seconds, in nanoseconds.
    pub fn subsec_nanos(&self) -> (nanos: u32)
        ensures
            nanos == self.total_nanos() % (NANOS_PER_SEC as nat),
    {
        (self.nanos % NANOS_PER_SEC) as u32
    }

    /// The span in nanoseconds.
    pub fn as_nanos(&self) -> (nanos: u128)
        ensures
            nanos == self.total_nanos(),
            nanos <= MAX_NANOS,
    {
        proof {
            use_type_invariant(self);
        }
        self.nanos
    }

    /// Whether the span is empty.
    pub fn is_zero(&self) -> (zero: bool)
        ensures
            zero == (self.total_nanos() == 0),
    {
        self.nanos == 0
    }
}

impl Instant {
    #[verifier::type_invariant]
    spec fn in_range(self) -> bool {
        self.nanos <= MAX_NANOS
    }

    /// Nanoseconds elapsed between the clock's origin and this point.
    pub closed spec fn nanos(self) -> nat {
        self.nanos as nat
    }

    /// The time remaining from `now` until `self`: their distance where
    /// `self` lies ahead, nothing where it has passed.
    pub open spec fn remaining_nanos(self, now: Instant) -> nat {
        if self.nanos() >= now.nanos() {
            (self.nanos() - now.nanos()) as nat
        } else {
            0
        }
    }

    /// The point that lies `elapsed` after the clock's origin.
    pub fn from_origin(elapsed: Duration) -> (t: Instant)
        ensures
            t.nanos() == elapsed.total_nanos(),
    {
        Instant { nanos: elapsed.as_nanos() }
    }

    /// The time elapsed between the clock's origin and this point.
    pub fn since_origin(&self) -> (elapsed: Duration)
        ensures
            elapsed.total_nanos() == self.nanos(),
    {
        proof {
            use_type_invariant(self);
        }
        Duration { nanos: self.nanos }
    }

    /// The point `span` after this one, unless it lies beyond the latest
    /// point that can be represented.
    pub fn checked_add(&self, span: Duration) -> (r: Option<Instant>)
        ensures
            self.nanos() + span.total_nanos() <= MAX_NANOS ==> r.is_some() && r.unwrap().nanos()
                == self.nanos() + span.total_nanos(),
            self.nanos() + span.total_nanos() > MAX_NANOS ==> r.is_none(),
    {
        proof {
            use_type_invariant(self);
        }
        let d = span.as_nanos();
        if d <= MAX_NANOS - self.nanos {
            Some(Instant { nanos: self.nanos + d })
        } else {
            None
        }
    }

    /// The point `span` after this one, where that point can be
    /// represented.
    pub closed spec fn later(self, span: Duration) -> Instant {
        Instant { nanos: (self.nanos + span.nanos) as u128 }
    }

    /// The point `span` after this one.
    pub fn plus(&self, span: Duration) -> (t: Instant)
        requires
            self.nanos() + span.total_nanos() <= MAX_NANOS,
        ensures
            t == self.later(span),
            t.nanos() == self.nanos() + span.total_nanos(),
    {
        let d = span.as_nanos();
        Instant { nanos: self.nanos + d }
    }

    /// The point `span` after this one lies that much later.
    pub proof fn lemma_later(self, span: Duration)
        requires
            self.nanos() + span.total_nanos() <= MAX_NANOS,
        ensures
            self.later(span).nanos() == self.nanos() + span.total_nanos(),
    {
    }

    /// The time from `earlier` to this point, or an empty span where
    /// `earlier` is in fact later.
    pub fn duration_since(&self, earlier: Instant) -> (d: Duration)
        ensures
            d.total_nanos() == self.remaining_nanos(earlier),
    {
        proof {
            use_type_invariant(self);
        }
        if self.nanos >= earlier.nanos {
            Duration { nanos: self.nanos - earlier.nanos }
        } else {
            Duration { nanos: 0 }
        }
    }
}

} // verus!
