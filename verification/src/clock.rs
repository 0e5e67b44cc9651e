//! Plain-value time: readings of a monotonic clock and lengths of time, both
//! counted in whole nanoseconds and both confined to the range of a
//! seconds-plus-nanoseconds duration with 64-bit seconds.

use vstd::prelude::*;

verus! {

/// Nanoseconds in one second.
pub const NANOS_PER_SEC: u128 = 1_000_000_000;

/// Seconds in one minute.
pub const SECS_PER_MINUTE: u64 = 60;

/// Largest number of nanoseconds a [`Span`] or a [`Moment`] can hold:
/// `u64::MAX` whole seconds and 999 999 999 nanoseconds.
pub const MAX_NANOS: u128 = 18_446_744_073_709_551_615_999_999_999;

/// Length in nanoseconds of `minutes` whole minutes.
pub open spec fn minutes_to_nanos(minutes: nat) -> nat {
    minutes * 60 * 1_000_000_000
}

/// Whole seconds contained in `nanos` nanoseconds.
pub open spec fn whole_secs(nanos: nat) -> nat {
    nanos / 1_000_000_000
}

/// `later - earlier`, floored at zero.
pub open spec fn saturating_diff(later: nat, earlier: nat) -> nat {
    if later >= earlier {
        (later - earlier) as nat
    } else {
        0
    }
}

/// A length of time. Its view is the number of nanoseconds it lasts.
#[derive(Clone, Copy, Debug, PartialEq, Eq)]
pub struct Span {
    nanos: u128,
}

/// A reading of the daemon's monotonic clock. Its view is the number of
/// nanoseconds elapsed since the clock's origin.
#[derive(Clone, Copy, Debug, PartialEq, Eq)]
pub struct Moment {
    nanos: u128,
}

impl View for Span {
    type V = nat;

    closed spec fn view(&self) -> nat {
        self.nanos as nat
    }
}

impl View for Moment {
    type V = nat;

    closed spec fn view(&self) -> nat {
        self.nanos as nat
    }
}

impl Span {
    #[verifier::type_invariant]
    spec fn in_range(self) -> bool {
        self.nanos <= MAX_NANOS
    }

    /// The empty span.
    pub fn zero() -> (span: Span)
        ensures
            span@ == 0,
    {
        Span { nanos: 0 }
    }

    /// The span of `nanos` nanoseconds, if it is representable.
    pub fn from_nanos(nanos: u128) -> (span: Option<Span>)
        ensures
            span is Some <==> nanos <= MAX_NANOS,
            span is Some ==> span->0@ == nanos,
    {
        if nanos <= MAX_NANOS {
            Some(Span { nanos })
        } else {
            None
        }
    }

    /// The span of `secs` whole seconds.
    pub fn from_secs(secs: u64) -> (span: Span)
        ensures
            span@ == secs * NANOS_PER_SEC,
    {
        let wide: u128 = secs as u128;
        Span { nanos: wide * NANOS_PER_SEC }
    }

    /// The span of `minutes` whole minutes, provided its length in seconds
    /// fits in 64 bits.
    pub fn from_minutes(minutes: u64) -> (span: Option<Span>)
        ensures
            span is Some <==> minutes * SECS_PER_MINUTE <= u64::MAX,
            span is Some ==> span->0@ == minutes_to_nanos(minutes as nat),
    {
        match minutes.checked_mul(SECS_PER_MINUTE) {
            Some(secs) => {
                let span = Span::from_secs(secs);
                assert(secs * NANOS_PER_SEC == minutes_to_nanos(minutes as nat)) by (nonlinear_arith)
                    requires
                        secs == minutes * 60,
                        NANOS_PER_SEC == 1_000_000_000,
                ;
                Some(span)
            },
            None => None,
        }
    }

    /// The span made of `secs` whole seconds and `subsec_nanos` further
    /// nanoseconds, if it is representable.
    pub fn from_parts(secs: u64, subsec_nanos: u32) -> (span: Option<Span>)
        ensures
            span is Some <==> secs * NANOS_PER_SEC + subsec_nanos <= MAX_NANOS,
            span is Some ==> span->0@ == secs * NANOS_PER_SEC + subsec_nanos,
    {
        let wide: u128 = secs as u128;
        let extra: u128 = subsec_nanos as u128;
        Span::from_nanos(wide * NANOS_PER_SEC + extra)
    }

    /// Length in nanoseconds.
    pub fn as_nanos(&self) -> (nanos: u128)
        ensures
            nanos == self@,
            nanos <= MAX_NANOS,
    {
        proof {
            use_type_invariant(self);
        }
        self.nanos
    }

    /// Number of whole seconds in the span; the remainder is dropped.
    pub fn as_secs(&self) -> (secs: u64)
        ensures
            secs == whole_secs(self@),
    {
        proof {
            use_type_invariant(self);
        }
        let secs: u128 = self.nanos / NANOS_PER_SEC;
        secs as u64
    }
}

impl Moment {
    #[verifier::type_invariant]
    spec fn in_range(self) -> bool {
        self.nanos <= MAX_NANOS
    }

    /// The clock's origin.
    pub fn origin() -> (moment: Moment)
        ensures
            moment@ == 0,
    {
        Moment { nanos: 0 }
    }

    /// The moment `nanos` nanoseconds after the origin, if it is representable.
    pub fn from_nanos(nanos: u128) -> (moment: Option<Moment>)
        ensures
            moment is Some <==> nanos <= MAX_NANOS,
            moment is Some ==> moment->0@ == nanos,
    {
        if nanos <= MAX_NANOS {
            Some(Moment { nanos })
        } else {
            None
        }
    }

    /// The moment `secs` whole seconds after the origin.
    pub fn from_secs(secs: u64) -> (moment: Moment)
        ensures
            moment@ == secs * NANOS_PER_SEC,
    {
        let wide: u128 = secs as u128;
        Moment { nanos: wide * NANOS_PER_SEC }
    }

    /// The moment a given span after the origin.
    pub fn after_origin(elapsed: Span) -> (moment: Moment)
        ensures
            moment@ == elapsed@,
    {
        Moment { nanos: elapsed.as_nanos() }
    }

    /// Nanoseconds elapsed since the origin.
    pub fn as_nanos(&self) -> (nanos: u128)
        ensures
            nanos == self@,
            nanos <= MAX_NANOS,
    {
        proof {
            use_type_invariant(self);
        }
        self.nanos
    }

    /// The moment `span` later, if it is representable.
    pub fn checked_add(&self, span: Span) -> (sum: Option<Moment>)
        ensures
            sum is Some <==> self@ + span@ <= MAX_NANOS,
            sum is Some ==> sum->0@ == self@ + span@,
    {
        Moment::from_nanos(self.as_nanos() + span.as_nanos())
    }

    /// Time from `earlier` to `self`, or the empty span when `earlier` is in
    /// fact the later of the two.
    pub fn saturating_duration_since(&self, earlier: Moment) -> (span: Span)
        ensures
            span@ == saturating_diff(self@, earlier@),
    {
        let end: u128 = self.as_nanos();
        let start: u128 = earlier.as_nanos();
        if end >= start {
            Span { nanos: end - start }
        } else {
            Span { nanos: 0 }
        }
    }

    /// Whether this reading is at or past `deadline`.
    pub fn has_reached(&self, deadline: Moment) -> (reached: bool)
        ensures
            reached == (self@ >= deadline@),
    {
        self.as_nanos() >= deadline.as_nanos()
    }
}

} // verus!
