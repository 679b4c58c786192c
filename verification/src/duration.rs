//! Spans of time.
use vstd::prelude::*;

verus! {

/// Nanoseconds in a millisecond.
pub const NANOS_PER_MS: i128 = 1_000_000;

/// Milliseconds in a day.
pub const MS_PER_DAY: i64 = 86_400_000;

/// A span of time, possibly a negative one, of at most `i64::MAX` and at least
/// `i64::MIN` milliseconds.
#[derive(Clone, Copy, Debug, PartialEq, Eq, PartialOrd, Ord)]
pub struct Duration {
    nanos: i128,
}

/// `a` divided by `b`, without the part behind the point.
pub open spec fn whole(a: int, b: int) -> int {
    if a >= 0 {
        a / b
    } else {
        -((-a) / b)
    }
}

impl Duration {
    /// The span holds a number of nanoseconds within the bounds of the type.
    #[verifier::type_invariant]
    spec fn bounded(self) -> bool {
        i64::MIN * 1_000_000 <= self.nanos <= i64::MAX * 1_000_000
    }

    /// The span in nanoseconds.
    pub closed spec fn view(&self) -> int {
        self.nanos as int
    }

    /// A span of the given number of milliseconds.
    pub fn milliseconds(milliseconds: i64) -> (r: Duration)
        ensures
            r@ == milliseconds * 1_000_000,
    {
        Duration { nanos: milliseconds as i128 * NANOS_PER_MS }
    }

    /// A span of the given number of nanoseconds.
    pub fn nanoseconds(nanos: i64) -> (r: Duration)
        ensures
            r@ == nanos,
    {
        Duration { nanos: nanos as i128 }
    }

    /// A span of the given number of days.
    pub fn days(days: i64) -> (r: Duration)
        requires
            i64::MIN <= days * 86_400_000 <= i64::MAX,
        ensures
            r@ == days * 86_400_000 * 1_000_000,
    {
        Duration::milliseconds(days * MS_PER_DAY)
    }

    /// The number of nanoseconds.
    pub fn num_nanoseconds(&self) -> (r: i128)
        ensures
            r == self@,
            i64::MIN * 1_000_000 <= r <= i64::MAX * 1_000_000,
    {
        proof {
            use_type_invariant(self);
        }
        self.nanos
    }

    /// The number of whole milliseconds.
    pub fn num_milliseconds(&self) -> (r: i64)
        ensures
            r == whole(self@, 1_000_000),
    {
        proof {
            use_type_invariant(self);
        }
        if self.nanos >= 0 {
            (self.nanos / NANOS_PER_MS) as i64
        } else {
            (-((-self.nanos) / NANOS_PER_MS)) as i64
        }
    }

    /// Whether the span is negative.
    pub fn is_negative(&self) -> (r: bool)
        ensures
            r == (self@ < 0),
    {
        self.nanos < 0
    }
}

/// A span gives back what it was made of, and its whole milliseconds are those that fit into it,
/// counted towards zero.
pub proof fn law_spans_are_measured(
    ms: i64,
    of_ms: Duration,
    ns: i64,
    of_ns: Duration,
    days: i64,
    of_days: Duration,
    any: Duration,
    nanos: i128,
    millis: i64,
    negative: bool,
)
    requires
        call_ensures(Duration::milliseconds, (ms,), of_ms),
        call_ensures(Duration::nanoseconds, (ns,), of_ns),
        call_ensures(Duration::days, (days,), of_days),
        call_ensures(Duration::num_nanoseconds, (&any,), nanos),
        call_ensures(Duration::num_milliseconds, (&any,), millis),
        call_ensures(Duration::is_negative, (&any,), negative),
    ensures
        of_ms@ == ms * 1_000_000,
        of_ns@ == ns,
        of_days@ == days * 24 * 60 * 60 * 1000 * 1_000_000,
        nanos == any@,
        negative <==> any@ < 0,
        any@ >= 0 ==> millis * 1_000_000 <= any@ < (millis + 1) * 1_000_000,
        any@ <= 0 ==> (millis - 1) * 1_000_000 < any@ <= millis * 1_000_000,
{
}

/// A span of milliseconds has as many.
pub proof fn law_milliseconds_round_trip(ms: i64, span: Duration, back: i64)
    requires
        call_ensures(Duration::milliseconds, (ms,), span),
        call_ensures(Duration::num_milliseconds, (&span,), back),
    ensures
        back == ms,
{
}

} // verus!
