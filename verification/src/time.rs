//! Spans and points of time, counted in nanoseconds.
use rand::Rng;
use vstd::prelude::*;

verus! {

/// Nanoseconds in a second.
pub const NANOS_PER_SEC: u128 = 1_000_000_000;

/// The longest span: `u64::MAX` seconds and 999 999 999 nanoseconds.
pub const MAX_SPAN_NANOS: u128 = 18_446_744_073_709_551_615_999_999_999;

/// How far from its origin a point of time may lie.
pub const INSTANT_LIMIT: i128 = 73_786_976_294_838_206_464_000_000_000;

/// A span of time.
#[derive(Debug, Clone, Copy, PartialEq, Eq, Structural)]
pub struct Duration {
    nanos: u128,
}

impl View for Duration {
    type V = nat;

    closed spec fn view(&self) -> nat {
        self.nanos as nat
    }
}

/// The length in nanoseconds of a number of seconds.
pub open spec fn seconds(n: int) -> int {
    n * 1_000_000_000
}

impl Duration {
    #[verifier::type_invariant]
    closed spec fn in_range(self) -> bool {
        self.nanos <= MAX_SPAN_NANOS
    }

    /// A span of whole seconds.
    pub fn from_secs(secs: u64) -> (r: Self)
        ensures
            r@ == seconds(secs as int),
    {
        Duration { nanos: secs as u128 * NANOS_PER_SEC }
    }

    /// A span of whole seconds and a fraction in nanoseconds.
    pub fn from_parts(secs: u64, subsec_nanos: u32) -> (r: Self)
        requires
            subsec_nanos < 1_000_000_000,
        ensures
            r@ == seconds(secs as int) + subsec_nanos,
    {
        Duration { nanos: secs as u128 * NANOS_PER_SEC + subsec_nanos as u128 }
    }

    /// The span in nanoseconds.
    pub fn as_nanos(&self) -> (r: u128)
        ensures
            r == self@,
            r <= MAX_SPAN_NANOS,
    {
        proof {
            use_type_invariant(self);
        }
        self.nanos
    }

    /// The whole seconds of the span.
    pub fn as_secs(&self) -> (r: u64)
        ensures
            r == self@ / 1_000_000_000,
    {
        proof {
            use_type_invariant(self);
        }
        (self.nanos / NANOS_PER_SEC) as u64
    }

    /// The nanoseconds beyond the whole seconds.
    pub fn subsec_nanos(&self) -> (r: u32)
        ensures
            r == self@ % 1_000_000_000,
            r < 1_000_000_000,
    {
        (self.nanos % NANOS_PER_SEC) as u32
    }

    /// Half of the span, rounded down.
    pub fn half(&self) -> (r: Self)
        ensures
            r@ == self@ / 2,
    {
        proof {
            use_type_invariant(self);
        }
        Duration { nanos: self.nanos / 2 }
    }

    /// The span less another, or nothing.
    pub fn saturating_sub(&self, other: Duration) -> (r: Self)
        ensures
            r@ == if self@ >= other@ {
                self@ - other@
            } else {
                0
            },
    {
        proof {
            use_type_invariant(self);
        }
        if self.nanos >= other.nanos {
            Duration { nanos: self.nanos - other.nanos }
        } else {
            Duration { nanos: 0 }
        }
    }

    /// Two spans one after the other.
    pub fn plus(&self, other: Duration) -> (r: Self)
        requires
            self@ + other@ <= MAX_SPAN_NANOS,
        ensures
            r@ == self@ + other@,
    {
        proof {
            use_type_invariant(self);
            use_type_invariant(&other);
        }
        Duration { nanos: self.nanos + other.nanos }
    }

    /// The shorter of two spans.
    pub fn shorter(&self, other: Duration) -> (r: Self)
        ensures
            r@ == if self@ <= other@ {
                self@
            } else {
                other@
            },
    {
        if self.nanos <= other.nanos {
            *self
        } else {
            other
        }
    }

    /// Tells whether the span is at most another.
    pub fn at_most(&self, other: Duration) -> (r: bool)
        ensures
            r == (self@ <= other@),
    {
        self.nanos <= other.nanos
    }

    /// Tells whether nothing is left of the span.
    pub fn is_zero(&self) -> (r: bool)
        ensures
            r == (self@ == 0),
    {
        self.nanos == 0
    }
}

/// A point of time, relative to the origin of the clock that it was read from.
#[derive(Debug, Clone, Copy, PartialEq, Eq, Structural)]
pub struct Instant {
    nanos: i128,
}

impl View for Instant {
    type V = int;

    closed spec fn view(&self) -> int {
        self.nanos as int
    }
}

impl Instant {
    #[verifier::type_invariant]
    closed spec fn in_range(self) -> bool {
        -INSTANT_LIMIT <= self.nanos <= INSTANT_LIMIT
    }

    /// The point that lies `since_origin` after the clock's origin.
    pub fn after_origin(since_origin: Duration) -> (r: Self)
        ensures
            r@ == since_origin@,
    {
        proof {
            use_type_invariant(&since_origin);
        }
        Instant { nanos: since_origin.nanos as i128 }
    }

    /// The span from `earlier` to this point: nothing if this point is not later,
    /// and never more than the longest span.
    pub fn saturating_duration_since(&self, earlier: Instant) -> (r: Duration)
        ensures
            r@ == span_between(earlier@, self@),
    {
        proof {
            use_type_invariant(self);
            use_type_invariant(&earlier);
        }
        if self.nanos <= earlier.nanos {
            return Duration { nanos: 0 };
        }
        let span: i128 = self.nanos - earlier.nanos;
        if span as u128 > MAX_SPAN_NANOS {
            Duration { nanos: MAX_SPAN_NANOS }
        } else {
            Duration { nanos: span as u128 }
        }
    }

    /// The point that lies `span` before this one, where there is such a point.
    pub fn checked_sub(&self, span: Duration) -> (r: Option<Instant>)
        ensures
            match r {
                Some(t) => t@ == self@ - span@ && t@ >= -INSTANT_LIMIT,
                None => self@ - span@ < -INSTANT_LIMIT,
            },
    {
        proof {
            use_type_invariant(self);
            use_type_invariant(&span);
        }
        let nanos: i128 = self.nanos - span.nanos as i128;
        if nanos < -INSTANT_LIMIT {
            None
        } else {
            Some(Instant { nanos })
        }
    }

    /// The point that lies `span` after this one.
    pub fn plus(&self, span: Duration) -> (r: Instant)
        requires
            self@ + span@ <= INSTANT_LIMIT,
        ensures
            r@ == self@ + span@,
    {
        proof {
            use_type_invariant(self);
            use_type_invariant(&span);
        }
        Instant { nanos: self.nanos + span.nanos as i128 }
    }

    /// Tells whether this point lies before another.
    pub fn before(&self, other: Instant) -> (r: bool)
        ensures
            r == (self@ < other@),
    {
        self.nanos < other.nanos
    }
}

/// The span from `earlier` to `later`, between nothing and the longest span.
pub open spec fn span_between(earlier: int, later: int) -> int {
    if later <= earlier {
        0
    } else if later - earlier > MAX_SPAN_NANOS {
        MAX_SPAN_NANOS as int
    } else {
        later - earlier
    }
}

/// A reading of the monotonic clock of the standard library.
#[verifier::external_type_specification]
#[verifier::external_body]
pub struct ExMonotonic(std::time::Instant);

/// `std::time::Instant::now`: the present reading. Nothing is claimed of it.
#[verifier::external_body]
fn read_monotonic() -> std::time::Instant {
    std::time::Instant::now()
}

/// `std::time::Instant::elapsed`: the time that has passed since a reading, in whole
/// seconds and the nanoseconds beyond them, which are fewer than a second's. How much
/// time has passed is not claimed.
#[verifier::external_body]
fn elapsed_since(reading: &std::time::Instant) -> (r: (u64, u32))
    ensures
        r.1 < 1_000_000_000,
{
    let elapsed = reading.elapsed();
    (elapsed.as_secs(), elapsed.subsec_nanos())
}

/// A monotonic clock that counts from the moment it was started.
pub struct Clock {
    origin: std::time::Instant,
}

impl Clock {
    /// Starts a clock.
    pub fn start() -> Self {
        Clock { origin: read_monotonic() }
    }

    /// The present time, which never lies before the clock's start.
    pub fn now(&self) -> (r: Instant)
        ensures
            0 <= r@ <= MAX_SPAN_NANOS,
    {
        let (secs, nanos) = elapsed_since(&self.origin);
        Instant::after_origin(Duration::from_parts(secs, nanos))
    }
}

/// `rand::Rng::random_range` on the thread's generator: a number drawn from `0..limit`.
/// Which one is left to chance.
#[verifier::external_body]
fn random_below(limit: u128) -> (r: u128)
    requires
        0 < limit,
    ensures
        r < limit,
{
    rand::rng().random_range(0..limit)
}

/// A span drawn by chance that is shorter than `max`, or nothing where `max` is nothing.
pub fn random_jitter(max: Duration) -> (r: Duration)
    ensures
        0 <= r@ <= max@,
        max@ > 0 ==> r@ < max@,
{
    proof {
        use_type_invariant(&max);
    }
    if max.is_zero() {
        return Duration { nanos: 0 };
    }
    Duration { nanos: random_below(max.nanos) }
}

/// A second has a billion nanoseconds, and the time between two points is the difference of their
/// places, none where the second is not later, as far as a span reaches.
pub proof fn law_time_between(earlier: int, later: int, n: int)
    ensures
        seconds(n + 1) - seconds(n) == 1_000_000_000,
        seconds(0) == 0,
        earlier <= later <= earlier + MAX_SPAN_NANOS ==> span_between(earlier, later) == later
            - earlier,
        later <= earlier ==> span_between(earlier, later) == 0,
        later > earlier + MAX_SPAN_NANOS ==> span_between(earlier, later) == MAX_SPAN_NANOS,
{
}

/// Spans are counted to the nanosecond: made from seconds, taken apart into seconds and the rest, put
/// one after the other, taken from each other as far as they reach, and compared.
pub proof fn law_spans_are_exact(
    secs: u64,
    nanos: u32,
    whole: Duration,
    parts: Duration,
    a: Duration,
    b: Duration,
    both: Duration,
    less: Duration,
    short: Duration,
    halved: Duration,
    fits: bool,
)
    requires
        call_ensures(Duration::from_secs, (secs,), whole),
        nanos < 1_000_000_000,
        call_ensures(Duration::from_parts, (secs, nanos), parts),
        a@ + b@ <= MAX_SPAN_NANOS,
        call_ensures(Duration::plus, (&a, b), both),
        call_ensures(Duration::saturating_sub, (&a, b), less),
        call_ensures(Duration::shorter, (&a, b), short),
        call_ensures(Duration::half, (&a,), halved),
        call_ensures(Duration::at_most, (&a, b), fits),
    ensures
        whole@ == secs * 1_000_000_000,
        parts@ == whole@ + nanos,
        both@ - a@ == b@,
        a@ >= b@ ==> less@ + b@ == a@,
        a@ <= b@ ==> less@ == 0,
        short@ <= a@ && short@ <= b@ && (short@ == a@ || short@ == b@),
        2 * halved@ <= a@ < 2 * halved@ + 2,
        fits <==> a@ <= b@,
{
}

/// A span is its whole seconds and the nanoseconds beyond them.
pub proof fn law_spans_are_taken_apart(span: Duration, secs: u64, nanos: u32)
    requires
        call_ensures(Duration::as_secs, (&span,), secs),
        call_ensures(Duration::subsec_nanos, (&span,), nanos),
    ensures
        span@ == secs * 1_000_000_000 + nanos,
        nanos < 1_000_000_000,
{
}

/// Points of time lie as far apart as the spans between them: one that lies a span later has that span
/// between, and one that lies a span earlier too.
pub proof fn law_points_are_exact(
    at: Instant,
    span: Duration,
    later: Instant,
    earlier: Option<Instant>,
    between: Duration,
    is_before: bool,
)
    requires
        at@ + span@ <= INSTANT_LIMIT,
        span@ <= MAX_SPAN_NANOS,
        call_ensures(Instant::plus, (&at, span), later),
        call_ensures(Instant::checked_sub, (&at, span), earlier),
        call_ensures(Instant::saturating_duration_since, (&later, at), between),
        call_ensures(Instant::before, (&at, later), is_before),
    ensures
        later@ - at@ == span@,
        between@ == span@,
        earlier matches Some(t) ==> at@ - t@ == span@,
        0 <= at@ ==> earlier is Some,
        is_before <==> span@ > 0,
{
}

} // verus!
