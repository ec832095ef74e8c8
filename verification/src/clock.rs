//! Time: spans, and a clock that counts nanoseconds.

use vstd::prelude::*;

verus! {

pub const NANOS_PER_SEC: u64 = 1_000_000_000;

pub const NANOS_PER_MILLI: u64 = 1_000_000;

/// A span of time: whole seconds and the nanoseconds beyond them.
#[derive(Debug, Clone, Copy, PartialEq, Eq, Structural)]
pub struct Span {
    pub secs: u64,
    pub nanos: u32,
}

#[verifier::external_type_specification]
#[verifier::external_body]
pub struct ExInstant(std::time::Instant);

/// `std::time::Instant::now`: the moment of the call. Nothing is claimed of it.
pub assume_specification[ std::time::Instant::now ]() -> std::time::Instant;

/// `std::time::Instant::elapsed`: the time since `origin`, in whole seconds and
/// fewer than a thousand million nanoseconds.
#[verifier::external_body]
fn elapsed_since(origin: &std::time::Instant) -> (r: Span)
    ensures
        r.nanos < NANOS_PER_SEC,
{
    let elapsed = origin.elapsed();
    Span { secs: elapsed.as_secs(), nanos: elapsed.subsec_nanos() }
}

/// A count of nanoseconds that stops at the largest 64-bit number.
pub open spec fn span_nanos(span: Span) -> int {
    let nanos = span.secs * NANOS_PER_SEC + span.nanos;
    if nanos <= u64::MAX {
        nanos
    } else {
        u64::MAX as int
    }
}

/// The nanoseconds of `span`, at most the largest 64-bit number.
pub fn total_nanos(span: Span) -> (r: u64)
    ensures
        r == span_nanos(span),
{
    let wide: u128 = span.secs as u128 * 1_000_000_000 + span.nanos as u128;
    if wide <= u64::MAX as u128 {
        wide as u64
    } else {
        u64::MAX
    }
}

/// A clock that counts nanoseconds from the moment it was started.
pub struct Clock {
    origin: std::time::Instant,
}

impl Clock {
    pub fn start() -> Clock {
        Clock { origin: std::time::Instant::now() }
    }

    /// The nanoseconds since the clock was started.
    pub fn now(&self) -> (r: u64)
        ensures
            exists|span: Span| span.nanos < NANOS_PER_SEC && r == #[trigger] span_nanos(span),
    {
        total_nanos(elapsed_since(&self.origin))
    }
}

/// The whole units of `unit` nanoseconds from `start` to `now`; none when the
/// clock reads earlier than `start`.
pub open spec fn units_between(start: u64, now: u64, unit: u64) -> int {
    if start <= now {
        (now - start) / unit as int
    } else {
        0
    }
}

/// The whole seconds from `start` to `now`.
pub fn secs_between(start: u64, now: u64) -> (r: u64)
    ensures
        r == units_between(start, now, NANOS_PER_SEC),
{
    if start <= now {
        (now - start) / NANOS_PER_SEC
    } else {
        0
    }
}

/// The whole milliseconds from `start` to `now`.
pub fn millis_between(start: u64, now: u64) -> (r: u64)
    ensures
        r == units_between(start, now, NANOS_PER_MILLI),
{
    if start <= now {
        (now - start) / NANOS_PER_MILLI
    } else {
        0
    }
}

/// Time that passes never shrinks: a later reading counts at least as many
/// seconds and milliseconds.
pub proof fn elapsed_is_monotonic(start: u64, now: u64, later: u64)
    requires
        now <= later,
    ensures
        units_between(start, now, NANOS_PER_SEC) <= units_between(start, later, NANOS_PER_SEC),
        units_between(start, now, NANOS_PER_MILLI) <= units_between(start, later, NANOS_PER_MILLI),
{
}

/// Between two readings of the clock lie as many seconds, and milliseconds, as
/// have passed in full.
pub proof fn full_units_are_counted(start: u64, count: u64, rest_nanos: u64, now: u64)
    ensures
        rest_nanos < 1_000_000_000 && now == start + count * 1_000_000_000 + rest_nanos
            ==> units_between(start, now, NANOS_PER_SEC) == count,
        rest_nanos < 1_000_000 && now == start + count * 1_000_000 + rest_nanos ==> units_between(
            start,
            now,
            NANOS_PER_MILLI,
        ) == count,
        now < start ==> units_between(start, now, NANOS_PER_SEC) == 0,
        now < start ==> units_between(start, now, NANOS_PER_MILLI) == 0,
{
}

/// A span is counted in nanoseconds, exactly as long as they fit, and a longer
/// span never counts less.
pub proof fn spans_are_counted_in_nanoseconds(span: Span, longer: Span)
    requires
        span.nanos < 1_000_000_000,
        span.secs < longer.secs || (span.secs == longer.secs && span.nanos <= longer.nanos),
    ensures
        span.secs * 1_000_000_000 + span.nanos <= u64::MAX ==> span_nanos(span) == span.secs
            * 1_000_000_000 + span.nanos,
        span.secs * 1_000_000_000 + span.nanos > u64::MAX ==> span_nanos(span) == u64::MAX,
        span_nanos(span) <= span_nanos(longer),
{
}

} // verus!
