//! Spans of time.

use std::time::Duration;
use vstd::prelude::*;

verus! {

/// The length of a span in nanoseconds, as [`Duration::as_nanos`] gives it.
pub uninterp spec fn nanos(span: Duration) -> nat;

/// [`Duration::as_nanos`] gives the span's length in nanoseconds.
pub assume_specification[ Duration::as_nanos ](span: &Duration) -> (r: u128)
    ensures
        r == nanos(*span),
;

/// [`Duration::from_nanos`] makes a span of that many nanoseconds.
pub assume_specification[ Duration::from_nanos ](count: u64) -> (r: Duration)
    ensures
        nanos(r) == count,
;

/// [`Duration::from_micros`] makes a span of that many microseconds.
pub assume_specification[ Duration::from_micros ](count: u64) -> (r: Duration)
    ensures
        nanos(r) == count * 1_000,
;

/// [`Duration::from_millis`] makes a span of that many milliseconds.
pub assume_specification[ Duration::from_millis ](count: u64) -> (r: Duration)
    ensures
        nanos(r) == count * 1_000_000,
;

/// The length of an optional span.
pub open spec fn optional_nanos(span: Option<Duration>) -> Option<nat> {
    match span {
        Some(d) => Some(nanos(d)),
        None => None,
    }
}

/// The whole milliseconds of a span of that many nanoseconds, at most `u64::MAX`.
pub open spec fn wire_millis(length: nat) -> nat {
    if length / 1_000_000 > u64::MAX {
        u64::MAX as nat
    } else {
        length / 1_000_000
    }
}

/// A span as the whole milliseconds that stand for it on the wire, saturating.
pub fn to_wire_millis(span: &Duration) -> (r: u64)
    ensures
        r == wire_millis(nanos(*span)),
{
    let whole: u128 = span.as_nanos() / 1_000_000;
    if whole > u64::MAX as u128 {
        u64::MAX
    } else {
        whole as u64
    }
}

/// The span that a number of milliseconds on the wire stands for.
pub fn from_wire_millis(millis: u64) -> (r: Duration)
    ensures
        nanos(r) == millis * 1_000_000,
{
    Duration::from_millis(millis)
}

/// What was read from the wire is written back unchanged.
pub proof fn wire_millis_round_trip(millis: u64)
    ensures
        wire_millis((millis * 1_000_000) as nat) == millis,
{
}

/// A span written to the wire and read back has lost less than a millisecond, and nothing if it
/// was a whole number of milliseconds, unless it was too long for the wire.
pub proof fn wire_millis_loses_less_than_a_millisecond(length: nat)
    requires
        length / 1_000_000 <= u64::MAX,
    ensures
        wire_millis(length) * 1_000_000 <= length < wire_millis(length) * 1_000_000 + 1_000_000,
        length % 1_000_000 == 0 ==> wire_millis(length) * 1_000_000 == length,
{
}

/// A span that is too long for the wire is written as the longest that is not.
pub proof fn long_spans_saturate(length: nat)
    requires
        length / 1_000_000 > 0xffff_ffff_ffff_ffff,
    ensures
        wire_millis(length) == 0xffff_ffff_ffff_ffff,
{
}

/// An optional span is told with its length.
pub proof fn optional_spans_say_all(span: Option<Duration>)
    ensures
        optional_nanos(span) is Some <==> span is Some,
        span matches Some(d) ==> optional_nanos(span) == Some(nanos(d)),
{
}

} // verus!
