use std::time::Duration;

use nowhear::time::{from_wire_millis, to_wire_millis};

#[test]
fn spans_are_written_as_whole_milliseconds() {
    assert_eq!(to_wire_millis(&Duration::from_secs(354)), 354_000);
    assert_eq!(to_wire_millis(&Duration::from_secs(12)), 12_000);
    assert_eq!(to_wire_millis(&Duration::from_micros(1_999)), 1);
    assert_eq!(to_wire_millis(&Duration::ZERO), 0);
}

#[test]
fn spans_too_long_for_the_wire_saturate() {
    assert_eq!(to_wire_millis(&Duration::MAX), u64::MAX);
    assert_eq!(to_wire_millis(&Duration::from_millis(u64::MAX)), u64::MAX);
}

#[test]
fn milliseconds_round_trip() {
    for millis in [0, 1, 999, 1_000, 354_000, u64::MAX] {
        assert_eq!(to_wire_millis(&from_wire_millis(millis)), millis);
    }
}
