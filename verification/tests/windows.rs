use std::time::Duration;

use nowhear::platform::windows::playback_status::{parse_playback_status, WinPlaybackStatus};
use nowhear::platform::windows::track::{encode_data_uri, ticks_to_duration, DEFAULT_ART_MIME};
use nowhear::types::PlaybackState;

#[test]
fn test_parse_playback_status_playing() {
    assert_eq!(
        parse_playback_status(WinPlaybackStatus::Playing),
        PlaybackState::Playing
    );
}

#[test]
fn test_parse_playback_status_paused() {
    assert_eq!(
        parse_playback_status(WinPlaybackStatus::Paused),
        PlaybackState::Paused
    );
}

#[test]
fn test_parse_playback_status_stopped() {
    assert_eq!(
        parse_playback_status(WinPlaybackStatus::Stopped),
        PlaybackState::Stopped
    );
}

#[test]
fn test_parse_playback_status_closed() {
    assert_eq!(
        parse_playback_status(WinPlaybackStatus::Closed),
        PlaybackState::Stopped
    );
}

#[test]
fn test_parse_playback_status_changing() {
    assert_eq!(
        parse_playback_status(WinPlaybackStatus::Changing),
        PlaybackState::Stopped
    );
}

#[test]
fn test_encode_data_uri_with_content_type() {
    // "Hi" encodes to "SGk=" in standard base64.
    assert_eq!(
        encode_data_uri("image/jpeg", b"Hi"),
        "data:image/jpeg;base64,SGk="
    );
}

#[test]
fn test_encode_data_uri_empty_content_type_falls_back() {
    assert_eq!(
        encode_data_uri("", b"Hi"),
        format!("data:{DEFAULT_ART_MIME};base64,SGk=")
    );
}

#[test]
fn test_encode_data_uri_empty_bytes() {
    assert_eq!(encode_data_uri("image/png", b""), "data:image/png;base64,");
}

#[test]
fn test_encode_data_uri_is_deterministic() {
    // The same bytes must always produce the same URI so the state differ does not report a
    // spurious TrackChanged for an unchanged track.
    assert_eq!(
        encode_data_uri("image/png", b"\x00\x01\x02\x03"),
        encode_data_uri("image/png", b"\x00\x01\x02\x03")
    );
}

#[test]
fn test_ticks_to_duration_negative_is_none() {
    assert_eq!(ticks_to_duration(-1), None);
    assert_eq!(ticks_to_duration(i64::MIN), None);
}

#[test]
fn test_ticks_to_duration_overflow_is_none() {
    // i64::MAX is used by Windows as a sentinel for unknown/infinite duration (live streams).
    // (i64::MAX as u64) * 100 overflows u64::MAX, so the result must be None.
    assert_eq!(ticks_to_duration(i64::MAX), None);
}

#[test]
fn test_ticks_to_duration_zero() {
    assert_eq!(ticks_to_duration(0), Some(Duration::ZERO));
}

#[test]
fn test_ticks_to_duration_one_second() {
    // 1 second = 10_000_000 ticks (100ns units)
    assert_eq!(ticks_to_duration(10_000_000), Some(Duration::from_secs(1)));
}

#[test]
fn test_ticks_to_duration_fractional() {
    // 5_000_000 ticks = 500ms
    assert_eq!(
        ticks_to_duration(5_000_000),
        Some(Duration::from_millis(500))
    );
}
