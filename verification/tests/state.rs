use std::time::Duration;

use nowhear::number::Real64;
use nowhear::platform::state::{
    diff_player_state, is_seek, player_info, track_identity_changed, PlayerState,
};
use nowhear::types::{MediaEvent, PlaybackState, Track};

fn level(x: f64) -> Real64 {
    Real64::from_bits(x.to_bits())
}

fn test_track(title: &str) -> Track {
    Track {
        title: title.to_string(),
        artist: vec!["Test Artist".to_string()],
        album: Some("Test Album".to_string()),
        album_artist: vec![],
        track_number: None,
        duration: Some(Duration::from_mins(3)),
        art_url: None,
    }
}

fn test_state(
    track: Track,
    playback_state: PlaybackState,
    position: Option<Duration>,
) -> PlayerState {
    PlayerState {
        track,
        playback_state,
        position,
        volume: None,
    }
}

#[test]
fn state_test_track_identity_changed_no_previous() {
    let track = test_track("Song");
    assert!(track_identity_changed(None, &track));
}

#[test]
fn state_test_track_identity_changed_same_identity() {
    let track = test_track("Song");
    let mut updated = track.clone();
    updated.duration = Some(Duration::from_mins(5)); // duration changed
    updated.art_url = Some("http://example.com/art.jpg".to_string());
    assert!(!track_identity_changed(Some(&track), &updated));
}

#[test]
fn state_test_track_identity_changed_title_changed() {
    let a = test_track("Song A");
    let b = test_track("Song B");
    assert!(track_identity_changed(Some(&a), &b));
}

#[test]
fn state_test_track_identity_changed_album_loaded_late_is_not_change() {
    // Album is late-loading metadata (e.g. a browser populating it after buffering).
    // A change to album alone must not be treated as a genuine track change.
    let track = test_track("Song");
    let mut updated = track.clone();
    updated.album = Some("Different Album".to_string());
    assert!(!track_identity_changed(Some(&track), &updated));
}

#[test]
fn state_test_track_identity_changed_artist_changed() {
    let track = test_track("Song");
    let mut updated = track.clone();
    updated.artist = vec!["Another Artist".to_string()];
    assert!(track_identity_changed(Some(&track), &updated));
}

#[test]
fn state_test_is_seek_first_position_always_true() {
    assert!(is_seek(None, Duration::from_secs(30)));
    assert!(is_seek(None, Duration::ZERO));
}

#[test]
fn state_test_is_seek_normal_playback_not_reported() {
    // 1-second advance during normal playback must not trigger PositionChanged
    let last = Some(Duration::from_secs(10));
    assert!(!is_seek(last, Duration::from_secs(11)));
}

#[test]
fn state_test_is_seek_at_threshold_not_reported() {
    // Exactly 2 seconds: boundary is exclusive (> 2s), so this is NOT a seek
    let last = Some(Duration::from_secs(10));
    assert!(!is_seek(last, Duration::from_secs(12)));
}

#[test]
fn state_test_is_seek_exceeds_threshold() {
    let last = Some(Duration::from_secs(10));
    assert!(is_seek(last, Duration::from_secs(13)));
}

#[test]
fn state_test_is_seek_backward_jump() {
    let last = Some(Duration::from_mins(1));
    assert!(is_seek(last, Duration::from_secs(10)));
}

#[test]
fn state_test_is_seek_same_position_not_reported() {
    let last = Some(Duration::from_secs(30));
    assert!(!is_seek(last, Duration::from_secs(30)));
}

#[test]
fn state_test_diff_player_state_no_change_emits_nothing() {
    let state = test_state(
        test_track("Song"),
        PlaybackState::Playing,
        Some(Duration::from_secs(10)),
    );
    // Same position so is_seek is false; nothing should be emitted.
    let events = diff_player_state("p", Some(&state), &state);
    assert_eq!(events, Vec::<MediaEvent>::new());
}

#[test]
fn state_test_diff_player_state_track_change_emits_track_and_position() {
    let old = test_state(
        test_track("Old"),
        PlaybackState::Playing,
        Some(Duration::from_mins(2)),
    );
    let new = test_state(
        test_track("New"),
        PlaybackState::Playing,
        Some(Duration::from_secs(0)),
    );
    let events = diff_player_state("p", Some(&old), &new);
    // Track changed, state unchanged, and the new track's position is reported as fresh
    // (track change resets the seek baseline).
    assert_eq!(
        events,
        vec![
            MediaEvent::TrackChanged {
                player_name: "p".to_string(),
                track: new.track,
            },
            MediaEvent::PositionChanged {
                player_name: "p".to_string(),
                position: Duration::from_secs(0),
            },
        ]
    );
}

#[test]
fn state_test_diff_player_state_metadata_only_change_not_emitted() {
    let old = test_state(
        test_track("Song"),
        PlaybackState::Playing,
        Some(Duration::from_secs(10)),
    );
    let mut new = old.clone();
    // Late-loading metadata only: album/art change, identity (title+artist) stays.
    new.track.album = Some("Different Album".to_string());
    new.track.art_url = Some("http://example.com/a.jpg".to_string());
    let events = diff_player_state("p", Some(&old), &new);
    assert_eq!(events, Vec::<MediaEvent>::new());
}

#[test]
fn state_test_diff_player_state_playback_state_change_only() {
    let old = test_state(
        test_track("Song"),
        PlaybackState::Playing,
        Some(Duration::from_secs(10)),
    );
    let mut new = old.clone();
    new.playback_state = PlaybackState::Paused;
    let events = diff_player_state("p", Some(&old), &new);
    assert_eq!(
        events,
        vec![MediaEvent::StateChanged {
            player_name: "p".to_string(),
            state: PlaybackState::Paused,
        }]
    );
}

#[test]
fn state_test_diff_player_state_seek_within_same_track() {
    let old = test_state(
        test_track("Song"),
        PlaybackState::Playing,
        Some(Duration::from_secs(10)),
    );
    let mut new = old.clone();
    new.position = Some(Duration::from_mins(1));
    let events = diff_player_state("p", Some(&old), &new);
    assert_eq!(
        events,
        vec![MediaEvent::PositionChanged {
            player_name: "p".to_string(),
            position: Duration::from_mins(1),
        }]
    );
}

#[test]
fn state_test_diff_player_state_normal_progression_not_emitted() {
    let old = test_state(
        test_track("Song"),
        PlaybackState::Playing,
        Some(Duration::from_secs(10)),
    );
    let mut new = old.clone();
    // 1-second advance during normal playback is not a seek.
    new.position = Some(Duration::from_secs(11));
    let events = diff_player_state("p", Some(&old), &new);
    assert_eq!(events, Vec::<MediaEvent>::new());
}

#[test]
fn test_diff_player_state_volume_change_only() {
    let mut old = test_state(
        test_track("Song"),
        PlaybackState::Playing,
        Some(Duration::from_secs(10)),
    );
    old.volume = Some(level(0.8));
    let mut new = old.clone();
    new.volume = Some(level(0.5));
    let events = diff_player_state("p", Some(&old), &new);
    assert_eq!(
        events,
        vec![MediaEvent::VolumeChanged {
            player_name: "p".to_string(),
            volume: level(0.5),
        }]
    );
}

#[test]
fn test_diff_player_state_volume_absent_not_emitted() {
    // Both volumes None (e.g. the Windows backend): never emits VolumeChanged.
    let old = test_state(
        test_track("Song"),
        PlaybackState::Playing,
        Some(Duration::from_secs(10)),
    );
    let new = old.clone();
    let events = diff_player_state("p", Some(&old), &new);
    assert_eq!(events, Vec::<MediaEvent>::new());
}

#[test]
fn test_diff_player_state_no_previous_emits_track_state_and_position() {
    // old = None (first discovery): TrackChanged + StateChanged + PositionChanged emitted,
    // but VolumeChanged is NOT emitted because the caller is expected to handle the baseline.
    let state = PlayerState {
        track: test_track("New Song"),
        playback_state: PlaybackState::Playing,
        position: Some(Duration::from_secs(5)),
        volume: Some(level(0.8)),
    };

    let events = diff_player_state("p", None, &state);

    assert_eq!(
        events,
        vec![
            MediaEvent::TrackChanged {
                player_name: "p".to_string(),
                track: state.track,
            },
            MediaEvent::StateChanged {
                player_name: "p".to_string(),
                state: PlaybackState::Playing,
            },
            MediaEvent::PositionChanged {
                player_name: "p".to_string(),
                position: Duration::from_secs(5),
            },
        ]
    );
}

#[test]
fn test_diff_player_state_position_none_emits_no_position_changed() {
    // When new.position is None the PositionChanged branch is entirely skipped.
    let old = PlayerState {
        track: test_track("Song"),
        playback_state: PlaybackState::Playing,
        position: Some(Duration::from_secs(10)),
        volume: None,
    };
    let new = PlayerState {
        position: None,
        ..old.clone()
    };

    let events = diff_player_state("p", Some(&old), &new);

    assert_eq!(events, Vec::<MediaEvent>::new());
}

#[test]
fn test_diff_player_state_volume_becomes_none_not_emitted() {
    // old.volume = Some, new.volume = None: the third condition of the let-chain fails,
    // so VolumeChanged is not emitted.
    let mut old = test_state(
        test_track("Song"),
        PlaybackState::Playing,
        Some(Duration::from_secs(10)),
    );
    old.volume = Some(level(0.8));
    let mut new = old.clone();
    new.volume = None;

    let events = diff_player_state("p", Some(&old), &new);

    assert_eq!(events, Vec::<MediaEvent>::new());
}

#[test]
fn provider_test_track_identity_changed_no_previous() {
    let track = test_track("Song");
    assert!(track_identity_changed(None, &track));
}

#[test]
fn provider_test_track_identity_changed_same_identity() {
    let track = test_track("Song");
    let mut updated = track.clone();
    updated.duration = Some(Duration::from_secs(300)); // duration changed
    updated.art_url = Some("http://example.com/art.jpg".to_string());
    assert!(!track_identity_changed(Some(&track), &updated));
}

#[test]
fn provider_test_track_identity_changed_title_changed() {
    let a = test_track("Song A");
    let b = test_track("Song B");
    assert!(track_identity_changed(Some(&a), &b));
}

#[test]
fn provider_test_track_identity_changed_album_loaded_late_is_not_change() {
    // Album is late-loading metadata (e.g. a browser populating it after buffering).
    // A change to album alone must not be treated as a genuine track change.
    let track = test_track("Song");
    let mut updated = track.clone();
    updated.album = Some("Different Album".to_string());
    assert!(!track_identity_changed(Some(&track), &updated));
}

#[test]
fn provider_test_track_identity_changed_artist_changed() {
    let track = test_track("Song");
    let mut updated = track.clone();
    updated.artist = vec!["Another Artist".to_string()];
    assert!(track_identity_changed(Some(&track), &updated));
}

#[test]
fn provider_test_is_seek_first_position_always_true() {
    assert!(is_seek(None, Duration::from_secs(30)));
    assert!(is_seek(None, Duration::ZERO));
}

#[test]
fn provider_test_is_seek_normal_playback_not_reported() {
    // 1-second advance during normal playback must not trigger PositionChanged
    let last = Some(Duration::from_secs(10));
    assert!(!is_seek(last, Duration::from_secs(11)));
}

#[test]
fn provider_test_is_seek_at_threshold_not_reported() {
    // Exactly 2 seconds: boundary is exclusive (> 2s), so this is NOT a seek
    let last = Some(Duration::from_secs(10));
    assert!(!is_seek(last, Duration::from_secs(12)));
}

#[test]
fn provider_test_is_seek_exceeds_threshold() {
    let last = Some(Duration::from_secs(10));
    assert!(is_seek(last, Duration::from_secs(13)));
}

#[test]
fn provider_test_is_seek_backward_jump() {
    let last = Some(Duration::from_secs(60));
    assert!(is_seek(last, Duration::from_secs(10)));
}

#[test]
fn provider_test_is_seek_same_position_not_reported() {
    let last = Some(Duration::from_secs(30));
    assert!(!is_seek(last, Duration::from_secs(30)));
}

#[test]
fn provider_test_diff_player_state_no_change_emits_nothing() {
    let state = test_state(
        test_track("Song"),
        PlaybackState::Playing,
        Some(Duration::from_secs(10)),
    );
    // Same position so is_seek is false; nothing should be emitted.
    let events = diff_player_state("p", Some(&state), &state);
    assert_eq!(events, Vec::<MediaEvent>::new());
}

#[test]
fn provider_test_diff_player_state_track_change_emits_track_and_position() {
    let old = test_state(
        test_track("Old"),
        PlaybackState::Playing,
        Some(Duration::from_secs(120)),
    );
    let new = test_state(
        test_track("New"),
        PlaybackState::Playing,
        Some(Duration::from_secs(0)),
    );
    let events = diff_player_state("p", Some(&old), &new);
    // Track changed, state unchanged, and the new track's position is reported as fresh
    // (track change resets the seek baseline).
    assert_eq!(
        events,
        vec![
            MediaEvent::TrackChanged {
                player_name: "p".to_string(),
                track: new.track,
            },
            MediaEvent::PositionChanged {
                player_name: "p".to_string(),
                position: Duration::from_secs(0),
            },
        ]
    );
}

#[test]
fn provider_test_diff_player_state_metadata_only_change_not_emitted() {
    let old = test_state(
        test_track("Song"),
        PlaybackState::Playing,
        Some(Duration::from_secs(10)),
    );
    let mut new = old.clone();
    // Late-loading metadata only: album/art change, identity (title+artist) stays.
    new.track.album = Some("Different Album".to_string());
    new.track.art_url = Some("http://example.com/a.jpg".to_string());
    let events = diff_player_state("p", Some(&old), &new);
    assert_eq!(events, Vec::<MediaEvent>::new());
}

#[test]
fn provider_test_diff_player_state_playback_state_change_only() {
    let old = test_state(
        test_track("Song"),
        PlaybackState::Playing,
        Some(Duration::from_secs(10)),
    );
    let mut new = old.clone();
    new.playback_state = PlaybackState::Paused;
    let events = diff_player_state("p", Some(&old), &new);
    assert_eq!(
        events,
        vec![MediaEvent::StateChanged {
            player_name: "p".to_string(),
            state: PlaybackState::Paused,
        }]
    );
}

#[test]
fn provider_test_diff_player_state_seek_within_same_track() {
    let old = test_state(
        test_track("Song"),
        PlaybackState::Playing,
        Some(Duration::from_secs(10)),
    );
    let mut new = old.clone();
    new.position = Some(Duration::from_secs(60));
    let events = diff_player_state("p", Some(&old), &new);
    assert_eq!(
        events,
        vec![MediaEvent::PositionChanged {
            player_name: "p".to_string(),
            position: Duration::from_secs(60),
        }]
    );
}

#[test]
fn provider_test_diff_player_state_normal_progression_not_emitted() {
    let old = test_state(
        test_track("Song"),
        PlaybackState::Playing,
        Some(Duration::from_secs(10)),
    );
    let mut new = old.clone();
    // 1-second advance during normal playback is not a seek.
    new.position = Some(Duration::from_secs(11));
    let events = diff_player_state("p", Some(&old), &new);
    assert_eq!(events, Vec::<MediaEvent>::new());
}

#[test]
fn a_listener_is_told_of_every_kind_of_change_in_order() {
    let old = PlayerState {
        track: test_track("Old"),
        playback_state: PlaybackState::Playing,
        position: Some(Duration::from_secs(10)),
        volume: Some(level(0.8)),
    };
    let new = PlayerState {
        track: test_track("New"),
        playback_state: PlaybackState::Paused,
        position: Some(Duration::from_secs(11)),
        volume: Some(level(0.5)),
    };
    let events = diff_player_state("p", Some(&old), &new);
    assert_eq!(events.len(), 4);
    assert!(matches!(events[0], MediaEvent::TrackChanged { .. }));
    assert!(matches!(events[1], MediaEvent::StateChanged { .. }));
    assert!(matches!(events[2], MediaEvent::PositionChanged { .. }));
    assert!(matches!(events[3], MediaEvent::VolumeChanged { .. }));
}

#[test]
fn seeks_are_told_to_the_nanosecond() {
    let at = Duration::from_secs(10);
    let limit = Duration::from_secs(2);
    let bit = Duration::from_nanos(1);
    assert!(!is_seek(Some(at), at + limit));
    assert!(is_seek(Some(at), at + limit + bit));
    assert!(!is_seek(Some(at), at - limit));
    assert!(is_seek(Some(at), at - limit - bit));
    assert!(is_seek(Some(Duration::ZERO), Duration::MAX));
}

#[test]
fn a_first_volume_within_a_song_is_reported() {
    let old = test_state(
        test_track("Song"),
        PlaybackState::Playing,
        None,
    );
    let mut new = old.clone();
    new.volume = Some(level(0.0));
    assert_eq!(diff_player_state("p", Some(&old), &new).len(), 1);
    let mut zero = new.clone();
    zero.volume = Some(level(-0.0));
    assert_eq!(diff_player_state("p", Some(&new), &zero).len(), 0);
}

#[test]
fn a_snapshot_becomes_player_information() {
    let state = test_state(test_track("Song"), PlaybackState::Paused, None);
    let info = player_info("p", state.clone());
    assert_eq!(info.player_name, "p");
    assert_eq!(info.current_track, Some(state.track));
    assert_eq!(info.playback_state, PlaybackState::Paused);
    assert_eq!(info.position, None);
    assert_eq!(info.volume, None);
}
