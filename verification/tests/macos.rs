use std::time::Duration;

use nowhear::number::Real64;
use nowhear::platform::macos::running::running_players;
use nowhear::platform::macos::{MacOSMediaSource, PlayerMonitor};
use nowhear::platform::state::PlayerState;
use nowhear::types::{MediaEvent, PlaybackState, Track};

fn level(x: f64) -> Real64 {
    Real64::from_bits(x.to_bits())
}

fn create_test_track(title: &str) -> Track {
    Track {
        title: title.to_string(),
        artist: vec!["Test Artist".to_string()],
        album: Some("Test Album".to_string()),
        album_artist: vec![],
        track_number: None,
        duration: Some(Duration::from_mins(3)),
        art_url: None,
    }
}

fn create_test_player_state_with_track(
    track: Track,
    playback_state: PlaybackState,
    position: Option<Duration>,
    volume: Option<f64>,
) -> PlayerState {
    PlayerState {
        track,
        playback_state,
        position,
        volume: volume.map(level),
    }
}

#[test]
fn test_player_monitor_new() {
    let monitor = PlayerMonitor::new();
    assert_eq!(monitor.players.len(), 0);
    assert_eq!(monitor.running.len(), 0);
}

#[test]
fn test_player_monitor_first_player_added() {
    let mut monitor = PlayerMonitor::new();
    let track = create_test_track("Song 1");
    let state = create_test_player_state_with_track(
        track.clone(),
        PlaybackState::Playing,
        Some(Duration::from_secs(10)),
        Some(0.8),
    );

    let events = monitor.process_player("Music", Some(state));

    // Should get: PlayerAdded, TrackChanged, StateChanged
    assert_eq!(
        events,
        vec![
            MediaEvent::PlayerAdded {
                player_name: "Music".to_string()
            },
            MediaEvent::TrackChanged {
                player_name: "Music".to_string(),
                track,
            },
            MediaEvent::StateChanged {
                player_name: "Music".to_string(),
                state: PlaybackState::Playing
            },
        ]
    );
}

#[test]
fn test_player_monitor_track_changed() {
    let mut monitor = PlayerMonitor::new();

    // Initial state
    let track1 = create_test_track("Song 1");
    let initial_state = create_test_player_state_with_track(
        track1,
        PlaybackState::Playing,
        Some(Duration::from_secs(10)),
        Some(0.8),
    );
    monitor.process_player("Music", Some(initial_state));

    // New state with a different track. The new track's position is reported as a fresh
    // PositionChanged: a track change resets the seek baseline, so the new track's position is
    // emitted regardless of how close it is to the previous track's position.
    let track2 = create_test_track("Song 2");
    let new_state = create_test_player_state_with_track(
        track2.clone(),
        PlaybackState::Playing,
        Some(Duration::from_secs(11)),
        Some(0.8),
    );
    let events = monitor.process_player("Music", Some(new_state));

    assert_eq!(
        events,
        vec![
            MediaEvent::TrackChanged {
                player_name: "Music".to_string(),
                track: track2
            },
            MediaEvent::PositionChanged {
                player_name: "Music".to_string(),
                position: Duration::from_secs(11)
            },
        ]
    );
}

#[test]
fn test_player_monitor_metadata_only_change_not_a_track_change() {
    let mut monitor = PlayerMonitor::new();

    let track = create_test_track("Song 1");
    let initial_state = create_test_player_state_with_track(
        track.clone(),
        PlaybackState::Playing,
        Some(Duration::from_secs(10)),
        Some(0.8),
    );
    monitor.process_player("Music", Some(initial_state));

    // Same title and artist, but late-loading metadata (album) changes. Track identity is
    // title + artist, so this is NOT reported as a track change.
    let mut updated_track = track;
    updated_track.album = Some("Different Album".to_string());
    let new_state = create_test_player_state_with_track(
        updated_track,
        PlaybackState::Playing,
        Some(Duration::from_secs(10)),
        Some(0.8),
    );
    let events = monitor.process_player("Music", Some(new_state));

    assert_eq!(events, Vec::<MediaEvent>::new());
}

#[test]
fn test_player_monitor_playback_state_changed() {
    let mut monitor = PlayerMonitor::new();

    // Initial state
    let track = create_test_track("Song 1");
    let initial_state = create_test_player_state_with_track(
        track.clone(),
        PlaybackState::Playing,
        Some(Duration::from_secs(10)),
        Some(0.8),
    );
    monitor.process_player("Music", Some(initial_state));

    // New state with different playback state
    let new_state = create_test_player_state_with_track(
        track,
        PlaybackState::Paused,
        Some(Duration::from_secs(10)),
        Some(0.8),
    );
    let events = monitor.process_player("Music", Some(new_state));

    // Should detect state change
    assert_eq!(
        events,
        vec![MediaEvent::StateChanged {
            player_name: "Music".to_string(),
            state: PlaybackState::Paused
        }]
    );
}

#[test]
fn test_player_monitor_position_seek() {
    let mut monitor = PlayerMonitor::new();

    // Initial state
    let track = create_test_track("Song 1");
    let initial_state = create_test_player_state_with_track(
        track.clone(),
        PlaybackState::Playing,
        Some(Duration::from_secs(10)),
        Some(0.8),
    );
    monitor.process_player("Music", Some(initial_state));

    // New state with significant position jump
    let new_state = create_test_player_state_with_track(
        track,
        PlaybackState::Playing,
        Some(Duration::from_mins(1)), // Jumped 50 seconds
        Some(0.8),
    );
    let events = monitor.process_player("Music", Some(new_state));

    // Should detect position change
    assert_eq!(
        events,
        vec![MediaEvent::PositionChanged {
            player_name: "Music".to_string(),
            position: Duration::from_mins(1)
        }]
    );
}

#[test]
fn test_player_monitor_position_normal_playback() {
    let mut monitor = PlayerMonitor::new();

    // Initial state
    let track = create_test_track("Song 1");
    let initial_state = create_test_player_state_with_track(
        track.clone(),
        PlaybackState::Playing,
        Some(Duration::from_secs(10)),
        Some(0.8),
    );
    monitor.process_player("Music", Some(initial_state));

    // New state with normal 1 second progression
    let new_state = create_test_player_state_with_track(
        track,
        PlaybackState::Playing,
        Some(Duration::from_secs(11)),
        Some(0.8),
    );
    let events = monitor.process_player("Music", Some(new_state));

    // Should not detect position change for normal playback
    assert_eq!(events, Vec::<MediaEvent>::new());
}

#[test]
fn test_player_monitor_volume_changed() {
    let mut monitor = PlayerMonitor::new();

    // Initial state
    let track = create_test_track("Song 1");
    let initial_state = create_test_player_state_with_track(
        track.clone(),
        PlaybackState::Playing,
        Some(Duration::from_secs(10)),
        Some(0.8),
    );
    monitor.process_player("Music", Some(initial_state));

    // New state with different volume
    let new_state = create_test_player_state_with_track(
        track,
        PlaybackState::Playing,
        Some(Duration::from_secs(10)),
        Some(0.5),
    );
    let events = monitor.process_player("Music", Some(new_state));

    // Should detect volume change
    assert_eq!(
        events,
        vec![MediaEvent::VolumeChanged {
            player_name: "Music".to_string(),
            volume: level(0.5)
        }]
    );
}

#[test]
fn test_player_monitor_player_removed() {
    let mut monitor = PlayerMonitor::new();

    // Initial state - player running
    let track = create_test_track("Song 1");
    let initial_state = create_test_player_state_with_track(
        track,
        PlaybackState::Playing,
        Some(Duration::from_secs(10)),
        Some(0.8),
    );
    monitor.process_player("Music", Some(initial_state));

    // Player stopped
    let events = monitor.process_player("Music", None);

    // Should detect player removal
    assert_eq!(
        events,
        vec![MediaEvent::PlayerRemoved {
            player_name: "Music".to_string()
        }]
    );

    // State should be cleared
    assert!(!monitor.players.contains_key("Music"));
}

#[test]
fn test_player_monitor_multiple_players() {
    let mut monitor = PlayerMonitor::new();

    // Add Music.app
    let track1 = create_test_track("Song 1");
    let music_state = create_test_player_state_with_track(
        track1.clone(),
        PlaybackState::Playing,
        Some(Duration::from_secs(10)),
        Some(0.8),
    );
    let events = monitor.process_player("Music", Some(music_state));
    assert_eq!(
        events,
        vec![
            MediaEvent::PlayerAdded {
                player_name: "Music".to_string()
            },
            MediaEvent::TrackChanged {
                player_name: "Music".to_string(),
                track: track1
            },
            MediaEvent::StateChanged {
                player_name: "Music".to_string(),
                state: PlaybackState::Playing
            },
        ]
    );

    // Add Spotify
    let track2 = create_test_track("Song 2");
    let spotify_state = create_test_player_state_with_track(
        track2.clone(),
        PlaybackState::Playing,
        Some(Duration::from_secs(5)),
        Some(0.7),
    );
    let events = monitor.process_player("Spotify", Some(spotify_state));
    assert_eq!(
        events,
        vec![
            MediaEvent::PlayerAdded {
                player_name: "Spotify".to_string()
            },
            MediaEvent::TrackChanged {
                player_name: "Spotify".to_string(),
                track: track2
            },
            MediaEvent::StateChanged {
                player_name: "Spotify".to_string(),
                state: PlaybackState::Playing
            },
        ]
    );

    // Both should be tracked
    assert_eq!(monitor.players.len(), 2);
    assert!(monitor.players.contains_key("Music"));
    assert!(monitor.players.contains_key("Spotify"));
}

#[test]
fn test_player_monitor_multiple_changes() {
    let mut monitor = PlayerMonitor::new();

    // Initial state
    let track1 = create_test_track("Song 1");
    let initial_state = create_test_player_state_with_track(
        track1,
        PlaybackState::Playing,
        Some(Duration::from_secs(10)),
        Some(0.8),
    );
    monitor.process_player("Music", Some(initial_state));

    // New state with multiple changes
    let track2 = create_test_track("Song 2");
    let new_state = create_test_player_state_with_track(
        track2.clone(),
        PlaybackState::Paused,
        Some(Duration::from_mins(1)),
        Some(0.5),
    );
    let events = monitor.process_player("Music", Some(new_state));

    // Should detect all changes: track, state, position, volume
    assert_eq!(
        events,
        vec![
            MediaEvent::TrackChanged {
                player_name: "Music".to_string(),
                track: track2
            },
            MediaEvent::StateChanged {
                player_name: "Music".to_string(),
                state: PlaybackState::Paused
            },
            MediaEvent::PositionChanged {
                player_name: "Music".to_string(),
                position: Duration::from_mins(1)
            },
            MediaEvent::VolumeChanged {
                player_name: "Music".to_string(),
                volume: level(0.5)
            },
        ]
    );
}

#[test]
fn test_player_monitor_no_changes() {
    let mut monitor = PlayerMonitor::new();

    // Initial state
    let track = create_test_track("Song 1");
    let state = create_test_player_state_with_track(
        track,
        PlaybackState::Playing,
        Some(Duration::from_secs(10)),
        Some(0.8),
    );
    monitor.process_player("Music", Some(state.clone()));

    // Same state again
    let events = monitor.process_player("Music", Some(state));

    // Should not generate any events
    assert_eq!(events, Vec::<MediaEvent>::new());
}

#[test]
fn test_macos_media_source_new() {
    let _source = MacOSMediaSource::new();
}

#[test]
fn running_players_does_not_panic() {
    let _ = running_players(0, 0);
    let _ = running_players(usize::MAX, 1);
}
