use nowhear::types::{MediaEvent, PlaybackState, PlayerInfo, Track};

#[test]
fn test_track_creation() {
    let track = Track::unknown();
    assert_eq!(track.title, "Unknown");
}

#[test]
fn test_playback_state() {
    let state = PlaybackState::Playing;
    assert_eq!(state, PlaybackState::Playing);
}

#[test]
fn unknown_track_says_nothing_else() {
    assert_eq!(
        Track::unknown(),
        Track {
            title: "Unknown".to_string(),
            artist: vec![],
            album: None,
            album_artist: vec![],
            track_number: None,
            duration: None,
            art_url: None,
        }
    );
}

#[test]
fn empty_player_info_is_stopped() {
    assert_eq!(
        PlayerInfo::empty("Music"),
        PlayerInfo {
            player_name: "Music".to_string(),
            current_track: None,
            playback_state: PlaybackState::Stopped,
            position: None,
            volume: None,
        }
    );
}

#[test]
fn clones_are_equal() {
    let mut track = Track::unknown();
    track.artist = vec!["A".to_string(), "B".to_string()];
    track.album = Some("C".to_string());
    assert_eq!(track.clone(), track);
    let event = MediaEvent::TrackChanged {
        player_name: "p".to_string(),
        track: track.clone(),
    };
    assert_eq!(event.clone(), event);
    let mut info = PlayerInfo::empty("p");
    info.current_track = Some(track);
    assert_eq!(info.clone(), info);
}
