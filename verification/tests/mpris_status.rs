use nowhear::error::MediaSourceError;
use nowhear::platform::linux::playback_status::MprisPlaybackStatus;
use nowhear::types::PlaybackState;
use zbus::zvariant::Str;

#[test]
fn test_mpris_playback_status_try_from_str_ref_playing() {
    assert_eq!(
        MprisPlaybackStatus::try_from("Playing"),
        Ok(MprisPlaybackStatus::Playing)
    );
}

#[test]
fn test_mpris_playback_status_try_from_str_ref_paused() {
    assert_eq!(
        MprisPlaybackStatus::try_from("Paused"),
        Ok(MprisPlaybackStatus::Paused)
    );
}

#[test]
fn test_mpris_playback_status_try_from_str_ref_stopped() {
    assert_eq!(
        MprisPlaybackStatus::try_from("Stopped"),
        Ok(MprisPlaybackStatus::Stopped)
    );
}

#[test]
fn test_mpris_playback_status_try_from_str_ref_unknown() {
    assert_eq!(
        MprisPlaybackStatus::try_from("Foo"),
        Err(MediaSourceError::ParseError(
            "Unknown playback status: Foo".to_string()
        ))
    );
}

#[test]
fn test_mpris_playback_status_from_for_playback_state_playing() {
    assert_eq!(
        PlaybackState::from(MprisPlaybackStatus::Playing),
        PlaybackState::Playing
    );
}

#[test]
fn test_mpris_playback_status_from_for_playback_state_paused() {
    assert_eq!(
        PlaybackState::from(MprisPlaybackStatus::Paused),
        PlaybackState::Paused
    );
}

#[test]
fn test_mpris_playback_status_from_for_playback_state_stopped() {
    assert_eq!(
        PlaybackState::from(MprisPlaybackStatus::Stopped),
        PlaybackState::Stopped
    );
}

#[test]
fn status_is_read_from_a_bus_text() {
    assert_eq!(
        MprisPlaybackStatus::try_from(Str::from("Playing")),
        Ok(MprisPlaybackStatus::Playing)
    );
    assert_eq!(
        MprisPlaybackStatus::try_from(Str::from("playing")),
        Err(MediaSourceError::ParseError(
            "Unknown playback status: playing".to_string()
        ))
    );
}
