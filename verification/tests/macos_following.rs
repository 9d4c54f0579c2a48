use std::sync::Arc;
use std::time::Duration;

use nowhear::error::MediaSourceError;
use nowhear::number::Real64;
use nowhear::platform::macos::osa::{
    compile, error_message, execute, run, CompileOutcome, RequestOutcome, RunOutcome, ScriptCache,
    ScriptFailure,
};
use nowhear::platform::macos::provider::AllPlayerStates;
use nowhear::platform::macos::running::{
    running_players, RunningPlayers, MUSIC_BUNDLE_ID, SPOTIFY_BUNDLE_ID,
};
use nowhear::platform::macos::{get_player, MacOSMediaSource, PlayerMonitor};
use nowhear::platform::state::PlayerState;
use nowhear::types::{MediaEvent, PlaybackState, PlayerInfo, Track};

fn state(title: &str, playback_state: PlaybackState, position: u64) -> PlayerState {
    let mut track = Track::unknown();
    track.title = title.to_string();
    PlayerState {
        track,
        playback_state,
        position: Some(Duration::from_secs(position)),
        volume: Some(Real64::from_bits(0.8f64.to_bits())),
    }
}

fn internal<T>(text: &str) -> Result<T, MediaSourceError> {
    Err(MediaSourceError::InternalError(text.to_string()))
}

#[test]
fn sources_keep_their_provider() {
    let provider = Arc::new(17u32);
    let source = MacOSMediaSource::with_provider(provider);
    assert_eq!(**source.provider(), 17);
}

#[test]
fn players_run_with_at_least_one_process() {
    assert_eq!(
        running_players(0, 0),
        RunningPlayers {
            music: false,
            spotify: false
        }
    );
    assert_eq!(
        running_players(2, 0),
        RunningPlayers {
            music: true,
            spotify: false
        }
    );
    assert_eq!(
        running_players(0, 1),
        RunningPlayers {
            music: false,
            spotify: true
        }
    );
    assert_eq!(MUSIC_BUNDLE_ID, "com.apple.Music");
    assert_eq!(SPOTIFY_BUNDLE_ID, "com.spotify.client");
}

#[test]
fn player_information_is_that_of_the_reading() {
    let read = state("Test Song", PlaybackState::Playing, 10);
    assert_eq!(
        get_player("Music", Ok(Some(read.clone()))),
        Ok(PlayerInfo {
            player_name: "Music".to_string(),
            current_track: Some(read.track),
            playback_state: PlaybackState::Playing,
            position: Some(Duration::from_secs(10)),
            volume: read.volume,
        })
    );
    assert_eq!(get_player("Music", Ok(None)), Ok(PlayerInfo::empty("Music")));
    assert_eq!(
        get_player("Music", internal("broken")),
        internal("broken")
    );
}

#[test]
fn polls_process_music_before_spotify() {
    let mut monitor = PlayerMonitor::new();
    let events = monitor.poll(Ok(AllPlayerStates {
        music: Some(state("A", PlaybackState::Playing, 1)),
        spotify: Some(state("B", PlaybackState::Paused, 1)),
    }));
    let players: Vec<&str> = events
        .iter()
        .map(|event| match event {
            MediaEvent::PlayerAdded { player_name } => player_name.as_str(),
            MediaEvent::TrackChanged { player_name, .. } => player_name.as_str(),
            MediaEvent::StateChanged { player_name, .. } => player_name.as_str(),
            _ => panic!("unexpected event"),
        })
        .collect();
    assert_eq!(
        players,
        vec!["Music", "Music", "Music", "Spotify", "Spotify", "Spotify"]
    );
}

#[test]
fn failed_polls_remove_every_player() {
    let mut monitor = PlayerMonitor::new();
    monitor.poll(Ok(AllPlayerStates {
        music: Some(state("A", PlaybackState::Playing, 1)),
        spotify: Some(state("B", PlaybackState::Paused, 1)),
    }));
    assert_eq!(
        monitor.poll(internal("no answer")),
        vec![
            MediaEvent::PlayerRemoved {
                player_name: "Music".to_string()
            },
            MediaEvent::PlayerRemoved {
                player_name: "Spotify".to_string()
            },
        ]
    );
    assert_eq!(monitor.players.len(), 0);
    assert_eq!(monitor.poll(internal("no answer")), vec![]);
}

#[test]
fn players_that_come_back_are_added_again() {
    let mut monitor = PlayerMonitor::new();
    let read = state("A", PlaybackState::Playing, 1);
    let first = monitor.process_player("Music", Some(read.clone()));
    assert_eq!(monitor.process_player("Spotify", None), vec![]);
    monitor.process_player("Music", None);
    assert_eq!(monitor.process_player("Music", None), vec![]);
    assert_eq!(monitor.process_player("Music", Some(read)), first);
}

#[test]
fn a_volume_that_is_no_number_is_always_reported() {
    let mut monitor = PlayerMonitor::new();
    let mut read = state("A", PlaybackState::Playing, 1);
    read.volume = Some(Real64::from_bits(f64::NAN.to_bits()));
    monitor.process_player("Music", Some(read.clone()));
    assert_eq!(monitor.process_player("Music", Some(read)).len(), 1);
}

#[test]
fn failures_have_a_message() {
    assert_eq!(error_message(ScriptFailure::Silent), "(no error information)");
    assert_eq!(error_message(ScriptFailure::NoMessage), "(unknown OSA error)");
    assert_eq!(error_message(ScriptFailure::Message("x".to_string())), "x");
}

#[test]
fn compilations_end_in_a_script_or_an_error() {
    assert_eq!(compile(CompileOutcome::Compiled), Ok(()));
    assert_eq!(
        compile(CompileOutcome::NoLanguage),
        internal("JavaScript OSA language is unavailable")
    );
    assert_eq!(
        compile(CompileOutcome::NoScript),
        internal("OSAScript initialization failed")
    );
    assert_eq!(
        compile(CompileOutcome::Refused(ScriptFailure::Message(
            "syntax".to_string()
        ))),
        internal("OSA script compilation failed: syntax")
    );
}

#[test]
fn executions_end_in_a_text_or_an_error() {
    assert_eq!(
        run(RunOutcome::Text("{}".to_string())),
        Ok("{}".to_string())
    );
    assert_eq!(
        run(RunOutcome::NoText),
        internal("OSA script returned no string value")
    );
    assert_eq!(
        run(RunOutcome::Failed(ScriptFailure::Silent)),
        internal("OSA script execution failed: (no error information)")
    );
}

#[test]
fn requests_end_in_the_answer_or_an_error() {
    assert_eq!(
        execute(RequestOutcome::Answered(Ok("{}".to_string()))),
        Ok("{}".to_string())
    );
    assert_eq!(
        execute(RequestOutcome::Answered(internal("x"))),
        internal("x")
    );
    assert_eq!(
        execute(RequestOutcome::WorkerGone),
        internal("OSA worker thread is not running")
    );
    assert_eq!(
        execute(RequestOutcome::Unanswered),
        internal("OSA worker dropped the request")
    );
}

#[test]
fn scripts_are_compiled_once_and_failures_are_retried() {
    let mut cache = ScriptCache::new();
    assert_eq!(cache.find("a"), None);
    assert_eq!(
        cache.compiled("a", CompileOutcome::NoLanguage),
        internal("JavaScript OSA language is unavailable")
    );
    assert_eq!(cache.find("a"), None);
    assert_eq!(cache.compiled("a", CompileOutcome::Compiled), Ok(0));
    assert_eq!(cache.compiled("b", CompileOutcome::Compiled), Ok(1));
    assert_eq!(cache.compiled("a", CompileOutcome::Compiled), Ok(0));
    assert_eq!(cache.find("a"), Some(0));
    assert_eq!(cache.find("b"), Some(1));
}

#[test]
fn streams_of_polls_make_sense() {
    let answers = || {
        vec![
            Ok(AllPlayerStates {
                music: Some(state("A", PlaybackState::Playing, 1)),
                spotify: None,
            }),
            internal("no answer"),
            Ok(AllPlayerStates {
                music: Some(state("B", PlaybackState::Playing, 1)),
                spotify: Some(state("C", PlaybackState::Paused, 1)),
            }),
            Ok(AllPlayerStates {
                music: None,
                spotify: Some(state("D", PlaybackState::Paused, 1)),
            }),
        ]
    };
    let mut monitor = PlayerMonitor::new();
    let mut running: Vec<String> = vec![];
    for answer in answers() {
        for event in monitor.poll(answer) {
            match event {
                MediaEvent::PlayerAdded { player_name } => {
                    assert!(!running.contains(&player_name));
                    running.push(player_name);
                }
                MediaEvent::PlayerRemoved { player_name } => {
                    assert!(running.contains(&player_name));
                    running.retain(|name| *name != player_name);
                }
                MediaEvent::TrackChanged { player_name, .. }
                | MediaEvent::StateChanged { player_name, .. }
                | MediaEvent::PositionChanged { player_name, .. }
                | MediaEvent::VolumeChanged { player_name, .. } => {
                    assert!(running.contains(&player_name));
                }
            }
        }
    }
    assert_eq!(running, vec!["Spotify".to_string()]);
    assert!(monitor.players.contains_key("Spotify"));
    assert!(!monitor.players.contains_key("Music"));
}
