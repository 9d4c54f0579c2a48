use std::time::Duration;

use nowhear::error::MediaSourceError;
use nowhear::platform::state::PlayerState;
use nowhear::platform::windows::monitor::{
    after_first_scan, EventDrivenPlayerMonitor, MonitorStep, RawNotification, ScanStep,
    SessionEntry, WakeUp,
};
use nowhear::types::{MediaEvent, PlaybackState, Track};

fn state(title: &str) -> PlayerState {
    let mut track = Track::unknown();
    track.title = title.to_string();
    PlayerState {
        track,
        playback_state: PlaybackState::Playing,
        position: Some(Duration::from_secs(10)),
        volume: None,
    }
}

fn complete() -> SessionEntry {
    SessionEntry {
        token_media_props: Some(1),
        token_playback_info: Some(2),
        token_timeline: Some(3),
    }
}

fn lost() -> MediaSourceError {
    MediaSourceError::ConnectionError("lost".to_string())
}

fn ids(list: &[&str]) -> Result<Vec<String>, MediaSourceError> {
    Ok(list.iter().map(|s| s.to_string()).collect())
}

fn added(id: &str, title: &str) -> Vec<MediaEvent> {
    vec![
        MediaEvent::PlayerAdded {
            player_name: id.to_string(),
        },
        MediaEvent::TrackChanged {
            player_name: id.to_string(),
            track: state(title).track,
        },
        MediaEvent::StateChanged {
            player_name: id.to_string(),
            state: PlaybackState::Playing,
        },
    ]
}

fn removed(id: &str) -> MediaEvent {
    MediaEvent::PlayerRemoved {
        player_name: id.to_string(),
    }
}

fn tracking(list: &[&str]) -> EventDrivenPlayerMonitor {
    let mut monitor = EventDrivenPlayerMonitor::new();
    assert_eq!(monitor.handle_sessions_changed(&ids(list)), Some(vec![]));
    for id in list {
        assert!(monitor.register_session(id, &complete()));
    }
    let readings = list
        .iter()
        .map(|id| (id.to_string(), Ok(state("Song"))))
        .collect();
    monitor.introduce_sessions(readings);
    monitor
}

fn change_of(id: &str) -> WakeUp {
    WakeUp::Notified(Some(RawNotification::SessionChanged { id: id.to_string() }))
}

#[test]
fn sessions_need_all_three_handlers() {
    assert!(complete().is_fully_registered());
    for missing in 0..3 {
        let mut entry = complete();
        match missing {
            0 => entry.token_media_props = None,
            1 => entry.token_playback_info = None,
            _ => entry.token_timeline = None,
        }
        assert!(!entry.is_fully_registered());
        let mut monitor = EventDrivenPlayerMonitor::new();
        assert!(!monitor.register_session("a", &entry));
        assert!(!monitor.is_tracked("a"));
        assert!(monitor.register_session("a", &complete()));
        assert!(monitor.is_tracked("a"));
        assert!(!monitor.register_session("a", &complete()));
    }
}

#[test]
fn the_first_scan_is_tried_three_times() {
    let pause = Duration::from_millis(500);
    for attempt in 0..2 {
        match after_first_scan(attempt, false) {
            ScanStep::RetryAfter(given) => assert_eq!(given, pause),
            ScanStep::Watch => panic!("gave up"),
        }
    }
    assert!(matches!(after_first_scan(2, false), ScanStep::Watch));
    for attempt in 0..3 {
        assert!(matches!(after_first_scan(attempt, true), ScanStep::Watch));
    }
    assert!(matches!(after_first_scan(u32::MAX, false), ScanStep::Watch));
}

#[test]
fn new_sessions_are_introduced() {
    let mut monitor = EventDrivenPlayerMonitor::new();
    assert_eq!(
        monitor.handle_sessions_changed(&ids(&["a", "b"])),
        Some(vec![])
    );
    assert!(monitor.register_session("a", &complete()));
    assert!(monitor.register_session("b", &complete()));
    let events = monitor.introduce_sessions(vec![
        ("a".to_string(), Ok(state("A"))),
        ("b".to_string(), Ok(state("B"))),
    ]);
    let mut expected = added("a", "A");
    expected.extend(added("b", "B"));
    assert_eq!(events, expected);
}

#[test]
fn sessions_that_cannot_be_read_are_tried_again() {
    let mut monitor = EventDrivenPlayerMonitor::new();
    assert!(monitor.register_session("a", &complete()));
    assert!(monitor.register_session("b", &complete()));
    let events = monitor.introduce_sessions(vec![
        ("a".to_string(), Err(lost())),
        ("b".to_string(), Ok(state("B"))),
    ]);
    assert_eq!(events, added("b", "B"));
    assert!(!monitor.is_tracked("a"));
    assert!(monitor.is_tracked("b"));
    assert!(monitor.register_session("a", &complete()));
    let events = monitor.introduce_sessions(vec![("a".to_string(), Ok(state("A")))]);
    assert_eq!(events, added("a", "A"));
}

#[test]
fn sessions_that_are_not_listed_are_removed() {
    let mut monitor = tracking(&["a", "b", "c"]);
    assert_eq!(
        monitor.handle_sessions_changed(&ids(&["b", "d"])),
        Some(vec![removed("a"), removed("c")])
    );
    assert!(!monitor.is_tracked("a"));
    assert!(monitor.is_tracked("b"));
    assert!(!monitor.is_tracked("d"));
    assert_eq!(monitor.handle_session_changed("a", Ok(state("X"))), vec![]);
    assert_eq!(monitor.handle_session_changed("b", Ok(state("Song"))), vec![]);
}

#[test]
fn failed_scans_change_nothing() {
    let mut monitor = tracking(&["a"]);
    assert_eq!(monitor.handle_sessions_changed(&Err(lost())), None);
    assert!(monitor.is_tracked("a"));
    assert_eq!(monitor.handle_session_changed("a", Ok(state("Song"))), vec![]);
}

#[test]
fn changes_are_reported_against_the_last_state() {
    let mut monitor = tracking(&["a"]);
    let mut paused = state("Song");
    paused.playback_state = PlaybackState::Paused;
    assert_eq!(
        monitor.handle_session_changed("a", Ok(paused.clone())),
        vec![MediaEvent::StateChanged {
            player_name: "a".to_string(),
            state: PlaybackState::Paused,
        }]
    );
    assert_eq!(monitor.handle_session_changed("a", Ok(paused.clone())), vec![]);
    assert_eq!(monitor.handle_session_changed("a", Err(lost())), vec![]);
    let mut late = paused;
    late.track.art_url = Some("data:,".to_string());
    late.position = Some(Duration::from_secs(12));
    assert_eq!(monitor.handle_session_changed("a", Ok(late.clone())), vec![]);
    late.position = Some(Duration::from_secs(14));
    assert_eq!(monitor.handle_session_changed("a", Ok(late)), vec![]);
}

#[test]
fn the_monitor_wakes_up_to_its_sessions() {
    let monitor = tracking(&["a"]);
    assert_eq!(
        monitor.run(WakeUp::Notified(Some(RawNotification::SessionsChanged))),
        MonitorStep::Scan
    );
    assert_eq!(
        monitor.run(change_of("a")),
        MonitorStep::Read("a".to_string())
    );
    assert_eq!(monitor.run(change_of("b")), MonitorStep::Wait);
    assert_eq!(monitor.run(WakeUp::Notified(None)), MonitorStep::Stop);
    assert_eq!(monitor.run(WakeUp::ConsumerGone), MonitorStep::Stop);
}

#[test]
fn scans_keep_the_states_that_were_seen() {
    let mut monitor = tracking(&["a", "b"]);
    assert_eq!(
        monitor.handle_session_changed("a", Ok(state("Other"))).len(),
        2
    );
    assert_eq!(
        monitor.handle_sessions_changed(&ids(&["a", "c", "c"])),
        Some(vec![removed("b")])
    );
    assert!(monitor.register_session("c", &complete()));
    assert!(!monitor.register_session("c", &complete()));
    let events = monitor.introduce_sessions(vec![("c".to_string(), Ok(state("New")))]);
    assert_eq!(events, added("c", "New"));
    assert_eq!(monitor.handle_session_changed("a", Ok(state("Other"))), vec![]);
    assert_eq!(monitor.handle_session_changed("c", Ok(state("New"))), vec![]);
}
