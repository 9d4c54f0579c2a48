use std::collections::HashMap;
use std::time::Duration;

use nowhear::error::MediaSourceError;
use nowhear::number::Real64;
use nowhear::platform::linux::provider::{BusEvent, LoopStep, MprisProvider, PlayerNameCache};
use nowhear::platform::linux::variant::Variant;
use nowhear::types::{MediaEvent, PlaybackState, PlayerInfo, Track};
use zbus::zvariant::Value;
use zbus::names::{BusName, UniqueName};
use zbus::Message;

fn level(x: f64) -> Real64 {
    Real64::from_bits(x.to_bits())
}

fn text(s: &str) -> Variant {
    Variant::Str(s.to_string())
}

fn cache_with(owner: &str, player: &str) -> PlayerNameCache {
    let mut cache = PlayerNameCache::new();
    cache.insert(owner.to_string(), player.to_string());
    cache
}

fn owner_signal(bus_name: &str, old_owner: &str, new_owner: &str) -> Message {
    Message::signal(
        "/org/freedesktop/DBus",
        "org.freedesktop.DBus",
        MprisProvider::NAME_OWNER_CHANGED_SIGNAL,
    )
    .unwrap()
    .sender("org.freedesktop.DBus")
    .unwrap()
    .build(&(bus_name, old_owner, new_owner))
    .unwrap()
}

fn seek_signal(sender: Option<&str>, position: i64) -> Message {
    let builder = Message::signal(
        MprisProvider::OBJECT_PATH,
        MprisProvider::PLAYER_INTERFACE,
        MprisProvider::SEEKED_SIGNAL,
    )
    .unwrap();
    match sender {
        Some(sender) => builder.sender(sender).unwrap().build(&position).unwrap(),
        None => builder.build(&position).unwrap(),
    }
}

fn property_signal(sender: Option<&str>, status: &str) -> Message {
    let mut changed: HashMap<&str, Value> = HashMap::new();
    changed.insert(MprisProvider::PLAYBACK_STATUS_PROPERTY, Value::new(status));
    let builder = Message::signal(
        MprisProvider::OBJECT_PATH,
        MprisProvider::PROPERTIES_INTERFACE,
        MprisProvider::PROPERTIES_CHANGED_SIGNAL,
    )
    .unwrap();
    let body = (MprisProvider::PLAYER_INTERFACE, changed, Vec::<&str>::new());
    match sender {
        Some(sender) => builder.sender(sender).unwrap().build(&body).unwrap(),
        None => builder.build(&body).unwrap(),
    }
}

fn unknown_service() -> zbus::Error {
    zbus::Error::MethodError(
        MprisProvider::SERVICE_UNKNOWN.try_into().unwrap(),
        None,
        seek_signal(None, 0),
    )
}

fn events_of(step: LoopStep) -> Vec<MediaEvent> {
    match step {
        LoopStep::Report(events) => events,
        LoopStep::Stop => panic!("stopped"),
    }
}

#[test]
fn bus_names_and_players_lead_to_each_other() {
    for player in ["spotify", "", "chromium.instance1234", "曲"] {
        let bus_name = MprisProvider::build_bus_name(player);
        assert!(MprisProvider::is_player_bus_name(&bus_name));
        assert_eq!(MprisProvider::extract_player_name(&bus_name), player);
    }
    assert_eq!(
        MprisProvider::build_bus_name("vlc"),
        "org.mpris.MediaPlayer2.vlc"
    );
    assert!(!MprisProvider::is_player_bus_name("org.mpris.MediaPlayer2"));
    assert!(!MprisProvider::is_player_bus_name(":1.5"));
}

#[test]
fn players_are_listed_in_the_order_of_their_names() {
    let names: Vec<String> = [
        "org.freedesktop.DBus",
        "org.mpris.MediaPlayer2.vlc",
        ":1.7",
        "org.mpris.MediaPlayer2.spotify",
        "xorg.mpris.MediaPlayer2.no",
    ]
    .iter()
    .map(|s| s.to_string())
    .collect();
    assert_eq!(
        MprisProvider::discover_players(&names),
        vec!["vlc".to_string(), "spotify".to_string()]
    );
    assert_eq!(
        MprisProvider::discover_players(&vec![]),
        Vec::<String>::new()
    );
}

#[test]
fn known_players_are_those_with_an_owner() {
    let found = vec![
        (
            "org.mpris.MediaPlayer2.vlc".to_string(),
            Some(":1.1".to_string()),
        ),
        ("org.mpris.MediaPlayer2.gone".to_string(), None),
        ("org.other".to_string(), Some(":1.2".to_string())),
    ];
    let cache = MprisProvider::initialize_player_name_cache(&found);
    assert_eq!(cache.get(":1.1"), Some(&"vlc".to_string()));
    assert_eq!(cache.get(":1.2"), None);
}

#[test]
fn playback_state_is_read_from_the_reply() {
    assert_eq!(
        MprisProvider::get_playback_state(Ok(Value::new("Playing")), "vlc"),
        Ok(PlaybackState::Playing)
    );
    assert_eq!(
        MprisProvider::get_playback_state(Ok(Value::new("Resting")), "vlc"),
        Err(MediaSourceError::ParseError(
            "Unknown playback status: Resting".to_string()
        ))
    );
    assert_eq!(
        MprisProvider::get_playback_state(Ok(Value::I32(1)), "vlc"),
        Err(MediaSourceError::ParseError(
            "Failed to get PlaybackStatus".to_string()
        ))
    );
}

#[test]
fn player_that_the_bus_does_not_know_is_not_found() {
    assert_eq!(
        MprisProvider::get_playback_state(Err(unknown_service()), "vlc"),
        Err(MediaSourceError::PlayerNotFound("vlc".to_string()))
    );
    let other = zbus::Error::MethodError(
        "org.freedesktop.DBus.Error.NoReply".try_into().unwrap(),
        None,
        seek_signal(None, 0),
    );
    let shown = other.to_string();
    assert_eq!(
        MprisProvider::get_playback_state(Err(other), "vlc"),
        Err(MediaSourceError::ConnectionError(shown))
    );
    let shown = zbus::Error::Unsupported.to_string();
    assert_eq!(
        MprisProvider::get_playback_state(Err(zbus::Error::Unsupported), "vlc"),
        Err(MediaSourceError::ConnectionError(shown))
    );
}

#[test]
fn positions_and_volumes_are_read_from_the_replies() {
    assert_eq!(
        MprisProvider::get_position(Ok(Value::I64(1_500_000))),
        Some(Duration::from_millis(1_500))
    );
    assert_eq!(MprisProvider::get_position(Ok(Value::I64(-1))), None);
    assert_eq!(MprisProvider::get_position(Ok(Value::U64(1))), None);
    assert_eq!(MprisProvider::get_position(Err(unknown_service())), None);
    assert_eq!(
        MprisProvider::get_volume(Ok(Value::F64(1.5))),
        Some(level(1.5))
    );
    assert_eq!(MprisProvider::get_volume(Ok(Value::I32(1))), None);
    assert_eq!(MprisProvider::get_volume(Err(unknown_service())), None);
}

#[test]
fn player_info_is_put_together() {
    let mut metadata: HashMap<&str, Value> = HashMap::new();
    metadata.insert("xesam:title", Value::new("Test Song"));
    let mut track = Track::unknown();
    track.title = "Test Song".to_string();
    assert_eq!(
        MprisProvider::get_player_info(
            "vlc",
            Ok(PlaybackState::Paused),
            Ok(Value::new(metadata)),
            Ok(Value::I64(45_000_000)),
            Ok(Value::F64(0.6)),
        ),
        Ok(PlayerInfo {
            player_name: "vlc".to_string(),
            current_track: Some(track),
            playback_state: PlaybackState::Paused,
            position: Some(Duration::from_secs(45)),
            volume: Some(level(0.6)),
        })
    );
    assert_eq!(
        MprisProvider::get_player_info(
            "vlc",
            Ok(PlaybackState::Stopped),
            Ok(Value::new("no metadata")),
            Err(unknown_service()),
            Err(unknown_service()),
        ),
        Ok(PlayerInfo::empty("vlc"))
    );
}

#[test]
fn player_without_a_status_is_an_error() {
    let status = MprisProvider::get_playback_state(Err(unknown_service()), "vlc");
    assert_eq!(
        MprisProvider::get_player_info(
            "vlc",
            status,
            Err(unknown_service()),
            Ok(Value::I64(1)),
            Ok(Value::F64(0.6)),
        ),
        Err(MediaSourceError::PlayerNotFound("vlc".to_string()))
    );
}

#[test]
fn bad_signals_leave_no_trace_in_a_run() {
    let signals = || {
        vec![
            BusEvent::NameOwnerChanged(Ok(owner_signal("org.mpris.MediaPlayer2.Foo", "", ":1.9"))),
            BusEvent::PropertiesChanged(Ok(property_signal(Some(":1.9"), "Playing"))),
            BusEvent::Seeked(Ok(seek_signal(Some(":1.9"), 2_000_000))),
        ]
    };
    let run = |events: Vec<BusEvent>| {
        let mut cache = PlayerNameCache::new();
        let mut reports = vec![];
        for event in events {
            reports.extend(events_of(MprisProvider::follow(event, &mut cache)));
        }
        reports
    };
    let expected = run(signals());
    assert_eq!(expected.len(), 3);
    for place in 0..=3 {
        for bad in [
            BusEvent::Seeked(Err(zbus::Error::Unsupported)),
            BusEvent::Seeked(Ok(seek_signal(Some(":1.9"), -1))),
            BusEvent::Seeked(Ok(seek_signal(None, 1))),
            BusEvent::PropertiesChanged(Ok(property_signal(Some(":1.9"), "Resting"))),
            BusEvent::PropertiesChanged(Ok(property_signal(None, "Playing"))),
        ] {
            let mut events = signals();
            events.insert(place, bad);
            assert_eq!(run(events), expected);
        }
    }
}

#[test]
fn property_changes_without_a_sender_are_an_error() {
    let cache = PlayerNameCache::new();
    assert_eq!(
        MprisProvider::handle_property_changed_message(&property_signal(None, "Playing"), &cache),
        Err(MediaSourceError::InternalError(
            "Failed to get sender".to_string()
        ))
    );
    assert_eq!(
        MprisProvider::handle_seeked_message(&seek_signal(None, 1), &cache),
        Err(MediaSourceError::InternalError(
            "Failed to get sender".to_string()
        ))
    );
}

#[test]
fn unknown_status_among_the_changes_is_an_error() {
    let cache = cache_with(":foo.bar", "Foo");
    let fields = vec![
        text(MprisProvider::PLAYER_INTERFACE),
        Variant::Dict(vec![
            (text("Volume"), Variant::F64(level(0.5))),
            (text("PlaybackStatus"), text("Resting")),
        ]),
        Variant::Array(vec![]),
    ];
    assert_eq!(
        MprisProvider::property_changes(&fields, Some(":foo.bar".to_string()), &cache),
        Err(MediaSourceError::ParseError(
            "Unknown playback status: Resting".to_string()
        ))
    );
}

#[test]
fn bodies_of_another_shape_report_nothing() {
    let cache = cache_with(":foo.bar", "Foo");
    for fields in [
        vec![],
        vec![text("a"), Variant::Dict(vec![])],
        vec![text("a"), text("b"), text("c")],
        vec![text("a"), Variant::Dict(vec![]), text("c"), text("d")],
    ] {
        assert_eq!(
            MprisProvider::property_changes(&fields, None, &cache),
            Ok(vec![])
        );
    }
}

#[test]
fn changes_of_other_types_report_nothing() {
    let cache = cache_with(":foo.bar", "Foo");
    let fields = vec![
        text("i"),
        Variant::Dict(vec![
            (text("Volume"), Variant::I32(1)),
            (text("PlaybackStatus"), Variant::I32(1)),
            (text("Metadata"), text("no dictionary")),
        ]),
        Variant::Array(vec![]),
    ];
    assert_eq!(
        MprisProvider::property_changes(&fields, Some(":foo.bar".to_string()), &cache),
        Ok(vec![])
    );
}

#[test]
fn malformed_bodies_are_parse_errors() {
    let mut cache = cache_with(":foo.bar", "Foo");
    assert!(matches!(
        MprisProvider::handle_name_owner_changed_message(
            &seek_signal(Some(":foo.bar"), 1),
            &mut cache
        ),
        Err(MediaSourceError::ParseError(_))
    ));
    assert_eq!(cache.get(":foo.bar"), Some(&"Foo".to_string()));
    assert!(matches!(
        MprisProvider::handle_seeked_message(&property_signal(Some(":foo.bar"), "x"), &cache),
        Err(MediaSourceError::ParseError(_))
    ));
    let bare = Message::signal(
        MprisProvider::OBJECT_PATH,
        MprisProvider::PROPERTIES_INTERFACE,
        MprisProvider::PROPERTIES_CHANGED_SIGNAL,
    )
    .unwrap()
    .build(&())
    .unwrap();
    assert!(matches!(
        MprisProvider::handle_property_changed_message(&bare, &cache),
        Err(MediaSourceError::ParseError(_))
    ));
    assert_eq!(
        MprisProvider::handle_property_changed_message(&seek_signal(Some(":foo.bar"), 1), &cache),
        Ok(vec![])
    );
}

#[test]
fn negative_seeks_are_parse_errors() {
    let cache = cache_with(":foo.bar", "Foo");
    assert_eq!(
        MprisProvider::handle_seeked_message(&seek_signal(Some(":foo.bar"), -1), &cache),
        Err(MediaSourceError::ParseError(
            "Failed to convert position".to_string()
        ))
    );
    assert_eq!(
        MprisProvider::seeked("Foo", i64::MAX),
        Ok(Some(MediaEvent::PositionChanged {
            player_name: "Foo".to_string(),
            position: Duration::from_micros(i64::MAX as u64),
        }))
    );
}

#[test]
fn names_that_change_hands_report_nothing() {
    let mut cache = cache_with(":1.1", "Foo");
    for (name, old, new) in [
        ("org.mpris.MediaPlayer2.Foo", ":1.1", ":1.2"),
        ("org.mpris.MediaPlayer2.Foo", "", ""),
        ("org.other", "", ":1.3"),
        ("org.other", ":1.1", ""),
    ] {
        assert_eq!(
            MprisProvider::handle_name_owner_changed_message(
                &owner_signal(name, old, new),
                &mut cache
            ),
            Ok(None)
        );
    }
    assert_eq!(cache.get(":1.1"), Some(&"Foo".to_string()));
    assert_eq!(cache.get(":1.2"), None);
    assert_eq!(cache.get(":1.3"), None);
}

#[test]
fn players_are_followed_from_arrival_to_departure() {
    let mut cache = PlayerNameCache::new();
    let early = property_signal(Some(":1.9"), "Playing");
    let step = MprisProvider::follow(BusEvent::PropertiesChanged(Ok(early)), &mut cache);
    assert_eq!(events_of(step), vec![]);

    let added = owner_signal("org.mpris.MediaPlayer2.Foo", "", ":1.9");
    let step = MprisProvider::follow(BusEvent::NameOwnerChanged(Ok(added)), &mut cache);
    assert_eq!(
        events_of(step),
        vec![MediaEvent::PlayerAdded {
            player_name: "Foo".to_string()
        }]
    );

    let played = property_signal(Some(":1.9"), "Playing");
    let step = MprisProvider::follow(BusEvent::PropertiesChanged(Ok(played)), &mut cache);
    assert_eq!(
        events_of(step),
        vec![MediaEvent::StateChanged {
            player_name: "Foo".to_string(),
            state: PlaybackState::Playing,
        }]
    );

    let seeked = seek_signal(Some(":1.9"), 2_000_000);
    let step = MprisProvider::follow(BusEvent::Seeked(Ok(seeked)), &mut cache);
    assert_eq!(
        events_of(step),
        vec![MediaEvent::PositionChanged {
            player_name: "Foo".to_string(),
            position: Duration::from_secs(2),
        }]
    );

    let removed = owner_signal("org.mpris.MediaPlayer2.Foo", ":1.9", "");
    let step = MprisProvider::follow(BusEvent::NameOwnerChanged(Ok(removed)), &mut cache);
    assert_eq!(
        events_of(step),
        vec![MediaEvent::PlayerRemoved {
            player_name: "Foo".to_string()
        }]
    );
    assert_eq!(cache.get(":1.9"), None);

    let late = seek_signal(Some(":1.9"), 2_000_000);
    let step = MprisProvider::follow(BusEvent::Seeked(Ok(late)), &mut cache);
    assert_eq!(events_of(step), vec![]);
}

#[test]
fn bad_signals_do_not_stop_the_loop() {
    let mut cache = cache_with(":foo.bar", "Foo");
    for event in [
        BusEvent::PropertiesChanged(Err(zbus::Error::Unsupported)),
        BusEvent::NameOwnerChanged(Err(zbus::Error::Unsupported)),
        BusEvent::Seeked(Err(zbus::Error::Unsupported)),
        BusEvent::PropertiesChanged(Ok(property_signal(Some(":foo.bar"), "Resting"))),
        BusEvent::PropertiesChanged(Ok(property_signal(None, "Playing"))),
        BusEvent::NameOwnerChanged(Ok(seek_signal(Some(":foo.bar"), 1))),
        BusEvent::Seeked(Ok(seek_signal(Some(":foo.bar"), -1))),
        BusEvent::Seeked(Ok(seek_signal(None, 1))),
    ] {
        assert_eq!(events_of(MprisProvider::follow(event, &mut cache)), vec![]);
    }
    assert_eq!(cache.get(":foo.bar"), Some(&"Foo".to_string()));
}

#[test]
fn the_loop_stops_with_its_consumer_or_its_signals() {
    let mut cache = PlayerNameCache::new();
    assert!(matches!(
        MprisProvider::follow(BusEvent::ConsumerGone, &mut cache),
        LoopStep::Stop
    ));
    assert!(matches!(
        MprisProvider::follow(BusEvent::SignalsEnded, &mut cache),
        LoopStep::Stop
    ));
}

#[test]
fn senders_with_an_invalid_name_are_read() {
    let msg = Message::signal("/a", "a.b", "C")
        .unwrap()
        .sender(UniqueName::from_str_unchecked("nobody"))
        .unwrap()
        .build(&5i64)
        .unwrap();
    let cache = cache_with("nobody", "Foo");
    assert_eq!(
        MprisProvider::handle_seeked_message(&msg, &cache),
        Ok(Some(MediaEvent::PositionChanged {
            player_name: "Foo".to_string(),
            position: Duration::from_micros(5),
        }))
    );
    assert_eq!(
        MprisProvider::handle_property_changed_message(&msg, &cache),
        Ok(vec![])
    );
}

#[test]
fn headers_that_cannot_be_read_are_parse_errors() {
    let signal = || {
        Message::signal("/a", "a.b", "C")
            .unwrap()
            .sender(":1.9")
            .unwrap()
            .destination(BusName::from(UniqueName::from_str_unchecked("x")))
            .unwrap()
            .build(&5i64)
            .unwrap()
    };
    let mut cache = cache_with(":1.9", "Foo");
    assert!(matches!(
        MprisProvider::handle_seeked_message(&signal(), &cache),
        Err(MediaSourceError::ParseError(_))
    ));
    assert!(matches!(
        MprisProvider::handle_property_changed_message(&signal(), &cache),
        Err(MediaSourceError::ParseError(_))
    ));
    assert!(matches!(
        MprisProvider::handle_name_owner_changed_message(&signal(), &mut cache),
        Err(MediaSourceError::ParseError(_))
    ));
    let step = MprisProvider::follow(BusEvent::Seeked(Ok(signal())), &mut cache);
    assert_eq!(events_of(step), vec![]);
}
