use std::time::Duration;

use nowhear::error::MediaSourceError;
use nowhear::platform::state::PlayerState;
use nowhear::platform::windows::playback_status::{parse_playback_status, WinPlaybackStatus};
use nowhear::platform::windows::provider::{
    list_players, SessionAnswer, SessionReading, Step, StepFailure, WindowsMediaControlProvider,
};
use nowhear::platform::windows::track::{
    build_track, data_uri_around, encode_data_uri, read_thumbnail_data_uri, thumbnail_size,
    MediaProperties, ThumbnailReading, BASE64_DIGITS,
};
use nowhear::types::{PlaybackState, PlayerInfo, Track};

fn failure(step: Step) -> StepFailure {
    StepFailure {
        step,
        detail: "boom".to_string(),
    }
}

fn connection(text: &str) -> MediaSourceError {
    MediaSourceError::ConnectionError(text.to_string())
}

fn parse(text: &str) -> MediaSourceError {
    MediaSourceError::ParseError(text.to_string())
}

fn properties(title: &str, artist: &str, album: &str) -> MediaProperties {
    MediaProperties {
        title: Some(title.to_string()),
        artist: Some(artist.to_string()),
        album_title: Some(album.to_string()),
        track_number: Some(4),
        thumbnail: None,
    }
}

fn state(title: &str) -> PlayerState {
    let mut track = Track::unknown();
    track.title = title.to_string();
    PlayerState {
        track,
        playback_state: PlaybackState::Playing,
        position: Some(Duration::from_secs(10)),
        volume: None,
    }
}

fn answer(id: &str, title: &str) -> SessionAnswer {
    SessionAnswer::Identified {
        id: id.to_string(),
        state: Ok(state(title)),
    }
}

#[test]
fn nameless_statuses_count_as_stopped() {
    assert_eq!(
        parse_playback_status(WinPlaybackStatus::Opened),
        PlaybackState::Stopped
    );
    assert_eq!(
        parse_playback_status(WinPlaybackStatus::Other(9)),
        PlaybackState::Stopped
    );
}

#[test]
fn failed_steps_have_their_errors() {
    for (step, error) in [
        (
            Step::RequestManager,
            connection("Failed to get session manager: boom"),
        ),
        (
            Step::AwaitManager,
            connection("Failed to await session manager: boom"),
        ),
        (
            Step::GetSessions,
            connection("Failed to get sessions: boom"),
        ),
        (
            Step::CountSessions,
            connection("Failed to get sessions size: boom"),
        ),
        (Step::GetAppId, parse("Failed to get app ID: boom")),
        (
            Step::RequestMediaProperties,
            parse("Failed to get media properties: boom"),
        ),
        (
            Step::AwaitMediaProperties,
            parse("Failed to await media properties: boom"),
        ),
        (
            Step::GetPlaybackInfo,
            parse("Failed to get playback info: boom"),
        ),
        (
            Step::GetPlaybackStatus,
            parse("Failed to get playback status: boom"),
        ),
        (Step::GetTimeline, parse("Failed to get timeline: boom")),
    ] {
        assert_eq!(MediaSourceError::from(failure(step)), error);
        assert_eq!(
            WindowsMediaControlProvider::get_session_state(Err(failure(step))),
            Err(error)
        );
    }
}

#[test]
fn tracks_are_built_from_media_properties() {
    assert_eq!(
        build_track(
            properties("Song", "Artist", "Album"),
            Some(Duration::from_secs(3))
        ),
        Track {
            title: "Song".to_string(),
            artist: vec!["Artist".to_string()],
            album: Some("Album".to_string()),
            album_artist: vec![],
            track_number: Some(4),
            duration: Some(Duration::from_secs(3)),
            art_url: None,
        }
    );
    let mut empty = properties("", "", "");
    empty.track_number = Some(-1);
    assert_eq!(build_track(empty, None), Track::unknown());
    let unread = MediaProperties {
        title: None,
        artist: None,
        album_title: None,
        track_number: None,
        thumbnail: Some(ThumbnailReading {
            size: 2,
            content_type: Some("image/jpeg".to_string()),
            bytes: Some(b"Hi".to_vec()),
        }),
    };
    let track = build_track(unread, None);
    assert_eq!(track.title, "Unknown");
    assert_eq!(
        track.art_url,
        Some("data:image/jpeg;base64,SGk=".to_string())
    );
    let mut unreadable = properties("Song", "Artist", "Album");
    unreadable.thumbnail = Some(ThumbnailReading {
        size: 2,
        content_type: None,
        bytes: None,
    });
    assert_eq!(build_track(unreadable, None).art_url, None);
}

#[test]
fn session_states_are_read() {
    let reading = SessionReading {
        media_properties: properties("Song", "Artist", "Album"),
        playback_status: WinPlaybackStatus::Paused,
        position: Some(10_000_000),
        end_time: Some(1_800_000_000),
    };
    let read = WindowsMediaControlProvider::get_session_state(Ok(reading)).unwrap();
    assert_eq!(read.playback_state, PlaybackState::Paused);
    assert_eq!(read.position, Some(Duration::from_secs(1)));
    assert_eq!(read.track.duration, Some(Duration::from_secs(180)));
    assert_eq!(read.volume, None);
}

#[test]
fn unknown_times_are_left_out() {
    for (position, end_time) in [
        (None, None),
        (Some(-1), Some(0)),
        (Some(i64::MAX), Some(i64::MAX)),
        (Some(i64::MIN), Some(-5)),
    ] {
        let reading = SessionReading {
            media_properties: properties("Song", "Artist", "Album"),
            playback_status: WinPlaybackStatus::Playing,
            position,
            end_time,
        };
        let read = WindowsMediaControlProvider::get_session_state(Ok(reading)).unwrap();
        assert_eq!(read.position, None);
        assert_eq!(read.track.duration, None);
    }
}

#[test]
fn sessions_that_do_not_answer_time_out() {
    assert_eq!(
        WindowsMediaControlProvider::get_session_state_bounded(None),
        Err(connection("Timed out reading session state"))
    );
    assert_eq!(
        WindowsMediaControlProvider::get_session_state_bounded(Some(Ok(state("A")))),
        Ok(state("A"))
    );
    assert_eq!(
        WindowsMediaControlProvider::get_session_state_bounded(Some(Err(parse("x")))),
        Err(parse("x"))
    );
}

#[test]
fn sessions_that_cannot_be_fetched_are_left_out() {
    assert_eq!(
        WindowsMediaControlProvider::collect_sessions(Ok(vec![Some(1), None, Some(3)])),
        Ok(vec![1, 3])
    );
    assert_eq!(
        WindowsMediaControlProvider::collect_sessions::<u8>(Err(failure(Step::GetSessions))),
        Err(connection("Failed to get sessions: boom"))
    );
}

#[test]
fn sessions_are_listed_with_their_identifiers() {
    let named = WindowsMediaControlProvider::get_sessions_from_manager(Ok(vec![
        (Ok("a".to_string()), 1),
        (Err(failure(Step::GetAppId)), 2),
        (Ok("b".to_string()), 3),
    ]))
    .unwrap();
    let shown: Vec<(&str, i32)> = named.iter().map(|s| (s.id.as_str(), s.session)).collect();
    assert_eq!(shown, vec![("a", 1), ("b", 3)]);
    assert!(matches!(
        WindowsMediaControlProvider::get_sessions_from_manager::<u8>(Err(parse("x"))),
        Err(MediaSourceError::ParseError(_))
    ));
    assert_eq!(
        WindowsMediaControlProvider::get_session_id(Err(failure(Step::GetAppId))),
        Err(parse("Failed to get app ID: boom"))
    );
    assert_eq!(
        WindowsMediaControlProvider::get_session_id(Ok("a".to_string())),
        Ok("a".to_string())
    );
}

#[test]
fn sessions_are_found_by_identifier() {
    let ids = vec![
        Ok("a".to_string()),
        Ok("b".to_string()),
        Ok("b".to_string()),
        Err(failure(Step::GetAppId)),
    ];
    assert_eq!(WindowsMediaControlProvider::find_session(&ids, "b"), Ok(1));
    assert!(!WindowsMediaControlProvider::ends_search(&ids[0], "b"));
    assert!(WindowsMediaControlProvider::ends_search(&ids[1], "b"));
    assert!(WindowsMediaControlProvider::ends_search(&ids[3], "b"));
    assert_eq!(
        WindowsMediaControlProvider::find_session(&ids, "c"),
        Err(parse("Failed to get app ID: boom"))
    );
    assert_eq!(
        WindowsMediaControlProvider::find_session(&vec![Ok("a".to_string())], "nonexistent.exe"),
        Err(MediaSourceError::PlayerNotFound(
            "nonexistent.exe".to_string()
        ))
    );
}

#[test]
fn session_information_is_that_of_the_state() {
    assert_eq!(
        WindowsMediaControlProvider::get_session_info("Spotify.exe", Ok(state("A"))),
        Ok(PlayerInfo {
            player_name: "Spotify.exe".to_string(),
            current_track: Some(state("A").track),
            playback_state: PlaybackState::Playing,
            position: Some(Duration::from_secs(10)),
            volume: None,
        })
    );
    assert_eq!(
        WindowsMediaControlProvider::get_session_info("Spotify.exe", Err(parse("x"))),
        Err(parse("x"))
    );
}

#[test]
fn all_sessions_are_told_once_with_their_last_state() {
    let states = WindowsMediaControlProvider::get_all_sessions(vec![
        answer("Spotify.exe", "A"),
        SessionAnswer::Unidentified,
        answer("vlc.exe", "B"),
        SessionAnswer::Identified {
            id: "mute.exe".to_string(),
            state: Err(parse("x")),
        },
        answer("Spotify.exe", "C"),
    ]);
    assert_eq!(
        list_players(&states),
        vec!["Spotify.exe".to_string(), "vlc.exe".to_string()]
    );
    assert_eq!(states[0].1, state("C"));
    assert_eq!(states[1].1, state("B"));
    let none = WindowsMediaControlProvider::get_all_sessions(vec![]);
    assert_eq!(list_players(&none), Vec::<String>::new());
}

#[test]
fn thumbnails_are_loaded_within_limits() {
    assert_eq!(thumbnail_size(0), None);
    assert_eq!(thumbnail_size(1), Some(1));
    assert_eq!(thumbnail_size(u32::MAX as u64), Some(u32::MAX));
    assert_eq!(thumbnail_size(u32::MAX as u64 + 1), None);
}

#[test]
fn thumbnails_become_data_uris() {
    let mut thumbnail = ThumbnailReading {
        size: 2,
        content_type: Some("image/jpeg".to_string()),
        bytes: Some(b"Hi".to_vec()),
    };
    assert_eq!(
        read_thumbnail_data_uri(&thumbnail),
        Some("data:image/jpeg;base64,SGk=".to_string())
    );
    thumbnail.content_type = None;
    assert_eq!(
        read_thumbnail_data_uri(&thumbnail),
        Some("data:application/octet-stream;base64,SGk=".to_string())
    );
    thumbnail.size = 0;
    assert_eq!(read_thumbnail_data_uri(&thumbnail), None);
    thumbnail.size = u64::MAX;
    assert_eq!(read_thumbnail_data_uri(&thumbnail), None);
    thumbnail.size = 2;
    thumbnail.bytes = None;
    assert_eq!(read_thumbnail_data_uri(&thumbnail), None);
}

#[test]
fn base64_takes_four_characters_for_three_bytes() {
    let header = "data:image/png;base64,".len();
    for (count, length) in [(0, 0), (1, 4), (2, 4), (3, 4), (4, 8), (300, 400)] {
        let bytes = vec![7u8; count];
        assert_eq!(encode_data_uri("image/png", &bytes).len(), header + length);
    }
    assert_eq!(
        encode_data_uri("a/b", &[0xfb, 0xff, 0xfe]),
        "data:a/b;base64,+//+"
    );
    assert_eq!(data_uri_around("a/b", "QQ=="), "data:a/b;base64,QQ==");
}

#[test]
fn base64_follows_the_standard_alphabet() {
    for (bytes, text) in [
        ("", ""),
        ("f", "Zg=="),
        ("fo", "Zm8="),
        ("foo", "Zm9v"),
        ("foob", "Zm9vYg=="),
        ("fooba", "Zm9vYmE="),
        ("foobar", "Zm9vYmFy"),
    ] {
        assert_eq!(
            encode_data_uri("a/b", bytes.as_bytes()),
            data_uri_around("a/b", text)
        );
    }
    let all: Vec<u8> = (0..16u8)
        .flat_map(|i| {
            let n = u32::from(i) * 4;
            let bits = (n << 18) | ((n + 1) << 12) | ((n + 2) << 6) | (n + 3);
            [(bits >> 16) as u8, (bits >> 8) as u8, bits as u8]
        })
        .collect();
    assert_eq!(
        encode_data_uri("a/b", &all),
        data_uri_around("a/b", BASE64_DIGITS)
    );
}
