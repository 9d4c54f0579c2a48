use std::collections::HashMap;
use std::time::Duration;

use nowhear::number::Real64;
use nowhear::platform::linux::metadata::MprisMetadata;
use nowhear::platform::linux::variant::Variant;
use nowhear::types::Track;
use zbus::zvariant::{Dict, Value};

#[test]
fn test_mpris_metadata_try_from_dict_with_full_info() {
    let mut values = HashMap::new();
    values.insert("mpris:artUrl", Value::new("file:///path/to/art.jpg"));
    values.insert("mpris:length", Value::U64(180_000_000)); // microseconds
    values.insert("mpris:trackid", Value::new("/com/spotify/track/deadbeef"));
    values.insert("xesam:album", Value::new("Test Album"));
    values.insert("xesam:albumArtist", Value::new(vec!["Album Artist"]));
    values.insert("xesam:artist", Value::new(vec!["Test Artist"]));
    values.insert("xesam:autoRating", Value::new(0.33));
    values.insert("xesam:discNumber", Value::I32(1));
    values.insert("xesam:title", Value::new("Test Song"));
    values.insert("xesam:trackNumber", Value::I32(5));
    values.insert("xesam:url", Value::new("https://example.com"));
    let dict = Dict::from(values);

    let metadata = MprisMetadata::try_from(dict);

    assert_eq!(
        metadata,
        Ok(MprisMetadata {
            art_url: Some("file:///path/to/art.jpg".to_owned()),
            length: Some(180_000_000), // microseconds
            track_id: Some("/com/spotify/track/deadbeef".to_owned()),
            album: Some("Test Album".to_owned()),
            album_artist: vec!["Album Artist".to_owned()],
            artist: vec!["Test Artist".to_owned()],
            auto_rating: Some(Real64::from_bits(0.33f64.to_bits())),
            disc_number: Some(1),
            title: Some("Test Song".to_owned()),
            track_number: Some(5),
            url: Some("https://example.com".to_owned()),
        })
    );
}

#[test]
fn test_parse_metadata_with_multiple_artists() {
    let mut values = HashMap::new();
    values.insert("xesam:title", Value::new("Collaboration Song"));
    values.insert(
        "xesam:artist",
        Value::new(vec!["Artist 1", "Artist 2", "Artist 3"]),
    );
    let dict = Dict::from(values);

    let metadata = MprisMetadata::try_from(dict);

    assert_eq!(
        metadata,
        Ok(MprisMetadata {
            title: Some("Collaboration Song".to_owned()),
            artist: vec![
                "Artist 1".to_string(),
                "Artist 2".to_string(),
                "Artist 3".to_string()
            ],
            ..Default::default()
        })
    );
}

#[test]
fn test_parse_metadata_with_minimal_info() {
    let mut values = HashMap::new();
    values.insert("xesam:title", "Minimal Song");
    let dict = Dict::from(values);

    let metadata = MprisMetadata::try_from(dict);

    assert_eq!(
        metadata,
        Ok(MprisMetadata {
            title: Some("Minimal Song".to_owned()),
            ..Default::default()
        })
    );
}

#[test]
fn test_parse_metadata_without_title() {
    let mut values = HashMap::new();
    values.insert("xesam:artist", vec!["Artist Only"]);
    let dict = Dict::from(values);

    let metadata = MprisMetadata::try_from(dict);

    assert_eq!(
        metadata,
        Ok(MprisMetadata {
            title: None,
            artist: vec!["Artist Only".to_owned()],
            ..Default::default()
        })
    );
}

#[test]
fn test_parse_metadata_with_empty_metadata() {
    let values: HashMap<String, Value> = HashMap::new();
    let dict = Dict::from(values);

    let metadata = MprisMetadata::try_from(dict);

    assert_eq!(metadata, Ok(MprisMetadata::default()));
}

#[test]
fn test_parse_metadata_with_unicode() {
    let mut values = HashMap::new();
    values.insert("xesam:title", Value::new("テスト曲"));
    values.insert("xesam:artist", Value::new(vec!["アーティスト名"]));
    values.insert("xesam:album", Value::new("アルバム🎵"));
    let dict = Dict::from(values);

    let metadata = MprisMetadata::try_from(dict);

    assert_eq!(
        metadata,
        Ok(MprisMetadata {
            title: Some("テスト曲".to_string()),
            artist: vec!["アーティスト名".to_string()],
            album: Some("アルバム🎵".to_string()),
            ..Default::default()
        })
    );
}

#[test]
fn test_parse_metadata_with_special_characters() {
    let mut values = HashMap::new();
    values.insert(
        "xesam:title",
        Value::new("Song: The \"Best\" & Greatest (2024)"),
    );
    values.insert("xesam:artist", Value::new(vec!["Artist's Name / Band"]));
    values.insert("xesam:album", Value::new("Album <Special Edition>"));
    let dict = Dict::from(values);

    let metadata = MprisMetadata::try_from(dict);

    assert_eq!(
        metadata,
        Ok(MprisMetadata {
            title: Some("Song: The \"Best\" & Greatest (2024)".to_owned()),
            artist: vec!["Artist's Name / Band".to_string()],
            album: Some("Album <Special Edition>".to_string()),
            ..Default::default()
        })
    );
}

#[test]
fn test_parse_metadata_with_multiple_album_artists() {
    let mut values = HashMap::new();
    values.insert("xesam:title", Value::new("Compilation Track"));
    values.insert("xesam:artist", Value::new(vec!["Track Artist"]));
    values.insert("xesam:album", Value::new("Various Artists"));
    values.insert(
        "xesam:albumArtist",
        Value::new(vec!["Artist A", "Artist B"]),
    );
    let dict = Dict::from(values);

    let metadata = MprisMetadata::try_from(dict);

    assert_eq!(
        metadata,
        Ok(MprisMetadata {
            title: Some("Compilation Track".to_string()),
            artist: vec!["Track Artist".to_string()],
            album: Some("Various Artists".to_string()),
            album_artist: vec!["Artist A".to_string(), "Artist B".to_string()],
            ..Default::default()
        })
    );
}

#[test]
fn test_mpris_metadata_from_for_track() {
    let metadata = MprisMetadata {
        title: Some("Test Song".to_owned()),
        artist: vec!["Test Artist".to_owned()],
        album: Some("Test Album".to_owned()),
        album_artist: vec!["Album Artist".to_owned()],
        track_number: Some(5),
        length: Some(180_000_000), // microseconds
        art_url: Some("file:///path/to/art.jpg".to_owned()),
        track_id: None,
        auto_rating: None,
        disc_number: None,
        url: None,
    };
    let track = Track::from(metadata);

    assert_eq!(
        track,
        Track {
            title: "Test Song".to_string(),
            artist: vec!["Test Artist".to_string()],
            album: Some("Test Album".to_string()),
            album_artist: vec!["Album Artist".to_string()],
            track_number: Some(5),
            duration: Some(Duration::from_mins(3)),
            art_url: Some("file:///path/to/art.jpg".to_string()),
        }
    );
}

#[test]
fn test_parse_metadata_filters_empty_strings() {
    let mut values = HashMap::new();
    values.insert("xesam:title", Value::new("Test Song"));
    values.insert("xesam:artist", Value::new(vec!["Artist 1", "", "Artist 2"]));
    values.insert(
        "xesam:albumArtist",
        Value::new(vec!["", "Album Artist", ""]),
    );
    values.insert("xesam:album", Value::new(""));
    values.insert("mpris:artUrl", Value::new(""));
    let dict = Dict::from(values);

    let metadata = MprisMetadata::try_from(dict);

    assert_eq!(
        metadata,
        Ok(MprisMetadata {
            title: Some("Test Song".to_string()),
            artist: vec!["Artist 1".to_string(), "Artist 2".to_string()],
            album_artist: vec!["Album Artist".to_string()],
            album: None,
            art_url: None,
            ..Default::default()
        })
    );
}

#[test]
fn values_of_other_types_tell_nothing() {
    let mut values = HashMap::new();
    values.insert("xesam:title", Value::I32(1));
    values.insert("xesam:artist", Value::new("not a list"));
    values.insert("mpris:length", Value::I64(5));
    values.insert("xesam:trackNumber", Value::U64(5));
    values.insert("xesam:autoRating", Value::I32(1));
    let dict = Dict::from(values);

    assert_eq!(MprisMetadata::try_from(dict), Ok(MprisMetadata::default()));
}

#[test]
fn other_items_in_a_list_of_names_are_left_out() {
    let mut values = HashMap::new();
    values.insert("xesam:artist", Value::new(vec![1i32, 2]));
    let dict = Dict::from(values);

    assert_eq!(MprisMetadata::try_from(dict), Ok(MprisMetadata::default()));
}

#[test]
fn plain_entries_are_looked_up() {
    let entries = vec![
        (
            Variant::Str("xesam:title".to_string()),
            Variant::Boxed(Box::new(Variant::Str("First".to_string()))),
        ),
        (
            Variant::Str("xesam:title".to_string()),
            Variant::Str("Second".to_string()),
        ),
        (Variant::I32(1), Variant::Str("no text key".to_string())),
        (
            Variant::Str("xesam:album".to_string()),
            Variant::Boxed(Box::new(Variant::Boxed(Box::new(Variant::Str(
                "wrapped twice".to_string(),
            ))))),
        ),
        (Variant::Str("mpris:length".to_string()), Variant::U64(7)),
    ];
    let metadata = MprisMetadata::from_entries(&entries);
    assert_eq!(metadata.title, Some("First".to_string()));
    assert_eq!(metadata.album, None);
    assert_eq!(metadata.length, Some(7));
}

#[test]
fn negative_track_number_is_left_out() {
    let metadata = MprisMetadata {
        track_number: Some(-1),
        ..Default::default()
    };
    let track = Track::from(metadata.clone());
    assert_eq!(track.track_number, None);
    assert_eq!(track.title, "Unknown");
    assert_eq!(metadata.clone(), metadata);
}
