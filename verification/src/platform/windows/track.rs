//! Tracks, artwork and time values as Windows Media Control tells them.

use std::time::Duration;

use base64::Engine;
use vstd::prelude::*;
use vstd::string::*;

use crate::text::{holds_empty, joined, non_empty, unless_empty};
use crate::time::optional_nanos;
use crate::types::{Track, TrackModel};

verus! {

/// MIME type used when the thumbnail stream does not report a content type.
pub const DEFAULT_ART_MIME: &'static str = "application/octet-stream";

/// The media properties of a session; a property that could not be read is absent.
#[derive(Debug)]
pub struct MediaProperties {
    pub title: Option<String>,
    pub artist: Option<String>,
    pub album_title: Option<String>,
    pub track_number: Option<i32>,
    pub thumbnail: Option<ThumbnailReading>,
}

/// What a [`MediaProperties`] says.
pub struct MediaPropertiesModel {
    pub title: Option<Seq<char>>,
    pub artist: Option<Seq<char>>,
    pub album_title: Option<Seq<char>>,
    pub track_number: Option<i32>,
    pub thumbnail: Option<ThumbnailModel>,
}

impl View for MediaProperties {
    type V = MediaPropertiesModel;

    open spec fn view(&self) -> MediaPropertiesModel {
        MediaPropertiesModel {
            title: self.title.deep_view(),
            artist: self.artist.deep_view(),
            album_title: self.album_title.deep_view(),
            track_number: self.track_number,
            thumbnail: match self.thumbnail {
                Some(thumbnail) => Some(thumbnail@),
                None => None,
            },
        }
    }
}

impl MediaPropertiesModel {
    /// Whether the base64 text of the thumbnail, if there is one, fits into a `String`.
    pub open spec fn encodable(self) -> bool {
        self.thumbnail matches Some(thumbnail) ==> thumbnail.encodable()
    }
}

/// An optional text unless it is empty.
pub open spec fn filled(text: Option<Seq<char>>) -> Option<Seq<char>> {
    match text {
        Some(s) => unless_empty(s),
        None => None,
    }
}

/// The track that media properties describe: "Unknown" without a title, at most one artist, no
/// empty artist or album, no negative track number, the thumbnail as its artwork.
pub open spec fn shown_track(
    properties: MediaPropertiesModel,
    duration: Option<nat>,
) -> TrackModel {
    TrackModel {
        title: match filled(properties.title) {
            Some(title) => title,
            None => "Unknown"@,
        },
        artist: match filled(properties.artist) {
            Some(artist) => seq![artist],
            None => seq![],
        },
        album: filled(properties.album_title),
        album_artist: seq![],
        track_number: match properties.track_number {
            Some(n) => if n >= 0 {
                Some(n as u32)
            } else {
                None
            },
            None => None,
        },
        duration,
        art_url: match properties.thumbnail {
            Some(thumbnail) => thumbnail_uri(thumbnail),
            None => None,
        },
    }
}

fn filled_text(text: Option<String>) -> (r: Option<String>)
    ensures
        r.deep_view() == filled(text.deep_view()),
{
    match text {
        Some(s) => non_empty(s),
        None => None,
    }
}

/// The track that media properties describe.
pub fn build_track(media_props: MediaProperties, duration: Option<Duration>) -> (r: Track)
    requires
        media_props@.encodable(),
    ensures
        r@ == shown_track(media_props@, optional_nanos(duration)),
{
    let mut track = Track::unknown();
    if let Some(title) = filled_text(media_props.title) {
        track.title = title;
    }
    if let Some(artist) = filled_text(media_props.artist) {
        let ghost name = artist@;
        track.artist.push(artist);
        assert(track.artist.deep_view() =~= seq![name]);
    }
    track.album = filled_text(media_props.album_title);
    track.track_number = match media_props.track_number {
        Some(n) => if n >= 0 {
            Some(n as u32)
        } else {
            None
        },
        None => None,
    };
    track.duration = duration;
    track.art_url = match &media_props.thumbnail {
        Some(thumbnail) => read_thumbnail_data_uri(thumbnail),
        None => None,
    };
    track
}

/// The thumbnail of a session, as far as it could be read.
#[derive(Debug)]
pub struct ThumbnailReading {
    /// The size that the stream reports.
    pub size: u64,
    /// The content type that the stream reports.
    pub content_type: Option<String>,
    /// The bytes that the stream holds.
    pub bytes: Option<Vec<u8>>,
}

/// What a [`ThumbnailReading`] says.
pub struct ThumbnailModel {
    pub size: u64,
    pub content_type: Option<Seq<char>>,
    pub bytes: Option<Seq<u8>>,
}

impl View for ThumbnailReading {
    type V = ThumbnailModel;

    open spec fn view(&self) -> ThumbnailModel {
        ThumbnailModel {
            size: self.size,
            content_type: self.content_type.deep_view(),
            bytes: match self.bytes {
                Some(bytes) => Some(bytes@),
                None => None,
            },
        }
    }
}

impl ThumbnailModel {
    /// Whether the base64 text of the bytes fits into a `String`.
    pub open spec fn encodable(self) -> bool {
        self.bytes matches Some(bytes) ==> base64_len(bytes.len()) <= isize::MAX
    }
}

/// How many bytes of a thumbnail are to be read: none of an empty one, nor of one that is too
/// large to be loaded at once.
pub open spec fn bytes_to_load(size: u64) -> Option<u32> {
    if 0 < size <= u32::MAX {
        Some(size as u32)
    } else {
        None
    }
}

/// How many bytes of a thumbnail of that size are to be read, if any.
pub fn thumbnail_size(size: u64) -> (r: Option<u32>)
    ensures
        r == bytes_to_load(size),
{
    if size == 0 || size > u32::MAX as u64 {
        None
    } else {
        Some(size as u32)
    }
}

/// The digits of standard base64.
pub const BASE64_DIGITS: &'static str =
    "ABCDEFGHIJKLMNOPQRSTUVWXYZabcdefghijklmnopqrstuvwxyz0123456789+/";

/// The digit for six bits.
pub open spec fn base64_digit(bits: int) -> char {
    BASE64_DIGITS@[bits]
}

/// The standard base64 text of some bytes: four digits for every three bytes, and padding for
/// what is missing of the last three.
pub open spec fn base64_text(bytes: Seq<u8>) -> Seq<char>
    decreases bytes.len(),
{
    if bytes.len() == 0 {
        seq![]
    } else {
        let a = bytes[0] as int;
        let b = if bytes.len() > 1 { bytes[1] as int } else { 0 };
        let c = if bytes.len() > 2 { bytes[2] as int } else { 0 };
        let first = base64_digit(a / 4);
        let second = base64_digit(a % 4 * 16 + b / 16);
        let third = base64_digit(b % 16 * 4 + c / 64);
        let fourth = base64_digit(c % 64);
        if bytes.len() == 1 {
            seq![first, second, '=', '=']
        } else if bytes.len() == 2 {
            seq![first, second, third, '=']
        } else {
            seq![first, second, third, fourth] + base64_text(bytes.skip(3))
        }
    }
}

/// The length of the base64 text of that many bytes: four characters for every three bytes or
/// part of three.
pub open spec fn base64_len(count: nat) -> nat {
    4 * ((count + 2) / 3)
}

/// A base64 text has four characters for every three bytes or part of three.
pub proof fn base64_text_has_its_length(bytes: Seq<u8>)
    ensures
        base64_text(bytes).len() == base64_len(bytes.len()),
    decreases bytes.len(),
{
    if bytes.len() >= 3 {
        base64_text_has_its_length(bytes.skip(3));
    }
}

/// `Engine::encode` of `base64::engine::general_purpose::STANDARD` gives the base64 text in the
/// standard alphabet, with padding. It panics where the text is too long for a `String`.
#[verifier::external_body]
fn encode_base64(bytes: &[u8]) -> (r: String)
    requires
        base64_len(bytes@.len()) <= isize::MAX,
    ensures
        r@ == base64_text(bytes@),
{
    base64::engine::general_purpose::STANDARD.encode(bytes)
}

/// A `data:` URI of some content.
pub open spec fn data_uri(content_type: Seq<char>, bytes: Seq<u8>) -> Seq<char> {
    "data:"@ + (if content_type.len() == 0 {
        DEFAULT_ART_MIME@
    } else {
        content_type
    }) + ";base64,"@ + base64_text(bytes)
}

/// Builds a `data:<mime>;base64,<data>` URI from a content type and raw bytes.
///
/// Falls back to [`DEFAULT_ART_MIME`] when the content type is empty.
pub fn encode_data_uri(content_type: &str, bytes: &[u8]) -> (r: String)
    requires
        base64_len(bytes@.len()) <= isize::MAX,
    ensures
        r@ == data_uri(content_type@, bytes@),
        base64_text(bytes@).len() == base64_len(bytes@.len()),
{
    proof {
        base64_text_has_its_length(bytes@);
    }
    let mime = if content_type.is_empty() {
        DEFAULT_ART_MIME
    } else {
        content_type
    };
    data_uri_around(mime, encode_base64(bytes).as_str())
}

/// Puts a content type and a base64 text together to a `data:` URI.
pub fn data_uri_around(mime: &str, encoded: &str) -> (r: String)
    ensures
        r@ == "data:"@ + mime@ + ";base64,"@ + encoded@,
{
    let mut uri = joined("data:", mime);
    uri.append(";base64,");
    uri.append(encoded);
    uri
}

/// The `data:` URI of a thumbnail; none for an empty, unreadable or oversized one.
pub open spec fn thumbnail_uri(thumbnail: ThumbnailModel) -> Option<Seq<char>> {
    match (bytes_to_load(thumbnail.size), thumbnail.bytes) {
        (Some(_), Some(bytes)) => Some(
            data_uri(
                match thumbnail.content_type {
                    Some(content_type) => content_type,
                    None => seq![],
                },
                bytes,
            ),
        ),
        _ => None,
    }
}

/// The `data:` URI of a thumbnail, so that it can be shown like artwork that comes as a URL; none
/// for an empty, unreadable or oversized one.
pub fn read_thumbnail_data_uri(thumbnail: &ThumbnailReading) -> (r: Option<String>)
    requires
        thumbnail@.encodable(),
    ensures
        r.deep_view() == thumbnail_uri(thumbnail@),
{
    if thumbnail_size(thumbnail.size).is_none() {
        return None;
    }
    match &thumbnail.bytes {
        Some(bytes) => {
            match &thumbnail.content_type {
                Some(content_type) => Some(
                    encode_data_uri(content_type.as_str(), bytes.as_slice()),
                ),
                None => {
                    proof {
                        reveal_strlit("");
                        assert(""@ =~= Seq::<char>::empty());
                    }
                    Some(encode_data_uri("", bytes.as_slice()))
                },
            }
        },
        None => None,
    }
}

/// The length of a tick in nanoseconds.
pub const NANOS_PER_TICK: u64 = 100;

/// The length of a span of ticks: none where it is negative, which stands for an unavailable
/// position, or longer than `u64::MAX` nanoseconds, which stands for an unknown duration.
pub open spec fn tick_nanos(ticks: i64) -> Option<nat> {
    if 0 <= ticks * 100 <= u64::MAX {
        Some((ticks * 100) as nat)
    } else {
        None
    }
}

/// Converts a tick value (units of 100 nanoseconds) to a `Duration`.
///
/// Returns `None` for negative values and for values that are too large, such as the `i64::MAX`
/// that live streams report.
pub fn ticks_to_duration(ticks: i64) -> (r: Option<Duration>)
    ensures
        optional_nanos(r) == tick_nanos(ticks),
{
    if ticks < 0 {
        return None;
    }
    match (ticks as u64).checked_mul(NANOS_PER_TICK) {
        Some(count) => Some(Duration::from_nanos(count)),
        None => None,
    }
}

/// A shown track never has an empty title, artist or album.
pub proof fn shown_tracks_hold_nothing_empty(
    properties: MediaPropertiesModel,
    duration: Option<nat>,
)
    ensures
        ({
            let track = shown_track(properties, duration);
            &&& track.title.len() > 0
            &&& !holds_empty(track.artist)
            &&& track.album matches Some(album) ==> album.len() > 0
        }),
{
    reveal_strlit("Unknown");
}

/// A longer span of ticks is never a shorter duration.
pub proof fn ticks_keep_their_order(a: i64, b: i64)
    requires
        a <= b,
        tick_nanos(a) is Some,
        tick_nanos(b) is Some,
    ensures
        tick_nanos(a)->0 <= tick_nanos(b)->0,
{
}

/// A span of ticks has a length exactly when it is neither negative nor too long, and that is a
/// hundred nanoseconds for each tick.
pub proof fn ticks_are_a_hundred_nanoseconds(ticks: i64)
    ensures
        tick_nanos(ticks) is Some <==> 0 <= ticks && ticks * 100 <= 0xffff_ffff_ffff_ffff,
        tick_nanos(ticks) is Some ==> tick_nanos(ticks)->0 == ticks * 100,
{
}

/// A shown track has the title, the artist and the album that the properties tell, where they are
/// not empty, their track number where it is not negative, and the duration as it is; it never has
/// album artists.
pub proof fn tracks_show_their_properties(
    properties: MediaPropertiesModel,
    duration: Option<nat>,
)
    ensures
        ({
            let track = shown_track(properties, duration);
            &&& track.title == (if properties.title is Some && properties.title->0.len() > 0 {
                properties.title->0
            } else {
                "Unknown"@
            })
            &&& track.artist.len() == (if properties.artist is Some && properties.artist->0.len()
                > 0 {
                1int
            } else {
                0int
            })
            &&& track.artist.len() == 1 ==> track.artist[0] == properties.artist->0
            &&& track.album is Some <==> properties.album_title is Some
                && properties.album_title->0.len() > 0
            &&& track.album is Some ==> track.album == properties.album_title
            &&& track.album_artist.len() == 0
            &&& track.track_number is Some <==> properties.track_number is Some
                && properties.track_number->0 >= 0
            &&& track.track_number is Some ==> track.track_number->0 == properties.track_number->0
            &&& track.duration == duration
        }),
{
}

/// A shown track has artwork exactly when its properties have a thumbnail whose bytes were read and
/// whose size is neither zero nor too large for four bytes; it is then a `data:` URI of the bytes,
/// of the content type that is told, or of no particular one where none is or it is empty.
pub proof fn artwork_is_the_thumbnail(properties: MediaPropertiesModel, duration: Option<nat>)
    ensures
        ({
            let art_url = shown_track(properties, duration).art_url;
            let thumbnail = properties.thumbnail->0;
            &&& art_url is Some <==> properties.thumbnail is Some && thumbnail.bytes is Some && 0
                < thumbnail.size <= 0xffff_ffff
            &&& art_url is Some && thumbnail.content_type is Some
                && thumbnail.content_type->0.len() > 0 ==> art_url->0 == "data:"@
                + thumbnail.content_type->0 + ";base64,"@ + base64_text(thumbnail.bytes->0)
            &&& art_url is Some && (thumbnail.content_type is None
                || thumbnail.content_type->0.len() == 0) ==> art_url->0 == "data:"@
                + "application/octet-stream"@ + ";base64,"@ + base64_text(thumbnail.bytes->0)
        }),
{
}

/// As many bytes are loaded as a thumbnail is large, unless it is empty or too large for four
/// bytes.
pub proof fn thumbnails_are_loaded_whole(size: u64)
    ensures
        bytes_to_load(size) is Some <==> 0 < size <= 0xffff_ffff,
        bytes_to_load(size) is Some ==> bytes_to_load(size)->0 == size,
{
}

/// The base64 text of whole groups of three bytes and of what comes behind them are put one behind
/// the other.
pub proof fn base64_groups_are_put_together(a: Seq<u8>, b: Seq<u8>)
    requires
        a.len() % 3 == 0,
    ensures
        base64_text(a + b) == base64_text(a) + base64_text(b),
    decreases a.len(),
{
    if a.len() == 0 {
        assert(a + b =~= b);
        assert(base64_text(a) + base64_text(b) =~= base64_text(b));
    } else {
        let all = a + b;
        base64_groups_are_put_together(a.skip(3), b);
        assert(all.skip(3) =~= a.skip(3) + b);
        assert(all[0] == a[0] && all[1] == a[1] && all[2] == a[2]);
        let group = seq![
            base64_digit(a[0] as int / 4),
            base64_digit(a[0] as int % 4 * 16 + a[1] as int / 16),
            base64_digit(a[1] as int % 16 * 4 + a[2] as int / 64),
            base64_digit(a[2] as int % 64),
        ];
        assert(base64_text(a) == group + base64_text(a.skip(3)));
        assert(base64_text(all) == group + base64_text(all.skip(3)));
        assert(base64_text(all) =~= base64_text(a) + base64_text(b));
    }
}

/// The digits of a group of bytes, each counted by its place in the standard alphabet, make up the
/// number that the bytes make up; what is missing of the group is padded.
pub proof fn base64_groups_hold_their_bytes(a: u8, b: u8, c: u8)
    ensures
        ({
            let digits =
                "ABCDEFGHIJKLMNOPQRSTUVWXYZabcdefghijklmnopqrstuvwxyz0123456789+/"@;
            &&& exists|w: int, x: int, y: int, z: int|
                0 <= w < 64 && 0 <= x < 64 && 0 <= y < 64 && 0 <= z < 64 && base64_text(
                    seq![a, b, c],
                ) == seq![
                    #[trigger] digits[w],
                    #[trigger] digits[x],
                    #[trigger] digits[y],
                    #[trigger] digits[z],
                ] && ((w * 64 + x) * 64 + y) * 64 + z == (a * 256 + b) * 256 + c
            &&& exists|w: int, x: int, y: int|
                0 <= w < 64 && 0 <= x < 64 && 0 <= y < 64 && base64_text(seq![a, b]) == seq![
                    #[trigger] digits[w],
                    #[trigger] digits[x],
                    #[trigger] digits[y],
                    '=',
                ] && (w * 64 + x) * 64 + y == (a * 256 + b) * 4
            &&& exists|w: int, x: int|
                0 <= w < 64 && 0 <= x < 64 && base64_text(seq![a]) == seq![
                    #[trigger] digits[w],
                    #[trigger] digits[x],
                    '=',
                    '=',
                ] && w * 64 + x == a * 16
            &&& base64_text(Seq::<u8>::empty()) == Seq::<char>::empty()
        }),
{
    let digits = BASE64_DIGITS@;
    let m = a as int;
    let n = b as int;
    let o = c as int;
    let w = m / 4;
    let x = m % 4 * 16 + n / 16;
    let y = n % 16 * 4 + o / 64;
    let z = o % 64;
    reveal_with_fuel(base64_text, 2);
    assert(seq![a, b, c].skip(3) =~= Seq::<u8>::empty());
    assert(base64_text(seq![a, b, c]) =~= seq![digits[w], digits[x], digits[y], digits[z]]);
    assert(((w * 64 + x) * 64 + y) * 64 + z == (m * 256 + n) * 256 + o);
    let y_last = n % 16 * 4;
    assert(base64_text(seq![a, b]) =~= seq![digits[w], digits[x], digits[y_last], '=']);
    assert((w * 64 + x) * 64 + y_last == (m * 256 + n) * 4);
    let x_last = m % 4 * 16;
    assert(base64_text(seq![a]) =~= seq![digits[w], digits[x_last], '=', '=']);
    assert(w * 64 + x_last == m * 16);
}

/// Media properties say what their fields hold; what is absent is told as absent.
pub proof fn properties_say_all(properties: MediaProperties)
    ensures
        properties@.title is Some <==> properties.title is Some,
        properties.title matches Some(s) ==> properties@.title == Some(s@),
        properties@.artist is Some <==> properties.artist is Some,
        properties.artist matches Some(s) ==> properties@.artist == Some(s@),
        properties@.album_title is Some <==> properties.album_title is Some,
        properties.album_title matches Some(s) ==> properties@.album_title == Some(s@),
        properties@.track_number == properties.track_number,
        properties@.thumbnail is Some <==> properties.thumbnail is Some,
        properties.thumbnail matches Some(t) ==> properties@.thumbnail matches Some(told)
            && told.size == t.size && (told.content_type is Some <==> t.content_type is Some) && (
        t.content_type matches Some(s) ==> told.content_type == Some(s@)) && (told.bytes is Some
            <==> t.bytes is Some) && (t.bytes matches Some(bytes) ==> told.bytes == Some(bytes@)),
{
}

} // verus!
