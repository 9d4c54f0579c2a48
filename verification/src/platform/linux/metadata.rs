//! Track metadata as MPRIS players tell it.

use std::time::Duration;
use vstd::prelude::*;
use zbus::zvariant::Dict;

use crate::error::MediaSourceError;
use crate::number::Real64;
use crate::text::holds_empty;
use crate::types::{Track, TrackModel};

use super::bus::{dict_content, read_entries};
use super::variant::{
    entry, filled_text_of, lookup, lookups_find_the_first_entry,
    lookups_of_missing_keys_find_nothing, names_are_filled, names_of, read_filled_text, read_names,
    read_text, text_of, Variant, VariantModel,
};

verus! {

/// The metadata of a track, by the names under which MPRIS players tell it.
#[derive(Debug, PartialEq)]
pub struct MprisMetadata {
    pub art_url: Option<String>,
    /// Length of the track in microseconds.
    pub length: Option<u64>,
    pub track_id: Option<String>,
    pub album: Option<String>,
    pub album_artist: Vec<String>,
    pub artist: Vec<String>,
    pub auto_rating: Option<Real64>,
    pub disc_number: Option<i32>,
    pub title: Option<String>,
    pub track_number: Option<i32>,
    pub url: Option<String>,
}

/// What an [`MprisMetadata`] says.
pub struct MetadataModel {
    pub art_url: Option<Seq<char>>,
    pub length: Option<u64>,
    pub track_id: Option<Seq<char>>,
    pub album: Option<Seq<char>>,
    pub album_artist: Seq<Seq<char>>,
    pub artist: Seq<Seq<char>>,
    pub auto_rating: Option<Real64>,
    pub disc_number: Option<i32>,
    pub title: Option<Seq<char>>,
    pub track_number: Option<i32>,
    pub url: Option<Seq<char>>,
}

impl View for MprisMetadata {
    type V = MetadataModel;

    open spec fn view(&self) -> MetadataModel {
        MetadataModel {
            art_url: self.art_url.deep_view(),
            length: self.length,
            track_id: self.track_id.deep_view(),
            album: self.album.deep_view(),
            album_artist: self.album_artist.deep_view(),
            artist: self.artist.deep_view(),
            auto_rating: self.auto_rating,
            disc_number: self.disc_number,
            title: self.title.deep_view(),
            track_number: self.track_number,
            url: self.url.deep_view(),
        }
    }
}

impl Clone for MprisMetadata {
    fn clone(&self) -> (r: MprisMetadata)
        ensures
            r@ == self@,
    {
        let r = MprisMetadata {
            art_url: self.art_url.clone(),
            length: self.length,
            track_id: self.track_id.clone(),
            album: self.album.clone(),
            album_artist: self.album_artist.clone(),
            artist: self.artist.clone(),
            auto_rating: self.auto_rating,
            disc_number: self.disc_number,
            title: self.title.clone(),
            track_number: self.track_number,
            url: self.url.clone(),
        };
        assert(r.artist.deep_view() =~= self.artist.deep_view());
        assert(r.album_artist.deep_view() =~= self.album_artist.deep_view());
        r
    }
}

/// Metadata that says nothing.
pub open spec fn no_metadata() -> MetadataModel {
    MetadataModel {
        art_url: None,
        length: None,
        track_id: None,
        album: None,
        album_artist: seq![],
        artist: seq![],
        auto_rating: None,
        disc_number: None,
        title: None,
        track_number: None,
        url: None,
    }
}

impl Default for MprisMetadata {
    fn default() -> (r: MprisMetadata)
        ensures
            r@ == no_metadata(),
    {
        let r = MprisMetadata {
            art_url: None,
            length: None,
            track_id: None,
            album: None,
            album_artist: Vec::new(),
            artist: Vec::new(),
            auto_rating: None,
            disc_number: None,
            title: None,
            track_number: None,
            url: None,
        };
        assert(r.artist.deep_view() =~= Seq::<Seq<char>>::empty());
        assert(r.album_artist.deep_view() =~= Seq::<Seq<char>>::empty());
        r
    }
}

/// The metadata that the entries of a dictionary tell. An entry of an unexpected type tells
/// nothing; an empty artwork address, album or artist counts as absent.
pub open spec fn metadata_of(entries: Seq<(VariantModel, VariantModel)>) -> MetadataModel {
    MetadataModel {
        art_url: filled_text_of(entry(entries, "mpris:artUrl"@)),
        length: match entry(entries, "mpris:length"@) {
            Some(VariantModel::U64(n)) => Some(n),
            _ => None,
        },
        track_id: text_of(entry(entries, "mpris:trackid"@)),
        album: filled_text_of(entry(entries, "xesam:album"@)),
        album_artist: names_of(entry(entries, "xesam:albumArtist"@)),
        artist: names_of(entry(entries, "xesam:artist"@)),
        auto_rating: match entry(entries, "xesam:autoRating"@) {
            Some(VariantModel::F64(x)) => Some(x),
            _ => None,
        },
        disc_number: i32_of(entry(entries, "xesam:discNumber"@)),
        title: text_of(entry(entries, "xesam:title"@)),
        track_number: i32_of(entry(entries, "xesam:trackNumber"@)),
        url: text_of(entry(entries, "xesam:url"@)),
    }
}

/// The number in a value that is a signed one of four bytes.
pub open spec fn i32_of(value: Option<VariantModel>) -> Option<i32> {
    match value {
        Some(VariantModel::I32(n)) => Some(n),
        _ => None,
    }
}

fn read_i32(value: Option<&Variant>) -> (r: Option<i32>)
    ensures
        r == i32_of(value.deep_view()),
{
    match value {
        Some(Variant::I32(n)) => Some(*n),
        _ => None,
    }
}

impl MprisMetadata {
    /// Reads the entries of a metadata dictionary.
    pub fn from_entries(entries: &Vec<(Variant, Variant)>) -> (r: MprisMetadata)
        ensures
            r@ == metadata_of(entries.deep_view()),
    {
        MprisMetadata {
            art_url: read_filled_text(lookup(entries, "mpris:artUrl")),
            length: match lookup(entries, "mpris:length") {
                Some(Variant::U64(n)) => Some(*n),
                _ => None,
            },
            track_id: read_text(lookup(entries, "mpris:trackid")),
            album: read_filled_text(lookup(entries, "xesam:album")),
            album_artist: read_names(lookup(entries, "xesam:albumArtist")),
            artist: read_names(lookup(entries, "xesam:artist")),
            auto_rating: match lookup(entries, "xesam:autoRating") {
                Some(Variant::F64(x)) => Some(*x),
                _ => None,
            },
            disc_number: read_i32(lookup(entries, "xesam:discNumber")),
            title: read_text(lookup(entries, "xesam:title")),
            track_number: read_i32(lookup(entries, "xesam:trackNumber")),
            url: read_text(lookup(entries, "xesam:url")),
        }
    }
}

impl TryFrom<Dict<'_, '_>> for MprisMetadata {
    type Error = MediaSourceError;

    /// Reads a metadata dictionary. The entries are read in place, so no dictionary is refused.
    fn try_from(dict: Dict<'_, '_>) -> (r: Result<MprisMetadata, MediaSourceError>)
        ensures
            r matches Ok(metadata) && metadata@ == metadata_of(dict_content(&dict)),
    {
        let entries = read_entries(&dict);
        Ok(MprisMetadata::from_entries(&entries))
    }
}

impl vstd::std_specs::convert::TryFromSpecImpl<Dict<'_, '_>> for MprisMetadata {
    open spec fn obeys_try_from_spec() -> bool {
        false
    }

    open spec fn try_from_spec(v: Dict<'_, '_>) -> Result<MprisMetadata, MediaSourceError> {
        arbitrary()
    }
}

/// The track that metadata describes: "Unknown" without a title, no track number where it is
/// negative, the duration from the length.
pub open spec fn described_track(metadata: MetadataModel) -> TrackModel {
    TrackModel {
        title: match metadata.title {
            Some(title) => title,
            None => "Unknown"@,
        },
        artist: metadata.artist,
        album: metadata.album,
        album_artist: metadata.album_artist,
        track_number: match metadata.track_number {
            Some(n) => if n >= 0 {
                Some(n as u32)
            } else {
                None
            },
            None => None,
        },
        duration: match metadata.length {
            Some(micros) => Some((micros * 1_000) as nat),
            None => None,
        },
        art_url: metadata.art_url,
    }
}

impl From<MprisMetadata> for Track {
    fn from(metadata: MprisMetadata) -> (r: Track)
        ensures
            r@ == described_track(metadata@),
    {
        let mut track = Track::unknown();
        if let Some(title) = metadata.title {
            track.title = title;
        }
        track.artist = metadata.artist;
        track.album = metadata.album;
        track.album_artist = metadata.album_artist;
        track.track_number = match metadata.track_number {
            Some(n) => if n >= 0 {
                Some(n as u32)
            } else {
                None
            },
            None => None,
        };
        track.duration = match metadata.length {
            Some(micros) => Some(Duration::from_micros(micros)),
            None => None,
        };
        track.art_url = metadata.art_url;
        track
    }
}

impl vstd::std_specs::convert::FromSpecImpl<MprisMetadata> for Track {
    open spec fn obeys_from_spec() -> bool {
        false
    }

    open spec fn from_spec(v: MprisMetadata) -> Track {
        arbitrary()
    }
}

/// A described track never has an empty album or artwork address, nor an empty name among its
/// artists: such metadata counts as absent.
pub proof fn described_tracks_hold_nothing_empty(entries: Seq<(VariantModel, VariantModel)>)
    ensures
        ({
            let track = described_track(metadata_of(entries));
            &&& track.album matches Some(album) ==> album.len() > 0
            &&& track.art_url matches Some(url) ==> url.len() > 0
            &&& !holds_empty(track.artist)
            &&& !holds_empty(track.album_artist)
        }),
{
    names_are_filled(entry(entries, "xesam:artist"@));
    names_are_filled(entry(entries, "xesam:albumArtist"@));
}

/// Each part of the metadata is what the first entry under its key tells, where that is of the
/// right type.
pub proof fn metadata_is_told_by_its_entries(
    entries: Seq<(VariantModel, VariantModel)>,
    key: Seq<char>,
    i: int,
)
    requires
        0 <= i < entries.len(),
        entries[i].0 == VariantModel::Str(key),
        forall|j: int| 0 <= j < i ==> (#[trigger] entries[j]).0 != VariantModel::Str(key),
    ensures
        ({
            let told = metadata_of(entries);
            let value = match entries[i].1 {
                VariantModel::Boxed(v) => *v,
                v => v,
            };
            &&& key == "mpris:artUrl"@ ==> {
                &&& value matches VariantModel::Str(s) ==> s.len() > 0 ==> told.art_url == Some(s)
                &&& value matches VariantModel::Str(s) ==> s.len() == 0 ==> told.art_url is None
                &&& !(value is Str) ==> told.art_url is None
            }
            &&& key == "mpris:length"@ ==> {
                &&& value matches VariantModel::U64(x) ==> told.length == Some(x)
                &&& !(value is U64) ==> told.length is None
            }
            &&& key == "mpris:trackid"@ ==> {
                &&& value matches VariantModel::Str(x) ==> told.track_id == Some(x)
                &&& !(value is Str) ==> told.track_id is None
            }
            &&& key == "xesam:album"@ ==> {
                &&& value matches VariantModel::Str(s) ==> s.len() > 0 ==> told.album == Some(s)
                &&& value matches VariantModel::Str(s) ==> s.len() == 0 ==> told.album is None
                &&& !(value is Str) ==> told.album is None
            }
            &&& key == "xesam:albumArtist"@ ==> told.album_artist == names_of(Some(value))
            &&& key == "xesam:artist"@ ==> told.artist == names_of(Some(value))
            &&& key == "xesam:autoRating"@ ==> {
                &&& value matches VariantModel::F64(x) ==> told.auto_rating == Some(x)
                &&& !(value is F64) ==> told.auto_rating is None
            }
            &&& key == "xesam:discNumber"@ ==> {
                &&& value matches VariantModel::I32(x) ==> told.disc_number == Some(x)
                &&& !(value is I32) ==> told.disc_number is None
            }
            &&& key == "xesam:title"@ ==> {
                &&& value matches VariantModel::Str(x) ==> told.title == Some(x)
                &&& !(value is Str) ==> told.title is None
            }
            &&& key == "xesam:trackNumber"@ ==> {
                &&& value matches VariantModel::I32(x) ==> told.track_number == Some(x)
                &&& !(value is I32) ==> told.track_number is None
            }
            &&& key == "xesam:url"@ ==> {
                &&& value matches VariantModel::Str(x) ==> told.url == Some(x)
                &&& !(value is Str) ==> told.url is None
            }
        }),
{
    lookups_find_the_first_entry(entries, key, i);
}

/// What no entry is there for is absent from the metadata.
pub proof fn metadata_without_an_entry_is_absent(
    entries: Seq<(VariantModel, VariantModel)>,
    key: Seq<char>,
)
    requires
        forall|j: int|
            0 <= j < entries.len() ==> (#[trigger] entries[j]).0 != VariantModel::Str(key),
    ensures
        key == "mpris:artUrl"@ ==> metadata_of(entries).art_url is None,
        key == "mpris:length"@ ==> metadata_of(entries).length is None,
        key == "mpris:trackid"@ ==> metadata_of(entries).track_id is None,
        key == "xesam:album"@ ==> metadata_of(entries).album is None,
        key == "xesam:albumArtist"@ ==> metadata_of(entries).album_artist.len() == 0,
        key == "xesam:artist"@ ==> metadata_of(entries).artist.len() == 0,
        key == "xesam:autoRating"@ ==> metadata_of(entries).auto_rating is None,
        key == "xesam:discNumber"@ ==> metadata_of(entries).disc_number is None,
        key == "xesam:title"@ ==> metadata_of(entries).title is None,
        key == "xesam:trackNumber"@ ==> metadata_of(entries).track_number is None,
        key == "xesam:url"@ ==> metadata_of(entries).url is None,
{
    lookups_of_missing_keys_find_nothing(entries, key);
}

/// A described track has the title, the artists, the album and the artwork of the metadata, its
/// number where it is not negative, and its length in nanoseconds; without a title it is "Unknown".
pub proof fn tracks_are_as_described(metadata: MetadataModel)
    ensures
        ({
            let track = described_track(metadata);
            &&& metadata.title matches Some(title) ==> track.title == title
            &&& metadata.title is None ==> track.title == "Unknown"@
            &&& track.artist == metadata.artist
            &&& track.album == metadata.album
            &&& track.album_artist == metadata.album_artist
            &&& track.art_url == metadata.art_url
            &&& track.track_number is Some <==> metadata.track_number is Some
                && metadata.track_number->0 >= 0
            &&& track.track_number is Some ==> track.track_number->0 == metadata.track_number->0
            &&& track.duration is Some <==> metadata.length is Some
            &&& track.duration is Some ==> track.duration->0 == 1_000 * metadata.length->0
        }),
{
}

/// Metadata says what its fields hold; what is absent is told as absent.
pub proof fn metadata_says_all(metadata: MprisMetadata)
    ensures
        metadata@.art_url is Some <==> metadata.art_url is Some,
        metadata.art_url matches Some(s) ==> metadata@.art_url == Some(s@),
        metadata@.length == metadata.length,
        metadata@.track_id is Some <==> metadata.track_id is Some,
        metadata.track_id matches Some(s) ==> metadata@.track_id == Some(s@),
        metadata@.album is Some <==> metadata.album is Some,
        metadata.album matches Some(s) ==> metadata@.album == Some(s@),
        metadata@.album_artist.len() == metadata.album_artist@.len(),
        forall|i: int|
            0 <= i < metadata.album_artist@.len() ==> #[trigger] metadata@.album_artist[i]
                == metadata.album_artist@[i]@,
        metadata@.artist.len() == metadata.artist@.len(),
        forall|i: int|
            0 <= i < metadata.artist@.len() ==> #[trigger] metadata@.artist[i]
                == metadata.artist@[i]@,
        metadata@.auto_rating == metadata.auto_rating,
        metadata@.disc_number == metadata.disc_number,
        metadata@.title is Some <==> metadata.title is Some,
        metadata.title matches Some(s) ==> metadata@.title == Some(s@),
        metadata@.track_number == metadata.track_number,
        metadata@.url is Some <==> metadata.url is Some,
        metadata.url matches Some(s) ==> metadata@.url == Some(s@),
{
}

} // verus!
