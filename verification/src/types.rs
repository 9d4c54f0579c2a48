//! Tracks, playback states, player information and events.

use std::time::Duration;
use vstd::prelude::*;

use crate::number::Real64;
use crate::time::{nanos, optional_nanos};

verus! {

/// A media track with its metadata.
#[derive(Debug, PartialEq, Eq)]
pub struct Track {
    /// Track title
    pub title: String,
    /// List of artists for this track
    pub artist: Vec<String>,
    /// Album name, if available
    pub album: Option<String>,
    /// Album artists, if different from track artists
    pub album_artist: Vec<String>,
    /// Track number in the album
    pub track_number: Option<u32>,
    /// Total duration of the track
    pub duration: Option<Duration>,
    /// URI of the album artwork, if available
    pub art_url: Option<String>,
}

/// What a [`Track`] says, with its duration in nanoseconds.
pub struct TrackModel {
    pub title: Seq<char>,
    pub artist: Seq<Seq<char>>,
    pub album: Option<Seq<char>>,
    pub album_artist: Seq<Seq<char>>,
    pub track_number: Option<u32>,
    pub duration: Option<nat>,
    pub art_url: Option<Seq<char>>,
}

impl View for Track {
    type V = TrackModel;

    open spec fn view(&self) -> TrackModel {
        TrackModel {
            title: self.title@,
            artist: self.artist.deep_view(),
            album: self.album.deep_view(),
            album_artist: self.album_artist.deep_view(),
            track_number: self.track_number,
            duration: optional_nanos(self.duration),
            art_url: self.art_url.deep_view(),
        }
    }
}

impl Clone for Track {
    fn clone(&self) -> (r: Track)
        ensures
            r@ == self@,
    {
        let r = Track {
            title: self.title.clone(),
            artist: self.artist.clone(),
            album: self.album.clone(),
            album_artist: self.album_artist.clone(),
            track_number: self.track_number,
            duration: self.duration,
            art_url: self.art_url.clone(),
        };
        assert(r.artist.deep_view() =~= self.artist.deep_view());
        assert(r.album_artist.deep_view() =~= self.album_artist.deep_view());
        r
    }
}

/// The track that stands for missing track information.
pub open spec fn unknown_track() -> TrackModel {
    TrackModel {
        title: "Unknown"@,
        artist: seq![],
        album: None,
        album_artist: seq![],
        track_number: None,
        duration: None,
        art_url: None,
    }
}

impl Track {
    /// Creates a track with default "Unknown" values, for when track information is not
    /// available.
    #[must_use]
    pub fn unknown() -> (r: Track)
        ensures
            r@ == unknown_track(),
    {
        let r = Track {
            title: "Unknown".to_owned(),
            artist: Vec::new(),
            album: None,
            album_artist: Vec::new(),
            track_number: None,
            duration: None,
            art_url: None,
        };
        assert(r.artist.deep_view() =~= Seq::<Seq<char>>::empty());
        assert(r.album_artist.deep_view() =~= Seq::<Seq<char>>::empty());
        r
    }
}

/// Playback state of a media player.
#[derive(Debug, Clone, Copy, PartialEq, Eq, Structural)]
pub enum PlaybackState {
    /// Media is currently playing.
    Playing,
    /// A track is loaded but playback is temporarily stopped.
    Paused,
    /// The player is idle or has no track loaded.
    Stopped,
}

/// Complete information about a media player's current state.
#[derive(Debug, PartialEq)]
pub struct PlayerInfo {
    /// Name or identifier of the player
    pub player_name: String,
    /// Currently playing track, if any
    pub current_track: Option<Track>,
    /// Current playback state
    pub playback_state: PlaybackState,
    /// Current playback position within the track
    pub position: Option<Duration>,
    /// Current volume level: zero is muted, one is full volume, more is over-amplification
    pub volume: Option<Real64>,
}

/// What a [`PlayerInfo`] says.
pub struct PlayerInfoModel {
    pub player_name: Seq<char>,
    pub current_track: Option<TrackModel>,
    pub playback_state: PlaybackState,
    pub position: Option<nat>,
    pub volume: Option<Real64>,
}

/// What an optional track says.
pub open spec fn optional_track(track: Option<Track>) -> Option<TrackModel> {
    match track {
        Some(t) => Some(t@),
        None => None,
    }
}

impl View for PlayerInfo {
    type V = PlayerInfoModel;

    open spec fn view(&self) -> PlayerInfoModel {
        PlayerInfoModel {
            player_name: self.player_name@,
            current_track: optional_track(self.current_track),
            playback_state: self.playback_state,
            position: optional_nanos(self.position),
            volume: self.volume,
        }
    }
}

impl Clone for PlayerInfo {
    fn clone(&self) -> (r: PlayerInfo)
        ensures
            r@ == self@,
    {
        PlayerInfo {
            player_name: self.player_name.clone(),
            current_track: match &self.current_track {
                Some(track) => Some(track.clone()),
                None => None,
            },
            playback_state: self.playback_state,
            position: self.position,
            volume: self.volume,
        }
    }
}

/// The information on a player with no active playback.
pub open spec fn empty_player_info(player_name: Seq<char>) -> PlayerInfoModel {
    PlayerInfoModel {
        player_name,
        current_track: None,
        playback_state: PlaybackState::Stopped,
        position: None,
        volume: None,
    }
}

impl PlayerInfo {
    /// Creates player info for a player with no active playback: no track, stopped, and neither
    /// position nor volume.
    #[must_use]
    pub fn empty(player_name: &str) -> (r: PlayerInfo)
        ensures
            r@ == empty_player_info(player_name@),
    {
        PlayerInfo {
            player_name: player_name.to_owned(),
            current_track: None,
            playback_state: PlaybackState::Stopped,
            position: None,
            volume: None,
        }
    }
}

/// Events emitted by the media source.
#[derive(Debug, PartialEq)]
pub enum MediaEvent {
    /// A new track started playing.
    TrackChanged { player_name: String, track: Track },
    /// The player went from one playback state to another.
    StateChanged { player_name: String, state: PlaybackState },
    /// The position jumped (a seek); normal progression is not reported.
    PositionChanged { player_name: String, position: Duration },
    /// The player's volume level changed.
    VolumeChanged { player_name: String, volume: Real64 },
    /// A new player appeared.
    PlayerAdded { player_name: String },
    /// A player disappeared.
    PlayerRemoved { player_name: String },
}

/// What a [`MediaEvent`] says.
pub enum EventModel {
    TrackChanged { player_name: Seq<char>, track: TrackModel },
    StateChanged { player_name: Seq<char>, state: PlaybackState },
    PositionChanged { player_name: Seq<char>, position: nat },
    VolumeChanged { player_name: Seq<char>, volume: Real64 },
    PlayerAdded { player_name: Seq<char> },
    PlayerRemoved { player_name: Seq<char> },
}

impl EventModel {
    /// The player that an event is about.
    pub open spec fn player(self) -> Seq<char> {
        match self {
            EventModel::TrackChanged { player_name, .. } => player_name,
            EventModel::StateChanged { player_name, .. } => player_name,
            EventModel::PositionChanged { player_name, .. } => player_name,
            EventModel::VolumeChanged { player_name, .. } => player_name,
            EventModel::PlayerAdded { player_name } => player_name,
            EventModel::PlayerRemoved { player_name } => player_name,
        }
    }
}

impl View for MediaEvent {
    type V = EventModel;

    open spec fn view(&self) -> EventModel {
        match self {
            MediaEvent::TrackChanged { player_name, track } => EventModel::TrackChanged {
                player_name: player_name@,
                track: track@,
            },
            MediaEvent::StateChanged { player_name, state } => EventModel::StateChanged {
                player_name: player_name@,
                state: *state,
            },
            MediaEvent::PositionChanged { player_name, position } => EventModel::PositionChanged {
                player_name: player_name@,
                position: nanos(*position),
            },
            MediaEvent::VolumeChanged { player_name, volume } => EventModel::VolumeChanged {
                player_name: player_name@,
                volume: *volume,
            },
            MediaEvent::PlayerAdded { player_name } => EventModel::PlayerAdded {
                player_name: player_name@,
            },
            MediaEvent::PlayerRemoved { player_name } => EventModel::PlayerRemoved {
                player_name: player_name@,
            },
        }
    }
}

impl Clone for MediaEvent {
    fn clone(&self) -> (r: MediaEvent)
        ensures
            r@ == self@,
    {
        match self {
            MediaEvent::TrackChanged { player_name, track } => MediaEvent::TrackChanged {
                player_name: player_name.clone(),
                track: track.clone(),
            },
            MediaEvent::StateChanged { player_name, state } => MediaEvent::StateChanged {
                player_name: player_name.clone(),
                state: *state,
            },
            MediaEvent::PositionChanged { player_name, position } => MediaEvent::PositionChanged {
                player_name: player_name.clone(),
                position: *position,
            },
            MediaEvent::VolumeChanged { player_name, volume } => MediaEvent::VolumeChanged {
                player_name: player_name.clone(),
                volume: *volume,
            },
            MediaEvent::PlayerAdded { player_name } => MediaEvent::PlayerAdded {
                player_name: player_name.clone(),
            },
            MediaEvent::PlayerRemoved { player_name } => MediaEvent::PlayerRemoved {
                player_name: player_name.clone(),
            },
        }
    }
}

impl DeepView for MediaEvent {
    type V = EventModel;

    open spec fn deep_view(&self) -> EventModel {
        self@
    }
}

/// A track says what its fields hold; what is absent is told as absent.
pub proof fn tracks_say_all(track: Track)
    ensures
        track@.title == track.title@,
        track@.artist.len() == track.artist@.len(),
        forall|i: int|
            0 <= i < track.artist@.len() ==> #[trigger] track@.artist[i] == track.artist@[i]@,
        track@.album is Some <==> track.album is Some,
        track.album matches Some(s) ==> track@.album == Some(s@),
        track@.album_artist.len() == track.album_artist@.len(),
        forall|i: int|
            0 <= i < track.album_artist@.len() ==> #[trigger] track@.album_artist[i]
                == track.album_artist@[i]@,
        track@.track_number == track.track_number,
        track@.duration is Some <==> track.duration is Some,
        track.duration matches Some(d) ==> track@.duration == Some(nanos(d)),
        track@.art_url is Some <==> track.art_url is Some,
        track.art_url matches Some(s) ==> track@.art_url == Some(s@),
{
}

/// Player information says what its fields hold; what is absent is told as absent.
pub proof fn information_says_all(info: PlayerInfo)
    ensures
        info@.player_name == info.player_name@,
        info@.current_track is Some <==> info.current_track is Some,
        info.current_track matches Some(track) ==> info@.current_track == Some(track@),
        info@.playback_state == info.playback_state,
        info@.position is Some <==> info.position is Some,
        info.position matches Some(d) ==> info@.position == Some(nanos(d)),
        info@.volume == info.volume,
{
}

/// An event says its kind, its player and what it tells of it.
pub proof fn events_say_all(event: MediaEvent)
    ensures
        match event {
            MediaEvent::TrackChanged { player_name, track } => event@
                matches EventModel::TrackChanged { player_name: p, track: t } && p == player_name@
                && t == track@,
            MediaEvent::StateChanged { player_name, state } => event@
                matches EventModel::StateChanged { player_name: p, state: s } && p == player_name@
                && s == state,
            MediaEvent::PositionChanged { player_name, position } => event@
                matches EventModel::PositionChanged { player_name: p, position: at } && p
                == player_name@ && at == nanos(position),
            MediaEvent::VolumeChanged { player_name, volume } => event@
                matches EventModel::VolumeChanged { player_name: p, volume: v } && p
                == player_name@ && v == volume,
            MediaEvent::PlayerAdded { player_name } => event@ matches EventModel::PlayerAdded {
                player_name: p,
            } && p == player_name@,
            MediaEvent::PlayerRemoved { player_name } => event@ matches EventModel::PlayerRemoved {
                player_name: p,
            } && p == player_name@,
        },
        event.deep_view() == event@,
{
}

/// Missing track information is a track called "Unknown" of which nothing else is told; a player
/// with no active playback is stopped, with nothing else told of it.
pub proof fn nothing_is_told_of_the_unknown(player: Seq<char>)
    ensures
        unknown_track().title == "Unknown"@,
        unknown_track().artist.len() == 0,
        unknown_track().album is None,
        unknown_track().album_artist.len() == 0,
        unknown_track().track_number is None,
        unknown_track().duration is None,
        unknown_track().art_url is None,
        empty_player_info(player).player_name == player,
        empty_player_info(player).current_track is None,
        empty_player_info(player).playback_state == PlaybackState::Stopped,
        empty_player_info(player).position is None,
        empty_player_info(player).volume is None,
{
}

} // verus!
