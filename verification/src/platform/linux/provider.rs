//! Players behind the MPRIS names on the session bus: their discovery, their properties and
//! their signals.

use std::time::Duration;
use vstd::hash_map::StringHashMap;
use vstd::prelude::*;
use vstd::string::*;
use zbus::zvariant::Value;
use zbus::Message;

use crate::error::{ErrorModel, MediaSourceError};
use crate::number::Real64;
use crate::text::{behind, has_prefix, joined, same_text, strip_prefix};
use crate::time::optional_nanos;
use crate::types::{
    optional_track, EventModel, MediaEvent, PlaybackState, PlayerInfo, PlayerInfoModel, Track,
    TrackModel,
};

use super::bus::{
    body_of, error_name_of, fields_in, fields_told, header_of, number_in, number_told,
    read_error_name, read_fields, read_number, read_sender, read_texts, read_value, sender_in,
    sender_of, texts_in, texts_told, value_content,
};
use super::metadata::{described_track, metadata_of, MprisMetadata};
use super::playback_status::{
    only_three_texts_name_a_status, state_for, status_named, status_names, unknown_status,
    MprisPlaybackStatus,
};
use super::variant::{
    entry, lookup, lookups_find_the_first_entry, lookups_of_missing_keys_find_nothing, Variant,
    VariantModel,
};

verus! {

/// Which player stands behind a unique name on the bus.
pub struct PlayerNameCache {
    names: StringHashMap<String>,
}

impl View for PlayerNameCache {
    type V = Map<Seq<char>, Seq<char>>;

    closed spec fn view(&self) -> Map<Seq<char>, Seq<char>> {
        self.names@.map_values(|name: String| name@)
    }
}

impl PlayerNameCache {
    /// An empty cache.
    pub fn new() -> (r: PlayerNameCache)
        ensures
            r@ == Map::<Seq<char>, Seq<char>>::empty(),
    {
        let r = PlayerNameCache { names: StringHashMap::new() };
        assert(r@ =~= Map::<Seq<char>, Seq<char>>::empty());
        r
    }

    /// Notes the player behind a unique name.
    pub fn insert(&mut self, owner: String, player_name: String)
        ensures
            final(self)@ == old(self)@.insert(owner@, player_name@),
    {
        let ghost key = owner@;
        let ghost name = player_name@;
        self.names.insert(owner, player_name);
        assert(self@ =~= old(self)@.insert(key, name));
    }

    /// Forgets a unique name.
    pub fn remove(&mut self, owner: &str)
        ensures
            final(self)@ == old(self)@.remove(owner@),
    {
        self.names.remove(owner);
        assert(self@ =~= old(self)@.remove(owner@));
    }

    /// The player behind a unique name, if it is known.
    pub fn get(&self, owner: &str) -> (r: Option<&String>)
        ensures
            r.deep_view() == player_behind(self@, owner@),
    {
        self.names.get(owner)
    }
}

/// The player behind a unique name, if it is known.
pub open spec fn player_behind(cache: Map<Seq<char>, Seq<char>>, owner: Seq<char>) -> Option<
    Seq<char>,
> {
    if cache.contains_key(owner) {
        Some(cache[owner])
    } else {
        None
    }
}

/// Whether a bus name is that of an MPRIS player.
pub open spec fn names_player(bus_name: Seq<char>) -> bool {
    has_prefix(bus_name, MprisProvider::BUS_NAME_PREFIX@)
}

/// The player that a bus name stands for: the part behind the MPRIS prefix, or the whole name
/// where it does not have the prefix.
pub open spec fn player_named(bus_name: Seq<char>) -> Seq<char> {
    if names_player(bus_name) {
        behind(bus_name, MprisProvider::BUS_NAME_PREFIX@)
    } else {
        bus_name
    }
}

/// The bus name of a player.
pub open spec fn bus_name_of(player: Seq<char>) -> Seq<char> {
    MprisProvider::BUS_NAME_PREFIX@ + player
}

/// The players among the names on the bus, in the order of the names.
pub open spec fn players_among(names: Seq<Seq<char>>) -> Seq<Seq<char>>
    decreases names.len(),
{
    if names.len() == 0 {
        seq![]
    } else if names_player(names.last()) {
        players_among(names.drop_last()).push(player_named(names.last()))
    } else {
        players_among(names.drop_last())
    }
}

/// What is known of the players once the owners of some bus names were asked for: a name that is
/// no player's, or that no one owned any more, adds nothing.
pub open spec fn known_owners(found: Seq<(Seq<char>, Option<Seq<char>>)>) -> Map<
    Seq<char>,
    Seq<char>,
>
    decreases found.len(),
{
    if found.len() == 0 {
        Map::empty()
    } else {
        let before = known_owners(found.drop_last());
        match found.last().1 {
            Some(owner) => if names_player(found.last().0) {
                before.insert(owner, player_named(found.last().0))
            } else {
                before
            },
            None => before,
        }
    }
}

/// The playback state in the value of a player's status property.
pub open spec fn reported_state(value: VariantModel) -> Result<PlaybackState, ErrorModel> {
    match value {
        VariantModel::Str(text) => match status_named(text) {
            Some(status) => Ok(state_for(status)),
            None => Err(unknown_status(text)),
        },
        _ => Err(ErrorModel::ParseError("Failed to get PlaybackStatus"@)),
    }
}

/// The track in the value of a player's metadata property.
pub open spec fn reported_track(value: VariantModel) -> Option<TrackModel> {
    match value {
        VariantModel::Dict(entries) => Some(described_track(metadata_of(entries))),
        _ => None,
    }
}

/// The position, in nanoseconds, in the value of a player's position property, which counts
/// microseconds.
pub open spec fn reported_position(value: VariantModel) -> Option<nat> {
    match value {
        VariantModel::I64(micros) => if micros >= 0 {
            Some((micros * 1_000) as nat)
        } else {
            None
        },
        _ => None,
    }
}

/// The volume in the value of a player's volume property.
pub open spec fn reported_volume(value: VariantModel) -> Option<Real64> {
    match value {
        VariantModel::F64(volume) => Some(volume),
        _ => None,
    }
}

/// What an outcome says.
pub open spec fn state_outcome(r: Result<PlaybackState, MediaSourceError>) -> Result<
    PlaybackState,
    ErrorModel,
> {
    match r {
        Ok(state) => Ok(state),
        Err(e) => Err(e@),
    }
}

/// What an outcome says.
pub open spec fn events_outcome(r: Result<Vec<MediaEvent>, MediaSourceError>) -> Result<
    Seq<EventModel>,
    ErrorModel,
> {
    match r {
        Ok(events) => Ok(events.deep_view()),
        Err(e) => Err(e@),
    }
}

/// What an outcome says.
pub open spec fn event_outcome(r: Result<Option<MediaEvent>, MediaSourceError>) -> Result<
    Option<EventModel>,
    ErrorModel,
> {
    match r {
        Ok(event) => Ok(event.deep_view()),
        Err(e) => Err(e@),
    }
}

/// The state change among the changed properties of a player, or the error of a status text that
/// names none.
pub open spec fn status_events(
    player: Seq<char>,
    properties: Seq<(VariantModel, VariantModel)>,
) -> Result<Seq<EventModel>, ErrorModel> {
    match entry(properties, MprisProvider::PLAYBACK_STATUS_PROPERTY@) {
        Some(VariantModel::Str(text)) => match status_named(text) {
            Some(status) => Ok(
                seq![EventModel::StateChanged { player_name: player, state: state_for(status) }],
            ),
            None => Err(unknown_status(text)),
        },
        _ => Ok(seq![]),
    }
}

/// The track change among the changed properties of a player.
pub open spec fn metadata_events(
    player: Seq<char>,
    properties: Seq<(VariantModel, VariantModel)>,
) -> Seq<EventModel> {
    match entry(properties, MprisProvider::METADATA_PROPERTY@) {
        Some(VariantModel::Dict(entries)) => seq![
            EventModel::TrackChanged {
                player_name: player,
                track: described_track(metadata_of(entries)),
            },
        ],
        _ => seq![],
    }
}

/// The volume change among the changed properties of a player.
pub open spec fn volume_events(
    player: Seq<char>,
    properties: Seq<(VariantModel, VariantModel)>,
) -> Seq<EventModel> {
    match entry(properties, MprisProvider::VOLUME_PROPERTY@) {
        Some(VariantModel::F64(volume)) => seq![
            EventModel::VolumeChanged { player_name: player, volume },
        ],
        _ => seq![],
    }
}

/// Whether the fields of a signal's body are those of a change of properties: three, of which the
/// second is a dictionary.
pub open spec fn are_changes(fields: Seq<VariantModel>) -> bool {
    fields.len() == 3 && fields[1] is Dict
}

/// The events of a change of properties, from the fields of the signal's body, its sender and
/// the known players: playback state, track and volume, in that order. A body of another shape
/// and a sender that is not known give none.
pub open spec fn property_events(
    fields: Seq<VariantModel>,
    sender: Option<Seq<char>>,
    cache: Map<Seq<char>, Seq<char>>,
) -> Result<Seq<EventModel>, ErrorModel> {
    if are_changes(fields) {
        match sender {
            None => Err(ErrorModel::InternalError("Failed to get sender"@)),
            Some(owner) => match player_behind(cache, owner) {
                None => Ok(seq![]),
                Some(player) => {
                    let properties = fields[1]->Dict_0;
                    match status_events(player, properties) {
                        Ok(events) => Ok(
                            events + metadata_events(player, properties) + volume_events(
                                player,
                                properties,
                            ),
                        ),
                        Err(e) => Err(e),
                    }
                },
            },
        }
    } else {
        Ok(seq![])
    }
}

/// Whether a name came to be owned.
pub open spec fn appears(old_owner: Seq<char>, new_owner: Seq<char>) -> bool {
    old_owner.len() == 0 && new_owner.len() > 0
}

/// Whether a name ceased to be owned.
pub open spec fn disappears(old_owner: Seq<char>, new_owner: Seq<char>) -> bool {
    old_owner.len() > 0 && new_owner.len() == 0
}

/// The event of a change of a name's owner.
pub open spec fn owner_event(
    bus_name: Seq<char>,
    old_owner: Seq<char>,
    new_owner: Seq<char>,
) -> Option<EventModel> {
    if !names_player(bus_name) {
        None
    } else if appears(old_owner, new_owner) {
        Some(EventModel::PlayerAdded { player_name: player_named(bus_name) })
    } else if disappears(old_owner, new_owner) {
        Some(EventModel::PlayerRemoved { player_name: player_named(bus_name) })
    } else {
        None
    }
}

/// What is known of the players after a change of a name's owner.
pub open spec fn owners_after(
    cache: Map<Seq<char>, Seq<char>>,
    bus_name: Seq<char>,
    old_owner: Seq<char>,
    new_owner: Seq<char>,
) -> Map<Seq<char>, Seq<char>> {
    if !names_player(bus_name) {
        cache
    } else if appears(old_owner, new_owner) {
        cache.insert(new_owner, player_named(bus_name))
    } else if disappears(old_owner, new_owner) {
        cache.remove(old_owner)
    } else {
        cache
    }
}

/// The event of a seek to a position in microseconds.
pub open spec fn seek_event(player: Seq<char>, micros: i64) -> Result<
    Option<EventModel>,
    ErrorModel,
> {
    if micros >= 0 {
        Ok(
            Some(
                EventModel::PositionChanged {
                    player_name: player,
                    position: (micros * 1_000) as nat,
                },
            ),
        )
    } else {
        Err(ErrorModel::ParseError("Failed to convert position"@))
    }
}

/// Whether an outcome is the parse error with the text of a failure.
pub open spec fn is_parse_error_of(e: MediaSourceError, failure: zbus::Error) -> bool {
    e matches MediaSourceError::ParseError(text) && to_string_from_display_ensures(&failure, text)
}

/// The MPRIS side of the D-Bus session bus.
pub struct MprisProvider {}

impl MprisProvider {
    pub const BUS_NAME_PREFIX: &'static str = "org.mpris.MediaPlayer2.";

    pub const PLAYER_INTERFACE: &'static str = "org.mpris.MediaPlayer2.Player";

    pub const OBJECT_PATH: &'static str = "/org/mpris/MediaPlayer2";

    pub const PROPERTIES_INTERFACE: &'static str = "org.freedesktop.DBus.Properties";

    pub const PROPERTIES_CHANGED_SIGNAL: &'static str = "PropertiesChanged";

    pub const NAME_OWNER_CHANGED_SIGNAL: &'static str = "NameOwnerChanged";

    pub const SEEKED_SIGNAL: &'static str = "Seeked";

    pub const METADATA_PROPERTY: &'static str = "Metadata";

    pub const POSITION_PROPERTY: &'static str = "Position";

    pub const VOLUME_PROPERTY: &'static str = "Volume";

    pub const PLAYBACK_STATUS_PROPERTY: &'static str = "PlaybackStatus";

    pub const GET_METHOD: &'static str = "Get";

    /// The error reply of the bus for a name that no one owns.
    pub const SERVICE_UNKNOWN: &'static str = "org.freedesktop.DBus.Error.ServiceUnknown";

    /// Whether a bus name is that of an MPRIS player.
    pub fn is_player_bus_name(bus_name: &str) -> (r: bool)
        ensures
            r == names_player(bus_name@),
    {
        strip_prefix(bus_name, Self::BUS_NAME_PREFIX).is_some()
    }

    /// The player that a bus name stands for.
    pub fn extract_player_name(bus_name: &str) -> (r: String)
        ensures
            r@ == player_named(bus_name@),
    {
        match strip_prefix(bus_name, Self::BUS_NAME_PREFIX) {
            Some(rest) => rest,
            None => bus_name.to_owned(),
        }
    }

    /// The bus name of a player.
    pub fn build_bus_name(player_name: &str) -> (r: String)
        ensures
            r@ == bus_name_of(player_name@),
    {
        joined(Self::BUS_NAME_PREFIX, player_name)
    }

    /// The players among the names on the bus.
    pub fn discover_players(names: &Vec<String>) -> (r: Vec<String>)
        ensures
            r.deep_view() == players_among(names.deep_view()),
    {
        let ghost all = names.deep_view();
        let mut players: Vec<String> = Vec::new();
        let mut i: usize = 0;
        assert(players.deep_view() =~= players_among(all.take(0)));
        while i < names.len()
            invariant
                i <= names.len(),
                all == names.deep_view(),
                players.deep_view() == players_among(all.take(i as int)),
            decreases names.len() - i,
        {
            let ghost before = players.deep_view();
            assert(all.take(i + 1).drop_last() =~= all.take(i as int));
            assert(all.take(i + 1).last() == names[i as int]@);
            if Self::is_player_bus_name(names[i].as_str()) {
                let player = Self::extract_player_name(names[i].as_str());
                players.push(player);
                assert(players.deep_view() =~= before.push(player@));
            }
            i += 1;
        }
        assert(all.take(i as int) =~= all);
        players
    }

    /// The known players, from bus names and the owner that each was found to have.
    pub fn initialize_player_name_cache(found: &Vec<(String, Option<String>)>) -> (r:
        PlayerNameCache)
        ensures
            r@ == known_owners(found.deep_view()),
    {
        let ghost all = found.deep_view();
        let mut cache = PlayerNameCache::new();
        let mut i: usize = 0;
        assert(all.take(0).len() == 0);
        while i < found.len()
            invariant
                i <= found.len(),
                all == found.deep_view(),
                cache@ == known_owners(all.take(i as int)),
            decreases found.len() - i,
        {
            assert(all.take(i + 1).drop_last() =~= all.take(i as int));
            assert(all.take(i + 1).last() == found[i as int].deep_view());
            if let Some(owner) = &found[i].1 {
                if Self::is_player_bus_name(found[i].0.as_str()) {
                    cache.insert(
                        owner.clone(),
                        Self::extract_player_name(found[i].0.as_str()),
                    );
                }
            }
            i += 1;
        }
        assert(all.take(i as int) =~= all);
        cache
    }

    /// The playback state in the value of a player's status property.
    pub fn playback_state_in(value: &Variant) -> (r: Result<PlaybackState, MediaSourceError>)
        ensures
            state_outcome(r) == reported_state(value.model()),
    {
        match value {
            Variant::Str(text) => match MprisPlaybackStatus::try_from(text.as_str()) {
                Ok(status) => Ok(PlaybackState::from(status)),
                Err(e) => Err(e),
            },
            _ => Err(MediaSourceError::ParseError("Failed to get PlaybackStatus".to_owned())),
        }
    }

    /// The error for a status property that could not be fetched: a player that the bus does not
    /// know is not found, any other failure is one of the connection.
    pub fn status_failure(failure: zbus::Error, player_name: &str) -> (r: MediaSourceError)
        ensures
            if error_name_of(&failure) == Some(Self::SERVICE_UNKNOWN@) {
                r@ == ErrorModel::PlayerNotFound(player_name@)
            } else {
                r matches MediaSourceError::ConnectionError(text)
                    && to_string_from_display_ensures(&failure, text)
            },
            r is PlayerNotFound <==> error_name_of(&failure) == Some(
                "org.freedesktop.DBus.Error.ServiceUnknown"@,
            ),
    {
        if let Some(name) = read_error_name(&failure) {
            if same_text(name.as_str(), Self::SERVICE_UNKNOWN) {
                return MediaSourceError::PlayerNotFound(player_name.to_owned());
            }
        }
        MediaSourceError::from(failure)
    }

    /// The playback state from the reply for a player's status property.
    pub fn get_playback_state(
        reply: Result<Value<'_>, zbus::Error>,
        player_name: &str,
    ) -> (r: Result<PlaybackState, MediaSourceError>)
        ensures
            match reply {
                Ok(value) => state_outcome(r) == reported_state(value_content(&value)),
                Err(failure) => {
                    &&& r is Err
                    &&& if error_name_of(&failure) == Some(Self::SERVICE_UNKNOWN@) {
                        r->Err_0@ == ErrorModel::PlayerNotFound(player_name@)
                    } else {
                        r->Err_0 matches MediaSourceError::ConnectionError(text)
                            && to_string_from_display_ensures(&failure, text)
                    }
                },
            },
    {
        match reply {
            Ok(value) => Self::playback_state_in(&read_value(&value)),
            Err(failure) => Err(Self::status_failure(failure, player_name)),
        }
    }

    /// The track in the value of a player's metadata property.
    pub fn track_in(value: &Variant) -> (r: Option<Track>)
        ensures
            optional_track(r) == reported_track(value.model()),
    {
        match value {
            Variant::Dict(entries) => {
                assert(value.model()->Dict_0 =~= entries.deep_view());
                Some(Track::from(MprisMetadata::from_entries(entries)))
            },
            _ => None,
        }
    }

    /// The track from the reply for a player's metadata property; none where it could not be
    /// fetched.
    pub fn get_metadata(reply: Result<Value<'_>, zbus::Error>) -> (r: Option<Track>)
        ensures
            optional_track(r) == match reply {
                Ok(value) => reported_track(value_content(&value)),
                Err(_) => None,
            },
    {
        match reply {
            Ok(value) => Self::track_in(&read_value(&value)),
            Err(_) => None,
        }
    }

    /// The position in the value of a player's position property; none where it is negative.
    pub fn position_in(value: &Variant) -> (r: Option<Duration>)
        ensures
            optional_nanos(r) == reported_position(value.model()),
    {
        match value {
            Variant::I64(micros) => if *micros >= 0 {
                Some(Duration::from_micros(*micros as u64))
            } else {
                None
            },
            _ => None,
        }
    }

    /// The position from the reply for a player's position property; none where it could not be
    /// fetched.
    pub fn get_position(reply: Result<Value<'_>, zbus::Error>) -> (r: Option<Duration>)
        ensures
            optional_nanos(r) == match reply {
                Ok(value) => reported_position(value_content(&value)),
                Err(_) => None,
            },
    {
        match reply {
            Ok(value) => Self::position_in(&read_value(&value)),
            Err(_) => None,
        }
    }

    /// The volume in the value of a player's volume property.
    pub fn volume_in(value: &Variant) -> (r: Option<Real64>)
        ensures
            r == reported_volume(value.model()),
    {
        match value {
            Variant::F64(volume) => Some(*volume),
            _ => None,
        }
    }

    /// The volume from the reply for a player's volume property; none where it could not be
    /// fetched.
    pub fn get_volume(reply: Result<Value<'_>, zbus::Error>) -> (r: Option<Real64>)
        ensures
            r == match reply {
                Ok(value) => reported_volume(value_content(&value)),
                Err(_) => None,
            },
    {
        match reply {
            Ok(value) => Self::volume_in(&read_value(&value)),
            Err(_) => None,
        }
    }

    /// The information on a player, from the reading of its playback state and the replies for its
    /// other properties. Without a playback state there is no player to tell of; another property
    /// that could not be fetched or read is left out.
    pub fn get_player_info(
        player_name: &str,
        playback_state: Result<PlaybackState, MediaSourceError>,
        metadata: Result<Value<'_>, zbus::Error>,
        position: Result<Value<'_>, zbus::Error>,
        volume: Result<Value<'_>, zbus::Error>,
    ) -> (r: Result<PlayerInfo, MediaSourceError>)
        ensures
            match playback_state {
                Ok(state) => r matches Ok(info) && info@ == (PlayerInfoModel {
                    player_name: player_name@,
                    current_track: match metadata {
                        Ok(value) => reported_track(value_content(&value)),
                        Err(_) => None,
                    },
                    playback_state: state,
                    position: match position {
                        Ok(value) => reported_position(value_content(&value)),
                        Err(_) => None,
                    },
                    volume: match volume {
                        Ok(value) => reported_volume(value_content(&value)),
                        Err(_) => None,
                    },
                }),
                Err(failure) => r == Err::<PlayerInfo, _>(failure),
            },
    {
        match playback_state {
            Ok(state) => Ok(
                PlayerInfo {
                    player_name: player_name.to_owned(),
                    current_track: Self::get_metadata(metadata),
                    playback_state: state,
                    position: Self::get_position(position),
                    volume: Self::get_volume(volume),
                },
            ),
            Err(failure) => Err(failure),
        }
    }

    /// The events of a change of properties, from the fields of the signal's body and its sender.
    ///
    /// A signal can arrive before the one that makes its player known, or after the one that has
    /// it forgotten. It cannot be attributed to a player and gives no events.
    pub fn property_changes(
        fields: &Vec<Variant>,
        sender: Option<String>,
        player_name_cache: &PlayerNameCache,
    ) -> (r: Result<Vec<MediaEvent>, MediaSourceError>)
        ensures
            events_outcome(r) == property_events(
                fields.deep_view(),
                sender.deep_view(),
                player_name_cache@,
            ),
    {
        let mut events: Vec<MediaEvent> = Vec::new();
        assert(events.deep_view() =~= Seq::<EventModel>::empty());
        if fields.len() != 3 {
            return Ok(events);
        }
        let changed = match &fields[1] {
            Variant::Dict(entries) => entries,
            _ => return Ok(events),
        };
        let ghost properties = changed.deep_view();
        assert(fields.deep_view()[1] == fields[1].model());
        assert(fields[1].model()->Dict_0 =~= properties);
        let owner = match sender {
            Some(owner) => owner,
            None => return Err(MediaSourceError::InternalError("Failed to get sender".to_owned())),
        };
        let player = match player_name_cache.get(owner.as_str()) {
            Some(player) => player,
            None => return Ok(events),
        };

        if let Some(Variant::Str(text)) = lookup(changed, Self::PLAYBACK_STATUS_PROPERTY) {
            match MprisPlaybackStatus::try_from(text.as_str()) {
                Ok(status) => events.push(
                    MediaEvent::StateChanged {
                        player_name: player.clone(),
                        state: PlaybackState::from(status),
                    },
                ),
                Err(e) => return Err(e),
            }
        }
        let ghost status_part = status_events(player@, properties)->Ok_0;
        assert(events.deep_view() =~= status_part);

        if let Some(Variant::Dict(entries)) = lookup(changed, Self::METADATA_PROPERTY) {
            proof {
                let found = entry(properties, Self::METADATA_PROPERTY@);
                assert(found->0->Dict_0 =~= entries.deep_view());
            }
            events.push(
                MediaEvent::TrackChanged {
                    player_name: player.clone(),
                    track: Track::from(MprisMetadata::from_entries(entries)),
                },
            );
        }
        let ghost track_part = metadata_events(player@, properties);
        assert(events.deep_view() =~= status_part + track_part);

        if let Some(Variant::F64(volume)) = lookup(changed, Self::VOLUME_PROPERTY) {
            events.push(
                MediaEvent::VolumeChanged { player_name: player.clone(), volume: *volume },
            );
        }
        assert(events.deep_view() =~= status_part + track_part + volume_events(
            player@,
            properties,
        ));
        Ok(events)
    }

    /// The events of a `PropertiesChanged` signal.
    pub fn handle_property_changed_message(
        msg: &Message,
        player_name_cache: &PlayerNameCache,
    ) -> (r: Result<Vec<MediaEvent>, MediaSourceError>)
        ensures
            match fields_told(msg) {
                Ok(fields) => sender_of(msg) is Ok && events_outcome(r) == property_events(
                    fields,
                    sender_of(msg)->Ok_0,
                    player_name_cache@,
                ),
                Err(failure) => r is Err && is_parse_error_of(r->Err_0, failure),
            },
    {
        let fields = match read_fields(msg) {
            Ok(fields) => fields,
            Err(failure) => return Err(MediaSourceError::ParseError(failure.to_string())),
        };
        if !Self::tells_changes(&fields) {
            return Self::property_changes(&fields, None, player_name_cache);
        }
        match read_sender(msg) {
            Ok(sender) => Self::property_changes(&fields, sender, player_name_cache),
            Err(failure) => Err(MediaSourceError::ParseError(failure.to_string())),
        }
    }

    /// Whether the fields of a signal's body are those of a change of properties.
    fn tells_changes(fields: &Vec<Variant>) -> (r: bool)
        ensures
            r == are_changes(fields.deep_view()),
    {
        fields.len() == 3 && match &fields[1] {
            Variant::Dict(_) => true,
            _ => false,
        }
    }

    /// Notes the change of a bus name's owner.
    pub fn owner_changed(
        bus_name: &str,
        old_owner: String,
        new_owner: String,
        player_name_cache: &mut PlayerNameCache,
    ) -> (r: Option<MediaEvent>)
        ensures
            r.deep_view() == owner_event(bus_name@, old_owner@, new_owner@),
            final(player_name_cache)@ == owners_after(
                old(player_name_cache)@,
                bus_name@,
                old_owner@,
                new_owner@,
            ),
    {
        if Self::is_player_bus_name(bus_name) {
            let player_name = Self::extract_player_name(bus_name);
            if old_owner.as_str().is_empty() && !new_owner.as_str().is_empty() {
                player_name_cache.insert(new_owner, player_name.clone());
                return Some(MediaEvent::PlayerAdded { player_name });
            } else if !old_owner.as_str().is_empty() && new_owner.as_str().is_empty() {
                player_name_cache.remove(old_owner.as_str());
                return Some(MediaEvent::PlayerRemoved { player_name });
            }
        }
        None
    }

    /// The event of a `NameOwnerChanged` signal; the known players follow it.
    pub fn handle_name_owner_changed_message(
        msg: &Message,
        player_name_cache: &mut PlayerNameCache,
    ) -> (r: Result<Option<MediaEvent>, MediaSourceError>)
        ensures
            match texts_told(msg) {
                Ok((bus_name, old_owner, new_owner)) => {
                    &&& event_outcome(r) == Ok::<_, ErrorModel>(
                        owner_event(bus_name, old_owner, new_owner),
                    )
                    &&& final(player_name_cache)@ == owners_after(
                        old(player_name_cache)@,
                        bus_name,
                        old_owner,
                        new_owner,
                    )
                },
                Err(failure) => {
                    &&& r is Err && is_parse_error_of(r->Err_0, failure)
                    &&& final(player_name_cache)@ == old(player_name_cache)@
                },
            },
    {
        match read_texts(msg) {
            Ok((bus_name, old_owner, new_owner)) => Ok(
                Self::owner_changed(bus_name.as_str(), old_owner, new_owner, player_name_cache),
            ),
            Err(failure) => Err(MediaSourceError::ParseError(failure.to_string())),
        }
    }

    /// The event of a seek of a player to a position in microseconds.
    pub fn seeked(player_name: &str, micros: i64) -> (r: Result<
        Option<MediaEvent>,
        MediaSourceError,
    >)
        ensures
            event_outcome(r) == seek_event(player_name@, micros),
    {
        if micros >= 0 {
            Ok(
                Some(
                    MediaEvent::PositionChanged {
                        player_name: player_name.to_owned(),
                        position: Duration::from_micros(micros as u64),
                    },
                ),
            )
        } else {
            Err(MediaSourceError::ParseError("Failed to convert position".to_owned()))
        }
    }

    /// The event of a `Seeked` signal. As with a change of properties, one from a player that is
    /// not known gives none.
    pub fn handle_seeked_message(msg: &Message, player_name_cache: &PlayerNameCache) -> (r: Result<
        Option<MediaEvent>,
        MediaSourceError,
    >)
        ensures
            match sender_of(msg) {
                Err(failure) => r is Err && is_parse_error_of(r->Err_0, failure),
                Ok(None) => event_outcome(r) == Err::<Option<EventModel>, _>(
                    ErrorModel::InternalError("Failed to get sender"@),
                ),
                Ok(Some(owner)) => match player_behind(player_name_cache@, owner) {
                    None => event_outcome(r) == Ok::<_, ErrorModel>(None::<EventModel>),
                    Some(player) => match number_told(msg) {
                        Ok(micros) => event_outcome(r) == seek_event(player, micros),
                        Err(failure) => r is Err && is_parse_error_of(r->Err_0, failure),
                    },
                },
            },
    {
        let owner = match read_sender(msg) {
            Err(failure) => return Err(MediaSourceError::ParseError(failure.to_string())),
            Ok(Some(owner)) => owner,
            Ok(None) => return Err(MediaSourceError::InternalError("Failed to get sender".to_owned())),
        };
        let player = match player_name_cache.get(owner.as_str()) {
            Some(player) => player,
            None => return Ok(None),
        };
        match read_number(msg) {
            Ok(micros) => Self::seeked(player.as_str(), micros),
            Err(failure) => Err(MediaSourceError::ParseError(failure.to_string())),
        }
    }

    /// One turn of the loop that follows the bus: what to report, or that the loop is over.
    ///
    /// A message that could not be received or read is passed over; only the consumer's leaving
    /// and the end of all signals stop the loop.
    pub fn follow(event: BusEvent, player_name_cache: &mut PlayerNameCache) -> (r: LoopStep)
        ensures
            r.deep_view() == reported(event, old(player_name_cache)@),
            final(player_name_cache)@ == known_after(event, old(player_name_cache)@),
    {
        let nothing: Vec<MediaEvent> = Vec::new();
        assert(nothing.deep_view() =~= Seq::<EventModel>::empty());
        match event {
            BusEvent::PropertiesChanged(Ok(msg)) => {
                match Self::handle_property_changed_message(&msg, player_name_cache) {
                    Ok(events) => LoopStep::Report(events),
                    Err(_) => LoopStep::Report(nothing),
                }
            },
            BusEvent::NameOwnerChanged(Ok(msg)) => {
                match Self::handle_name_owner_changed_message(&msg, player_name_cache) {
                    Ok(Some(event)) => LoopStep::Report(one(event)),
                    _ => LoopStep::Report(nothing),
                }
            },
            BusEvent::Seeked(Ok(msg)) => {
                match Self::handle_seeked_message(&msg, player_name_cache) {
                    Ok(Some(event)) => LoopStep::Report(one(event)),
                    _ => LoopStep::Report(nothing),
                }
            },
            BusEvent::ConsumerGone => LoopStep::Stop,
            BusEvent::SignalsEnded => LoopStep::Stop,
            _ => LoopStep::Report(nothing),
        }
    }
}

fn one(event: MediaEvent) -> (r: Vec<MediaEvent>)
    ensures
        r.deep_view() == seq![event@],
{
    let mut events: Vec<MediaEvent> = Vec::new();
    events.push(event);
    assert(events.deep_view() =~= seq![event@]);
    events
}

/// What the loop that follows the bus can wake up to.
pub enum BusEvent {
    /// A player's properties changed.
    PropertiesChanged(Result<Message, zbus::Error>),
    /// The owner of a bus name changed.
    NameOwnerChanged(Result<Message, zbus::Error>),
    /// A player jumped to a position.
    Seeked(Result<Message, zbus::Error>),
    /// No one listens to the events any more.
    ConsumerGone,
    /// No further signal will come.
    SignalsEnded,
}

/// What the loop that follows the bus does next.
pub enum LoopStep {
    /// Hands out the events and goes on.
    Report(Vec<MediaEvent>),
    /// Ends.
    Stop,
}

/// What a [`LoopStep`] says.
pub enum StepModel {
    Report(Seq<EventModel>),
    Stop,
}

impl DeepView for LoopStep {
    type V = StepModel;

    open spec fn deep_view(&self) -> StepModel {
        match self {
            LoopStep::Report(events) => StepModel::Report(events.deep_view()),
            LoopStep::Stop => StepModel::Stop,
        }
    }
}

/// The events of a `PropertiesChanged` signal; none where it cannot be read.
pub open spec fn property_report(msg: &Message, cache: Map<Seq<char>, Seq<char>>) -> Seq<
    EventModel,
> {
    match fields_told(msg) {
        Ok(fields) => match property_events(fields, sender_of(msg)->Ok_0, cache) {
            Ok(events) => events,
            Err(_) => seq![],
        },
        Err(_) => seq![],
    }
}

/// The event of a `NameOwnerChanged` signal; none where it cannot be read.
pub open spec fn owner_report(msg: &Message) -> Seq<EventModel> {
    match texts_told(msg) {
        Ok((bus_name, old_owner, new_owner)) => match owner_event(bus_name, old_owner, new_owner) {
            Some(event) => seq![event],
            None => seq![],
        },
        Err(_) => seq![],
    }
}

/// The event of a `Seeked` signal; none where it cannot be read or its player is not known.
pub open spec fn seek_report(msg: &Message, cache: Map<Seq<char>, Seq<char>>) -> Seq<EventModel> {
    match sender_of(msg) {
        Err(_) => seq![],
        Ok(None) => seq![],
        Ok(Some(owner)) => match player_behind(cache, owner) {
            None => seq![],
            Some(player) => match number_told(msg) {
                Ok(micros) => match seek_event(player, micros) {
                    Ok(Some(event)) => seq![event],
                    _ => seq![],
                },
                Err(_) => seq![],
            },
        },
    }
}

/// What one turn of the loop that follows the bus reports.
pub open spec fn reported(event: BusEvent, cache: Map<Seq<char>, Seq<char>>) -> StepModel {
    match event {
        BusEvent::PropertiesChanged(Ok(msg)) => StepModel::Report(property_report(&msg, cache)),
        BusEvent::NameOwnerChanged(Ok(msg)) => StepModel::Report(owner_report(&msg)),
        BusEvent::Seeked(Ok(msg)) => StepModel::Report(seek_report(&msg, cache)),
        BusEvent::ConsumerGone => StepModel::Stop,
        BusEvent::SignalsEnded => StepModel::Stop,
        _ => StepModel::Report(seq![]),
    }
}

/// What is known of the players after one turn of the loop that follows the bus.
pub open spec fn known_after(event: BusEvent, cache: Map<Seq<char>, Seq<char>>) -> Map<
    Seq<char>,
    Seq<char>,
> {
    match event {
        BusEvent::NameOwnerChanged(Ok(msg)) => match texts_told(&msg) {
            Ok((bus_name, old_owner, new_owner)) => owners_after(
                cache,
                bus_name,
                old_owner,
                new_owner,
            ),
            Err(_) => cache,
        },
        _ => cache,
    }
}

/// A player's bus name leads back to the player.
pub proof fn player_name_round_trip(player: Seq<char>)
    ensures
        names_player(bus_name_of(player)),
        player_named(bus_name_of(player)) == player,
{
    let prefix = MprisProvider::BUS_NAME_PREFIX@;
    assert(bus_name_of(player).take(prefix.len() as int) =~= prefix);
    assert(behind(bus_name_of(player), prefix) =~= player);
}

/// An MPRIS bus name is the bus name of the player that it stands for.
pub proof fn bus_name_round_trip(bus_name: Seq<char>)
    requires
        names_player(bus_name),
    ensures
        bus_name_of(player_named(bus_name)) == bus_name,
{
    let prefix = MprisProvider::BUS_NAME_PREFIX@;
    assert(bus_name_of(player_named(bus_name)) =~= bus_name);
}

/// A player is listed exactly when its bus name is on the bus.
pub proof fn listed_means_on_the_bus(names: Seq<Seq<char>>, player: Seq<char>)
    ensures
        players_among(names).contains(player) <==> names.contains(bus_name_of(player)),
    decreases names.len(),
{
    player_name_round_trip(player);
    if names.len() > 0 {
        let rest = names.drop_last();
        let last = names.last();
        listed_means_on_the_bus(rest, player);
        assert(names =~= rest.push(last));
        let listed = players_among(rest);
        if names_player(last) {
            bus_name_round_trip(last);
            assert(players_among(names) == listed.push(player_named(last)));
            assert(listed.push(player_named(last))[listed.len() as int] == player_named(last));
            if listed.contains(player) {
                let i = choose|i: int| 0 <= i < listed.len() && listed[i] == player;
                assert(listed.push(player_named(last))[i] == player);
            }
            if players_among(names).contains(player) && player_named(last) != player {
                let i = choose|i: int|
                    0 <= i < players_among(names).len() && players_among(names)[i] == player;
                assert(listed[i] == player);
            }
        }
        if rest.contains(bus_name_of(player)) {
            let i = choose|i: int| 0 <= i < rest.len() && rest[i] == bus_name_of(player);
            assert(names[i] == bus_name_of(player));
        }
        if names.contains(bus_name_of(player)) && last != bus_name_of(player) {
            let i = choose|i: int| 0 <= i < names.len() && names[i] == bus_name_of(player);
            assert(rest[i] == bus_name_of(player));
        }
        assert(names[names.len() - 1] == last);
    }
}

/// An owner is known exactly when it was found to own a player's bus name.
pub proof fn known_means_found(
    found: Seq<(Seq<char>, Option<Seq<char>>)>,
    owner: Seq<char>,
)
    ensures
        known_owners(found).contains_key(owner) <==> exists|i: int|
            0 <= i < found.len() && names_player((#[trigger] found[i]).0) && found[i].1 == Some(
                owner,
            ),
    decreases found.len(),
{
    if found.len() > 0 {
        let rest = found.drop_last();
        let last = found.last();
        known_means_found(rest, owner);
        if known_owners(rest).contains_key(owner) {
            let i = choose|i: int|
                0 <= i < rest.len() && names_player((#[trigger] rest[i]).0) && rest[i].1 == Some(
                    owner,
                );
            assert(found[i] == rest[i]);
        }
        if names_player(last.0) && last.1 == Some(owner) {
            assert(found[found.len() - 1] == last);
        } else if exists|i: int|
            0 <= i < found.len() && names_player((#[trigger] found[i]).0) && found[i].1 == Some(
                owner,
            ) {
            let i = choose|i: int|
                0 <= i < found.len() && names_player((#[trigger] found[i]).0) && found[i].1 == Some(
                    owner,
                );
            assert(rest[i] == found[i]);
        }
    }
}

/// A signal of a sender that is not known reports nothing and is no error.
pub proof fn unknown_sender_reports_nothing(
    fields: Seq<VariantModel>,
    owner: Seq<char>,
    cache: Map<Seq<char>, Seq<char>>,
)
    requires
        !cache.contains_key(owner),
    ensures
        property_events(fields, Some(owner), cache) == Ok::<_, ErrorModel>(
            Seq::<EventModel>::empty(),
        ),
{
}

/// Every event of a change of properties is about the player behind the sender.
pub proof fn property_events_name_their_player(
    fields: Seq<VariantModel>,
    owner: Seq<char>,
    cache: Map<Seq<char>, Seq<char>>,
    i: int,
)
    requires
        property_events(fields, Some(owner), cache) is Ok,
        0 <= i < property_events(fields, Some(owner), cache)->Ok_0.len(),
    ensures
        cache.contains_key(owner),
        property_events(fields, Some(owner), cache)->Ok_0[i].player() == cache[owner],
{
}

/// A player whose bus name came to be owned is the one that signals of the owner are about, until
/// the name ceases to be owned.
pub proof fn added_player_is_known_until_removed(
    cache: Map<Seq<char>, Seq<char>>,
    player: Seq<char>,
    owner: Seq<char>,
)
    requires
        owner.len() > 0,
    ensures
        ({
            let bus_name = bus_name_of(player);
            let present = owners_after(cache, bus_name, seq![], owner);
            let gone = owners_after(present, bus_name, owner, seq![]);
            &&& owner_event(bus_name, seq![], owner) == Some(
                EventModel::PlayerAdded { player_name: player },
            )
            &&& player_behind(present, owner) == Some(player)
            &&& owner_event(bus_name, owner, seq![]) == Some(
                EventModel::PlayerRemoved { player_name: player },
            )
            &&& player_behind(gone, owner) is None
        }),
{
    player_name_round_trip(player);
}

/// A player that comes and goes leaves what was known before.
pub proof fn coming_and_going_cancel(
    cache: Map<Seq<char>, Seq<char>>,
    bus_name: Seq<char>,
    owner: Seq<char>,
)
    requires
        !cache.contains_key(owner),
    ensures
        owners_after(owners_after(cache, bus_name, seq![], owner), bus_name, owner, seq![])
            == cache,
{
    assert(cache.insert(owner, player_named(bus_name)).remove(owner) =~= cache);
}

/// A name that is no player's, and one that passes from owner to owner, change nothing.
pub proof fn other_owner_changes_are_ignored(
    cache: Map<Seq<char>, Seq<char>>,
    bus_name: Seq<char>,
    old_owner: Seq<char>,
    new_owner: Seq<char>,
)
    requires
        !names_player(bus_name) || (old_owner.len() > 0 && new_owner.len() > 0),
    ensures
        owner_event(bus_name, old_owner, new_owner) is None,
        owners_after(cache, bus_name, old_owner, new_owner) == cache,
{
}

/// A change of one name's owner leaves what is known of every other owner.
pub proof fn owner_changes_leave_others_alone(
    cache: Map<Seq<char>, Seq<char>>,
    bus_name: Seq<char>,
    old_owner: Seq<char>,
    new_owner: Seq<char>,
    other: Seq<char>,
)
    requires
        other != old_owner,
        other != new_owner,
    ensures
        player_behind(owners_after(cache, bus_name, old_owner, new_owner), other) == player_behind(
            cache,
            other,
        ),
{
}

/// No signal stops the loop that follows the bus, however malformed; one that cannot be received
/// or read, or that is refused for what it tells, reports nothing and leaves what is known of the
/// players.
pub proof fn bad_signals_are_passed_over(event: BusEvent, cache: Map<Seq<char>, Seq<char>>)
    requires
        is_signal(event),
    ensures
        reported(event, cache) is Report,
        is_bad(event) ==> reported(event, cache) == StepModel::Report(seq![]) && known_after(
            event,
            cache,
        ) == cache,
{
}

/// Only the change of a name's owner changes what is known of the players.
pub proof fn other_signals_leave_players_alone(event: BusEvent, cache: Map<Seq<char>, Seq<char>>)
    requires
        !(event is NameOwnerChanged),
    ensures
        known_after(event, cache) == cache,
{
}

/// A run of the loop that follows the bus.
#[verifier::ext_equal]
pub struct RunModel {
    /// The events that were reported, in their order.
    pub reports: Seq<EventModel>,
    /// What is known of the players at the end.
    pub known: Map<Seq<char>, Seq<char>>,
    /// Whether the loop has ended.
    pub stopped: bool,
}

/// A run that wakes up once more. A loop that has ended does not.
pub open spec fn run_on(run: RunModel, event: BusEvent) -> RunModel {
    if run.stopped {
        run
    } else {
        match reported(event, run.known) {
            StepModel::Report(events) => RunModel {
                reports: run.reports + events,
                known: known_after(event, run.known),
                stopped: false,
            },
            StepModel::Stop => RunModel { stopped: true, ..run },
        }
    }
}

/// The run of the loop that wakes up to some events, one after the other.
pub open spec fn run_of(events: Seq<BusEvent>, cache: Map<Seq<char>, Seq<char>>) -> RunModel
    decreases events.len(),
{
    if events.len() == 0 {
        RunModel { reports: seq![], known: cache, stopped: false }
    } else {
        run_on(run_of(events.drop_last(), cache), events.last())
    }
}

/// Whether the loop wakes up to a signal.
pub open spec fn is_signal(event: BusEvent) -> bool {
    !(event is ConsumerGone) && !(event is SignalsEnded)
}

/// Whether a signal is of no use: it could not be received or read, names no sender, tells a
/// playback status that is none, or a position before the start.
pub open spec fn is_bad(event: BusEvent) -> bool {
    match event {
        BusEvent::PropertiesChanged(Ok(msg)) => match fields_told(&msg) {
            Ok(fields) => are_changes(fields) && (sender_of(&msg)->Ok_0 is None || status_events(
                seq![],
                fields[1]->Dict_0,
            ) is Err),
            Err(_) => true,
        },
        BusEvent::NameOwnerChanged(Ok(msg)) => texts_told(&msg) is Err,
        BusEvent::Seeked(Ok(msg)) => {
            ||| sender_of(&msg) is Err
            ||| sender_of(&msg)->Ok_0 is None
            ||| number_told(&msg) is Err
            ||| number_told(&msg)->Ok_0 < 0
        },
        _ => is_signal(event),
    }
}

/// Signals never end the loop, however many come and whatever they hold.
pub proof fn runs_outlast_their_signals(
    events: Seq<BusEvent>,
    cache: Map<Seq<char>, Seq<char>>,
)
    requires
        forall|i: int| 0 <= i < events.len() ==> is_signal(#[trigger] events[i]),
    ensures
        !run_of(events, cache).stopped,
    decreases events.len(),
{
    if events.len() > 0 {
        let rest = events.drop_last();
        assert forall|i: int| 0 <= i < rest.len() implies is_signal(#[trigger] rest[i]) by {
            assert(rest[i] == events[i]);
        }
        runs_outlast_their_signals(rest, cache);
        assert(is_signal(events[events.len() - 1]));
    }
}

/// Once the loop has ended nothing is reported any more.
pub proof fn ended_runs_stay_ended(
    events: Seq<BusEvent>,
    more: Seq<BusEvent>,
    cache: Map<Seq<char>, Seq<char>>,
)
    requires
        run_of(events, cache).stopped,
    ensures
        run_of(events + more, cache) == run_of(events, cache),
    decreases more.len(),
{
    if more.len() == 0 {
        assert(events + more =~= events);
    } else {
        ended_runs_stay_ended(events, more.drop_last(), cache);
        assert((events + more).drop_last() =~= events + more.drop_last());
    }
}

/// A signal that could not be received or read, or that is refused for what it tells, changes
/// nothing of a run: the same is reported and known as without it, whatever comes before and after.
pub proof fn bad_signals_leave_no_trace(
    before: Seq<BusEvent>,
    bad: BusEvent,
    after: Seq<BusEvent>,
    cache: Map<Seq<char>, Seq<char>>,
)
    requires
        is_bad(bad),
    ensures
        run_of(before.push(bad) + after, cache) == run_of(before + after, cache),
    decreases after.len(),
{
    if after.len() == 0 {
        assert(before.push(bad) + after =~= before.push(bad));
        assert(before + after =~= before);
        assert(before.push(bad).drop_last() =~= before);
        let run = run_of(before, cache);
        bad_signals_are_passed_over(bad, run.known);
        assert(run.reports + Seq::<EventModel>::empty() =~= run.reports);
        assert(run_on(run, bad) =~= run);
    } else {
        bad_signals_leave_no_trace(before, bad, after.drop_last(), cache);
        assert((before.push(bad) + after).drop_last() =~= before.push(bad) + after.drop_last());
        assert((before + after).drop_last() =~= before + after.drop_last());
    }
}

/// Whether a player was known before a run or is reported as added in it.
pub open spec fn introduced(
    cache: Map<Seq<char>, Seq<char>>,
    reports: Seq<EventModel>,
    player: Seq<char>,
) -> bool {
    cache.values().contains(player) || reports.contains(
        EventModel::PlayerAdded { player_name: player },
    )
}

proof fn introduced_stays(
    cache: Map<Seq<char>, Seq<char>>,
    reports: Seq<EventModel>,
    more: Seq<EventModel>,
    player: Seq<char>,
)
    requires
        introduced(cache, reports, player),
    ensures
        introduced(cache, reports + more, player),
{
    let added = EventModel::PlayerAdded { player_name: player };
    if reports.contains(added) {
        let k = choose|k: int| 0 <= k < reports.len() && reports[k] == added;
        assert((reports + more)[k] == added);
    }
}

/// The players that are known after a run were known before it or were reported as added.
pub proof fn known_players_were_introduced(
    events: Seq<BusEvent>,
    cache: Map<Seq<char>, Seq<char>>,
    owner: Seq<char>,
)
    requires
        run_of(events, cache).known.contains_key(owner),
    ensures
        introduced(cache, run_of(events, cache).reports, run_of(events, cache).known[owner]),
    decreases events.len(),
{
    if events.len() == 0 {
        assert(cache.contains_key(owner));
    } else {
        let rest = events.drop_last();
        let before = run_of(rest, cache);
        let run = run_of(events, cache);
        let player = run.known[owner];
        if before.known.contains_key(owner) {
            known_players_were_introduced(rest, cache, owner);
        }
        if !before.stopped {
            match reported(events.last(), before.known) {
                StepModel::Report(more) => {
                    if before.known.contains_key(owner) && before.known[owner] == player {
                        introduced_stays(cache, before.reports, more, player);
                    } else {
                        let added = EventModel::PlayerAdded { player_name: player };
                        assert(more =~= seq![added]);
                        assert(run.reports[before.reports.len() as int] == added);
                    }
                },
                StepModel::Stop => {},
            }
        }
    }
}

/// Every change of a track, a playback state, a position or a volume that a run reports is of a
/// player that was known before the run or was reported as added ahead of the change.
pub proof fn changes_are_of_introduced_players(
    events: Seq<BusEvent>,
    cache: Map<Seq<char>, Seq<char>>,
    i: int,
)
    requires
        0 <= i < run_of(events, cache).reports.len(),
        !(run_of(events, cache).reports[i] is PlayerAdded),
        !(run_of(events, cache).reports[i] is PlayerRemoved),
    ensures
        introduced(
            cache,
            run_of(events, cache).reports.take(i),
            run_of(events, cache).reports[i].player(),
        ),
    decreases events.len(),
{
    let rest = events.drop_last();
    let before = run_of(rest, cache);
    let run = run_of(events, cache);
    let player = run.reports[i].player();
    if i < before.reports.len() {
        changes_are_of_introduced_players(rest, cache, i);
        assert(run.reports.take(i) =~= before.reports.take(i));
    } else {
        let more = reported(events.last(), before.known)->Report_0;
        let at = i - before.reports.len();
        assert(run.reports[i] == more[at]);
        match events.last() {
            BusEvent::PropertiesChanged(Ok(msg)) => {
                let owner = sender_of(&msg)->Ok_0->0;
                property_events_name_their_player(
                    fields_told(&msg)->Ok_0,
                    owner,
                    before.known,
                    at,
                );
                known_players_were_introduced(rest, cache, owner);
            },
            BusEvent::Seeked(Ok(msg)) => {
                known_players_were_introduced(rest, cache, sender_of(&msg)->Ok_0->0);
            },
            _ => {},
        }
        let ahead = more.take(at);
        introduced_stays(cache, before.reports, ahead, player);
        assert(run.reports.take(i) =~= before.reports + ahead);
    }
}

/// A bus name is a player's exactly when it is the MPRIS prefix and then the player's name; any
/// other name stands for itself.
pub proof fn player_names_follow_the_prefix(bus_name: Seq<char>, player: Seq<char>)
    ensures
        bus_name_of(player) == "org.mpris.MediaPlayer2."@ + player,
        names_player("org.mpris.MediaPlayer2."@ + player),
        player_named("org.mpris.MediaPlayer2."@ + player) == player,
        names_player(bus_name) <==> exists|rest: Seq<char>|
            bus_name == #[trigger] ("org.mpris.MediaPlayer2."@ + rest),
        (forall|rest: Seq<char>| bus_name != #[trigger] ("org.mpris.MediaPlayer2."@ + rest))
            ==> player_named(bus_name) == bus_name,
{
    let prefix = "org.mpris.MediaPlayer2."@;
    player_name_round_trip(player);
    if names_player(bus_name) {
        bus_name_round_trip(bus_name);
        assert(bus_name == prefix + player_named(bus_name));
    }
    if exists|rest: Seq<char>| bus_name == #[trigger] (prefix + rest) {
        let rest = choose|rest: Seq<char>| bus_name == #[trigger] (prefix + rest);
        player_name_round_trip(rest);
    }
}

/// The players in two runs of names are those in the first and then those in the second.
pub proof fn players_are_listed_in_turn(a: Seq<Seq<char>>, b: Seq<Seq<char>>)
    ensures
        players_among(a + b) == players_among(a) + players_among(b),
    decreases b.len(),
{
    if b.len() == 0 {
        assert(a + b =~= a);
        assert(players_among(a) + players_among(b) =~= players_among(a));
    } else {
        players_are_listed_in_turn(a, b.drop_last());
        assert((a + b).drop_last() =~= a + b.drop_last());
        assert(players_among(a + b) =~= players_among(a) + players_among(b));
    }
}

/// A single name lists its player, where it is a player's, and nothing otherwise.
pub proof fn one_name_is_one_player(player: Seq<char>, other: Seq<char>)
    requires
        forall|rest: Seq<char>| other != #[trigger] ("org.mpris.MediaPlayer2."@ + rest),
    ensures
        players_among(seq!["org.mpris.MediaPlayer2."@ + player]) == seq![player],
        players_among(seq![other]) == Seq::<Seq<char>>::empty(),
{
    let name = "org.mpris.MediaPlayer2."@ + player;
    player_names_follow_the_prefix(other, player);
    reveal_with_fuel(players_among, 2);
    assert(seq![name].drop_last() =~= Seq::<Seq<char>>::empty());
    assert(seq![other].drop_last() =~= Seq::<Seq<char>>::empty());
    assert(players_among(seq![name]) =~= seq![player]);
    assert(players_among(seq![other]) =~= Seq::<Seq<char>>::empty());
}

/// An owner stands for the player whose bus name it was last found to own.
pub proof fn the_last_finding_counts(
    found: Seq<(Seq<char>, Option<Seq<char>>)>,
    i: int,
    player: Seq<char>,
    owner: Seq<char>,
)
    requires
        0 <= i < found.len(),
        found[i] == ("org.mpris.MediaPlayer2."@ + player, Some(owner)),
        forall|j: int, rest: Seq<char>|
            i < j < found.len() ==> #[trigger] found[j] != (
                #[trigger] ("org.mpris.MediaPlayer2."@ + rest),
                Some(owner),
            ),
    ensures
        known_owners(found).contains_key(owner),
        known_owners(found)[owner] == player,
    decreases found.len(),
{
    let before = found.drop_last();
    let last = found.last();
    if i == found.len() - 1 {
        player_names_follow_the_prefix(last.0, player);
    } else {
        assert(before[i] == found[i]);
        assert forall|j: int, rest: Seq<char>| i < j < before.len() implies #[trigger] before[j]
            != (#[trigger] ("org.mpris.MediaPlayer2."@ + rest), Some(owner)) by {
            assert(before[j] == found[j]);
        }
        the_last_finding_counts(before, i, player, owner);
        if last.1 == Some(owner) && names_player(last.0) {
            bus_name_round_trip(last.0);
            assert(found[found.len() - 1] == (
                "org.mpris.MediaPlayer2."@ + player_named(last.0),
                Some(owner),
            ));
        }
    }
}

/// Looking an owner up gives the player that is noted for it.
pub proof fn lookups_give_what_is_noted(cache: Map<Seq<char>, Seq<char>>, owner: Seq<char>)
    ensures
        player_behind(cache, owner) is Some <==> cache.contains_key(owner),
        cache.contains_key(owner) ==> player_behind(cache, owner) == Some(cache[owner]),
{
}

/// A status property tells "Playing", "Paused" or "Stopped", and each is the playback state of the
/// same name; any other text, and anything but a text, is an error.
pub proof fn statuses_are_read_by_name(text: Seq<char>, value: VariantModel)
    ensures
        reported_state(VariantModel::Str("Playing"@)) == Ok::<_, ErrorModel>(
            PlaybackState::Playing,
        ),
        reported_state(VariantModel::Str("Paused"@)) == Ok::<_, ErrorModel>(PlaybackState::Paused),
        reported_state(VariantModel::Str("Stopped"@)) == Ok::<_, ErrorModel>(
            PlaybackState::Stopped,
        ),
        text != "Playing"@ && text != "Paused"@ && text != "Stopped"@ ==> reported_state(
            VariantModel::Str(text),
        ) == Err::<PlaybackState, _>(
            ErrorModel::ParseError("Unknown playback status: "@ + text),
        ),
        !(value is Str) ==> reported_state(value) == Err::<PlaybackState, _>(
            ErrorModel::ParseError("Failed to get PlaybackStatus"@),
        ),
{
    status_names();
    only_three_texts_name_a_status(text);
}

/// A position is told in microseconds from the start on, a volume as it is and a track by a
/// dictionary; a value of another type tells nothing.
pub proof fn properties_are_read_by_type(value: VariantModel)
    ensures
        reported_position(value) is Some <==> value is I64 && value->I64_0 >= 0,
        reported_position(value) is Some ==> reported_position(value)->0 == 1_000 * value->I64_0,
        reported_volume(value) is Some <==> value is F64,
        value matches VariantModel::F64(x) ==> reported_volume(value) == Some(x),
        reported_track(value) is Some <==> value is Dict,
        value matches VariantModel::Dict(entries) ==> reported_track(value) == Some(
            described_track(metadata_of(entries)),
        ),
{
}

/// A seek is told at the position that the position property would give, and is an error where
/// that would give none.
pub proof fn seeks_agree_with_positions(player: Seq<char>, micros: i64)
    ensures
        micros >= 0 ==> seek_event(player, micros) is Ok && seek_event(player, micros)->Ok_0
            is Some && (seek_event(player, micros)->Ok_0->0 matches EventModel::PositionChanged {
            player_name,
            position,
        } && player_name == player && position == 1_000 * micros && reported_position(
            VariantModel::I64(micros),
        ) == Some(position)),
        micros < 0 ==> seek_event(player, micros) == Err::<Option<EventModel>, _>(
            ErrorModel::ParseError("Failed to convert position"@),
        ) && reported_position(VariantModel::I64(micros)) is None,
{
}

/// A body that is no change of properties reports nothing; one that is, without a sender, is an
/// error.
pub proof fn bodies_need_their_shape_and_sender(
    fields: Seq<VariantModel>,
    sender: Option<Seq<char>>,
    cache: Map<Seq<char>, Seq<char>>,
)
    ensures
        fields.len() != 3 || !(fields[1] is Dict) ==> property_events(fields, sender, cache)
            == Ok::<_, ErrorModel>(Seq::<EventModel>::empty()),
        fields.len() == 3 && fields[1] is Dict && sender is None ==> property_events(
            fields,
            sender,
            cache,
        ) == Err::<Seq<EventModel>, _>(ErrorModel::InternalError("Failed to get sender"@)),
{
}

/// A changed playback status of a known player is reported first, as the state that its text
/// names, which is the one that asking for the property gives; a text that names none is the error
/// that asking gives, and no other value is reported.
pub proof fn changed_statuses_are_reported(
    first: VariantModel,
    properties: Seq<(VariantModel, VariantModel)>,
    third: VariantModel,
    owner: Seq<char>,
    cache: Map<Seq<char>, Seq<char>>,
    i: int,
)
    requires
        cache.contains_key(owner),
        0 <= i < properties.len(),
        properties[i].0 == VariantModel::Str("PlaybackStatus"@),
        forall|j: int|
            0 <= j < i ==> (#[trigger] properties[j]).0 != VariantModel::Str("PlaybackStatus"@),
    ensures
        ({
            let value = match properties[i].1 {
                VariantModel::Boxed(v) => *v,
                v => v,
            };
            let r = property_events(
                seq![first, VariantModel::Dict(properties), third],
                Some(owner),
                cache,
            );
            &&& value == VariantModel::Str("Playing"@) ==> r is Ok && r->Ok_0.len() > 0
                && r->Ok_0[0] == (EventModel::StateChanged {
                player_name: cache[owner],
                state: PlaybackState::Playing,
            }) && reported_state(value) == Ok::<_, ErrorModel>(PlaybackState::Playing)
            &&& value == VariantModel::Str("Paused"@) ==> r is Ok && r->Ok_0.len() > 0
                && r->Ok_0[0] == (EventModel::StateChanged {
                player_name: cache[owner],
                state: PlaybackState::Paused,
            }) && reported_state(value) == Ok::<_, ErrorModel>(PlaybackState::Paused)
            &&& value == VariantModel::Str("Stopped"@) ==> r is Ok && r->Ok_0.len() > 0
                && r->Ok_0[0] == (EventModel::StateChanged {
                player_name: cache[owner],
                state: PlaybackState::Stopped,
            }) && reported_state(value) == Ok::<_, ErrorModel>(PlaybackState::Stopped)
            &&& value matches VariantModel::Str(text) ==> text != "Playing"@ && text
                != "Paused"@ && text != "Stopped"@ ==> r == Err::<Seq<EventModel>, _>(
                ErrorModel::ParseError("Unknown playback status: "@ + text),
            ) && reported_state(value) == Err::<PlaybackState, _>(r->Err_0)
            &&& !(value is Str) ==> r is Ok && forall|k: int|
                0 <= k < r->Ok_0.len() ==> !(#[trigger] r->Ok_0[k] is StateChanged)
        }),
{
    let value = match properties[i].1 {
        VariantModel::Boxed(v) => *v,
        v => v,
    };
    lookups_find_the_first_entry(properties, "PlaybackStatus"@, i);
    status_names();
    match value {
        VariantModel::Str(text) => {
            statuses_are_read_by_name(text, value);
        },
        _ => {},
    }
}

/// A changed track or volume of a known player is reported as asking for the property gives it,
/// unless the change is refused for its playback status; a value of another type is not reported.
pub proof fn changed_tracks_and_volumes_are_reported(
    first: VariantModel,
    properties: Seq<(VariantModel, VariantModel)>,
    third: VariantModel,
    owner: Seq<char>,
    cache: Map<Seq<char>, Seq<char>>,
    key: Seq<char>,
    i: int,
)
    requires
        cache.contains_key(owner),
        0 <= i < properties.len(),
        properties[i].0 == VariantModel::Str(key),
        forall|j: int| 0 <= j < i ==> (#[trigger] properties[j]).0 != VariantModel::Str(key),
        property_events(
            seq![first, VariantModel::Dict(properties), third],
            Some(owner),
            cache,
        ) is Ok,
    ensures
        ({
            let value = match properties[i].1 {
                VariantModel::Boxed(v) => *v,
                v => v,
            };
            let events = property_events(
                seq![first, VariantModel::Dict(properties), third],
                Some(owner),
                cache,
            )->Ok_0;
            &&& key == "Metadata"@ && value is Dict ==> reported_track(value) is Some
                && events.contains(
                EventModel::TrackChanged {
                    player_name: cache[owner],
                    track: reported_track(value)->0,
                },
            )
            &&& key == "Metadata"@ && !(value is Dict) ==> forall|k: int|
                0 <= k < events.len() ==> !(#[trigger] events[k] is TrackChanged)
            &&& key == "Volume"@ && value is F64 ==> events.contains(
                EventModel::VolumeChanged { player_name: cache[owner], volume: value->F64_0 },
            )
            &&& key == "Volume"@ && !(value is F64) ==> forall|k: int|
                0 <= k < events.len() ==> !(#[trigger] events[k] is VolumeChanged)
        }),
{
    let value = match properties[i].1 {
        VariantModel::Boxed(v) => *v,
        v => v,
    };
    let player = cache[owner];
    let fields = seq![first, VariantModel::Dict(properties), third];
    let events = property_events(fields, Some(owner), cache)->Ok_0;
    lookups_find_the_first_entry(properties, key, i);
    assert(fields[1] == VariantModel::Dict(properties));
    let states = status_events(player, properties)->Ok_0;
    let tracks = metadata_events(player, properties);
    let volumes = volume_events(player, properties);
    assert(events == states + tracks + volumes);
    if key == "Metadata"@ && value is Dict {
        assert(tracks.len() == 1);
        assert(events[states.len() as int] == tracks[0]);
    }
    if key == "Volume"@ && value is F64 {
        assert(volumes.len() == 1);
        assert(events[(states.len() + tracks.len()) as int] == volumes[0]);
    }
}

/// What is not among the changed properties is not reported, and without a playback status a
/// change is never refused.
pub proof fn unchanged_properties_are_not_reported(
    first: VariantModel,
    properties: Seq<(VariantModel, VariantModel)>,
    third: VariantModel,
    owner: Seq<char>,
    cache: Map<Seq<char>, Seq<char>>,
    key: Seq<char>,
    k: int,
)
    requires
        forall|j: int|
            0 <= j < properties.len() ==> (#[trigger] properties[j]).0 != VariantModel::Str(key),
    ensures
        ({
            let r = property_events(
                seq![first, VariantModel::Dict(properties), third],
                Some(owner),
                cache,
            );
            &&& key == "PlaybackStatus"@ ==> r is Ok
            &&& r is Ok && 0 <= k < r->Ok_0.len() ==> {
                &&& key == "PlaybackStatus"@ ==> !(r->Ok_0[k] is StateChanged)
                &&& key == "Metadata"@ ==> !(r->Ok_0[k] is TrackChanged)
                &&& key == "Volume"@ ==> !(r->Ok_0[k] is VolumeChanged)
            }
        }),
{
    lookups_of_missing_keys_find_nothing(properties, key);
}

/// The events of a change of properties are at most a playback state, a track and a volume, in
/// this order.
pub proof fn property_events_come_in_order(
    fields: Seq<VariantModel>,
    sender: Option<Seq<char>>,
    cache: Map<Seq<char>, Seq<char>>,
    i: int,
    j: int,
)
    requires
        property_events(fields, sender, cache) is Ok,
        0 <= i < j < property_events(fields, sender, cache)->Ok_0.len(),
    ensures
        ({
            let earlier = property_events(fields, sender, cache)->Ok_0[i];
            let later = property_events(fields, sender, cache)->Ok_0[j];
            ||| earlier is StateChanged && (later is TrackChanged || later is VolumeChanged)
            ||| earlier is TrackChanged && later is VolumeChanged
        }),
{
}

/// Every event of a change of properties is a playback state, a track or a volume.
pub proof fn property_events_tell_of_properties(
    fields: Seq<VariantModel>,
    sender: Option<Seq<char>>,
    cache: Map<Seq<char>, Seq<char>>,
    i: int,
)
    requires
        property_events(fields, sender, cache) is Ok,
        0 <= i < property_events(fields, sender, cache)->Ok_0.len(),
    ensures
        ({
            let event = property_events(fields, sender, cache)->Ok_0[i];
            event is StateChanged || event is TrackChanged || event is VolumeChanged
        }),
{
}

/// Whose bus name comes to be owned is added, and noted for the new owner whatever was noted
/// before; whose ceases to be owned is removed, and the old owner forgotten, whatever it was noted
/// for; all other owners keep what is noted for them.
pub proof fn owner_changes_are_noted(
    cache: Map<Seq<char>, Seq<char>>,
    player: Seq<char>,
    old_owner: Seq<char>,
    new_owner: Seq<char>,
    other: Seq<char>,
)
    ensures
        ({
            let bus_name = "org.mpris.MediaPlayer2."@ + player;
            let added = old_owner.len() == 0 && new_owner.len() > 0;
            let removed = old_owner.len() > 0 && new_owner.len() == 0;
            let event = owner_event(bus_name, old_owner, new_owner);
            let after = owners_after(cache, bus_name, old_owner, new_owner);
            &&& added ==> event == Some(EventModel::PlayerAdded { player_name: player })
            &&& removed ==> event == Some(EventModel::PlayerRemoved { player_name: player })
            &&& !added && !removed ==> event is None
            &&& added && other == new_owner ==> after.contains_key(other) && after[other] == player
            &&& removed && other == old_owner ==> !after.contains_key(other)
            &&& !(added && other == new_owner) && !(removed && other == old_owner) ==> {
                &&& after.contains_key(other) <==> cache.contains_key(other)
                &&& cache.contains_key(other) ==> after[other] == cache[other]
            }
        }),
{
    player_names_follow_the_prefix("org.mpris.MediaPlayer2."@ + player, player);
}

/// A bus name without the MPRIS prefix is never reported nor noted, whoever owns it.
pub proof fn other_bus_names_are_ignored(
    cache: Map<Seq<char>, Seq<char>>,
    bus_name: Seq<char>,
    old_owner: Seq<char>,
    new_owner: Seq<char>,
)
    requires
        forall|rest: Seq<char>| bus_name != #[trigger] ("org.mpris.MediaPlayer2."@ + rest),
    ensures
        owner_event(bus_name, old_owner, new_owner) is None,
        owners_after(cache, bus_name, old_owner, new_owner) == cache,
{
    player_names_follow_the_prefix(bus_name, bus_name);
}

/// A `PropertiesChanged` signal that can be read reports the events of the change that its body
/// tells of the player behind its sender, and nothing where the change is refused.
pub proof fn property_signals_report_their_change(
    msg: Message,
    cache: Map<Seq<char>, Seq<char>>,
)
    requires
        header_of(&msg) is Ok,
        fields_in(&body_of(&msg), &header_of(&msg)->Ok_0) is Ok,
    ensures
        ({
            let fields = fields_in(&body_of(&msg), &header_of(&msg)->Ok_0)->Ok_0;
            let r = property_events(fields, sender_in(&header_of(&msg)->Ok_0), cache);
            let step = reported(BusEvent::PropertiesChanged(Ok(msg)), cache);
            &&& r matches Ok(events) ==> step == StepModel::Report(events)
            &&& r is Err ==> step == StepModel::Report(seq![])
        }),
{
}

/// A `NameOwnerChanged` signal that can be read reports the change of owner that its body tells,
/// and what is known of the players follows it.
pub proof fn owner_signals_report_their_change(
    msg: Message,
    cache: Map<Seq<char>, Seq<char>>,
)
    requires
        header_of(&msg) is Ok,
        texts_in(&body_of(&msg), &header_of(&msg)->Ok_0) is Ok,
    ensures
        ({
            let texts = texts_in(&body_of(&msg), &header_of(&msg)->Ok_0)->Ok_0;
            let event = owner_event(texts.0, texts.1, texts.2);
            let step = reported(BusEvent::NameOwnerChanged(Ok(msg)), cache);
            &&& event matches Some(e) ==> step == StepModel::Report(seq![e])
            &&& event is None ==> step == StepModel::Report(seq![])
            &&& known_after(BusEvent::NameOwnerChanged(Ok(msg)), cache) == owners_after(
                cache,
                texts.0,
                texts.1,
                texts.2,
            )
        }),
{
}

/// A `Seeked` signal that can be read reports the position that its body tells of the player
/// behind its sender, and nothing where the sender is not known or the position is negative.
pub proof fn seek_signals_report_their_position(
    msg: Message,
    cache: Map<Seq<char>, Seq<char>>,
    owner: Seq<char>,
)
    requires
        header_of(&msg) is Ok,
        sender_in(&header_of(&msg)->Ok_0) == Some(owner),
        number_in(&body_of(&msg), &header_of(&msg)->Ok_0) is Ok,
    ensures
        ({
            let micros = number_in(&body_of(&msg), &header_of(&msg)->Ok_0)->Ok_0;
            let step = reported(BusEvent::Seeked(Ok(msg)), cache);
            &&& step is Report
            &&& cache.contains_key(owner) && micros >= 0 ==> step->Report_0.len() == 1 && (
            step->Report_0[0] matches EventModel::PositionChanged { player_name, position }
                && player_name == cache[owner] && position == 1_000 * micros)
            &&& !cache.contains_key(owner) || micros < 0 ==> step->Report_0.len() == 0
        }),
{
}

/// The loop stops when no one listens any more or no further signal will come; a signal that did
/// not arrive reports nothing.
pub proof fn the_loop_stops_when_it_is_over(
    failure: zbus::Error,
    cache: Map<Seq<char>, Seq<char>>,
)
    ensures
        reported(BusEvent::ConsumerGone, cache) is Stop,
        reported(BusEvent::SignalsEnded, cache) is Stop,
        reported(BusEvent::PropertiesChanged(Err(failure)), cache) == StepModel::Report(seq![]),
        reported(BusEvent::NameOwnerChanged(Err(failure)), cache) == StepModel::Report(seq![]),
        reported(BusEvent::Seeked(Err(failure)), cache) == StepModel::Report(seq![]),
{
}

/// What the loop does says the events that it hands out, each in its place.
pub proof fn steps_say_all(events: Vec<MediaEvent>)
    ensures
        LoopStep::Report(events).deep_view() matches StepModel::Report(told) && told.len()
            == events@.len() && forall|i: int|
            0 <= i < told.len() ==> #[trigger] told[i] == events@[i]@,
        LoopStep::Stop.deep_view() is Stop,
{
}

/// An outcome is told as what it is: what it gives, each event in its place, or the error.
pub proof fn outcomes_say_all(
    state: PlaybackState,
    events: Vec<MediaEvent>,
    event: MediaEvent,
    error: MediaSourceError,
)
    ensures
        state_outcome(Ok(state)) == Ok::<_, ErrorModel>(state),
        state_outcome(Err(error)) == Err::<PlaybackState, _>(error@),
        events_outcome(Ok(events)) matches Ok(told) && told.len() == events@.len() && forall|i: int|
            0 <= i < told.len() ==> #[trigger] told[i] == events@[i]@,
        events_outcome(Err(error)) == Err::<Seq<EventModel>, _>(error@),
        event_outcome(Ok(Some(event))) == Ok::<_, ErrorModel>(Some(event@)),
        event_outcome(Ok(None)) == Ok::<_, ErrorModel>(None::<EventModel>),
        event_outcome(Err(error)) == Err::<Option<EventModel>, _>(error@),
{
}

} // verus!
