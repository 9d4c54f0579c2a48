//! Following the players on macOS, which are asked for their state at regular intervals.

pub mod osa;
pub mod provider;
pub mod running;

use std::sync::Arc;
use vstd::hash_map::StringHashMap;
use vstd::prelude::*;

use crate::error::{ErrorModel, MediaSourceError};
use crate::types::{empty_player_info, EventModel, MediaEvent, PlayerInfo, PlayerInfoModel};

use super::state::{
    changes_are_no_coming_or_going, changes_come_in_order, changes_tell_of_no_coming_or_going,
    diff_player_state, exactly_the_changes_are_reported, heard_all, info_of, listener_keeps_up,
    makes_sense, optional_state, player_info, state_changes, told_running, told_running_splits,
    PlayerState, StateModel,
};

use provider::{AllPlayerStates, AppleScriptProvider};

verus! {

/// The media source of macOS, which asks a provider for the players' state.
pub struct MacOSMediaSource<P = AppleScriptProvider> {
    provider: Arc<P>,
}

impl MacOSMediaSource<AppleScriptProvider> {
    /// Creates a media source that asks the players themselves.
    pub fn new() -> (r: MacOSMediaSource<AppleScriptProvider>)
        ensures
            r.asks() == AppleScriptProvider,
    {
        MacOSMediaSource { provider: Arc::new(AppleScriptProvider) }
    }
}

impl<P> MacOSMediaSource<P> {
    /// The provider that is asked for the players' state.
    pub closed spec fn asks(&self) -> P {
        *self.provider
    }

    /// Creates a media source that asks the given provider.
    pub fn with_provider(provider: Arc<P>) -> (r: MacOSMediaSource<P>)
        ensures
            r.asks() == *provider,
    {
        MacOSMediaSource { provider }
    }

    /// The provider that is asked for the players' state.
    pub fn provider(&self) -> (r: &Arc<P>)
        ensures
            **r == self.asks(),
    {
        &self.provider
    }
}

/// What an outcome says.
pub open spec fn info_outcome(r: Result<PlayerInfo, MediaSourceError>) -> Result<
    PlayerInfoModel,
    ErrorModel,
> {
    match r {
        Ok(info) => Ok(info@),
        Err(e) => Err(e@),
    }
}

/// The information on a player, from what was read of it: a player without a state is one with
/// no active playback.
pub fn get_player(
    player_name: &str,
    reading: Result<Option<PlayerState>, MediaSourceError>,
) -> (r: Result<PlayerInfo, MediaSourceError>)
    ensures
        info_outcome(r) == match reading {
            Ok(Some(state)) => Ok::<_, ErrorModel>(info_of(player_name@, state@)),
            Ok(None) => Ok(empty_player_info(player_name@)),
            Err(e) => Err(e@),
        },
{
    match reading {
        Ok(Some(state)) => Ok(player_info(player_name, state)),
        Ok(None) => Ok(PlayerInfo::empty(player_name)),
        Err(e) => Err(e),
    }
}

/// Follows players from one reading of their state to the next.
pub struct PlayerMonitor {
    /// The last state that was read of each running player.
    pub players: StringHashMap<PlayerState>,
    /// Whether each player that was ever seen is running.
    pub running: StringHashMap<bool>,
}

/// What a [`PlayerMonitor`] knows.
#[verifier::ext_equal]
pub struct MonitorModel {
    pub players: Map<Seq<char>, StateModel>,
    pub running: Map<Seq<char>, bool>,
}

impl View for PlayerMonitor {
    type V = MonitorModel;

    open spec fn view(&self) -> MonitorModel {
        MonitorModel {
            players: self.players@.map_values(|state: PlayerState| state@),
            running: self.running@,
        }
    }
}

impl MonitorModel {
    /// Whether a player was running when it was last read.
    pub open spec fn is_running(self, player: Seq<char>) -> bool {
        self.running.contains_key(player) && self.running[player]
    }

    /// The state that was last read of a player.
    pub open spec fn last(self, player: Seq<char>) -> Option<StateModel> {
        if self.players.contains_key(player) {
            Some(self.players[player])
        } else {
            None
        }
    }

    /// The running players are those with a last state.
    pub open spec fn consistent(self) -> bool {
        forall|player: Seq<char>|
            #![trigger self.players.contains_key(player)]
            #![trigger self.is_running(player)]
            self.players.contains_key(player) <==> self.is_running(player)
    }
}

/// A monitor that has seen no player.
pub open spec fn nothing_seen() -> MonitorModel {
    MonitorModel { players: Map::empty(), running: Map::empty() }
}

/// The events by which a player is introduced: its track and its playback state.
pub open spec fn introduction(player: Seq<char>, state: StateModel) -> Seq<EventModel> {
    seq![
        EventModel::TrackChanged { player_name: player, track: state.track },
        EventModel::StateChanged { player_name: player, state: state.playback_state },
    ]
}

/// The events of one more reading of a player.
pub open spec fn reading_events(
    monitor: MonitorModel,
    player: Seq<char>,
    reading: Option<StateModel>,
) -> Seq<EventModel> {
    match reading {
        Some(state) => {
            let appearance = if monitor.is_running(player) {
                seq![]
            } else {
                seq![EventModel::PlayerAdded { player_name: player }]
            };
            match monitor.last(player) {
                Some(last) => appearance + state_changes(player, Some(last), state),
                None => appearance + introduction(player, state),
            }
        },
        None => if monitor.is_running(player) {
            seq![EventModel::PlayerRemoved { player_name: player }]
        } else {
            seq![]
        },
    }
}

/// What a monitor knows after one more reading of a player.
pub open spec fn after_reading(
    monitor: MonitorModel,
    player: Seq<char>,
    reading: Option<StateModel>,
) -> MonitorModel {
    match reading {
        Some(state) => MonitorModel {
            players: monitor.players.insert(player, state),
            running: if monitor.is_running(player) {
                monitor.running
            } else {
                monitor.running.insert(player, true)
            },
        },
        None => if monitor.is_running(player) {
            MonitorModel {
                players: monitor.players.remove(player),
                running: monitor.running.insert(player, false),
            }
        } else {
            monitor
        },
    }
}

/// The states in the answer to a query; a failed query is taken as "no players running".
pub open spec fn queried(states: Result<AllPlayerStates, MediaSourceError>) -> (
    Option<StateModel>,
    Option<StateModel>,
) {
    match states {
        Ok(all) => (all@.music, all@.spotify),
        Err(_) => (None, None),
    }
}

impl PlayerMonitor {
    /// Creates a monitor that has seen no player.
    pub fn new() -> (r: PlayerMonitor)
        ensures
            r@ == nothing_seen(),
    {
        let r = PlayerMonitor { players: StringHashMap::new(), running: StringHashMap::new() };
        assert(r@ =~= nothing_seen());
        r
    }

    /// Takes one more reading of a player and returns the events to emit. A reading without a
    /// state means that the player is not running.
    pub fn process_player(
        &mut self,
        player_name: &str,
        current_state: Option<PlayerState>,
    ) -> (events: Vec<MediaEvent>)
        ensures
            events.deep_view() == reading_events(
                old(self)@,
                player_name@,
                optional_state(current_state),
            ),
            final(self)@ == after_reading(old(self)@, player_name@, optional_state(current_state)),
    {
        let mut events: Vec<MediaEvent> = Vec::new();
        assert(events.deep_view() =~= Seq::<EventModel>::empty());
        let is_running = match self.running.get(player_name) {
            Some(running) => *running,
            None => false,
        };

        match current_state {
            Some(state) => {
                if !is_running {
                    events.push(MediaEvent::PlayerAdded { player_name: player_name.to_owned() });
                    self.running.insert(player_name.to_owned(), true);
                }
                let ghost appearance = events.deep_view();
                assert(appearance =~= if old(self)@.is_running(player_name@) {
                    Seq::<EventModel>::empty()
                } else {
                    seq![EventModel::PlayerAdded { player_name: player_name@ }]
                });

                if let Some(last_state) = self.players.get(player_name) {
                    let mut changes = diff_player_state(player_name, Some(last_state), &state);
                    let ghost added = changes.deep_view();
                    events.append(&mut changes);
                    assert(events.deep_view() =~= appearance + added);
                } else {
                    events.push(
                        MediaEvent::TrackChanged {
                            player_name: player_name.to_owned(),
                            track: state.track.clone(),
                        },
                    );
                    events.push(
                        MediaEvent::StateChanged {
                            player_name: player_name.to_owned(),
                            state: state.playback_state,
                        },
                    );
                    assert(events.deep_view() =~= appearance + introduction(player_name@, state@));
                }

                self.players.insert(player_name.to_owned(), state);
            },
            None => {
                if is_running {
                    events.push(MediaEvent::PlayerRemoved { player_name: player_name.to_owned() });
                    self.running.insert(player_name.to_owned(), false);
                    self.players.remove(player_name);
                    assert(events.deep_view() =~= seq![
                        EventModel::PlayerRemoved { player_name: player_name@ },
                    ]);
                }
            },
        }
        assert(self@ =~= after_reading(old(self)@, player_name@, optional_state(current_state)));
        events
    }

    /// Takes the answer to one query of all players, Music.app before Spotify, and returns the
    /// events to emit.
    pub fn poll(&mut self, states: Result<AllPlayerStates, MediaSourceError>) -> (events: Vec<
        MediaEvent,
    >)
        ensures
            events.deep_view() == reading_events(old(self)@, "Music"@, queried(states).0)
                + reading_events(
                after_reading(old(self)@, "Music"@, queried(states).0),
                "Spotify"@,
                queried(states).1,
            ),
            final(self)@ == after_reading(
                after_reading(old(self)@, "Music"@, queried(states).0),
                "Spotify"@,
                queried(states).1,
            ),
    {
        let (music, spotify) = match states {
            Ok(all) => (all.music, all.spotify),
            Err(_) => (None, None),
        };
        let mut events = self.process_player("Music", music);
        let ghost music_events = events.deep_view();
        let mut more = self.process_player("Spotify", spotify);
        let ghost spotify_events = more.deep_view();
        events.append(&mut more);
        assert(events.deep_view() =~= music_events + spotify_events);
        events
    }
}

/// Every reading keeps the running players to be those with a last state, and a new monitor
/// starts so.
pub proof fn readings_keep_the_monitor_consistent(
    monitor: MonitorModel,
    player: Seq<char>,
    reading: Option<StateModel>,
)
    ensures
        nothing_seen().consistent(),
        monitor.consistent() ==> after_reading(monitor, player, reading).consistent(),
{
    if monitor.consistent() {
        let after = after_reading(monitor, player, reading);
        assert forall|other: Seq<char>|
            after.players.contains_key(other) <==> #[trigger] after.is_running(other) by {
            assert(monitor.players.contains_key(other) <==> monitor.is_running(other));
        }
    }
}

/// A reading of one player leaves all that is known of any other.
pub proof fn readings_leave_other_players_alone(
    monitor: MonitorModel,
    player: Seq<char>,
    reading: Option<StateModel>,
    other: Seq<char>,
)
    requires
        other != player,
    ensures
        after_reading(monitor, player, reading).last(other) == monitor.last(other),
        after_reading(monitor, player, reading).is_running(other) == monitor.is_running(other),
{
}

/// After a reading the player is running exactly when the reading has a state, which is then its
/// last one.
pub proof fn reading_is_remembered(
    monitor: MonitorModel,
    player: Seq<char>,
    reading: Option<StateModel>,
)
    requires
        monitor.consistent(),
    ensures
        after_reading(monitor, player, reading).last(player) == reading,
        after_reading(monitor, player, reading).is_running(player) == reading is Some,
{
    assert(monitor.players.contains_key(player) <==> monitor.is_running(player));
}

/// Every event of a reading is about the player that was read.
pub proof fn reading_events_name_their_player(
    monitor: MonitorModel,
    player: Seq<char>,
    reading: Option<StateModel>,
    i: int,
)
    requires
        0 <= i < reading_events(monitor, player, reading).len(),
    ensures
        reading_events(monitor, player, reading)[i].player() == player,
{
}

/// A player is reported as added exactly when it is seen running and was not before, ahead of
/// all else; and as removed exactly when it was running and is not, with nothing else.
pub proof fn arrivals_and_departures_are_reported(
    monitor: MonitorModel,
    player: Seq<char>,
    reading: Option<StateModel>,
    i: int,
)
    requires
        0 <= i < reading_events(monitor, player, reading).len(),
    ensures
        reading is Some && !monitor.is_running(player) ==> reading_events(
            monitor,
            player,
            reading,
        )[0] is PlayerAdded,
        reading_events(monitor, player, reading)[i] is PlayerAdded ==> i == 0 && reading is Some
            && !monitor.is_running(player),
        reading_events(monitor, player, reading)[i] is PlayerRemoved ==> reading is None
            && monitor.is_running(player) && reading_events(monitor, player, reading).len() == 1,
{
}

/// Reading the same state twice reports nothing the second time, unless its volume is a NaN.
pub proof fn same_reading_reports_nothing(
    monitor: MonitorModel,
    player: Seq<char>,
    state: StateModel,
)
    requires
        monitor.consistent(),
        state.volume matches Some(v) ==> !v.is_nan_spec(),
    ensures
        reading_events(after_reading(monitor, player, Some(state)), player, Some(state))
            == Seq::<EventModel>::empty(),
{
    super::state::unchanged_state_reports_nothing(player, state);
    let after = after_reading(monitor, player, Some(state));
    assert(reading_events(after, player, Some(state)) =~= Seq::<EventModel>::empty());
}

/// A player that is not running and stays so is never reported.
pub proof fn absent_player_reports_nothing(monitor: MonitorModel, player: Seq<char>)
    requires
        !monitor.is_running(player),
    ensures
        reading_events(monitor, player, None) == Seq::<EventModel>::empty(),
        after_reading(monitor, player, None) == monitor,
{
}

/// After a failed query no player counts as running, and each that did is reported as removed.
pub proof fn failed_query_removes_every_player(
    monitor: MonitorModel,
    error: MediaSourceError,
    player: Seq<char>,
)
    requires
        monitor.consistent(),
        player == "Music"@ || player == "Spotify"@,
    ensures
        ({
            let none = queried(Err::<AllPlayerStates, _>(error));
            let after = after_reading(
                after_reading(monitor, "Music"@, none.0),
                "Spotify"@,
                none.1,
            );
            !after.is_running(player) && after.last(player) is None
        }),
{
    assert(monitor.players.contains_key(player) <==> monitor.is_running(player));
    let halfway = after_reading(monitor, "Music"@, None);
    readings_keep_the_monitor_consistent(monitor, "Music"@, None);
    assert(halfway.players.contains_key(player) <==> halfway.is_running(player));
}

/// What one poll reads: Music.app, then Spotify.
pub open spec fn poll_readings(states: Result<AllPlayerStates, MediaSourceError>) -> Seq<
    (Seq<char>, Option<StateModel>),
> {
    seq![("Music"@, queried(states).0), ("Spotify"@, queried(states).1)]
}

/// What some polls read, one after the other.
pub open spec fn polled(polls: Seq<Result<AllPlayerStates, MediaSourceError>>) -> Seq<
    (Seq<char>, Option<StateModel>),
>
    decreases polls.len(),
{
    if polls.len() == 0 {
        seq![]
    } else {
        polled(polls.drop_last()) + poll_readings(polls.last())
    }
}

/// What a monitor knows after some readings, one after the other.
pub open spec fn after_readings(
    monitor: MonitorModel,
    readings: Seq<(Seq<char>, Option<StateModel>)>,
) -> MonitorModel
    decreases readings.len(),
{
    if readings.len() == 0 {
        monitor
    } else {
        after_reading(
            after_readings(monitor, readings.drop_last()),
            readings.last().0,
            readings.last().1,
        )
    }
}

/// The events of some readings, one after the other.
pub open spec fn all_events(
    monitor: MonitorModel,
    readings: Seq<(Seq<char>, Option<StateModel>)>,
) -> Seq<EventModel>
    decreases readings.len(),
{
    if readings.len() == 0 {
        seq![]
    } else {
        all_events(monitor, readings.drop_last()) + reading_events(
            after_readings(monitor, readings.drop_last()),
            readings.last().0,
            readings.last().1,
        )
    }
}

proof fn only_the_first_event_is_an_arrival(
    monitor: MonitorModel,
    player: Seq<char>,
    state: StateModel,
    i: int,
)
    requires
        0 <= i < reading_events(monitor, player, Some(state)).len(),
    ensures
        ({
            let event = reading_events(monitor, player, Some(state))[i];
            &&& !(event is PlayerRemoved)
            &&& event is PlayerAdded ==> i == 0 && !monitor.is_running(player)
        }),
{
    let events = reading_events(monitor, player, Some(state));
    let start: int = if monitor.is_running(player) {
        0
    } else {
        1
    };
    match monitor.last(player) {
        Some(last) => {
            let changes = state_changes(player, Some(last), state);
            if i >= start {
                assert(events[i] == changes[i - start]);
                changes_are_no_coming_or_going(player, Some(last), state, i - start);
            }
        },
        None => {
            if i >= start {
                assert(events[i] == introduction(player, state)[i - start]);
            }
        },
    }
}

/// What a listener takes to be running after the first events of one reading.
proof fn reading_tells_who_runs(
    monitor: MonitorModel,
    player: Seq<char>,
    reading: Option<StateModel>,
    upto: int,
    listened: Seq<char>,
)
    requires
        0 <= upto <= reading_events(monitor, player, reading).len(),
    ensures
        told_running(
            monitor.is_running(listened),
            reading_events(monitor, player, reading).take(upto),
            listened,
        ) == if upto == 0 || listened != player {
            monitor.is_running(listened)
        } else {
            reading is Some
        },
{
    let all = reading_events(monitor, player, reading);
    let before = monitor.is_running(listened);
    let head = all.take(upto);
    if upto > 0 && reading is Some && !monitor.is_running(player) {
        let first = seq![EventModel::PlayerAdded { player_name: player }];
        let changes = head.skip(1);
        assert(head =~= first + changes);
        told_running_splits(before, first, changes, listened);
        assert(first.drop_last() =~= Seq::<EventModel>::empty());
        assert(told_running(before, first, listened) == (before || listened == player)) by {
            reveal_with_fuel(told_running, 2);
        }
        assert forall|i: int| 0 <= i < changes.len() implies !((#[trigger] changes[i])
            is PlayerAdded) && !(changes[i] is PlayerRemoved) by {
            only_the_first_event_is_an_arrival(monitor, player, reading->0, i + 1);
            assert(changes[i] == all[i + 1]);
        }
        changes_tell_of_no_coming_or_going(
            told_running(before, first, listened),
            changes,
            listened,
        );
    } else if upto > 0 && reading is Some {
        assert forall|i: int| 0 <= i < head.len() implies !((#[trigger] head[i]) is PlayerAdded)
            && !(head[i] is PlayerRemoved) by {
            only_the_first_event_is_an_arrival(monitor, player, reading->0, i);
            assert(head[i] == all[i]);
        }
        changes_tell_of_no_coming_or_going(before, head, listened);
    } else if upto > 0 {
        let last = seq![EventModel::PlayerRemoved { player_name: player }];
        assert(head =~= last);
        assert(last.drop_last() =~= Seq::<EventModel>::empty());
        assert(told_running(before, last, listened) == (before && listened != player)) by {
            reveal_with_fuel(told_running, 2);
        }
    }
}

/// Over any run of readings the events make sense one after the other: a player is added only
/// while it is not running, and all else is told, its removal too, only while it is. In the end a
/// listener knows which players are running, and the monitor is consistent.
pub proof fn event_streams_make_sense(
    monitor: MonitorModel,
    readings: Seq<(Seq<char>, Option<StateModel>)>,
    i: int,
    player: Seq<char>,
)
    requires
        monitor.consistent(),
    ensures
        after_readings(monitor, readings).consistent(),
        told_running(monitor.is_running(player), all_events(monitor, readings), player)
            == after_readings(monitor, readings).is_running(player),
        0 <= i < all_events(monitor, readings).len() ==> makes_sense(
            monitor.is_running(all_events(monitor, readings)[i].player()),
            all_events(monitor, readings),
            i,
        ),
    decreases readings.len(),
{
    if readings.len() > 0 {
        let rest = readings.drop_last();
        let (read, reading) = readings.last();
        let halfway = after_readings(monitor, rest);
        let earlier = all_events(monitor, rest);
        let more = reading_events(halfway, read, reading);
        let events = all_events(monitor, readings);
        event_streams_make_sense(monitor, rest, i, player);
        readings_keep_the_monitor_consistent(halfway, read, reading);
        assert(halfway.players.contains_key(read) <==> halfway.is_running(read));

        told_running_splits(monitor.is_running(player), earlier, more, player);
        reading_tells_who_runs(halfway, read, reading, more.len() as int, player);
        assert(more.take(more.len() as int) =~= more);
        if reading is Some {
            assert(more.len() > 0 || halfway.is_running(read));
        }

        if 0 <= i < events.len() {
            let about = events[i].player();
            let before = monitor.is_running(about);
            if i < earlier.len() {
                assert(events.take(i) =~= earlier.take(i));
                assert(events[i] == earlier[i]);
            } else {
                let at = i - earlier.len();
                event_streams_make_sense(monitor, rest, i, about);
                assert(events[i] == more[at]);
                reading_events_name_their_player(halfway, read, reading, at);
                arrivals_and_departures_are_reported(halfway, read, reading, at);
                assert(events.take(i) =~= earlier + more.take(at));
                told_running_splits(before, earlier, more.take(at), about);
                reading_tells_who_runs(halfway, read, reading, at, about);
            }
        }
    }
}

/// What a monitor knows of a player after any run of readings is the last of them that was of the
/// player.
pub proof fn last_reading_is_remembered(
    monitor: MonitorModel,
    readings: Seq<(Seq<char>, Option<StateModel>)>,
    i: int,
)
    requires
        monitor.consistent(),
        0 <= i < readings.len(),
        forall|j: int| i < j < readings.len() ==> (#[trigger] readings[j]).0 != readings[i].0,
    ensures
        after_readings(monitor, readings).last(readings[i].0) == readings[i].1,
    decreases readings.len(),
{
    let rest = readings.drop_last();
    let (read, reading) = readings.last();
    let halfway = after_readings(monitor, rest);
    event_streams_make_sense(monitor, rest, 0, read);
    if i == readings.len() - 1 {
        reading_is_remembered(halfway, read, reading);
    } else {
        assert(rest[i] == readings[i]);
        assert forall|j: int| i < j < rest.len() implies (#[trigger] rest[j]).0 != rest[i].0 by {
            assert(rest[j] == readings[j]);
        }
        last_reading_is_remembered(monitor, rest, i);
        assert(readings[readings.len() - 1].0 != readings[i].0);
        readings_leave_other_players_alone(halfway, read, reading, readings[i].0);
    }
}

/// What a monitor knows after some polls, one after the other.
pub open spec fn after_polls(
    monitor: MonitorModel,
    polls: Seq<Result<AllPlayerStates, MediaSourceError>>,
) -> MonitorModel
    decreases polls.len(),
{
    if polls.len() == 0 {
        monitor
    } else {
        let before = after_polls(monitor, polls.drop_last());
        let (music, spotify) = queried(polls.last());
        after_reading(after_reading(before, "Music"@, music), "Spotify"@, spotify)
    }
}

/// The events of some polls, one after the other.
pub open spec fn poll_events(
    monitor: MonitorModel,
    polls: Seq<Result<AllPlayerStates, MediaSourceError>>,
) -> Seq<EventModel>
    decreases polls.len(),
{
    if polls.len() == 0 {
        seq![]
    } else {
        let before = after_polls(monitor, polls.drop_last());
        let (music, spotify) = queried(polls.last());
        poll_events(monitor, polls.drop_last()) + (reading_events(before, "Music"@, music)
            + reading_events(after_reading(before, "Music"@, music), "Spotify"@, spotify))
    }
}

proof fn polls_are_readings(
    monitor: MonitorModel,
    polls: Seq<Result<AllPlayerStates, MediaSourceError>>,
)
    ensures
        after_polls(monitor, polls) == after_readings(monitor, polled(polls)),
        poll_events(monitor, polls) == all_events(monitor, polled(polls)),
    decreases polls.len(),
{
    if polls.len() > 0 {
        let rest = polls.drop_last();
        polls_are_readings(monitor, rest);
        let earlier = polled(rest);
        let both = polled(polls);
        let (music, spotify) = queried(polls.last());
        let one = earlier.push(("Music"@, music));
        assert(both.drop_last() =~= one);
        assert(one.drop_last() =~= earlier);
        assert(both.last() == ("Spotify"@, spotify));
        assert(after_readings(monitor, one) == after_reading(
            after_readings(monitor, earlier),
            "Music"@,
            music,
        ));
        assert(all_events(monitor, one) == all_events(monitor, earlier) + reading_events(
            after_readings(monitor, earlier),
            "Music"@,
            music,
        ));
        assert(poll_events(monitor, polls) =~= all_events(monitor, both));
    }
}

/// Over any run of polls, from a monitor that has seen no player, the events make sense one after
/// the other, and in the end a listener takes exactly those players to be running of which the
/// monitor holds a state.
pub proof fn polled_streams_make_sense(
    polls: Seq<Result<AllPlayerStates, MediaSourceError>>,
    i: int,
    player: Seq<char>,
)
    ensures
        after_polls(nothing_seen(), polls).consistent(),
        told_running(false, poll_events(nothing_seen(), polls), player) == after_polls(
            nothing_seen(),
            polls,
        ).last(player) is Some,
        0 <= i < poll_events(nothing_seen(), polls).len() ==> makes_sense(
            false,
            poll_events(nothing_seen(), polls),
            i,
        ),
{
    let readings = polled(polls);
    readings_keep_the_monitor_consistent(nothing_seen(), player, None);
    polls_are_readings(nothing_seen(), polls);
    event_streams_make_sense(nothing_seen(), readings, i, player);
    let after = after_polls(nothing_seen(), polls);
    assert(after.players.contains_key(player) <==> after.is_running(player));
}

/// After any run of polls the state of each player is that of the last poll.
pub proof fn last_poll_is_remembered(polls: Seq<Result<AllPlayerStates, MediaSourceError>>)
    requires
        polls.len() > 0,
    ensures
        after_polls(nothing_seen(), polls).last("Music"@) == queried(polls.last()).0,
        after_polls(nothing_seen(), polls).last("Spotify"@) == queried(polls.last()).1,
{
    let readings = polled(polls);
    let count = readings.len();
    polls_are_readings(nothing_seen(), polls);
    readings_keep_the_monitor_consistent(nothing_seen(), "Music"@, None);
    reveal_strlit("Music");
    reveal_strlit("Spotify");
    assert("Music"@ != "Spotify"@) by {
        assert("Music"@.len() != "Spotify"@.len());
    }
    assert(readings[count - 2] == ("Music"@, queried(polls.last()).0));
    assert(readings[count - 1] == ("Spotify"@, queried(polls.last()).1));
    last_reading_is_remembered(nothing_seen(), readings, count - 2);
    last_reading_is_remembered(nothing_seen(), readings, count - 1);
}

/// The next reading of a player with a last state reports exactly what differs from it: the track
/// where title or artists differ; the playback state where it differs; the position where the song
/// is another, none was known or it lies more than two seconds away; and the volume where none was
/// known or it is not the number that it was. A player that was not running is reported as added.
pub proof fn readings_report_exactly_the_changes(
    monitor: MonitorModel,
    player: Seq<char>,
    state: StateModel,
    event: EventModel,
)
    requires
        monitor.players.contains_key(player),
    ensures
        ({
            let last = monitor.players[player];
            let another_song = last.track.title != state.track.title || last.track.artist
                != state.track.artist;
            let x = (last.volume->0).bits as int;
            let y = (state.volume->0).bits as int;
            let same_number = x % 0x8000_0000_0000_0000 <= 0x7ff0_0000_0000_0000 && y
                % 0x8000_0000_0000_0000 <= 0x7ff0_0000_0000_0000 && (x == y || (x
                % 0x8000_0000_0000_0000 == 0 && y % 0x8000_0000_0000_0000 == 0));
            reading_events(monitor, player, Some(state)).contains(event) <==> {
                ||| event == (EventModel::PlayerAdded { player_name: player }) && !(
                    monitor.running.contains_key(player) && monitor.running[player])
                ||| event == (EventModel::TrackChanged {
                    player_name: player,
                    track: state.track,
                }) && another_song
                ||| event == (EventModel::StateChanged {
                    player_name: player,
                    state: state.playback_state,
                }) && last.playback_state != state.playback_state
                ||| state.position is Some && event == (EventModel::PositionChanged {
                    player_name: player,
                    position: state.position->0,
                }) && (another_song || last.position is None || last.position->0
                    - state.position->0 > 2_000_000_000 || state.position->0
                    - last.position->0 > 2_000_000_000)
                ||| state.volume is Some && event == (EventModel::VolumeChanged {
                    player_name: player,
                    volume: state.volume->0,
                }) && (last.volume is None || !same_number)
            }
        }),
{
    let last = monitor.players[player];
    let changes = state_changes(player, Some(last), state);
    let events = reading_events(monitor, player, Some(state));
    let added = EventModel::PlayerAdded { player_name: player };
    exactly_the_changes_are_reported(player, last, state, event);
    if monitor.is_running(player) {
        assert(events =~= changes);
    } else {
        assert(events =~= seq![added] + changes);
        assert(events[0] == added);
        if changes.contains(event) {
            let k = choose|k: int| 0 <= k < changes.len() && changes[k] == event;
            assert(events[k + 1] == event);
        }
        if events.contains(event) && event != added {
            let k = choose|k: int| 0 <= k < events.len() && events[k] == event;
            assert(changes[k - 1] == event);
        }
    }
}

/// A listener who knew the last state of a running player and hears the events of its next
/// reading knows the new song, the new playback state, the volume where one is told (but for the
/// sign of a zero), and the position to within two seconds.
pub proof fn listener_keeps_up_with_readings(
    monitor: MonitorModel,
    player: Seq<char>,
    state: StateModel,
)
    requires
        monitor.consistent(),
        monitor.players.contains_key(player),
    ensures
        ({
            let known = heard_all(
                monitor.players[player],
                reading_events(monitor, player, Some(state)),
            );
            &&& known.track.title == state.track.title
            &&& known.track.artist == state.track.artist
            &&& known.playback_state == state.playback_state
            &&& state.volume matches Some(y) ==> known.volume matches Some(x) && (x.bits == y.bits
                || (x.bits as int % 0x8000_0000_0000_0000 == 0 && y.bits as int
                % 0x8000_0000_0000_0000 == 0))
            &&& state.position matches Some(p) ==> known.position matches Some(q) && p - q
                <= 2_000_000_000 && q - p <= 2_000_000_000
        }),
{
    let last = monitor.players[player];
    assert(monitor.is_running(player));
    assert(reading_events(monitor, player, Some(state)) =~= state_changes(
        player,
        Some(last),
        state,
    ));
    listener_keeps_up(player, last, state);
}

/// The first reading of a player without a last state reports its track, then its playback state,
/// and nothing else, behind that it was added where it was not running.
pub proof fn first_reading_introduces_the_player(
    monitor: MonitorModel,
    player: Seq<char>,
    state: StateModel,
)
    requires
        !monitor.players.contains_key(player),
    ensures
        reading_events(monitor, player, Some(state)) == if monitor.running.contains_key(player)
            && monitor.running[player] {
            seq![
                EventModel::TrackChanged { player_name: player, track: state.track },
                EventModel::StateChanged { player_name: player, state: state.playback_state },
            ]
        } else {
            seq![
                EventModel::PlayerAdded { player_name: player },
                EventModel::TrackChanged { player_name: player, track: state.track },
                EventModel::StateChanged { player_name: player, state: state.playback_state },
            ]
        },
{
}

/// The events of a reading come in order: that the player was added before all else, its track
/// before its playback state, that before its position, and that before its volume.
pub proof fn reading_events_come_in_order(
    monitor: MonitorModel,
    player: Seq<char>,
    reading: Option<StateModel>,
    i: int,
    j: int,
)
    requires
        0 <= i < j < reading_events(monitor, player, reading).len(),
    ensures
        ({
            let earlier = reading_events(monitor, player, reading)[i];
            let later = reading_events(monitor, player, reading)[j];
            &&& !(later is PlayerAdded) && !(later is PlayerRemoved)
            &&& later is TrackChanged ==> earlier is PlayerAdded
            &&& later is StateChanged ==> earlier is PlayerAdded || earlier is TrackChanged
            &&& later is PositionChanged ==> !(earlier is PositionChanged) && !(earlier
                is VolumeChanged)
            &&& later is VolumeChanged ==> !(earlier is VolumeChanged)
        }),
{
    match reading {
        Some(state) => {
            let events = reading_events(monitor, player, reading);
            let start: int = if monitor.is_running(player) {
                0
            } else {
                1
            };
            only_the_first_event_is_an_arrival(monitor, player, state, i);
            only_the_first_event_is_an_arrival(monitor, player, state, j);
            match monitor.last(player) {
                Some(last) => {
                    let changes = state_changes(player, Some(last), state);
                    assert(events[j] == changes[j - start]);
                    if i >= start {
                        assert(events[i] == changes[i - start]);
                        changes_come_in_order(player, Some(last), state, i - start, j - start);
                    }
                },
                None => {
                    assert(events[j] == introduction(player, state)[j - start]);
                },
            }
        },
        None => {},
    }
}

/// A player that is not running any more is reported as removed, and nothing else is; one that
/// was not running is not reported at all.
pub proof fn departures_are_reported_alone(monitor: MonitorModel, player: Seq<char>)
    ensures
        reading_events(monitor, player, None) == if monitor.running.contains_key(player)
            && monitor.running[player] {
            seq![EventModel::PlayerRemoved { player_name: player }]
        } else {
            Seq::<EventModel>::empty()
        },
{
}

/// A reading with a state becomes the player's last one and has it running; one without ends
/// both where it was running; and no other player is touched.
pub proof fn readings_are_taken_over(
    monitor: MonitorModel,
    player: Seq<char>,
    reading: Option<StateModel>,
    other: Seq<char>,
)
    ensures
        ({
            let after = after_reading(monitor, player, reading);
            let was_running = monitor.running.contains_key(player) && monitor.running[player];
            let taken = other == player && reading is Some;
            let ended = other == player && reading is None && was_running;
            &&& after.players.contains_key(other) <==> taken || (monitor.players.contains_key(other)
                && !ended)
            &&& after.players.contains_key(other) ==> after.players[other] == (if taken {
                reading->0
            } else {
                monitor.players[other]
            })
            &&& taken ==> after.running.contains_key(other) && after.running[other]
            &&& ended ==> !after.running[other]
            &&& !taken && !ended ==> {
                &&& after.running.contains_key(other) <==> monitor.running.contains_key(other)
                &&& monitor.running.contains_key(other) ==> after.running[other]
                    == monitor.running[other]
            }
        }),
{
}

/// A query that was answered tells the states in the answer, each as it is; one that failed tells
/// none.
pub proof fn queries_tell_their_answers(all: AllPlayerStates, error: MediaSourceError)
    ensures
        queried(Ok(all)).0 is Some <==> all.music is Some,
        all.music matches Some(state) ==> queried(Ok(all)).0 == Some(state@),
        queried(Ok(all)).1 is Some <==> all.spotify is Some,
        all.spotify matches Some(state) ==> queried(Ok(all)).1 == Some(state@),
        queried(Err(error)).0 is None,
        queried(Err(error)).1 is None,
{
}

/// What is known of players is what the monitor's maps hold.
pub proof fn monitors_say_all(monitor: PlayerMonitor, player: Seq<char>)
    ensures
        monitor@.players.contains_key(player) <==> monitor.players@.contains_key(player),
        monitor.players@.contains_key(player) ==> monitor@.players[player]
            == monitor.players@[player]@,
        monitor@.running == monitor.running@,
{
}

/// An outcome is told as what it is: the information or the error.
pub proof fn outcomes_say_all(info: PlayerInfo, error: MediaSourceError)
    ensures
        info_outcome(Ok(info)) == Ok::<_, ErrorModel>(info@),
        info_outcome(Err(error)) == Err::<PlayerInfoModel, _>(error@),
{
}

} // verus!
