//! Player-state snapshots and the events between two of them.

use std::time::Duration;
use vstd::prelude::*;

use crate::number::{equality_in_bits, Real64};
use crate::text::{same_text, same_texts};
use crate::time::{nanos, optional_nanos};
use crate::types::{
    EventModel, MediaEvent, PlaybackState, PlayerInfo, PlayerInfoModel, Track, TrackModel,
};

verus! {

/// How far a position may move, in nanoseconds, before the move counts as a seek.
pub const SEEK_THRESHOLD_NANOS: u128 = 2_000_000_000;

/// A snapshot of a single player's observable state.
#[derive(Debug, PartialEq)]
pub struct PlayerState {
    pub track: Track,
    pub playback_state: PlaybackState,
    pub position: Option<Duration>,
    pub volume: Option<Real64>,
}

/// What a [`PlayerState`] says.
pub struct StateModel {
    pub track: TrackModel,
    pub playback_state: PlaybackState,
    pub position: Option<nat>,
    pub volume: Option<Real64>,
}

impl View for PlayerState {
    type V = StateModel;

    open spec fn view(&self) -> StateModel {
        StateModel {
            track: self.track@,
            playback_state: self.playback_state,
            position: optional_nanos(self.position),
            volume: self.volume,
        }
    }
}

impl Clone for PlayerState {
    fn clone(&self) -> (r: PlayerState)
        ensures
            r@ == self@,
    {
        PlayerState {
            track: self.track.clone(),
            playback_state: self.playback_state,
            position: self.position,
            volume: self.volume,
        }
    }
}

/// What an optional snapshot says.
pub open spec fn optional_state(state: Option<PlayerState>) -> Option<StateModel> {
    match state {
        Some(s) => Some(s@),
        None => None,
    }
}

/// The information on a player that a snapshot of its state gives.
pub open spec fn info_of(player: Seq<char>, state: StateModel) -> PlayerInfoModel {
    PlayerInfoModel {
        player_name: player,
        current_track: Some(state.track),
        playback_state: state.playback_state,
        position: state.position,
        volume: state.volume,
    }
}

/// The information on a player, from a snapshot of its state.
pub fn player_info(player_name: &str, state: PlayerState) -> (r: PlayerInfo)
    ensures
        r@ == info_of(player_name@, state@),
{
    PlayerInfo {
        player_name: player_name.to_owned(),
        current_track: Some(state.track),
        playback_state: state.playback_state,
        position: state.position,
        volume: state.volume,
    }
}

/// Whether two tracks are the same song: title and artists decide, late-loading metadata does
/// not.
pub open spec fn same_song(a: TrackModel, b: TrackModel) -> bool {
    a.title == b.title && a.artist == b.artist
}

/// Whether a song begins: there was none before, or another one.
pub open spec fn song_begins(old: Option<TrackModel>, new: TrackModel) -> bool {
    match old {
        Some(o) => !same_song(o, new),
        None => true,
    }
}

/// The distance between two positions.
pub open spec fn distance(a: nat, b: nat) -> nat {
    if a <= b {
        (b - a) as nat
    } else {
        (a - b) as nat
    }
}

/// Whether a position is to be reported: it is the first one known, or more than two seconds
/// away from the last.
pub open spec fn seeks(last: Option<nat>, current: nat) -> bool {
    match last {
        Some(l) => distance(l, current) > SEEK_THRESHOLD_NANOS,
        None => true,
    }
}

/// Whether two volume readings are the same; two absent ones are.
pub open spec fn same_volume(a: Option<Real64>, b: Option<Real64>) -> bool {
    match (a, b) {
        (Some(x), Some(y)) => x.same_value(y),
        (None, None) => true,
        _ => false,
    }
}

/// One event or none.
pub open spec fn event_if(condition: bool, event: EventModel) -> Seq<EventModel> {
    if condition {
        seq![event]
    } else {
        seq![]
    }
}

/// The track change between two snapshots.
pub open spec fn track_part(player: Seq<char>, old: Option<StateModel>, new: StateModel) -> Seq<
    EventModel,
> {
    event_if(
        song_begins(track_of(old), new.track),
        EventModel::TrackChanged { player_name: player, track: new.track },
    )
}

/// The state change between two snapshots.
pub open spec fn state_part(player: Seq<char>, old: Option<StateModel>, new: StateModel) -> Seq<
    EventModel,
> {
    event_if(
        old is None || old->0.playback_state != new.playback_state,
        EventModel::StateChanged { player_name: player, state: new.playback_state },
    )
}

/// The position that a new one is held against: none where a song begins.
pub open spec fn seek_baseline(old: Option<StateModel>, new: StateModel) -> Option<nat> {
    if song_begins(track_of(old), new.track) {
        None
    } else {
        old->0.position
    }
}

/// The seek between two snapshots.
pub open spec fn position_part(player: Seq<char>, old: Option<StateModel>, new: StateModel) -> Seq<
    EventModel,
> {
    match new.position {
        Some(position) => event_if(
            seeks(seek_baseline(old, new), position),
            EventModel::PositionChanged { player_name: player, position },
        ),
        None => seq![],
    }
}

/// The volume change between two snapshots; without an earlier one there is none.
pub open spec fn volume_part(player: Seq<char>, old: Option<StateModel>, new: StateModel) -> Seq<
    EventModel,
> {
    match (old, new.volume) {
        (Some(o), Some(volume)) => event_if(
            !same_volume(o.volume, new.volume),
            EventModel::VolumeChanged { player_name: player, volume },
        ),
        _ => seq![],
    }
}

/// The track of an optional snapshot.
pub open spec fn track_of(state: Option<StateModel>) -> Option<TrackModel> {
    match state {
        Some(s) => Some(s.track),
        None => None,
    }
}

/// The events between two snapshots: track, playback state, position, volume, in that order.
pub open spec fn state_changes(player: Seq<char>, old: Option<StateModel>, new: StateModel) -> Seq<
    EventModel,
> {
    track_part(player, old, new) + state_part(player, old, new) + position_part(player, old, new)
        + volume_part(player, old, new)
}

/// Returns `true` when title or artist differs, indicating a genuine track change.
///
/// Duration, artwork, track number and album are metadata that can be updated late without the
/// song changing, so they do not count.
pub fn track_identity_changed(old: Option<&Track>, new: &Track) -> (r: bool)
    ensures
        r == match old {
            Some(o) => song_begins(Some(o@), new@),
            None => song_begins(None, new@),
        },
{
    match old {
        Some(o) => !same_text(o.title.as_str(), new.title.as_str()) || !same_texts(
            &o.artist,
            &new.artist,
        ),
        None => true,
    }
}

/// Returns `true` when a position change should be reported as a seek.
///
/// The first position is reported unconditionally, a later one only when it is more than two
/// seconds away, so normal playback progression is not reported.
pub fn is_seek(last_position: Option<Duration>, current_position: Duration) -> (r: bool)
    ensures
        r == seeks(optional_nanos(last_position), nanos(current_position)),
{
    match last_position {
        Some(last) => {
            let before: u128 = last.as_nanos();
            let now: u128 = current_position.as_nanos();
            if before <= now {
                now - before > SEEK_THRESHOLD_NANOS
            } else {
                before - now > SEEK_THRESHOLD_NANOS
            }
        },
        None => true,
    }
}

/// Diffs a freshly-read snapshot against the cached one and returns the events to emit, ordered
/// `TrackChanged`, `StateChanged`, `PositionChanged`, `VolumeChanged`.
///
/// A volume is only diffed against a known earlier snapshot.
pub fn diff_player_state(
    player_name: &str,
    old: Option<&PlayerState>,
    new: &PlayerState,
) -> (events: Vec<MediaEvent>)
    ensures
        events.deep_view() == state_changes(
            player_name@,
            match old {
                Some(o) => Some(o@),
                None => None,
            },
            new@,
        ),
{
    let ghost old_model: Option<StateModel> = match old {
        Some(o) => Some(o@),
        None => None,
    };
    let mut events: Vec<MediaEvent> = Vec::new();
    assert(events.deep_view() =~= Seq::<EventModel>::empty());

    let track_changed = track_identity_changed(
        match old {
            Some(o) => Some(&o.track),
            None => None,
        },
        &new.track,
    );
    if track_changed {
        events.push(
            MediaEvent::TrackChanged {
                player_name: player_name.to_owned(),
                track: new.track.clone(),
            },
        );
    }
    assert(events.deep_view() =~= track_part(player_name@, old_model, new@));

    let state_changed = match old {
        Some(o) => o.playback_state != new.playback_state,
        None => true,
    };
    if state_changed {
        events.push(
            MediaEvent::StateChanged {
                player_name: player_name.to_owned(),
                state: new.playback_state,
            },
        );
    }
    assert(events.deep_view() =~= track_part(player_name@, old_model, new@) + state_part(
        player_name@,
        old_model,
        new@,
    ));

    if let Some(position) = new.position {
        // A new song's first position is reported however close it is to the last one.
        let last = if track_changed {
            None
        } else {
            match old {
                Some(o) => o.position,
                None => None,
            }
        };
        if is_seek(last, position) {
            events.push(
                MediaEvent::PositionChanged { player_name: player_name.to_owned(), position },
            );
        }
    }
    assert(events.deep_view() =~= track_part(player_name@, old_model, new@) + state_part(
        player_name@,
        old_model,
        new@,
    ) + position_part(player_name@, old_model, new@));

    if let Some(o) = old {
        if let Some(volume) = new.volume {
            if !(o.volume == new.volume) {
                events.push(
                    MediaEvent::VolumeChanged { player_name: player_name.to_owned(), volume },
                );
            }
        }
    }
    assert(events.deep_view() =~= state_changes(player_name@, old_model, new@));
    events
}

/// The place of an event in the order in which the changes between two snapshots are reported.
pub open spec fn report_rank(event: EventModel) -> int {
    match event {
        EventModel::TrackChanged { .. } => 0,
        EventModel::StateChanged { .. } => 1,
        EventModel::PositionChanged { .. } => 2,
        EventModel::VolumeChanged { .. } => 3,
        EventModel::PlayerAdded { .. } => 4,
        EventModel::PlayerRemoved { .. } => 5,
    }
}

/// Reading the same state again reports nothing, unless its volume is a NaN.
pub proof fn unchanged_state_reports_nothing(player: Seq<char>, state: StateModel)
    requires
        state.volume matches Some(v) ==> !v.is_nan_spec(),
    ensures
        state_changes(player, Some(state), state) == Seq::<EventModel>::empty(),
{
    assert(state_changes(player, Some(state), state) =~= Seq::<EventModel>::empty());
}

/// Every reported change is about the player that was read.
pub proof fn changes_name_their_player(
    player: Seq<char>,
    old: Option<StateModel>,
    new: StateModel,
    i: int,
)
    requires
        0 <= i < state_changes(player, old, new).len(),
    ensures
        state_changes(player, old, new)[i].player() == player,
{
}

/// Changes are reported in the order track, playback state, position, volume, each at most once,
/// and nothing else is reported.
pub proof fn changes_are_ordered(
    player: Seq<char>,
    old: Option<StateModel>,
    new: StateModel,
    i: int,
    j: int,
)
    requires
        0 <= i < j < state_changes(player, old, new).len(),
    ensures
        report_rank(state_changes(player, old, new)[i]) < report_rank(
            state_changes(player, old, new)[j],
        ) <= 3,
{
}

/// A track change is reported exactly when title or artists differ from the snapshot before, or
/// there was none; it carries the new track.
pub proof fn track_change_means_new_song(
    player: Seq<char>,
    old: Option<StateModel>,
    new: StateModel,
)
    ensures
        (exists|i: int|
            0 <= i < state_changes(player, old, new).len() && (#[trigger] state_changes(
                player,
                old,
                new,
            )[i]) is TrackChanged) <==> song_begins(track_of(old), new.track),
        forall|i: int|
            0 <= i < state_changes(player, old, new).len() && (#[trigger] state_changes(
                player,
                old,
                new,
            )[i]) is TrackChanged ==> state_changes(player, old, new)[i]
                == (EventModel::TrackChanged { player_name: player, track: new.track }),
{
    let events = state_changes(player, old, new);
    if song_begins(track_of(old), new.track) {
        assert(events[0] is TrackChanged);
    }
}

/// Metadata that loads late (album, album artists, track number, duration, artwork) is no change
/// at all: with everything else as before, nothing is reported.
pub proof fn late_metadata_reports_nothing(player: Seq<char>, old: StateModel, late: TrackModel)
    requires
        same_song(old.track, late),
        old.volume matches Some(v) ==> !v.is_nan_spec(),
    ensures
        state_changes(player, Some(old), StateModel { track: late, ..old })
            == Seq::<EventModel>::empty(),
{
    assert(state_changes(player, Some(old), StateModel { track: late, ..old }) =~= Seq::<
        EventModel,
    >::empty());
}

/// Within a song a position is reported exactly when it is the first known or has moved by more
/// than two seconds, in either direction.
pub proof fn position_change_means_seek(player: Seq<char>, old: StateModel, new: StateModel)
    requires
        same_song(old.track, new.track),
    ensures
        (exists|i: int|
            0 <= i < state_changes(player, Some(old), new).len() && (#[trigger] state_changes(
                player,
                Some(old),
                new,
            )[i]) is PositionChanged) <==> (new.position matches Some(p) && (old.position is None
            || distance(old.position->0, p) > 2_000_000_000)),
{
    let events = state_changes(player, Some(old), new);
    let before = track_part(player, Some(old), new) + state_part(player, Some(old), new);
    let seek = position_part(player, Some(old), new);
    if seek.len() > 0 {
        assert(events[before.len() as int] == seek[0]);
    }
}

/// A new song's position is reported, however close it is to the last one.
pub proof fn new_song_reports_its_position(
    player: Seq<char>,
    old: Option<StateModel>,
    new: StateModel,
)
    requires
        song_begins(track_of(old), new.track),
        new.position is Some,
    ensures
        state_changes(player, old, new).contains(
            EventModel::PositionChanged { player_name: player, position: new.position->0 },
        ),
{
    let events = state_changes(player, old, new);
    let before = track_part(player, old, new) + state_part(player, old, new);
    assert(events[before.len() as int] == position_part(player, old, new)[0]);
}

/// No volume is ever reported of a player that does not tell its volume, nor on first sight.
pub proof fn no_volume_no_report(
    player: Seq<char>,
    old: Option<StateModel>,
    new: StateModel,
    i: int,
)
    requires
        new.volume is None || old is None,
        0 <= i < state_changes(player, old, new).len(),
    ensures
        !(state_changes(player, old, new)[i] is VolumeChanged),
{
}

/// Whether a jump is a seek does not depend on its direction.
pub proof fn seek_is_symmetric(a: nat, b: nat)
    ensures
        seeks(Some(a), b) == seeks(Some(b), a),
{
}

/// What a listener knows of a player after one more event.
pub open spec fn heard(known: StateModel, event: EventModel) -> StateModel {
    match event {
        EventModel::TrackChanged { track, .. } => StateModel { track, ..known },
        EventModel::StateChanged { state, .. } => StateModel { playback_state: state, ..known },
        EventModel::PositionChanged { position, .. } => StateModel {
            position: Some(position),
            ..known
        },
        EventModel::VolumeChanged { volume, .. } => StateModel { volume: Some(volume), ..known },
        _ => known,
    }
}

/// What a listener knows of a player after a run of events.
pub open spec fn heard_all(known: StateModel, events: Seq<EventModel>) -> StateModel
    decreases events.len(),
{
    if events.len() == 0 {
        known
    } else {
        heard(heard_all(known, events.drop_last()), events.last())
    }
}

proof fn heard_all_splits(known: StateModel, a: Seq<EventModel>, b: Seq<EventModel>)
    ensures
        heard_all(known, a + b) == heard_all(heard_all(known, a), b),
    decreases b.len(),
{
    if b.len() == 0 {
        assert(a + b =~= a);
    } else {
        heard_all_splits(known, a, b.drop_last());
        assert((a + b).drop_last() =~= a + b.drop_last());
    }
}

proof fn heard_all_of_one(known: StateModel, condition: bool, event: EventModel)
    ensures
        heard_all(known, event_if(condition, event)) == if condition {
            heard(known, event)
        } else {
            known
        },
{
    reveal_with_fuel(heard_all, 2);
    if condition {
        assert(seq![event].drop_last() =~= Seq::<EventModel>::empty());
    }
}

/// A listener who knew a snapshot and hears the changes knows the next one: the same song, the
/// playback state, the volume where one is told (but for the sign of a zero), and the position to
/// within two seconds.
pub proof fn listener_keeps_up(player: Seq<char>, old: StateModel, new: StateModel)
    ensures
        ({
            let known = heard_all(old, state_changes(player, Some(old), new));
            &&& known.track.title == new.track.title
            &&& known.track.artist == new.track.artist
            &&& known.playback_state == new.playback_state
            &&& new.volume matches Some(y) ==> known.volume matches Some(x) && (x.bits == y.bits
                || (x.bits as int % 0x8000_0000_0000_0000 == 0 && y.bits as int
                % 0x8000_0000_0000_0000 == 0))
            &&& new.position matches Some(p) ==> known.position matches Some(q) && p - q
                <= 2_000_000_000 && q - p <= 2_000_000_000
        }),
{
    let t = track_part(player, Some(old), new);
    let s = state_part(player, Some(old), new);
    let p = position_part(player, Some(old), new);
    let v = volume_part(player, Some(old), new);
    heard_all_splits(old, t + s + p, v);
    heard_all_splits(old, t + s, p);
    heard_all_splits(old, t, s);
    let after_track = heard_all(old, t);
    heard_all_of_one(
        old,
        song_begins(Some(old.track), new.track),
        EventModel::TrackChanged { player_name: player, track: new.track },
    );
    let after_state = heard_all(after_track, s);
    heard_all_of_one(
        after_track,
        old.playback_state != new.playback_state,
        EventModel::StateChanged { player_name: player, state: new.playback_state },
    );
    let after_position = heard_all(after_state, p);
    match new.position {
        Some(position) => {
            heard_all_of_one(
                after_state,
                seeks(seek_baseline(Some(old), new), position),
                EventModel::PositionChanged { player_name: player, position },
            );
        },
        None => {},
    }
    match new.volume {
        Some(volume) => {
            heard_all_of_one(
                after_position,
                !same_volume(old.volume, new.volume),
                EventModel::VolumeChanged { player_name: player, volume },
            );
        },
        None => {},
    }
}

/// Whether a listener takes a player to be running after some events: what the last of them that
/// tells of its coming or going says, or else what held before them.
pub open spec fn told_running(
    before: bool,
    events: Seq<EventModel>,
    player: Seq<char>,
) -> bool
    decreases events.len(),
{
    if events.len() == 0 {
        before
    } else {
        match events.last() {
            EventModel::PlayerAdded { player_name } => player_name == player || told_running(
                before,
                events.drop_last(),
                player,
            ),
            EventModel::PlayerRemoved { player_name } => player_name != player && told_running(
                before,
                events.drop_last(),
                player,
            ),
            _ => told_running(before, events.drop_last(), player),
        }
    }
}

/// Whether an event makes sense to a listener: only a player that is not taken to be running is
/// added, and only of one that is anything else is told.
pub open spec fn makes_sense(before: bool, events: Seq<EventModel>, i: int) -> bool {
    let running = told_running(before, events.take(i), events[i].player());
    if events[i] is PlayerAdded {
        !running
    } else {
        running
    }
}

/// A listener to one run of events and then another knows what a listener to both knows.
pub proof fn told_running_splits(
    before: bool,
    events: Seq<EventModel>,
    more: Seq<EventModel>,
    player: Seq<char>,
)
    ensures
        told_running(before, events + more, player) == told_running(
            told_running(before, events, player),
            more,
            player,
        ),
    decreases more.len(),
{
    if more.len() == 0 {
        assert(events + more =~= events);
    } else {
        told_running_splits(before, events, more.drop_last(), player);
        assert((events + more).drop_last() =~= events + more.drop_last());
    }
}

/// Events that are neither an arrival nor a departure leave who is taken to be running.
pub proof fn changes_tell_of_no_coming_or_going(
    before: bool,
    events: Seq<EventModel>,
    player: Seq<char>,
)
    requires
        forall|i: int|
            0 <= i < events.len() ==> !((#[trigger] events[i]) is PlayerAdded) && !(events[i]
                is PlayerRemoved),
    ensures
        told_running(before, events, player) == before,
    decreases events.len(),
{
    if events.len() > 0 {
        let rest = events.drop_last();
        assert forall|i: int| 0 <= i < rest.len() implies !((#[trigger] rest[i]) is PlayerAdded)
            && !(rest[i] is PlayerRemoved) by {
            assert(rest[i] == events[i]);
        }
        assert(!(events[events.len() - 1] is PlayerAdded));
        changes_tell_of_no_coming_or_going(before, rest, player);
    }
}

proof fn four_parts_hold(
    a: Seq<EventModel>,
    b: Seq<EventModel>,
    c: Seq<EventModel>,
    d: Seq<EventModel>,
    event: EventModel,
)
    ensures
        (a + b + c + d).contains(event) <==> a.contains(event) || b.contains(event) || c.contains(
            event,
        ) || d.contains(event),
{
    let all = a + b + c + d;
    if a.contains(event) {
        let k = choose|k: int| 0 <= k < a.len() && a[k] == event;
        assert(all[k] == event);
    }
    if b.contains(event) {
        let k = choose|k: int| 0 <= k < b.len() && b[k] == event;
        assert(all[a.len() + k] == event);
    }
    if c.contains(event) {
        let k = choose|k: int| 0 <= k < c.len() && c[k] == event;
        assert(all[a.len() + b.len() + k] == event);
    }
    if d.contains(event) {
        let k = choose|k: int| 0 <= k < d.len() && d[k] == event;
        assert(all[a.len() + b.len() + c.len() + k] == event);
    }
    if all.contains(event) {
        let k = choose|k: int| 0 <= k < all.len() && all[k] == event;
        if k < a.len() {
            assert(a[k] == event);
        } else if k < a.len() + b.len() {
            assert(b[k - a.len()] == event);
        } else if k < a.len() + b.len() + c.len() {
            assert(c[k - a.len() - b.len()] == event);
        } else {
            assert(d[k - a.len() - b.len() - c.len()] == event);
        }
    }
}

proof fn at_most_one_holds(condition: bool, event: EventModel, other: EventModel)
    ensures
        event_if(condition, event).contains(other) <==> condition && other == event,
        !Seq::<EventModel>::empty().contains(other),
{
    if condition {
        assert(event_if(condition, event)[0] == event);
    }
}

proof fn parts_hold(
    player: Seq<char>,
    old: Option<StateModel>,
    new: StateModel,
    event: EventModel,
)
    ensures
        state_changes(player, old, new).contains(event) <==> track_part(player, old, new).contains(
            event,
        ) || state_part(player, old, new).contains(event) || position_part(
            player,
            old,
            new,
        ).contains(event) || volume_part(player, old, new).contains(event),
        track_part(player, old, new).contains(event) <==> song_begins(track_of(old), new.track)
            && event == (EventModel::TrackChanged { player_name: player, track: new.track }),
        state_part(player, old, new).contains(event) <==> (old is None || old->0.playback_state
            != new.playback_state) && event == (EventModel::StateChanged {
            player_name: player,
            state: new.playback_state,
        }),
        position_part(player, old, new).contains(event) <==> new.position is Some && seeks(
            seek_baseline(old, new),
            new.position->0,
        ) && event == (EventModel::PositionChanged {
            player_name: player,
            position: new.position->0,
        }),
        volume_part(player, old, new).contains(event) <==> old is Some && new.volume is Some
            && !same_volume(old->0.volume, new.volume) && event == (EventModel::VolumeChanged {
            player_name: player,
            volume: new.volume->0,
        }),
{
    four_parts_hold(
        track_part(player, old, new),
        state_part(player, old, new),
        position_part(player, old, new),
        volume_part(player, old, new),
        event,
    );
    at_most_one_holds(
        song_begins(track_of(old), new.track),
        EventModel::TrackChanged { player_name: player, track: new.track },
        event,
    );
    at_most_one_holds(
        old is None || old->0.playback_state != new.playback_state,
        EventModel::StateChanged { player_name: player, state: new.playback_state },
        event,
    );
    if new.position is Some {
        at_most_one_holds(
            seeks(seek_baseline(old, new), new.position->0),
            EventModel::PositionChanged { player_name: player, position: new.position->0 },
            event,
        );
    }
    if old is Some && new.volume is Some {
        at_most_one_holds(
            !same_volume(old->0.volume, new.volume),
            EventModel::VolumeChanged { player_name: player, volume: new.volume->0 },
            event,
        );
    }
}

/// Between two snapshots exactly this is reported: the new track where title or artists differ;
/// the new playback state where it differs; the new position where the song is another, no
/// position was known or it lies more than two seconds away; and the new volume where none was
/// known or it is not the number that it was.
pub proof fn exactly_the_changes_are_reported(
    player: Seq<char>,
    old: StateModel,
    new: StateModel,
    event: EventModel,
)
    ensures
        ({
            let another_song = old.track.title != new.track.title || old.track.artist
                != new.track.artist;
            let x = (old.volume->0).bits as int;
            let y = (new.volume->0).bits as int;
            let same_number = x % 0x8000_0000_0000_0000 <= 0x7ff0_0000_0000_0000 && y
                % 0x8000_0000_0000_0000 <= 0x7ff0_0000_0000_0000 && (x == y || (x
                % 0x8000_0000_0000_0000 == 0 && y % 0x8000_0000_0000_0000 == 0));
            state_changes(player, Some(old), new).contains(event) <==> {
                ||| event == (EventModel::TrackChanged {
                    player_name: player,
                    track: new.track,
                }) && another_song
                ||| event == (EventModel::StateChanged {
                    player_name: player,
                    state: new.playback_state,
                }) && old.playback_state != new.playback_state
                ||| new.position is Some && event == (EventModel::PositionChanged {
                    player_name: player,
                    position: new.position->0,
                }) && (another_song || old.position is None || old.position->0
                    - new.position->0 > 2_000_000_000 || new.position->0
                    - old.position->0 > 2_000_000_000)
                ||| new.volume is Some && event == (EventModel::VolumeChanged {
                    player_name: player,
                    volume: new.volume->0,
                }) && (old.volume is None || !same_number)
            }
        }),
{
    parts_hold(player, Some(old), new, event);
    if old.volume is Some && new.volume is Some {
        equality_in_bits(old.volume->0, new.volume->0);
    }
}

/// Of a player that was not known exactly this is reported: its track, its playback state, and
/// its position where it has one.
pub proof fn exactly_the_first_state_is_reported(
    player: Seq<char>,
    new: StateModel,
    event: EventModel,
)
    ensures
        state_changes(player, None, new).contains(event) <==> {
            ||| event == (EventModel::TrackChanged { player_name: player, track: new.track })
            ||| event == (EventModel::StateChanged {
                    player_name: player,
                    state: new.playback_state,
                })
            ||| new.position is Some && event == (EventModel::PositionChanged {
                    player_name: player,
                    position: new.position->0,
                })
        },
{
    parts_hold(player, None, new, event);
}

/// A track comes before all else, a playback state before a position and a volume, a position
/// before a volume, and none of them twice.
pub proof fn changes_come_in_order(
    player: Seq<char>,
    old: Option<StateModel>,
    new: StateModel,
    i: int,
    j: int,
)
    requires
        0 <= i < j < state_changes(player, old, new).len(),
    ensures
        ({
            let earlier = state_changes(player, old, new)[i];
            let later = state_changes(player, old, new)[j];
            &&& !(later is TrackChanged)
            &&& later is StateChanged ==> earlier is TrackChanged
            &&& later is PositionChanged ==> earlier is TrackChanged || earlier is StateChanged
            &&& later is VolumeChanged ==> !(earlier is VolumeChanged)
        }),
{
}

/// The information on a player tells its name and all of the snapshot.
pub proof fn information_tells_the_snapshot(player: Seq<char>, state: StateModel)
    ensures
        info_of(player, state).player_name == player,
        info_of(player, state).current_track == Some(state.track),
        info_of(player, state).playback_state == state.playback_state,
        info_of(player, state).position == state.position,
        info_of(player, state).volume == state.volume,
{
}

/// A snapshot says all that its fields hold.
pub proof fn snapshots_say_all(state: PlayerState)
    ensures
        state@.track == state.track@,
        state@.playback_state == state.playback_state,
        state.position is Some <==> state@.position is Some,
        state.position matches Some(position) ==> state@.position == Some(nanos(position)),
        state@.volume == state.volume,
        optional_state(Some(state)) == Some(state@),
        optional_state(None) is None,
{
}

/// A song begins where there was none, or where its title or its artists are others; nothing else
/// of a track decides.
pub proof fn songs_begin_with_title_or_artists(old: TrackModel, new: TrackModel)
    ensures
        song_begins(Some(old), new) <==> old.title != new.title || old.artist != new.artist,
        song_begins(None, new),
{
}

/// A first position is a seek; a later one is exactly when it lies more than two seconds before or
/// behind the last.
pub proof fn seeks_go_further_than_two_seconds(last: nat, current: nat)
    ensures
        seeks(None, current),
        seeks(Some(last), current) <==> last - current > 2_000_000_000 || current - last
            > 2_000_000_000,
{
}

/// An optional snapshot is told with what it says.
pub proof fn optional_snapshots_say_all(state: Option<PlayerState>)
    ensures
        optional_state(state) is Some <==> state is Some,
        state matches Some(s) ==> optional_state(state) == Some(s@),
{
}

/// Changes are of a track, a playback state, a position or a volume; none is an arrival or a
/// departure.
pub proof fn changes_are_no_coming_or_going(
    player: Seq<char>,
    old: Option<StateModel>,
    new: StateModel,
    i: int,
)
    requires
        0 <= i < state_changes(player, old, new).len(),
    ensures
        !(state_changes(player, old, new)[i] is PlayerAdded),
        !(state_changes(player, old, new)[i] is PlayerRemoved),
{
}

} // verus!
