//! The media sessions of Windows: what their readings mean and which of them is asked for.

use vstd::prelude::*;

use crate::error::{ErrorModel, MediaSourceError};
use crate::platform::state::{
    info_of, no_volume_no_report, player_info, state_changes, PlayerState, StateModel,
};
use crate::text::{joined, same_text};
use crate::types::{PlaybackState, PlayerInfo};

use super::playback_status::{parse_playback_status, state_shown, WinPlaybackStatus};
use super::track::{
    build_track, shown_track, tick_nanos, ticks_to_duration, MediaProperties,
    MediaPropertiesModel,
};

verus! {

/// Upper bound, in seconds, on how long the reading of a single session may take, so that a
/// player that never answers does not hold up all others.
pub const SESSION_STATE_TIMEOUT_SECS: u64 = 5;

/// The steps in which the session manager and its sessions are read.
#[derive(Debug, Clone, Copy, PartialEq, Eq, Structural)]
pub enum Step {
    /// Asking for the session manager.
    RequestManager,
    /// Waiting for the session manager.
    AwaitManager,
    /// Asking for the list of sessions.
    GetSessions,
    /// Asking for the length of the list of sessions.
    CountSessions,
    /// Asking a session for its identifier.
    GetAppId,
    /// Asking a session for its media properties.
    RequestMediaProperties,
    /// Waiting for a session's media properties.
    AwaitMediaProperties,
    /// Asking a session for its playback info.
    GetPlaybackInfo,
    /// Asking for the status in the playback info.
    GetPlaybackStatus,
    /// Asking a session for its timeline.
    GetTimeline,
}

/// A step that failed, with the text of the failure.
#[derive(Debug)]
pub struct StepFailure {
    pub step: Step,
    pub detail: String,
}

/// The error that a failed step is reported as: failing to reach the manager or its list is one
/// of the connection, failing to read a session is one of the information read.
pub open spec fn step_error(step: Step, detail: Seq<char>) -> ErrorModel {
    match step {
        Step::RequestManager => ErrorModel::ConnectionError(
            "Failed to get session manager: "@ + detail,
        ),
        Step::AwaitManager => ErrorModel::ConnectionError(
            "Failed to await session manager: "@ + detail,
        ),
        Step::GetSessions => ErrorModel::ConnectionError("Failed to get sessions: "@ + detail),
        Step::CountSessions => ErrorModel::ConnectionError(
            "Failed to get sessions size: "@ + detail,
        ),
        Step::GetAppId => ErrorModel::ParseError("Failed to get app ID: "@ + detail),
        Step::RequestMediaProperties => ErrorModel::ParseError(
            "Failed to get media properties: "@ + detail,
        ),
        Step::AwaitMediaProperties => ErrorModel::ParseError(
            "Failed to await media properties: "@ + detail,
        ),
        Step::GetPlaybackInfo => ErrorModel::ParseError("Failed to get playback info: "@ + detail),
        Step::GetPlaybackStatus => ErrorModel::ParseError(
            "Failed to get playback status: "@ + detail,
        ),
        Step::GetTimeline => ErrorModel::ParseError("Failed to get timeline: "@ + detail),
    }
}

impl From<StepFailure> for MediaSourceError {
    /// The error that a failed step is reported as.
    fn from(failure: StepFailure) -> (r: MediaSourceError)
        ensures
            r@ == step_error(failure.step, failure.detail@),
    {
        let detail = failure.detail.as_str();
        match failure.step {
            Step::RequestManager => MediaSourceError::ConnectionError(
                joined("Failed to get session manager: ", detail),
            ),
            Step::AwaitManager => MediaSourceError::ConnectionError(
                joined("Failed to await session manager: ", detail),
            ),
            Step::GetSessions => MediaSourceError::ConnectionError(
                joined("Failed to get sessions: ", detail),
            ),
            Step::CountSessions => MediaSourceError::ConnectionError(
                joined("Failed to get sessions size: ", detail),
            ),
            Step::GetAppId => MediaSourceError::ParseError(
                joined("Failed to get app ID: ", detail),
            ),
            Step::RequestMediaProperties => MediaSourceError::ParseError(
                joined("Failed to get media properties: ", detail),
            ),
            Step::AwaitMediaProperties => MediaSourceError::ParseError(
                joined("Failed to await media properties: ", detail),
            ),
            Step::GetPlaybackInfo => MediaSourceError::ParseError(
                joined("Failed to get playback info: ", detail),
            ),
            Step::GetPlaybackStatus => MediaSourceError::ParseError(
                joined("Failed to get playback status: ", detail),
            ),
            Step::GetTimeline => MediaSourceError::ParseError(
                joined("Failed to get timeline: ", detail),
            ),
        }
    }
}

impl vstd::std_specs::convert::FromSpecImpl<StepFailure> for MediaSourceError {
    open spec fn obeys_from_spec() -> bool {
        false
    }

    open spec fn from_spec(v: StepFailure) -> MediaSourceError {
        arbitrary()
    }
}

/// What was read of a session.
#[derive(Debug)]
pub struct SessionReading {
    pub media_properties: MediaProperties,
    pub playback_status: WinPlaybackStatus,
    /// The position in ticks, if it could be read.
    pub position: Option<i64>,
    /// The end of the timeline in ticks, if it could be read.
    pub end_time: Option<i64>,
}

/// What a [`SessionReading`] says.
pub struct ReadingModel {
    pub media_properties: MediaPropertiesModel,
    pub playback_status: WinPlaybackStatus,
    pub position: Option<i64>,
    pub end_time: Option<i64>,
}

impl View for SessionReading {
    type V = ReadingModel;

    open spec fn view(&self) -> ReadingModel {
        ReadingModel {
            media_properties: self.media_properties@,
            playback_status: self.playback_status,
            position: self.position,
            end_time: self.end_time,
        }
    }
}

/// The position that a reading tells.
pub open spec fn shown_position(position: Option<i64>) -> Option<nat> {
    match position {
        Some(ticks) => tick_nanos(ticks),
        None => None,
    }
}

/// The duration that a reading tells: the end of the timeline, unless it is the start as well.
pub open spec fn shown_duration(end_time: Option<i64>) -> Option<nat> {
    match end_time {
        Some(ticks) => if ticks > 0 {
            tick_nanos(ticks)
        } else {
            None
        },
        None => None,
    }
}

/// The state of a player that a reading tells. The volume is not among what Windows tells.
pub open spec fn shown_state(reading: ReadingModel) -> StateModel {
    StateModel {
        track: shown_track(reading.media_properties, shown_duration(reading.end_time)),
        playback_state: state_shown(reading.playback_status),
        position: shown_position(reading.position),
        volume: None,
    }
}

/// What an outcome says.
pub open spec fn state_read(r: Result<PlayerState, MediaSourceError>) -> Result<
    StateModel,
    ErrorModel,
> {
    match r {
        Ok(state) => Ok(state@),
        Err(e) => Err(e@),
    }
}

/// What an outcome says.
pub open spec fn id_read(r: Result<String, StepFailure>) -> Result<Seq<char>, ErrorModel> {
    match r {
        Ok(id) => Ok(id@),
        Err(failure) => Err(step_error(failure.step, failure.detail@)),
    }
}

/// The sessions that could be fetched, in their order.
pub open spec fn fetched<S>(sessions: Seq<Option<S>>) -> Seq<S>
    decreases sessions.len(),
{
    if sessions.len() == 0 {
        seq![]
    } else {
        match sessions.last() {
            Some(session) => fetched(sessions.drop_last()).push(session),
            None => fetched(sessions.drop_last()),
        }
    }
}

/// The media sessions of Windows.
pub struct WindowsMediaControlProvider {}

impl WindowsMediaControlProvider {
    /// The sessions of the manager. One that could not be fetched is left out; only a failure to
    /// get the list or its length is an error.
    pub fn collect_sessions<S>(sessions: Result<Vec<Option<S>>, StepFailure>) -> (r: Result<
        Vec<S>,
        MediaSourceError,
    >)
        ensures
            match (sessions, r) {
                (Ok(all), Ok(collected)) => collected@ == fetched(all@),
                (Err(failure), Err(e)) => e@ == step_error(failure.step, failure.detail@),
                _ => false,
            },
    {
        match sessions {
            Ok(all) => {
                let ghost listed = all@;
                let mut collected: Vec<S> = Vec::new();
                assert(listed.take(0).len() == 0);
                for session in it: all
                    invariant
                        it.seq() == listed,
                        collected@ == fetched(listed.take(it.index())),
                {
                    assert(listed.take(it.index() + 1).drop_last() =~= listed.take(it.index()));
                    if let Some(session) = session {
                        collected.push(session);
                    }
                }
                assert(listed.take(listed.len() as int) =~= listed);
                Ok(collected)
            },
            Err(failure) => Err(MediaSourceError::from(failure)),
        }
    }

    /// The identifier of a session.
    pub fn get_session_id(reading: Result<String, StepFailure>) -> (r: Result<
        String,
        MediaSourceError,
    >)
        ensures
            match r {
                Ok(id) => id_read(reading) == Ok::<_, ErrorModel>(id@),
                Err(e) => id_read(reading) == Err::<Seq<char>, _>(e@),
            },
    {
        match reading {
            Ok(id) => Ok(id),
            Err(failure) => Err(MediaSourceError::from(failure)),
        }
    }

    /// The state of a player, from what was read of its session.
    pub fn get_session_state(reading: Result<SessionReading, StepFailure>) -> (r: Result<
        PlayerState,
        MediaSourceError,
    >)
        requires
            reading matches Ok(read) ==> read@.media_properties.encodable(),
        ensures
            state_read(r) == match reading {
                Ok(read) => Ok::<_, ErrorModel>(shown_state(read@)),
                Err(failure) => Err(step_error(failure.step, failure.detail@)),
            },
    {
        match reading {
            Ok(read) => {
                let position = match read.position {
                    Some(ticks) => ticks_to_duration(ticks),
                    None => None,
                };
                let duration = match read.end_time {
                    Some(ticks) => if ticks > 0 {
                        ticks_to_duration(ticks)
                    } else {
                        None
                    },
                    None => None,
                };
                Ok(
                    PlayerState {
                        track: build_track(read.media_properties, duration),
                        playback_state: parse_playback_status(read.playback_status),
                        position,
                        volume: None,
                    },
                )
            },
            Err(failure) => Err(MediaSourceError::from(failure)),
        }
    }

    /// The state of a player, or the error that its session did not answer in time.
    pub fn get_session_state_bounded(
        answer: Option<Result<PlayerState, MediaSourceError>>,
    ) -> (r: Result<PlayerState, MediaSourceError>)
        ensures
            state_read(r) == match answer {
                Some(answered) => state_read(answered),
                None => Err(ErrorModel::ConnectionError("Timed out reading session state"@)),
            },
    {
        match answer {
            Some(answered) => answered,
            None => Err(
                MediaSourceError::ConnectionError("Timed out reading session state".to_owned()),
            ),
        }
    }

    /// Whether a session's telling of its identifier ends the search for one: it is the one that is
    /// searched for, or could not be told.
    pub fn ends_search(reading: &Result<String, StepFailure>, session_id: &str) -> (r: bool)
        ensures
            r == is_answer(*reading, session_id@),
    {
        match reading {
            Ok(id) => same_text(id.as_str(), session_id),
            Err(_) => true,
        }
    }

    /// The place of the session with an identifier. The sessions are asked in their order for
    /// their identifiers; one that fails to tell it before the session is found is an error.
    pub fn find_session(ids: &Vec<Result<String, StepFailure>>, session_id: &str) -> (r: Result<
        usize,
        MediaSourceError,
    >)
        ensures
            match r {
                Ok(place) => {
                    &&& first_answer(ids@, session_id@) == place as int
                    &&& place < ids@.len()
                    &&& id_read(ids@[place as int]) == Ok::<_, ErrorModel>(session_id@)
                },
                Err(e) => {
                    let place = first_answer(ids@, session_id@);
                    if place < ids@.len() {
                        id_read(ids@[place]) == Err::<Seq<char>, _>(e@)
                    } else {
                        e@ == ErrorModel::PlayerNotFound(session_id@)
                    }
                },
            },
    {
        let mut i: usize = 0;
        assert(ids@.skip(0) =~= ids@);
        while i < ids.len()
            invariant
                i <= ids.len(),
                first_answer(ids@, session_id@) == i + first_answer(
                    ids@.skip(i as int),
                    session_id@,
                ),
            decreases ids.len() - i,
        {
            assert(ids@.skip(i as int)[0] == ids@[i as int]);
            assert(ids@.skip(i as int).drop_first() =~= ids@.skip(i + 1));
            match &ids[i] {
                Ok(id) => {
                    if same_text(id.as_str(), session_id) {
                        return Ok(i);
                    }
                },
                Err(failure) => {
                    let copy = StepFailure { step: failure.step, detail: failure.detail.clone() };
                    return Err(MediaSourceError::from(copy));
                },
            }
            i += 1;
        }
        Err(MediaSourceError::PlayerNotFound(session_id.to_owned()))
    }

    /// The information on the player of a session, from the state that was read of it.
    pub fn get_session_info(
        session_id: &str,
        state: Result<PlayerState, MediaSourceError>,
    ) -> (r: Result<PlayerInfo, MediaSourceError>)
        ensures
            match r {
                Ok(info) => state is Ok && info@ == info_of(session_id@, state->Ok_0@),
                Err(e) => state is Err && e@ == state->Err_0@,
            },
    {
        match state {
            Ok(state) => Ok(player_info(session_id, state)),
            Err(e) => Err(e),
        }
    }

    /// The sessions that tell their identifier, with it.
    pub fn get_sessions_from_manager<S>(
        sessions: Result<Vec<(Result<String, StepFailure>, S)>, MediaSourceError>,
    ) -> (r: Result<Vec<SessionWithId<S>>, MediaSourceError>)
        ensures
            match (sessions, r) {
                (Ok(all), Ok(named)) => {
                    &&& named@.map_values(|s: SessionWithId<S>| (s.id@, s.session))
                        == identified(all@)
                },
                (Err(failure), Err(e)) => e@ == failure@,
                _ => false,
            },
    {
        match sessions {
            Ok(all) => {
                let ghost listed = all@;
                let ghost view = |s: SessionWithId<S>| (s.id@, s.session);
                let mut named: Vec<SessionWithId<S>> = Vec::new();
                assert(named@.map_values(view) =~= identified(listed.take(0)));
                for answer in it: all
                    invariant
                        it.seq() == listed,
                        view == (|s: SessionWithId<S>| (s.id@, s.session)),
                        named@.map_values(view) == identified(listed.take(it.index())),
                {
                    assert(listed.take(it.index() + 1).drop_last() =~= listed.take(it.index()));
                    let ghost before = named@.map_values(view);
                    let (id, session) = answer;
                    if let Ok(id) = id {
                        let found = SessionWithId { id, session };
                        named.push(found);
                        assert(named@.map_values(view) =~= before.push(view(found)));
                    }
                }
                assert(listed.take(listed.len() as int) =~= listed);
                Ok(named)
            },
            Err(e) => Err(e),
        }
    }

    /// The states of all sessions by identifier, from what each told. A session that does not
    /// tell its identifier or its state is left out; of two with one identifier the later one
    /// counts.
    pub fn get_all_sessions(answers: Vec<SessionAnswer>) -> (r: Vec<(String, PlayerState)>)
        ensures
            states_view(r@) == states_told(answers@),
            ids_in(states_view(r@)).no_duplicates(),
    {
        let ghost all = answers@;
        let mut states: Vec<(String, PlayerState)> = Vec::new();
        assert(states_view(states@) =~= states_told(all.take(0)));
        for answer in it: answers
            invariant
                it.seq() == all,
                states_view(states@) == states_told(all.take(it.index())),
        {
            assert(all.take(it.index() + 1).drop_last() =~= all.take(it.index()));
            if let SessionAnswer::Identified { id, state: Ok(state) } = answer {
                insert_state(&mut states, id, state);
            }
        }
        assert(all.take(all.len() as int) =~= all);
        proof {
            let ids = ids_in(states_told(all));
            assert forall|i: int, j: int|
                0 <= i < ids.len() && 0 <= j < ids.len() && i != j implies ids[i] != ids[j] by {
                if i < j {
                    listed_players_are_distinct(all, i, j);
                } else {
                    listed_players_are_distinct(all, j, i);
                }
            }
        }
        states
    }
}

/// What a list of states by identifier says.
pub open spec fn states_view(states: Seq<(String, PlayerState)>) -> Seq<(Seq<char>, StateModel)> {
    states.map_values(|entry: (String, PlayerState)| (entry.0@, entry.1@))
}

/// The place of an identifier in a list of states, or the length of the list.
pub open spec fn place_of(states: Seq<(Seq<char>, StateModel)>, id: Seq<char>) -> int
    decreases states.len(),
{
    if states.len() == 0 || states[0].0 == id {
        0
    } else {
        1 + place_of(states.drop_first(), id)
    }
}

/// A list of states with that of one identifier replaced, or added at the end.
pub open spec fn with_state(
    states: Seq<(Seq<char>, StateModel)>,
    id: Seq<char>,
    state: StateModel,
) -> Seq<(Seq<char>, StateModel)> {
    if place_of(states, id) < states.len() {
        states.update(place_of(states, id), (id, state))
    } else {
        states.push((id, state))
    }
}

fn insert_state(states: &mut Vec<(String, PlayerState)>, id: String, state: PlayerState)
    ensures
        states_view(final(states)@) == with_state(states_view(old(states)@), id@, state@),
{
    let ghost all = states_view(states@);
    let ghost key = id@;
    let ghost value = state@;
    let mut i: usize = 0;
    assert(all.skip(0) =~= all);
    while i < states.len()
        invariant
            states@ == old(states)@,
            all == states_view(states@),
            i <= states.len(),
            key == id@,
            value == state@,
            place_of(all, key) == i + place_of(all.skip(i as int), key),
        decreases states.len() - i,
    {
        assert(all.skip(i as int)[0] == all[i as int]);
        assert(all.skip(i as int).drop_first() =~= all.skip(i + 1));
        if same_text(states[i].0.as_str(), id.as_str()) {
            states[i] = (id, state);
            assert(states_view(states@) =~= all.update(i as int, (key, value)));
            return;
        }
        i += 1;
    }
    states.push((id, state));
    assert(states_view(states@) =~= all.push((key, value)));
}

/// The players of the sessions that told their states.
pub fn list_players(states: &Vec<(String, PlayerState)>) -> (r: Vec<String>)
    ensures
        r.deep_view() == ids_in(states_view(states@)),
{
    let mut ids: Vec<String> = Vec::new();
    let mut i: usize = 0;
    while i < states.len()
        invariant
            i <= states.len(),
            ids.deep_view() == ids_in(states_view(states@)).take(i as int),
        decreases states.len() - i,
    {
        let ghost before = ids.deep_view();
        ids.push(states[i].0.clone());
        assert(ids.deep_view() =~= before.push(states[i as int].0@));
        i += 1;
    }
    ids
}

/// The identifiers in a list of states.
pub open spec fn ids_in(states: Seq<(Seq<char>, StateModel)>) -> Seq<Seq<char>> {
    states.map_values(|entry: (Seq<char>, StateModel)| entry.0)
}

/// A session with its identifier.
#[derive(Debug)]
pub struct SessionWithId<S> {
    pub id: String,
    pub session: S,
}

/// The sessions that tell their identifier, with it, in their order.
pub open spec fn identified<S>(sessions: Seq<(Result<String, StepFailure>, S)>) -> Seq<
    (Seq<char>, S),
>
    decreases sessions.len(),
{
    if sessions.len() == 0 {
        seq![]
    } else {
        match sessions.last().0 {
            Ok(id) => identified(sessions.drop_last()).push((id@, sessions.last().1)),
            Err(_) => identified(sessions.drop_last()),
        }
    }
}

/// Whether a session has an identifier or fails to tell its own.
pub open spec fn is_answer(reading: Result<String, StepFailure>, wanted: Seq<char>) -> bool {
    reading is Err || reading->Ok_0@ == wanted
}

/// The place of the first session that has an identifier or fails to tell its own; the number of
/// sessions where there is none.
pub open spec fn first_answer(
    ids: Seq<Result<String, StepFailure>>,
    wanted: Seq<char>,
) -> int
    decreases ids.len(),
{
    if ids.len() == 0 {
        0
    } else if is_answer(ids[0], wanted) {
        0
    } else {
        1 + first_answer(ids.drop_first(), wanted)
    }
}

/// Once a session ends the search, those behind it do not matter, so they need not be asked.
pub proof fn later_sessions_do_not_matter(
    ids: Seq<Result<String, StepFailure>>,
    later: Seq<Result<String, StepFailure>>,
    wanted: Seq<char>,
)
    requires
        first_answer(ids, wanted) < ids.len(),
    ensures
        first_answer(ids + later, wanted) == first_answer(ids, wanted),
    decreases ids.len(),
{
    if !is_answer(ids[0], wanted) {
        later_sessions_do_not_matter(ids.drop_first(), later, wanted);
        assert((ids + later).drop_first() =~= ids.drop_first() + later);
    }
}

/// What a session told when all were asked.
pub enum SessionAnswer {
    /// Not even its identifier.
    Unidentified,
    /// Its identifier, and its state or why not.
    Identified { id: String, state: Result<PlayerState, MediaSourceError> },
}

impl SessionAnswer {
    /// The identifier and the state that a session told, if it told both.
    pub open spec fn told(self) -> Option<(Seq<char>, StateModel)> {
        match self {
            SessionAnswer::Identified { id, state: Ok(state) } => Some((id@, state@)),
            _ => None,
        }
    }
}

/// The states that sessions told, each identifier at the place of its first session and with the
/// state of its last.
pub open spec fn states_told(answers: Seq<SessionAnswer>) -> Seq<(Seq<char>, StateModel)>
    decreases answers.len(),
{
    if answers.len() == 0 {
        seq![]
    } else {
        match answers.last().told() {
            Some((id, state)) => with_state(states_told(answers.drop_last()), id, state),
            None => states_told(answers.drop_last()),
        }
    }
}

proof fn place_holds(states: Seq<(Seq<char>, StateModel)>, id: Seq<char>)
    ensures
        0 <= place_of(states, id) <= states.len(),
        place_of(states, id) < states.len() ==> states[place_of(states, id)].0 == id,
        forall|k: int| 0 <= k < place_of(states, id) ==> (#[trigger] states[k]).0 != id,
    decreases states.len(),
{
    if states.len() > 0 && states[0].0 != id {
        let rest = states.drop_first();
        place_holds(rest, id);
        assert forall|k: int| 0 <= k < place_of(states, id) implies (#[trigger] states[k]).0
            != id by {
            if k > 0 {
                assert(rest[k - 1] == states[k]);
            }
        }
    }
}

/// No player is listed twice.
pub proof fn listed_players_are_distinct(answers: Seq<SessionAnswer>, i: int, j: int)
    requires
        0 <= i < j < states_told(answers).len(),
    ensures
        states_told(answers)[i].0 != states_told(answers)[j].0,
    decreases answers.len(),
{
    let before = states_told(answers.drop_last());
    match answers.last().told() {
        Some((id, state)) => {
            place_holds(before, id);
            let place = place_of(before, id);
            if j < before.len() {
                listed_players_are_distinct(answers.drop_last(), i, j);
            }
            assert(place < before.len() || j < before.len() || before[i].0 != id);
        },
        None => {
            listed_players_are_distinct(answers.drop_last(), i, j);
        },
    }
}

/// A player is listed exactly when one of its sessions told its identifier and its state.
pub proof fn listed_means_told(answers: Seq<SessionAnswer>, player: Seq<char>)
    ensures
        (exists|k: int|
            0 <= k < states_told(answers).len() && (#[trigger] states_told(answers)[k]).0
                == player) <==> (exists|i: int|
            0 <= i < answers.len() && (#[trigger] answers[i]).told() is Some
                && (answers[i].told()->0).0 == player),
    decreases answers.len(),
{
    if answers.len() > 0 {
        let rest = answers.drop_last();
        let before = states_told(rest);
        let after = states_told(answers);
        listed_means_told(rest, player);
        let listed = exists|k: int| 0 <= k < after.len() && (#[trigger] after[k]).0 == player;
        let told = exists|i: int|
            0 <= i < answers.len() && (#[trigger] answers[i]).told() is Some
                && (answers[i].told()->0).0 == player;
        if exists|k: int| 0 <= k < before.len() && (#[trigger] before[k]).0 == player {
            let k = choose|k: int| 0 <= k < before.len() && (#[trigger] before[k]).0 == player;
            match answers.last().told() {
                Some((id, state)) => {
                    place_holds(before, id);
                    assert(after[k].0 == player);
                },
                None => {
                    assert(after[k].0 == player);
                },
            }
            assert(listed);
            let i = choose|i: int|
                0 <= i < rest.len() && (#[trigger] rest[i]).told() is Some
                    && (rest[i].told()->0).0 == player;
            assert(answers[i] == rest[i]);
            assert(told);
        } else {
            match answers.last().told() {
                Some((id, state)) => {
                    place_holds(before, id);
                    if id == player {
                        assert(place_of(before, id) == before.len());
                        assert(after[before.len() as int].0 == player);
                        assert((answers[answers.len() - 1].told()->0).0 == player);
                    } else {
                        if listed {
                            let k = choose|k: int|
                                0 <= k < after.len() && (#[trigger] after[k]).0 == player;
                            assert(before[k].0 == player);
                        }
                        if told {
                            let i = choose|i: int|
                                0 <= i < answers.len() && (#[trigger] answers[i]).told() is Some
                                    && (answers[i].told()->0).0 == player;
                            assert(rest[i] == answers[i]);
                        }
                    }
                },
                None => {
                    if told {
                        let i = choose|i: int|
                            0 <= i < answers.len() && (#[trigger] answers[i]).told() is Some
                                && (answers[i].told()->0).0 == player;
                        assert(rest[i] == answers[i]);
                    }
                },
            }
        }
    }
}

/// Of several sessions of one player, the last that told its state counts.
pub proof fn last_session_counts(answers: Seq<SessionAnswer>, i: int)
    requires
        0 <= i < answers.len(),
        answers[i].told() is Some,
        forall|j: int|
            i < j < answers.len() && (#[trigger] answers[j]).told() is Some
                ==> (answers[j].told()->0).0 != (answers[i].told()->0).0,
    ensures
        states_told(answers).contains(answers[i].told()->0),
    decreases answers.len(),
{
    let rest = answers.drop_last();
    let before = states_told(rest);
    let after = states_told(answers);
    let wanted = answers[i].told()->0;
    if i == answers.len() - 1 {
        place_holds(before, wanted.0);
        assert(after[place_of(before, wanted.0)] == wanted);
    } else {
        assert(rest[i] == answers[i]);
        assert forall|j: int|
            i < j < rest.len() && (#[trigger] rest[j]).told() is Some implies (rest[j].told()->0).0
            != (rest[i].told()->0).0 by {
            assert(rest[j] == answers[j]);
        }
        last_session_counts(rest, i);
        let k = choose|k: int| 0 <= k < before.len() && before[k] == wanted;
        match answers.last().told() {
            Some((id, state)) => {
                place_holds(before, id);
                assert(answers[answers.len() - 1].told() is Some);
                assert(id != wanted.0);
                assert(after[k] == wanted);
            },
            None => {
                assert(after[k] == wanted);
            },
        }
    }
}

/// A reading never tells a volume, so that no change of volume is ever reported.
pub proof fn no_volume_is_told(
    player: Seq<char>,
    old: Option<StateModel>,
    reading: ReadingModel,
    i: int,
)
    requires
        0 <= i < state_changes(player, old, shown_state(reading)).len(),
    ensures
        !(state_changes(player, old, shown_state(reading))[i] is VolumeChanged),
{
    no_volume_no_report(player, old, shown_state(reading), i);
}

/// A told duration is never zero.
pub proof fn told_durations_are_positive(end_time: Option<i64>)
    ensures
        shown_duration(end_time) matches Some(length) ==> length > 0,
{
}

/// The position that a reading tells is the one that was read, a hundred nanoseconds for each tick,
/// unless it is negative or too long; it depends on nothing else that was read.
pub proof fn positions_are_told_as_read(reading: ReadingModel, other: ReadingModel)
    ensures
        reading.position matches Some(t) ==> 0 <= t && t * 100 <= 0xffff_ffff_ffff_ffff
            ==> shown_state(reading).position is Some && shown_state(reading).position->0 == t
            * 100,
        reading.position matches Some(t) ==> t < 0 || t * 100 > 0xffff_ffff_ffff_ffff
            ==> shown_state(reading).position is None,
        reading.position is None ==> shown_state(reading).position is None,
        other.position == reading.position ==> shown_state(other).position == shown_state(
            reading,
        ).position,
{
}

/// The duration that a reading tells is the end of the timeline, a hundred nanoseconds for each
/// tick, unless it is not behind the start or too long; it depends on nothing else that was read.
pub proof fn durations_are_told_as_read(reading: ReadingModel, other: ReadingModel)
    ensures
        reading.end_time matches Some(t) ==> 0 < t && t * 100 <= 0xffff_ffff_ffff_ffff
            ==> shown_state(reading).track.duration is Some
            && shown_state(reading).track.duration->0 == t * 100,
        reading.end_time matches Some(t) ==> t <= 0 || t * 100 > 0xffff_ffff_ffff_ffff
            ==> shown_state(reading).track.duration is None,
        reading.end_time is None ==> shown_state(reading).track.duration is None,
        other.end_time == reading.end_time ==> shown_state(other).track.duration == shown_state(
            reading,
        ).track.duration,
{
}

/// The playback state that a reading tells is the one of its status, and its volume is never told.
pub proof fn playback_is_told_as_read(reading: ReadingModel)
    ensures
        shown_state(reading).playback_state == PlaybackState::Playing <==> reading.playback_status
            == WinPlaybackStatus::Playing,
        shown_state(reading).playback_state == PlaybackState::Paused <==> reading.playback_status
            == WinPlaybackStatus::Paused,
        shown_state(reading).playback_state == PlaybackState::Stopped <==> reading.playback_status
            != WinPlaybackStatus::Playing && reading.playback_status != WinPlaybackStatus::Paused,
        shown_state(reading).volume is None,
{
}

/// The track that a reading tells is the one that its media properties describe, whatever else was
/// read.
pub proof fn tracks_are_told_as_read(reading: ReadingModel)
    ensures
        ({
            let track = shown_state(reading).track;
            track == shown_track(reading.media_properties, track.duration)
        }),
{
}

/// The title, the artists, the album, the number and the artwork that two readings tell are the
/// same where their media properties are.
pub proof fn same_properties_tell_the_same_track(reading: ReadingModel, other: ReadingModel)
    requires
        other.media_properties == reading.media_properties,
    ensures
        shown_state(other).track.title == shown_state(reading).track.title,
        shown_state(other).track.artist == shown_state(reading).track.artist,
        shown_state(other).track.album == shown_state(reading).track.album,
        shown_state(other).track.album_artist == shown_state(reading).track.album_artist,
        shown_state(other).track.track_number == shown_state(reading).track.track_number,
        shown_state(other).track.art_url == shown_state(reading).track.art_url,
{
}

/// A reading says what its fields hold.
pub proof fn readings_say_all(reading: SessionReading)
    ensures
        reading@.media_properties == reading.media_properties@,
        reading@.playback_status == reading.playback_status,
        reading@.position == reading.position,
        reading@.end_time == reading.end_time,
{
}

/// Failing to reach the manager or its list is an error of the connection, and failing to read a
/// session one of parsing; either tells the step and the detail.
pub proof fn failed_steps_are_told(detail: Seq<char>)
    ensures
        step_error(Step::RequestManager, detail) == ErrorModel::ConnectionError(
            "Failed to get session manager: "@ + detail,
        ),
        step_error(Step::AwaitManager, detail) == ErrorModel::ConnectionError(
            "Failed to await session manager: "@ + detail,
        ),
        step_error(Step::GetSessions, detail) == ErrorModel::ConnectionError(
            "Failed to get sessions: "@ + detail,
        ),
        step_error(Step::CountSessions, detail) == ErrorModel::ConnectionError(
            "Failed to get sessions size: "@ + detail,
        ),
        step_error(Step::GetAppId, detail) == ErrorModel::ParseError(
            "Failed to get app ID: "@ + detail,
        ),
        step_error(Step::RequestMediaProperties, detail) == ErrorModel::ParseError(
            "Failed to get media properties: "@ + detail,
        ),
        step_error(Step::AwaitMediaProperties, detail) == ErrorModel::ParseError(
            "Failed to await media properties: "@ + detail,
        ),
        step_error(Step::GetPlaybackInfo, detail) == ErrorModel::ParseError(
            "Failed to get playback info: "@ + detail,
        ),
        step_error(Step::GetPlaybackStatus, detail) == ErrorModel::ParseError(
            "Failed to get playback status: "@ + detail,
        ),
        step_error(Step::GetTimeline, detail) == ErrorModel::ParseError(
            "Failed to get timeline: "@ + detail,
        ),
{
}

/// An outcome is told as what it is.
pub proof fn outcomes_say_all(
    state: PlayerState,
    error: MediaSourceError,
    id: String,
    failure: StepFailure,
)
    ensures
        state_read(Ok(state)) == Ok::<_, ErrorModel>(state@),
        state_read(Err(error)) == Err::<StateModel, _>(error@),
        id_read(Ok(id)) == Ok::<_, ErrorModel>(id@),
        id_read(Err(failure)) == Err::<Seq<char>, _>(step_error(failure.step, failure.detail@)),
{
}

/// The sessions in two runs are those fetched of the first and then those fetched of the second.
pub proof fn sessions_are_fetched_in_turn<S>(a: Seq<Option<S>>, b: Seq<Option<S>>)
    ensures
        fetched(a + b) == fetched(a) + fetched(b),
    decreases b.len(),
{
    if b.len() == 0 {
        assert(a + b =~= a);
        assert(fetched(a) + fetched(b) =~= fetched(a));
    } else {
        sessions_are_fetched_in_turn(a, b.drop_last());
        assert((a + b).drop_last() =~= a + b.drop_last());
        assert(fetched(a + b) =~= fetched(a) + fetched(b));
    }
}

/// A single session is fetched or left out.
pub proof fn one_session_is_fetched_or_not<S>(session: S)
    ensures
        fetched(seq![Some(session)]) == seq![session],
        fetched(seq![None::<S>]) == Seq::<S>::empty(),
{
    reveal_with_fuel(fetched, 2);
    assert(seq![Some(session)].drop_last() =~= Seq::<Option<S>>::empty());
    assert(seq![None::<S>].drop_last() =~= Seq::<Option<S>>::empty());
    assert(fetched(seq![Some(session)]) =~= seq![session]);
    assert(fetched(seq![None::<S>]) =~= Seq::<S>::empty());
}

/// The sessions with an identifier in two runs are those of the first and then those of the second.
pub proof fn sessions_are_identified_in_turn<S>(
    a: Seq<(Result<String, StepFailure>, S)>,
    b: Seq<(Result<String, StepFailure>, S)>,
)
    ensures
        identified(a + b) == identified(a) + identified(b),
    decreases b.len(),
{
    if b.len() == 0 {
        assert(a + b =~= a);
        assert(identified(a) + identified(b) =~= identified(a));
    } else {
        sessions_are_identified_in_turn(a, b.drop_last());
        assert((a + b).drop_last() =~= a + b.drop_last());
        assert(identified(a + b) =~= identified(a) + identified(b));
    }
}

/// A single session is kept with its identifier where it tells it.
pub proof fn one_session_is_identified_or_not<S>(id: String, failure: StepFailure, session: S)
    ensures
        identified(seq![(Ok::<_, StepFailure>(id), session)]) == seq![(id@, session)],
        identified(seq![(Err::<String, _>(failure), session)]) == Seq::<(Seq<char>, S)>::empty(),
{
    let told = seq![(Ok::<_, StepFailure>(id), session)];
    let failed = seq![(Err::<String, _>(failure), session)];
    reveal_with_fuel(identified, 2);
    assert(told.drop_last() =~= Seq::<(Result<String, StepFailure>, S)>::empty());
    assert(failed.drop_last() =~= Seq::<(Result<String, StepFailure>, S)>::empty());
    assert(identified(told) =~= seq![(id@, session)]);
    assert(identified(failed) =~= Seq::<(Seq<char>, S)>::empty());
}

/// A search ends at the first session that has the identifier or fails to tell its own; all in
/// front of it tell other ones.
pub proof fn searches_end_at_the_first_answer(
    ids: Seq<Result<String, StepFailure>>,
    wanted: Seq<char>,
)
    ensures
        0 <= first_answer(ids, wanted) <= ids.len(),
        first_answer(ids, wanted) < ids.len() ==> ids[first_answer(ids, wanted)] is Err
            || ids[first_answer(ids, wanted)]->Ok_0@ == wanted,
        forall|k: int|
            0 <= k < first_answer(ids, wanted) ==> #[trigger] ids[k] is Ok && ids[k]->Ok_0@
                != wanted,
    decreases ids.len(),
{
    if ids.len() > 0 && !is_answer(ids[0], wanted) {
        let rest = ids.drop_first();
        searches_end_at_the_first_answer(rest, wanted);
        assert forall|k: int| 0 <= k < first_answer(ids, wanted) implies #[trigger] ids[k] is Ok
            && ids[k]->Ok_0@ != wanted by {
            if k > 0 {
                assert(rest[k - 1] == ids[k]);
            }
        }
    }
}

/// One session decides a search exactly when it has the identifier or fails to tell its own.
pub proof fn answers_decide_the_search(
    id: String,
    failure: StepFailure,
    wanted: Seq<char>,
)
    ensures
        is_answer(Ok(id), wanted) <==> id@ == wanted,
        is_answer(Err(failure), wanted),
{
}

/// One more session that tells its identifier and its state gives the state to its identifier,
/// which stays where it is listed or is added behind all others; every other identifier keeps its
/// place and its state. One that does not tell both changes nothing.
pub proof fn one_more_answer_is_listed(
    answers: Seq<SessionAnswer>,
    id: String,
    state: PlayerState,
    error: MediaSourceError,
    k: int,
)
    ensures
        ({
            let before = states_told(answers);
            let after = states_told(
                answers.push(SessionAnswer::Identified { id, state: Ok(state) }),
            );
            let known = exists|i: int| 0 <= i < before.len() && (#[trigger] before[i]).0 == id@;
            &&& states_told(Seq::<SessionAnswer>::empty()).len() == 0
            &&& states_told(answers.push(SessionAnswer::Unidentified)) == before
            &&& states_told(
                answers.push(SessionAnswer::Identified { id, state: Err(error) }),
            ) == before
            &&& after.len() == before.len() + (if known {
                0int
            } else {
                1int
            })
            &&& 0 <= k < before.len() ==> after[k].0 == before[k].0 && after[k].1 == (if before[k].0
                == id@ {
                state@
            } else {
                before[k].1
            })
            &&& !known ==> after[before.len() as int] == (id@, state@)
        }),
{
    let before = states_told(answers);
    let told = answers.push(SessionAnswer::Identified { id, state: Ok(state) });
    let failed = answers.push(SessionAnswer::Identified { id, state: Err(error) });
    let silent = answers.push(SessionAnswer::Unidentified);
    assert(told.drop_last() =~= answers);
    assert(failed.drop_last() =~= answers);
    assert(silent.drop_last() =~= answers);
    place_holds(before, id@);
    let place = place_of(before, id@);
    if 0 <= k < before.len() && before[k].0 == id@ && k != place {
        if k < place {
            assert(before[k].0 != id@);
        } else {
            listed_players_are_distinct(answers, place, k);
        }
    }
}

/// The listed players are the identifiers in the list of states, in its order.
pub proof fn players_are_listed_as_told(states: Seq<(String, PlayerState)>, i: int)
    requires
        0 <= i < states.len(),
    ensures
        states_view(states).len() == states.len(),
        states_view(states)[i] == (states[i].0@, states[i].1@),
        ids_in(states_view(states)).len() == states.len(),
        ids_in(states_view(states))[i] == states[i].0@,
{
}

} // verus!
