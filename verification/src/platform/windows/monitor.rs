//! Following the media sessions of Windows from one notification to the next.

use std::time::Duration;
use vstd::hash_map::StringHashMap;
use vstd::prelude::*;

use crate::error::MediaSourceError;
use crate::platform::state::{
    changes_come_in_order, changes_name_their_player, changes_tell_of_no_coming_or_going,
    diff_player_state, exactly_the_changes_are_reported, exactly_the_first_state_is_reported,
    heard_all, listener_keeps_up, makes_sense, state_changes, told_running, told_running_splits,
    unchanged_state_reports_nothing, PlayerState, StateModel,
};
use crate::text::{holds_text, same_text};
use crate::time::nanos;
use crate::types::{EventModel, MediaEvent};

verus! {

/// How often the first scan for sessions is tried.
pub const SCAN_ATTEMPTS: u32 = 3;

/// The pause between two tries of the first scan, in milliseconds.
pub const SCAN_RETRY_MILLIS: u64 = 500;

/// The tokens under which the handlers of a session are registered. A handler that could not be
/// registered has none.
#[derive(Debug, Clone, Copy, PartialEq, Eq)]
pub struct SessionEntry {
    pub token_media_props: Option<i64>,
    pub token_playback_info: Option<i64>,
    pub token_timeline: Option<i64>,
}

impl SessionEntry {
    /// Whether all three handlers are registered.
    pub open spec fn complete(self) -> bool {
        self.token_media_props is Some && self.token_playback_info is Some
            && self.token_timeline is Some
    }

    /// Whether all three handlers are registered.
    pub fn is_fully_registered(&self) -> (r: bool)
        ensures
            r == self.complete(),
    {
        self.token_media_props.is_some() && self.token_playback_info.is_some()
            && self.token_timeline.is_some()
    }
}

/// What follows a try of the first scan.
pub enum ScanStep {
    /// The next try, after a pause.
    RetryAfter(Duration),
    /// Waiting for notifications.
    Watch,
}

/// What follows a try of the first scan. The tries are counted from zero.
pub fn after_first_scan(attempt: u32, succeeded: bool) -> (r: ScanStep)
    ensures
        match r {
            ScanStep::RetryAfter(pause) => {
                &&& !succeeded
                &&& attempt + 1 < SCAN_ATTEMPTS
                &&& nanos(pause) == SCAN_RETRY_MILLIS * 1_000_000
            },
            ScanStep::Watch => succeeded || attempt + 1 >= SCAN_ATTEMPTS,
        },
        r is RetryAfter <==> !succeeded && attempt < 2,
        r matches ScanStep::RetryAfter(pause) ==> nanos(pause) == 500_000_000,
{
    if succeeded || attempt >= SCAN_ATTEMPTS - 1 {
        ScanStep::Watch
    } else {
        ScanStep::RetryAfter(Duration::from_millis(SCAN_RETRY_MILLIS))
    }
}

/// A notification that the monitor waits for.
#[derive(Debug, PartialEq, Eq)]
pub enum RawNotification {
    /// The list of sessions changed.
    SessionsChanged,
    /// A session signalled a change of its track, its playback or its timeline.
    SessionChanged { id: String },
}

/// What the monitor can wake up to.
pub enum WakeUp {
    /// A notification, or `None` when no further one will come.
    Notified(Option<RawNotification>),
    /// No one listens to the events any more.
    ConsumerGone,
}

/// What the monitor does next.
#[derive(Debug, PartialEq, Eq)]
pub enum MonitorStep {
    /// Lists the sessions anew.
    Scan,
    /// Reads the session anew.
    Read(String),
    /// Waits for the next notification.
    Wait,
    /// Ends.
    Stop,
}

/// What a [`MonitorStep`] says.
pub enum MonitorStepModel {
    Scan,
    Read(Seq<char>),
    Wait,
    Stop,
}

impl View for MonitorStep {
    type V = MonitorStepModel;

    open spec fn view(&self) -> MonitorStepModel {
        match self {
            MonitorStep::Scan => MonitorStepModel::Scan,
            MonitorStep::Read(id) => MonitorStepModel::Read(id@),
            MonitorStep::Wait => MonitorStepModel::Wait,
            MonitorStep::Stop => MonitorStepModel::Stop,
        }
    }
}

/// The tracked sessions, in the order in which they were found. None stands twice.
struct SessionList {
    ids: Vec<String>,
}

impl SessionList {
    spec fn view(&self) -> Seq<Seq<char>> {
        self.ids.deep_view()
    }

    #[verifier::type_invariant]
    spec fn distinct(self) -> bool {
        self.ids.deep_view().no_duplicates()
    }

    fn new() -> (r: SessionList)
        ensures
            r@ == Seq::<Seq<char>>::empty(),
    {
        let r = SessionList { ids: Vec::new() };
        assert(r@ =~= Seq::<Seq<char>>::empty());
        r
    }

    fn holds(&self, id: &str) -> (r: bool)
        ensures
            r == self@.contains(id@),
    {
        holds_text(&self.ids, id)
    }

    fn push(&mut self, id: String)
        requires
            !old(self)@.contains(id@),
        ensures
            final(self)@ == old(self)@.push(id@),
    {
        proof {
            use_type_invariant(&*self);
        }
        let ghost before = self@;
        let ghost added = id@;
        let mut ids: Vec<String> = Vec::new();
        std::mem::swap(&mut ids, &mut self.ids);
        ids.push(id);
        assert(ids.deep_view() =~= before.push(added));
        self.ids = ids;
    }

    fn remove(&mut self, id: &str)
        ensures
            final(self)@ == without(old(self)@, id@),
    {
        proof {
            use_type_invariant(&*self);
        }
        let ghost all = self@;
        let mut kept: Vec<String> = Vec::new();
        let mut i: usize = 0;
        assert(kept.deep_view() =~= without(all.take(0), id@));
        while i < self.ids.len()
            invariant
                i <= self.ids.len(),
                *self == *old(self),
                all == self@,
                kept.deep_view() == without(all.take(i as int), id@),
            decreases self.ids.len() - i,
        {
            let ghost before = kept.deep_view();
            assert(all.take(i + 1).drop_last() =~= all.take(i as int));
            assert(all[i as int] == self.ids[i as int]@);
            if !same_text(self.ids[i].as_str(), id) {
                kept.push(self.ids[i].clone());
                assert(kept.deep_view() =~= before.push(all[i as int]));
            }
            i += 1;
        }
        assert(all.take(i as int) =~= all);
        proof {
            without_holds(all, id@, id@);
        }
        self.ids = kept;
    }

    /// Parts the sessions that are on a list from those that are not.
    fn part(&self, listed: &Vec<String>) -> (r: (SessionList, Vec<String>))
        ensures
            r.0@ == among(self@, listed.deep_view()),
            r.1.deep_view() == missing(self@, listed.deep_view()),
    {
        proof {
            use_type_invariant(self);
        }
        let ghost all = self@;
        let ghost others = listed.deep_view();
        let mut kept: Vec<String> = Vec::new();
        let mut gone: Vec<String> = Vec::new();
        let mut i: usize = 0;
        assert(kept.deep_view() =~= among(all.take(0), others));
        assert(gone.deep_view() =~= missing(all.take(0), others));
        while i < self.ids.len()
            invariant
                i <= self.ids.len(),
                all == self@,
                others == listed.deep_view(),
                kept.deep_view() == among(all.take(i as int), others),
                gone.deep_view() == missing(all.take(i as int), others),
            decreases self.ids.len() - i,
        {
            let ghost kept_before = kept.deep_view();
            let ghost gone_before = gone.deep_view();
            assert(all.take(i + 1).drop_last() =~= all.take(i as int));
            assert(all[i as int] == self.ids[i as int]@);
            if holds_text(listed, self.ids[i].as_str()) {
                kept.push(self.ids[i].clone());
                assert(kept.deep_view() =~= kept_before.push(all[i as int]));
            } else {
                gone.push(self.ids[i].clone());
                assert(gone.deep_view() =~= gone_before.push(all[i as int]));
            }
            i += 1;
        }
        assert(all.take(i as int) =~= all);
        proof {
            among_holds(all, others, seq![]);
        }
        (SessionList { ids: kept }, gone)
    }
}

/// Follows the sessions: which of them are tracked, and the state last seen of each.
pub struct EventDrivenPlayerMonitor {
    sessions: SessionList,
    cache: StringHashMap<PlayerState>,
}

/// What an [`EventDrivenPlayerMonitor`] knows.
#[verifier::ext_equal]
pub struct WatchModel {
    /// The tracked sessions, in the order in which they were found.
    pub sessions: Seq<Seq<char>>,
    /// The state last seen of each session.
    pub cache: Map<Seq<char>, StateModel>,
}

impl View for EventDrivenPlayerMonitor {
    type V = WatchModel;

    closed spec fn view(&self) -> WatchModel {
        WatchModel {
            sessions: self.sessions@,
            cache: self.cache@.map_values(|state: PlayerState| state@),
        }
    }
}

impl WatchModel {
    /// Whether a session is tracked.
    pub open spec fn tracks(self, id: Seq<char>) -> bool {
        self.sessions.contains(id)
    }

    /// The state last seen of a session.
    pub open spec fn last(self, id: Seq<char>) -> Option<StateModel> {
        if self.cache.contains_key(id) {
            Some(self.cache[id])
        } else {
            None
        }
    }

    /// No session is tracked twice, and only tracked ones have a state.
    pub open spec fn orderly(self) -> bool {
        &&& self.sessions.no_duplicates()
        &&& forall|id: Seq<char>| #[trigger]
            self.cache.contains_key(id) ==> self.sessions.contains(id)
    }

    /// Orderly, and every tracked session has a state, as between two notifications.
    pub open spec fn settled(self) -> bool {
        &&& self.orderly()
        &&& forall|id: Seq<char>| #[trigger]
            self.sessions.contains(id) ==> self.cache.contains_key(id)
    }
}

/// A monitor that has seen no session.
pub open spec fn nothing_tracked() -> WatchModel {
    WatchModel { sessions: seq![], cache: Map::empty() }
}

/// Those of the identifiers that are among others, in their order.
pub open spec fn among(ids: Seq<Seq<char>>, others: Seq<Seq<char>>) -> Seq<Seq<char>>
    decreases ids.len(),
{
    if ids.len() == 0 {
        seq![]
    } else if others.contains(ids.last()) {
        among(ids.drop_last(), others).push(ids.last())
    } else {
        among(ids.drop_last(), others)
    }
}

/// Those of the identifiers that are not among others, in their order.
pub open spec fn missing(ids: Seq<Seq<char>>, others: Seq<Seq<char>>) -> Seq<Seq<char>>
    decreases ids.len(),
{
    if ids.len() == 0 {
        seq![]
    } else if others.contains(ids.last()) {
        missing(ids.drop_last(), others)
    } else {
        missing(ids.drop_last(), others).push(ids.last())
    }
}

/// The events that the sessions that are not among others were removed, in their order.
pub open spec fn removals(ids: Seq<Seq<char>>, others: Seq<Seq<char>>) -> Seq<EventModel> {
    missing(ids, others).map_values(
        |id: Seq<char>| EventModel::PlayerRemoved { player_name: id },
    )
}

/// What is known once the tracked sessions that are not listed any more are dropped.
pub open spec fn after_listing(watch: WatchModel, listed: Seq<Seq<char>>) -> WatchModel {
    WatchModel {
        sessions: among(watch.sessions, listed),
        cache: watch.cache.remove_keys(
            Set::new(|id: Seq<char>| watch.sessions.contains(id) && !listed.contains(id)),
        ),
    }
}

/// Whether a listed session is taken up: it is not tracked yet, and all its handlers are
/// registered.
pub open spec fn takes_up(watch: WatchModel, id: Seq<char>, entry: SessionEntry) -> bool {
    !watch.tracks(id) && entry.complete()
}

/// What is known once the handlers of a listed session were to be registered.
pub open spec fn after_registering(
    watch: WatchModel,
    id: Seq<char>,
    entry: SessionEntry,
) -> WatchModel {
    if takes_up(watch, id, entry) {
        WatchModel { sessions: watch.sessions.push(id), ..watch }
    } else {
        watch
    }
}

/// The identifiers without one of them.
pub open spec fn without(ids: Seq<Seq<char>>, gone: Seq<char>) -> Seq<Seq<char>>
    decreases ids.len(),
{
    if ids.len() == 0 {
        seq![]
    } else if ids.last() == gone {
        without(ids.drop_last(), gone)
    } else {
        without(ids.drop_last(), gone).push(ids.last())
    }
}

/// The events by which a session that was taken up is introduced.
pub open spec fn introduction(id: Seq<char>, state: StateModel) -> Seq<EventModel> {
    seq![
        EventModel::PlayerAdded { player_name: id },
        EventModel::TrackChanged { player_name: id, track: state.track },
        EventModel::StateChanged { player_name: id, state: state.playback_state },
    ]
}

/// What is known after the first reading of a session that was taken up: one that failed has the
/// session dropped, so that a later scan takes it up again.
pub open spec fn after_first_reading(
    watch: WatchModel,
    id: Seq<char>,
    reading: Option<StateModel>,
) -> WatchModel {
    match reading {
        Some(state) => WatchModel { cache: watch.cache.insert(id, state), ..watch },
        None => WatchModel { sessions: without(watch.sessions, id), ..watch },
    }
}

/// The events of the first reading of a session that was taken up.
pub open spec fn first_reading_events(id: Seq<char>, reading: Option<StateModel>) -> Seq<
    EventModel,
> {
    match reading {
        Some(state) => introduction(id, state),
        None => seq![],
    }
}

/// What is known after the first readings of some sessions.
pub open spec fn after_first_readings(
    watch: WatchModel,
    readings: Seq<(Seq<char>, Option<StateModel>)>,
) -> WatchModel
    decreases readings.len(),
{
    if readings.len() == 0 {
        watch
    } else {
        after_first_reading(
            after_first_readings(watch, readings.drop_last()),
            readings.last().0,
            readings.last().1,
        )
    }
}

/// The events of the first readings of some sessions, in their order.
pub open spec fn first_readings_events(readings: Seq<(Seq<char>, Option<StateModel>)>) -> Seq<
    EventModel,
>
    decreases readings.len(),
{
    if readings.len() == 0 {
        seq![]
    } else {
        first_readings_events(readings.drop_last()) + first_reading_events(
            readings.last().0,
            readings.last().1,
        )
    }
}

/// The state that was read, if any was.
pub open spec fn readable(reading: Result<PlayerState, MediaSourceError>) -> Option<StateModel> {
    match reading {
        Ok(state) => Some(state@),
        Err(_) => None,
    }
}

/// What some readings say.
pub open spec fn readings_view(
    readings: Seq<(String, Result<PlayerState, MediaSourceError>)>,
) -> Seq<(Seq<char>, Option<StateModel>)> {
    readings.map_values(
        |reading: (String, Result<PlayerState, MediaSourceError>)|
            (reading.0@, readable(reading.1)),
    )
}

/// The events of one more reading of a session.
pub open spec fn reading_events(
    watch: WatchModel,
    id: Seq<char>,
    reading: Option<StateModel>,
) -> Seq<EventModel> {
    match reading {
        Some(state) => if watch.tracks(id) {
            state_changes(id, watch.last(id), state)
        } else {
            seq![]
        },
        None => seq![],
    }
}

/// What is known after one more reading of a session.
pub open spec fn after_reading(
    watch: WatchModel,
    id: Seq<char>,
    reading: Option<StateModel>,
) -> WatchModel {
    match reading {
        Some(state) => if watch.tracks(id) {
            WatchModel { cache: watch.cache.insert(id, state), ..watch }
        } else {
            watch
        },
        None => watch,
    }
}

/// What the monitor does next.
pub open spec fn next_step(watch: WatchModel, wake_up: WakeUp) -> MonitorStepModel {
    match wake_up {
        WakeUp::Notified(Some(RawNotification::SessionsChanged)) => MonitorStepModel::Scan,
        WakeUp::Notified(Some(RawNotification::SessionChanged { id })) => if watch.tracks(id@) {
            MonitorStepModel::Read(id@)
        } else {
            MonitorStepModel::Wait
        },
        WakeUp::Notified(None) => MonitorStepModel::Stop,
        WakeUp::ConsumerGone => MonitorStepModel::Stop,
    }
}

impl EventDrivenPlayerMonitor {
    /// Creates a monitor that has seen no session.
    pub fn new() -> (r: EventDrivenPlayerMonitor)
        ensures
            r@ == nothing_tracked(),
            r@.settled(),
    {
        let r = EventDrivenPlayerMonitor {
            sessions: SessionList::new(),
            cache: StringHashMap::new(),
        };
        assert(r@ =~= nothing_tracked());
        r
    }

    /// Whether a session is tracked.
    pub fn is_tracked(&self, id: &str) -> (r: bool)
        ensures
            r == self@.tracks(id@),
    {
        self.sessions.holds(id)
    }

    /// What the monitor does next. A notification of a session that is not tracked, because it
    /// was removed or could not be registered, is ignored.
    pub fn run(&self, wake_up: WakeUp) -> (r: MonitorStep)
        ensures
            r@ == next_step(self@, wake_up),
    {
        match wake_up {
            WakeUp::Notified(Some(RawNotification::SessionsChanged)) => MonitorStep::Scan,
            WakeUp::Notified(Some(RawNotification::SessionChanged { id })) => {
                if self.is_tracked(id.as_str()) {
                    MonitorStep::Read(id)
                } else {
                    MonitorStep::Wait
                }
            },
            WakeUp::Notified(None) => MonitorStep::Stop,
            WakeUp::ConsumerGone => MonitorStep::Stop,
        }
    }

    /// Takes a new list of the sessions: drops the tracked ones that are not on it and returns
    /// the events of that, or `None` where the list could not be had, which changes nothing.
    ///
    /// The sessions on the list are then to be taken up with
    /// [`register_session`](Self::register_session), each in its turn, and those that were are to
    /// be read for [`introduce_sessions`](Self::introduce_sessions).
    pub fn handle_sessions_changed(&mut self, listed: &Result<Vec<String>, MediaSourceError>) -> (r:
        Option<Vec<MediaEvent>>)
        ensures
            match listed {
                Ok(ids) => {
                    &&& r matches Some(events) && events.deep_view() == removals(
                        old(self)@.sessions,
                        ids.deep_view(),
                    )
                    &&& final(self)@ == after_listing(old(self)@, ids.deep_view())
                },
                Err(_) => r is None && final(self)@ == old(self)@,
            },
            final(self)@.sessions.no_duplicates(),
            old(self)@.settled() ==> final(self)@.settled(),
    {
        proof {
            use_type_invariant(&self.sessions);
        }
        match listed {
            Ok(ids) => {
                let ghost watch = self@;
                let ghost others = ids.deep_view();
                let (kept, gone) = self.sessions.part(ids);
                let ghost dropped = missing(watch.sessions, others);
                let ghost event = |id: Seq<char>| EventModel::PlayerRemoved { player_name: id };
                let mut events: Vec<MediaEvent> = Vec::new();
                assert(events.deep_view() =~= dropped.take(0).map_values(event));
                assert(self@.cache =~= watch.cache.remove_keys(Set::new(|x: Seq<char>| dropped.take(0).contains(x))));
                for id in it: gone
                    invariant
                        gone.deep_view() == dropped,
                        it.seq() == gone@,
                        event == (|id: Seq<char>| EventModel::PlayerRemoved { player_name: id }),
                        events.deep_view() == dropped.take(it.index()).map_values(event),
                        self@.cache == watch.cache.remove_keys(
                            Set::new(|x: Seq<char>| dropped.take(it.index()).contains(x)),
                        ),
                {
                    let ghost at = it.index();
                    let ghost name = id@;
                    assert(dropped[at] == name);
                    assert(dropped.take(at + 1) =~= dropped.take(at).push(name));
                    let ghost events_before = events.deep_view();
                    let ghost cache_before = self@.cache;
                    self.cache.remove(id.as_str());
                    events.push(MediaEvent::PlayerRemoved { player_name: id });
                    assert(events.deep_view() =~= events_before.push(event(name)));
                    assert(events.deep_view() =~= dropped.take(at + 1).map_values(event));
                    assert(self@.cache =~= cache_before.remove(name));
                    proof {
                        one_more_removed(watch.cache, dropped.take(at), name);
                    }
                    assert(self@.cache =~= watch.cache.remove_keys(
                        Set::new(|x: Seq<char>| dropped.take(at + 1).contains(x)),
                    ));
                }
                assert(dropped.take(dropped.len() as int) =~= dropped);
                self.sessions = kept;
                proof {
                    assert forall|x: Seq<char>|
                        dropped.contains(x) <==> watch.sessions.contains(x) && !others.contains(
                            x,
                        ) by {
                        missing_holds(watch.sessions, others, x);
                    }
                    assert(self@ =~= after_listing(watch, others));
                    among_holds(watch.sessions, others, seq![]);
                    if watch.settled() {
                        listing_keeps_what_is_listed(watch, others, seq![]);
                    }
                }
                Some(events)
            },
            Err(_) => None,
        }
    }

    /// Takes a listed session up once its handlers were to be registered, and tells whether it
    /// did. One that is tracked already, or with a handler that could not be registered, is not
    /// taken up, so that a later scan tries it again.
    pub fn register_session(&mut self, id: &str, entry: &SessionEntry) -> (r: bool)
        ensures
            r == takes_up(old(self)@, id@, *entry),
            final(self)@ == after_registering(old(self)@, id@, *entry),
            final(self)@.sessions.no_duplicates(),
            old(self)@.orderly() ==> final(self)@.orderly(),
    {
        proof {
            use_type_invariant(&self.sessions);
        }
        if self.is_tracked(id) || !entry.is_fully_registered() {
            return false;
        }
        self.sessions.push(id.to_owned());
        assert(self@ =~= after_registering(old(self)@, id@, *entry));
        proof {
            use_type_invariant(&self.sessions);
            assert forall|x: Seq<char>| old(self)@.sessions.contains(
                x,
            ) implies #[trigger] self@.sessions.contains(x) by {
                pushed(old(self)@.sessions, id@, x);
            }
        }
        true
    }

    /// Takes the first readings of the sessions that were taken up and returns the events of
    /// them: each is reported as added, then its track and its playback state. A session whose
    /// reading failed is dropped, so that a later scan takes it up again.
    pub fn introduce_sessions(
        &mut self,
        readings: Vec<(String, Result<PlayerState, MediaSourceError>)>,
    ) -> (events: Vec<MediaEvent>)
        ensures
            events.deep_view() == first_readings_events(readings_view(readings@)),
            final(self)@ == after_first_readings(old(self)@, readings_view(readings@)),
            final(self)@.sessions.no_duplicates(),
    {
        let ghost watch = self@;
        let ghost all = readings_view(readings@);
        let mut events: Vec<MediaEvent> = Vec::new();
        assert(events.deep_view() =~= first_readings_events(all.take(0)));
        for reading in it: readings
            invariant
                readings_view(it.seq()) == all,
                events.deep_view() == first_readings_events(all.take(it.index())),
                self@ == after_first_readings(watch, all.take(it.index())),
        {
            let ghost at = it.index();
            assert(all.take(at + 1).drop_last() =~= all.take(at));
            assert(all[at] == readings_view(it.seq())[at]);
            let ghost before = events.deep_view();
            let ghost watch_before = self@;
            let (id, state) = reading;
            let ghost name = id@;
            let ghost told = readable(state);
            match state {
                Ok(state) => {
                    self.cache.insert(id.clone(), state.clone());
                    events.push(MediaEvent::PlayerAdded { player_name: id.clone() });
                    events.push(
                        MediaEvent::TrackChanged { player_name: id.clone(), track: state.track },
                    );
                    events.push(
                        MediaEvent::StateChanged { player_name: id, state: state.playback_state },
                    );
                },
                Err(_) => {
                    self.sessions.remove(id.as_str());
                },
            }
            assert(events.deep_view() =~= before + first_reading_events(name, told));
            assert(self@ =~= after_first_reading(watch_before, name, told));
        }
        assert(all.take(all.len() as int) =~= all);
        proof {
            use_type_invariant(&self.sessions);
        }
        events
    }

    /// Takes one more reading of a session and returns the events to emit. One of a session that
    /// is not tracked, or that failed, changes nothing; any other becomes the state last seen,
    /// whether anything is reported or not.
    pub fn handle_session_changed(
        &mut self,
        id: &str,
        reading: Result<PlayerState, MediaSourceError>,
    ) -> (events: Vec<MediaEvent>)
        ensures
            events.deep_view() == reading_events(old(self)@, id@, readable(reading)),
            final(self)@ == after_reading(old(self)@, id@, readable(reading)),
            final(self)@.sessions.no_duplicates(),
            old(self)@.settled() ==> final(self)@.settled(),
    {
        proof {
            use_type_invariant(&self.sessions);
        }
        let nothing: Vec<MediaEvent> = Vec::new();
        assert(nothing.deep_view() =~= Seq::<EventModel>::empty());
        if !self.is_tracked(id) {
            return nothing;
        }
        match reading {
            Ok(state) => {
                let events = diff_player_state(id, self.cache.get(id), &state);
                self.cache.insert(id.to_owned(), state);
                assert(self@ =~= after_reading(old(self)@, id@, readable(reading)));
                events
            },
            Err(_) => nothing,
        }
    }
}

proof fn among_holds(ids: Seq<Seq<char>>, others: Seq<Seq<char>>, id: Seq<char>)
    ensures
        among(ids, others).contains(id) <==> ids.contains(id) && others.contains(id),
        ids.no_duplicates() ==> among(ids, others).no_duplicates(),
    decreases ids.len(),
{
    if ids.len() > 0 {
        let rest = ids.drop_last();
        let last = ids.last();
        among_holds(rest, others, id);
        among_holds(rest, others, last);
        assert(ids =~= rest.push(last));
        pushed(rest, last, id);
        pushed(among(rest, others), last, id);
        if ids.no_duplicates() {
            assert(rest.no_duplicates());
            assert(!rest.contains(last)) by {
                if rest.contains(last) {
                    let k = choose|k: int| 0 <= k < rest.len() && rest[k] == last;
                    assert(ids[k] == ids[ids.len() - 1]);
                }
            }
        }
    }
}

proof fn missing_holds(ids: Seq<Seq<char>>, others: Seq<Seq<char>>, id: Seq<char>)
    ensures
        missing(ids, others).contains(id) <==> ids.contains(id) && !others.contains(id),
    decreases ids.len(),
{
    if ids.len() > 0 {
        let rest = ids.drop_last();
        let last = ids.last();
        missing_holds(rest, others, id);
        assert(ids =~= rest.push(last));
        pushed(rest, last, id);
        pushed(missing(rest, others), last, id);
    }
}

proof fn pushed(ids: Seq<Seq<char>>, last: Seq<char>, id: Seq<char>)
    ensures
        ids.push(last).contains(id) <==> ids.contains(id) || id == last,
{
    let longer = ids.push(last);
    if ids.contains(id) {
        let k = choose|k: int| 0 <= k < ids.len() && ids[k] == id;
        assert(longer[k] == id);
    }
    if id == last {
        assert(longer[ids.len() as int] == id);
    }
    if longer.contains(id) && id != last {
        let k = choose|k: int| 0 <= k < longer.len() && longer[k] == id;
        assert(ids[k] == id);
    }
}

proof fn one_more_removed(
    cache: Map<Seq<char>, StateModel>,
    gone: Seq<Seq<char>>,
    name: Seq<char>,
)
    ensures
        cache.remove_keys(Set::new(|x: Seq<char>| gone.contains(x))).remove(name)
            == cache.remove_keys(Set::new(|x: Seq<char>| gone.push(name).contains(x))),
{
    let fewer = cache.remove_keys(Set::new(|x: Seq<char>| gone.contains(x))).remove(name);
    let removed = cache.remove_keys(Set::new(|x: Seq<char>| gone.push(name).contains(x)));
    assert forall|x: Seq<char>| fewer.contains_key(x) <==> removed.contains_key(x) by {
        pushed(gone, name, x);
    }
    assert(fewer =~= removed);
}

proof fn without_holds(ids: Seq<Seq<char>>, gone: Seq<char>, id: Seq<char>)
    ensures
        without(ids, gone).contains(id) <==> ids.contains(id) && id != gone,
        ids.no_duplicates() ==> without(ids, gone).no_duplicates(),
    decreases ids.len(),
{
    if ids.len() > 0 {
        let rest = ids.drop_last();
        let last = ids.last();
        without_holds(rest, gone, id);
        without_holds(rest, gone, last);
        assert(ids =~= rest.push(last));
        pushed(rest, last, id);
        pushed(without(rest, gone), last, id);
        if ids.no_duplicates() {
            assert(rest.no_duplicates());
            assert(!rest.contains(last)) by {
                if rest.contains(last) {
                    let k = choose|k: int| 0 <= k < rest.len() && rest[k] == last;
                    assert(ids[k] == ids[ids.len() - 1]);
                }
            }
        }
    }
}

/// A new monitor is settled, and a new list keeps it so: what is tracked is then exactly what was
/// tracked and is on the list, each with the state that it had.
pub proof fn listing_keeps_what_is_listed(
    watch: WatchModel,
    listed: Seq<Seq<char>>,
    id: Seq<char>,
)
    requires
        watch.settled(),
    ensures
        nothing_tracked().settled(),
        after_listing(watch, listed).settled(),
        after_listing(watch, listed).tracks(id) <==> watch.tracks(id) && listed.contains(id),
        after_listing(watch, listed).tracks(id) ==> after_listing(watch, listed).last(id)
            == watch.last(id),
{
    let after = after_listing(watch, listed);
    among_holds(watch.sessions, listed, id);
    assert forall|x: Seq<char>| #[trigger] after.cache.contains_key(x) implies after.tracks(x) by {
        among_holds(watch.sessions, listed, x);
        assert(watch.cache.contains_key(x));
    }
    assert forall|x: Seq<char>| #[trigger] after.sessions.contains(
        x,
    ) implies after.cache.contains_key(x) by {
        among_holds(watch.sessions, listed, x);
        assert(watch.sessions.contains(x));
    }
}

/// A player is reported as removed exactly when its session was tracked and is not on the list.
pub proof fn removed_means_not_listed(
    ids: Seq<Seq<char>>,
    listed: Seq<Seq<char>>,
    id: Seq<char>,
)
    ensures
        removals(ids, listed).contains(EventModel::PlayerRemoved { player_name: id })
            <==> ids.contains(id) && !listed.contains(id),
        forall|i: int|
            0 <= i < removals(ids, listed).len() ==> (#[trigger] removals(ids, listed)[i])
                is PlayerRemoved,
{
    let gone = missing(ids, listed);
    let events = removals(ids, listed);
    let event = EventModel::PlayerRemoved { player_name: id };
    missing_holds(ids, listed, id);
    if gone.contains(id) {
        let k = choose|k: int| 0 <= k < gone.len() && gone[k] == id;
        assert(events[k] == event);
    }
    if events.contains(event) {
        let k = choose|k: int| 0 <= k < events.len() && events[k] == event;
        assert(gone[k] == id);
    }
}

/// What is known once the handlers of some listed sessions were to be registered, one after the
/// other.
pub open spec fn after_registrations(
    watch: WatchModel,
    offers: Seq<(Seq<char>, SessionEntry)>,
) -> WatchModel
    decreases offers.len(),
{
    if offers.len() == 0 {
        watch
    } else {
        after_registering(
            after_registrations(watch, offers.drop_last()),
            offers.last().0,
            offers.last().1,
        )
    }
}

/// Those of the offered sessions that are taken up, in their order.
pub open spec fn taken_up(watch: WatchModel, offers: Seq<(Seq<char>, SessionEntry)>) -> Seq<
    Seq<char>,
>
    decreases offers.len(),
{
    if offers.len() == 0 {
        seq![]
    } else {
        let before = taken_up(watch, offers.drop_last());
        if takes_up(
            after_registrations(watch, offers.drop_last()),
            offers.last().0,
            offers.last().1,
        ) {
            before.push(offers.last().0)
        } else {
            before
        }
    }
}

proof fn registrations_append(watch: WatchModel, offers: Seq<(Seq<char>, SessionEntry)>)
    requires
        watch.sessions.no_duplicates(),
    ensures
        after_registrations(watch, offers).sessions == watch.sessions + taken_up(watch, offers),
        after_registrations(watch, offers).cache == watch.cache,
        after_registrations(watch, offers).sessions.no_duplicates(),
    decreases offers.len(),
{
    if offers.len() == 0 {
        assert(watch.sessions + taken_up(watch, offers) =~= watch.sessions);
    } else {
        registrations_append(watch, offers.drop_last());
        assert(after_registrations(watch, offers).sessions =~= watch.sessions + taken_up(
            watch,
            offers,
        ));
    }
}

/// A session is taken up exactly when it was not tracked and is offered with all its handlers.
pub proof fn taken_up_means_registered(
    watch: WatchModel,
    offers: Seq<(Seq<char>, SessionEntry)>,
    id: Seq<char>,
)
    ensures
        taken_up(watch, offers).contains(id) <==> !watch.tracks(id) && exists|i: int|
            0 <= i < offers.len() && (#[trigger] offers[i]).0 == id && offers[i].1.complete(),
        after_registrations(watch, offers).tracks(id) <==> watch.tracks(id) || taken_up(
            watch,
            offers,
        ).contains(id),
    decreases offers.len(),
{
    if offers.len() > 0 {
        let rest = offers.drop_last();
        let last = offers.last();
        let halfway = after_registrations(watch, rest);
        taken_up_means_registered(watch, rest, id);
        taken_up_means_registered(watch, rest, last.0);
        pushed(halfway.sessions, last.0, id);
        pushed(taken_up(watch, rest), last.0, id);
        let offered = exists|i: int|
            0 <= i < offers.len() && (#[trigger] offers[i]).0 == id && offers[i].1.complete();
        let offered_before = exists|i: int|
            0 <= i < rest.len() && (#[trigger] rest[i]).0 == id && rest[i].1.complete();
        if offered_before {
            let i = choose|i: int|
                0 <= i < rest.len() && (#[trigger] rest[i]).0 == id && rest[i].1.complete();
            assert(offers[i] == rest[i]);
        }
        if offered && !(last.0 == id && last.1.complete()) {
            let i = choose|i: int|
                0 <= i < offers.len() && (#[trigger] offers[i]).0 == id && offers[i].1.complete();
            assert(rest[i] == offers[i]);
        }
        if last.0 == id && last.1.complete() {
            assert(offers[offers.len() - 1] == last);
        }
    }
}

/// The identifiers of some readings.
pub open spec fn ids_read(readings: Seq<(Seq<char>, Option<StateModel>)>) -> Seq<Seq<char>> {
    readings.map_values(|reading: (Seq<char>, Option<StateModel>)| reading.0)
}

/// Whether a session was read.
pub open spec fn was_read(
    readings: Seq<(Seq<char>, Option<StateModel>)>,
    id: Seq<char>,
) -> bool {
    exists|i: int|
        0 <= i < readings.len() && (#[trigger] readings[i]).0 == id && readings[i].1 is Some
}

/// Whether the reading of a session failed.
pub open spec fn was_missed(
    readings: Seq<(Seq<char>, Option<StateModel>)>,
    id: Seq<char>,
) -> bool {
    exists|i: int|
        0 <= i < readings.len() && (#[trigger] readings[i]).0 == id && readings[i].1 is None
}

proof fn first_readings_decide(
    watch: WatchModel,
    readings: Seq<(Seq<char>, Option<StateModel>)>,
    id: Seq<char>,
)
    requires
        watch.sessions.no_duplicates(),
    ensures
        ({
            let after = after_first_readings(watch, readings);
            &&& after.sessions.no_duplicates()
            &&& after.tracks(id) <==> watch.tracks(id) && !was_missed(readings, id)
            &&& after.cache.contains_key(id) <==> watch.cache.contains_key(id) || was_read(
                readings,
                id,
            )
        }),
    decreases readings.len(),
{
    if readings.len() > 0 {
        let rest = readings.drop_last();
        let last = readings.last();
        let halfway = after_first_readings(watch, rest);
        first_readings_decide(watch, rest, id);
        without_holds(halfway.sessions, last.0, id);
        if was_missed(rest, id) {
            let i = choose|i: int|
                0 <= i < rest.len() && (#[trigger] rest[i]).0 == id && rest[i].1 is None;
            assert(readings[i] == rest[i]);
        }
        if was_read(rest, id) {
            let i = choose|i: int|
                0 <= i < rest.len() && (#[trigger] rest[i]).0 == id && rest[i].1 is Some;
            assert(readings[i] == rest[i]);
        }
        if was_missed(readings, id) && !(last.0 == id && last.1 is None) {
            let i = choose|i: int|
                0 <= i < readings.len() && (#[trigger] readings[i]).0 == id
                    && readings[i].1 is None;
            assert(rest[i] == readings[i]);
        }
        if was_read(readings, id) && !(last.0 == id && last.1 is Some) {
            let i = choose|i: int|
                0 <= i < readings.len() && (#[trigger] readings[i]).0 == id
                    && readings[i].1 is Some;
            assert(rest[i] == readings[i]);
        }
        assert(readings[readings.len() - 1] == last);
    }
}

/// What is known after a whole scan: a new list, the registrations of the sessions on it and the
/// first readings of those that were taken up.
pub open spec fn after_scan(
    watch: WatchModel,
    offers: Seq<(Seq<char>, SessionEntry)>,
    readings: Seq<(Seq<char>, Option<StateModel>)>,
) -> WatchModel {
    after_first_readings(
        after_registrations(after_listing(watch, ids_offered(offers)), offers),
        readings,
    )
}

/// The identifiers of the offered sessions.
pub open spec fn ids_offered(offers: Seq<(Seq<char>, SessionEntry)>) -> Seq<Seq<char>> {
    offers.map_values(|offer: (Seq<char>, SessionEntry)| offer.0)
}

proof fn first_readings_are_kept(
    watch: WatchModel,
    readings: Seq<(Seq<char>, Option<StateModel>)>,
    id: Seq<char>,
)
    requires
        ids_read(readings).no_duplicates(),
    ensures
        !was_read(readings, id) ==> after_first_readings(watch, readings).last(id) == watch.last(
            id,
        ),
        forall|i: int|
            0 <= i < readings.len() && (#[trigger] readings[i]).0 == id && readings[i].1 is Some
                ==> after_first_readings(watch, readings).last(id) == readings[i].1,
    decreases readings.len(),
{
    if readings.len() > 0 {
        let rest = readings.drop_last();
        let last = readings.last();
        let after = after_first_readings(watch, readings);
        let ids = ids_read(readings);
        assert(ids_read(rest) =~= ids.drop_last());
        first_readings_are_kept(watch, rest, id);
        assert(readings[readings.len() - 1] == last);
        if was_read(rest, id) {
            let i = choose|i: int|
                0 <= i < rest.len() && (#[trigger] rest[i]).0 == id && rest[i].1 is Some;
            assert(readings[i] == rest[i]);
            assert(ids[i] == id);
            assert(ids[readings.len() - 1] == last.0);
        }
        assert forall|i: int|
            0 <= i < readings.len() && (#[trigger] readings[i]).0 == id && readings[i].1
                is Some implies after.last(id) == readings[i].1 by {
            if i < rest.len() {
                assert(rest[i] == readings[i]);
                assert(ids[i] == id);
                assert(ids[readings.len() - 1] == last.0);
            }
        }
    }
}

/// A scan leaves the monitor settled. It then tracks exactly the listed sessions that it tracked
/// before, each with the state last seen of it, and those that it took up and read, each with the
/// state that was read.
pub proof fn scan_tracks_what_it_read(
    watch: WatchModel,
    offers: Seq<(Seq<char>, SessionEntry)>,
    readings: Seq<(Seq<char>, Option<StateModel>)>,
    id: Seq<char>,
)
    requires
        watch.settled(),
        ids_read(readings) == taken_up(after_listing(watch, ids_offered(offers)), offers),
    ensures
        after_scan(watch, offers, readings).settled(),
        after_scan(watch, offers, readings).tracks(id) <==> (watch.tracks(id) && ids_offered(
            offers,
        ).contains(id)) || was_read(readings, id),
        watch.tracks(id) && ids_offered(offers).contains(id) ==> after_scan(
            watch,
            offers,
            readings,
        ).last(id) == watch.last(id),
        forall|i: int|
            0 <= i < readings.len() && (#[trigger] readings[i]).0 == id && readings[i].1 is Some
                ==> after_scan(watch, offers, readings).last(id) == readings[i].1,
{
    let listed = ids_offered(offers);
    let kept = after_listing(watch, listed);
    let registered = after_registrations(kept, offers);
    let after = after_scan(watch, offers, readings);
    listing_keeps_what_is_listed(watch, listed, id);
    registrations_append(kept, offers);
    assert forall|x: Seq<char>|
        #![trigger after.tracks(x)]
        #![trigger after.cache.contains_key(x)]
        (after.tracks(x) <==> (watch.tracks(x) && listed.contains(x)) || was_read(readings, x)) && (
        after.tracks(x) <==> after.cache.contains_key(x)) by {
        listing_keeps_what_is_listed(watch, listed, x);
        taken_up_means_registered(kept, offers, x);
        first_readings_decide(registered, readings, x);
        readings_cover(kept, offers, readings, x);
        assert(kept.tracks(x) <==> kept.cache.contains_key(x));
    }
    assert(ids_read(readings).no_duplicates()) by {
        let ids = ids_read(readings);
        assert forall|i: int, j: int| 0 <= i < ids.len() && 0 <= j < ids.len() && i != j implies
            ids[i] != ids[j] by {
            let count = kept.sessions.len() as int;
            assert(registered.sessions[count + i] == ids[i]);
            assert(registered.sessions[count + j] == ids[j]);
        }
    }
    first_readings_are_kept(registered, readings, id);
    readings_cover(kept, offers, readings, id);
    first_readings_decide(registered, readings, id);
    assert(after.tracks(id) <==> (watch.tracks(id) && listed.contains(id)) || was_read(
        readings,
        id,
    ));
    assert forall|x: Seq<char>| #[trigger] after.cache.contains_key(x) implies after.sessions.contains(
        x,
    ) by {
        assert(after.tracks(x));
    }
    assert forall|x: Seq<char>| #[trigger] after.sessions.contains(
        x,
    ) implies after.cache.contains_key(x) by {
        assert(after.tracks(x));
    }
}

proof fn readings_cover(
    kept: WatchModel,
    offers: Seq<(Seq<char>, SessionEntry)>,
    readings: Seq<(Seq<char>, Option<StateModel>)>,
    id: Seq<char>,
)
    requires
        kept.sessions.no_duplicates(),
        ids_read(readings) == taken_up(kept, offers),
    ensures
        taken_up(kept, offers).contains(id) <==> was_read(readings, id) || was_missed(readings, id),
        !(was_read(readings, id) && was_missed(readings, id)),
        was_read(readings, id) || was_missed(readings, id) ==> !kept.tracks(id),
{
    let ids = ids_read(readings);
    registrations_append(kept, offers);
    taken_up_means_registered(kept, offers, id);
    let all = kept.sessions + ids;
    if ids.contains(id) {
        let i = choose|i: int| 0 <= i < ids.len() && ids[i] == id;
        assert(readings[i].0 == id);
    }
    if was_read(readings, id) {
        let i = choose|i: int|
            0 <= i < readings.len() && (#[trigger] readings[i]).0 == id && readings[i].1 is Some;
        assert(ids[i] == id);
        if was_missed(readings, id) {
            let j = choose|j: int|
                0 <= j < readings.len() && (#[trigger] readings[j]).0 == id
                    && readings[j].1 is None;
            assert(ids[j] == id);
            assert(all[kept.sessions.len() + i] == all[kept.sessions.len() + j]);
        }
    }
    if was_missed(readings, id) {
        let i = choose|i: int|
            0 <= i < readings.len() && (#[trigger] readings[i]).0 == id && readings[i].1 is None;
        assert(ids[i] == id);
    }
}

/// A session whose first reading failed is not tracked, so that the next scan on which all its
/// handlers are registered takes it up again.
pub proof fn failed_first_reading_is_tried_again(
    watch: WatchModel,
    id: Seq<char>,
    entry: SessionEntry,
)
    requires
        entry.complete(),
    ensures
        takes_up(after_first_reading(watch, id, None), id, entry),
{
    without_holds(watch.sessions, id, id);
}

/// The events of first readings: of every player that is told of at all, the first event is that
/// it was added.
pub proof fn players_are_added_first(
    readings: Seq<(Seq<char>, Option<StateModel>)>,
    i: int,
)
    requires
        0 <= i < first_readings_events(readings).len(),
    ensures
        exists|j: int|
            0 <= j <= i && #[trigger] first_readings_events(readings)[j]
                == (EventModel::PlayerAdded {
                player_name: first_readings_events(readings)[i].player(),
            }),
    decreases readings.len(),
{
    let rest = readings.drop_last();
    let before = first_readings_events(rest);
    let events = first_readings_events(readings);
    if i < before.len() {
        players_are_added_first(rest, i);
        let j = choose|j: int|
            0 <= j <= i && #[trigger] before[j] == (EventModel::PlayerAdded {
                player_name: before[i].player(),
            });
        assert(events[j] == before[j]);
    } else {
        assert(events[before.len() as int] == (EventModel::PlayerAdded {
            player_name: events[i].player(),
        }));
    }
}

/// A notification and a reading of a session that is not tracked are ignored.
pub proof fn untracked_sessions_are_ignored(
    watch: WatchModel,
    id: String,
    reading: Option<StateModel>,
)
    requires
        !watch.tracks(id@),
    ensures
        next_step(watch, WakeUp::Notified(Some(RawNotification::SessionChanged { id })))
            == MonitorStepModel::Wait,
        reading_events(watch, id@, reading) == Seq::<EventModel>::empty(),
        after_reading(watch, id@, reading) == watch,
{
}

/// A reading that failed changes nothing and reports nothing.
pub proof fn failed_readings_are_skipped(watch: WatchModel, id: Seq<char>)
    ensures
        reading_events(watch, id, None) == Seq::<EventModel>::empty(),
        after_reading(watch, id, None) == watch,
{
}

/// A reading keeps the monitor settled, tracks nothing new, and leaves all that is known of any
/// other session.
pub proof fn readings_keep_the_monitor_settled(
    watch: WatchModel,
    id: Seq<char>,
    reading: Option<StateModel>,
    other: Seq<char>,
)
    requires
        watch.settled(),
        other != id,
    ensures
        after_reading(watch, id, reading).settled(),
        after_reading(watch, id, reading).sessions == watch.sessions,
        after_reading(watch, id, reading).last(other) == watch.last(other),
{
}

/// Reading the same state of a tracked session twice reports nothing the second time, unless its
/// volume is a NaN.
pub proof fn same_reading_reports_nothing(watch: WatchModel, id: Seq<char>, state: StateModel)
    requires
        state.volume matches Some(v) ==> !v.is_nan_spec(),
    ensures
        reading_events(after_reading(watch, id, Some(state)), id, Some(state))
            == Seq::<EventModel>::empty(),
{
    unchanged_state_reports_nothing(id, state);
}

/// What can happen to a monitor between two moments in which it waits.
pub enum WatchStep {
    /// A whole scan: the sessions on the new list, with what came of registering their handlers,
    /// and the first readings of those that were taken up.
    Scan {
        offers: Seq<(Seq<char>, SessionEntry)>,
        readings: Seq<(Seq<char>, Option<StateModel>)>,
    },
    /// One more reading of a session.
    Reading { id: Seq<char>, reading: Option<StateModel> },
}

/// Whether a step can happen: a scan reads exactly the sessions that it takes up.
pub open spec fn can_happen(watch: WatchModel, step: WatchStep) -> bool {
    match step {
        WatchStep::Scan { offers, readings } => ids_read(readings) == taken_up(
            after_listing(watch, ids_offered(offers)),
            offers,
        ),
        WatchStep::Reading { .. } => true,
    }
}

/// What is known after a step.
pub open spec fn after_step(watch: WatchModel, step: WatchStep) -> WatchModel {
    match step {
        WatchStep::Scan { offers, readings } => after_scan(watch, offers, readings),
        WatchStep::Reading { id, reading } => after_reading(watch, id, reading),
    }
}

/// The events of a step.
pub open spec fn step_events(watch: WatchModel, step: WatchStep) -> Seq<EventModel> {
    match step {
        WatchStep::Scan { offers, readings } => removals(watch.sessions, ids_offered(offers))
            + first_readings_events(readings),
        WatchStep::Reading { id, reading } => reading_events(watch, id, reading),
    }
}

/// What is known after some steps, one after the other.
pub open spec fn after_steps(watch: WatchModel, steps: Seq<WatchStep>) -> WatchModel
    decreases steps.len(),
{
    if steps.len() == 0 {
        watch
    } else {
        after_step(after_steps(watch, steps.drop_last()), steps.last())
    }
}

/// The events of some steps, one after the other.
pub open spec fn all_events(watch: WatchModel, steps: Seq<WatchStep>) -> Seq<EventModel>
    decreases steps.len(),
{
    if steps.len() == 0 {
        seq![]
    } else {
        all_events(watch, steps.drop_last()) + step_events(
            after_steps(watch, steps.drop_last()),
            steps.last(),
        )
    }
}

/// Whether some steps can happen, one after the other.
pub open spec fn all_can_happen(watch: WatchModel, steps: Seq<WatchStep>) -> bool
    decreases steps.len(),
{
    steps.len() > 0 ==> {
        &&& all_can_happen(watch, steps.drop_last())
        &&& can_happen(after_steps(watch, steps.drop_last()), steps.last())
    }
}

proof fn removals_tell_who_left(before: bool, gone: Seq<Seq<char>>, player: Seq<char>)
    ensures
        told_running(
            before,
            gone.map_values(|id: Seq<char>| EventModel::PlayerRemoved { player_name: id }),
            player,
        ) == (before && !gone.contains(player)),
    decreases gone.len(),
{
    let event = |id: Seq<char>| EventModel::PlayerRemoved { player_name: id };
    let events = gone.map_values(event);
    if gone.len() > 0 {
        let rest = gone.drop_last();
        removals_tell_who_left(before, rest, player);
        assert(events.drop_last() =~= rest.map_values(event));
        assert(gone =~= rest.push(gone.last()));
        pushed(rest, gone.last(), player);
    }
}

proof fn missing_are_distinct(ids: Seq<Seq<char>>, others: Seq<Seq<char>>)
    requires
        ids.no_duplicates(),
    ensures
        missing(ids, others).no_duplicates(),
    decreases ids.len(),
{
    if ids.len() > 0 {
        let rest = ids.drop_last();
        let last = ids.last();
        missing_are_distinct(rest, others);
        missing_holds(rest, others, last);
        assert(!rest.contains(last)) by {
            if rest.contains(last) {
                let k = choose|k: int| 0 <= k < rest.len() && rest[k] == last;
                assert(ids[k] == ids[ids.len() - 1]);
            }
        }
    }
}

proof fn introduction_tells_of_arrival(
    before: bool,
    id: Seq<char>,
    state: StateModel,
    upto: int,
    player: Seq<char>,
)
    requires
        0 <= upto <= 3,
    ensures
        told_running(before, introduction(id, state).take(upto), player) == (before || (upto > 0
            && player == id)),
{
    let events = introduction(id, state);
    reveal_with_fuel(told_running, 4);
    assert(events.take(3).drop_last() =~= events.take(2));
    assert(events.take(2).drop_last() =~= events.take(1));
    assert(events.take(1).drop_last() =~= events.take(0));
}

proof fn first_readings_tell_of_arrivals(
    before: bool,
    readings: Seq<(Seq<char>, Option<StateModel>)>,
    player: Seq<char>,
)
    ensures
        told_running(before, first_readings_events(readings), player) == (before || was_read(
            readings,
            player,
        )),
    decreases readings.len(),
{
    if readings.len() > 0 {
        let rest = readings.drop_last();
        let (id, reading) = readings.last();
        let more = first_reading_events(id, reading);
        first_readings_tell_of_arrivals(before, rest, player);
        let so_far = told_running(before, first_readings_events(rest), player);
        told_running_splits(before, first_readings_events(rest), more, player);
        match reading {
            Some(state) => {
                introduction_tells_of_arrival(so_far, id, state, 3, player);
                assert(more.take(3) =~= more);
            },
            None => {},
        }
        if was_read(rest, player) {
            let i = choose|i: int|
                0 <= i < rest.len() && (#[trigger] rest[i]).0 == player && rest[i].1 is Some;
            assert(readings[i] == rest[i]);
        }
        if was_read(readings, player) && !(id == player && reading is Some) {
            let i = choose|i: int|
                0 <= i < readings.len() && (#[trigger] readings[i]).0 == player
                    && readings[i].1 is Some;
            assert(rest[i] == readings[i]);
        }
        assert(readings[readings.len() - 1] == readings.last());
    }
}

proof fn first_readings_make_sense(readings: Seq<(Seq<char>, Option<StateModel>)>, i: int)
    requires
        ids_read(readings).no_duplicates(),
        0 <= i < first_readings_events(readings).len(),
    ensures
        makes_sense(false, first_readings_events(readings), i),
        ids_read(readings).contains(first_readings_events(readings)[i].player()),
        !(first_readings_events(readings)[i] is PlayerRemoved),
    decreases readings.len(),
{
    let rest = readings.drop_last();
    let (id, reading) = readings.last();
    let earlier = first_readings_events(rest);
    let events = first_readings_events(readings);
    let ids = ids_read(readings);
    assert(ids_read(rest) =~= ids.drop_last());
    if i < earlier.len() {
        first_readings_make_sense(rest, i);
        assert(events.take(i) =~= earlier.take(i));
        assert(events[i] == earlier[i]);
        let k = choose|k: int|
            0 <= k < ids_read(rest).len() && ids_read(rest)[k] == events[i].player();
        assert(ids[k] == events[i].player());
    } else {
        let state = reading->0;
        let at = i - earlier.len();
        assert(events[i] == introduction(id, state)[at]);
        assert(ids[readings.len() - 1] == id);
        assert(!was_read(rest, id)) by {
            if was_read(rest, id) {
                let k = choose|k: int|
                    0 <= k < rest.len() && (#[trigger] rest[k]).0 == id && rest[k].1 is Some;
                assert(ids[k] == id);
            }
        }
        first_readings_tell_of_arrivals(false, rest, id);
        assert(events.take(i) =~= earlier + introduction(id, state).take(at));
        told_running_splits(false, earlier, introduction(id, state).take(at), id);
        introduction_tells_of_arrival(false, id, state, at, id);
    }
}

proof fn scan_makes_sense(
    watch: WatchModel,
    offers: Seq<(Seq<char>, SessionEntry)>,
    readings: Seq<(Seq<char>, Option<StateModel>)>,
    i: int,
    player: Seq<char>,
)
    requires
        watch.settled(),
        can_happen(watch, WatchStep::Scan { offers, readings }),
    ensures
        ({
            let step = WatchStep::Scan { offers, readings };
            let events = step_events(watch, step);
            &&& after_step(watch, step).settled()
            &&& told_running(watch.tracks(player), events, player) == after_step(
                watch,
                step,
            ).tracks(player)
            &&& 0 <= i < events.len() ==> makes_sense(
                watch.tracks(events[i].player()),
                events,
                i,
            )
        }),
{
    let listed = ids_offered(offers);
    let gone = missing(watch.sessions, listed);
    let removed = removals(watch.sessions, listed);
    let added = first_readings_events(readings);
    let events = removed + added;
    let kept = after_listing(watch, listed);
    let registered = after_registrations(kept, offers);
    let event = |id: Seq<char>| EventModel::PlayerRemoved { player_name: id };

    scan_tracks_what_it_read(watch, offers, readings, player);
    told_running_splits(watch.tracks(player), removed, added, player);
    removals_tell_who_left(watch.tracks(player), gone, player);
    missing_holds(watch.sessions, listed, player);
    first_readings_tell_of_arrivals(
        told_running(watch.tracks(player), removed, player),
        readings,
        player,
    );

    listing_keeps_what_is_listed(watch, listed, player);
    registrations_append(kept, offers);
    assert(ids_read(readings).no_duplicates()) by {
        let ids = ids_read(readings);
        assert forall|k: int, j: int| 0 <= k < ids.len() && 0 <= j < ids.len() && k != j implies
            ids[k] != ids[j] by {
            let count = kept.sessions.len() as int;
            assert(registered.sessions[count + k] == ids[k]);
            assert(registered.sessions[count + j] == ids[j]);
        }
    }
    if 0 <= i < events.len() {
        let about = events[i].player();
        let before = watch.tracks(about);
        if i < removed.len() {
            missing_are_distinct(watch.sessions, listed);
            missing_holds(watch.sessions, listed, about);
            assert(gone[i] == about);
            assert(events.take(i) =~= gone.take(i).map_values(event));
            removals_tell_who_left(before, gone.take(i), about);
            assert(!gone.take(i).contains(about)) by {
                if gone.take(i).contains(about) {
                    let k = choose|k: int| 0 <= k < i && gone.take(i)[k] == about;
                    assert(gone[k] == gone[i]);
                }
            }
        } else {
            let at = i - removed.len();
            assert(events[i] == added[at]);
            first_readings_make_sense(readings, at);
            listing_keeps_what_is_listed(watch, listed, about);
            taken_up_means_registered(kept, offers, about);
            removals_tell_who_left(before, gone, about);
            missing_holds(watch.sessions, listed, about);
            assert(events.take(i) =~= removed + added.take(at));
            told_running_splits(before, removed, added.take(at), about);
        }
    }
}

/// Over any run of scans and readings, from a monitor that has seen no session, the events make
/// sense one after the other: a player is added only while it is not taken to be running, and all
/// else is told, its removal too, only while it is. In the end a listener takes exactly the
/// tracked sessions to be running, and the monitor is settled.
pub proof fn event_streams_make_sense(steps: Seq<WatchStep>, i: int, player: Seq<char>)
    requires
        all_can_happen(nothing_tracked(), steps),
    ensures
        after_steps(nothing_tracked(), steps).settled(),
        told_running(false, all_events(nothing_tracked(), steps), player) == after_steps(
            nothing_tracked(),
            steps,
        ).tracks(player),
        0 <= i < all_events(nothing_tracked(), steps).len() ==> makes_sense(
            false,
            all_events(nothing_tracked(), steps),
            i,
        ),
    decreases steps.len(),
{
    let start = nothing_tracked();
    if steps.len() > 0 {
        let rest = steps.drop_last();
        let step = steps.last();
        let halfway = after_steps(start, rest);
        let earlier = all_events(start, rest);
        let more = step_events(halfway, step);
        let events = all_events(start, steps);
        event_streams_make_sense(rest, i, player);
        step_makes_sense(halfway, step, i - earlier.len(), player);
        told_running_splits(false, earlier, more, player);
        if 0 <= i < events.len() {
            if i < earlier.len() {
                assert(events.take(i) =~= earlier.take(i));
                assert(events[i] == earlier[i]);
            } else {
                let at = i - earlier.len();
                let about = events[i].player();
                event_streams_make_sense(rest, i, about);
                assert(events[i] == more[at]);
                assert(events.take(i) =~= earlier + more.take(at));
                told_running_splits(false, earlier, more.take(at), about);
            }
        }
    }
}

proof fn step_makes_sense(watch: WatchModel, step: WatchStep, i: int, player: Seq<char>)
    requires
        watch.settled(),
        can_happen(watch, step),
    ensures
        ({
            let events = step_events(watch, step);
            &&& after_step(watch, step).settled()
            &&& told_running(watch.tracks(player), events, player) == after_step(
                watch,
                step,
            ).tracks(player)
            &&& 0 <= i < events.len() ==> makes_sense(
                watch.tracks(events[i].player()),
                events,
                i,
            )
        }),
{
    match step {
        WatchStep::Scan { offers, readings } => {
            scan_makes_sense(watch, offers, readings, i, player);
        },
        WatchStep::Reading { id, reading } => {
            let events = step_events(watch, step);
            changes_tell_of_no_coming_or_going(watch.tracks(player), events, player);
            if 0 <= i < events.len() {
                changes_name_their_player(id, watch.last(id), reading->0, i);
                changes_tell_of_no_coming_or_going(true, events.take(i), id);
            }
        },
    }
}

/// One more reading of a tracked session reports exactly what differs from the state last seen of
/// it: the track where title or artists differ; the playback state where it differs; the position
/// where the song is another, none was known or it lies more than two seconds away; and the volume
/// where none was known or it is not the number that it was.
pub proof fn readings_report_exactly_the_changes(
    watch: WatchModel,
    id: Seq<char>,
    state: StateModel,
    event: EventModel,
)
    requires
        watch.sessions.contains(id),
        watch.cache.contains_key(id),
    ensures
        ({
            let last = watch.cache[id];
            let another_song = last.track.title != state.track.title || last.track.artist
                != state.track.artist;
            let x = (last.volume->0).bits as int;
            let y = (state.volume->0).bits as int;
            let same_number = x % 0x8000_0000_0000_0000 <= 0x7ff0_0000_0000_0000 && y
                % 0x8000_0000_0000_0000 <= 0x7ff0_0000_0000_0000 && (x == y || (x
                % 0x8000_0000_0000_0000 == 0 && y % 0x8000_0000_0000_0000 == 0));
            reading_events(watch, id, Some(state)).contains(event) <==> {
                ||| event == (EventModel::TrackChanged {
                    player_name: id,
                    track: state.track,
                }) && another_song
                ||| event == (EventModel::StateChanged {
                    player_name: id,
                    state: state.playback_state,
                }) && last.playback_state != state.playback_state
                ||| state.position is Some && event == (EventModel::PositionChanged {
                    player_name: id,
                    position: state.position->0,
                }) && (another_song || last.position is None || last.position->0
                    - state.position->0 > 2_000_000_000 || state.position->0
                    - last.position->0 > 2_000_000_000)
                ||| state.volume is Some && event == (EventModel::VolumeChanged {
                    player_name: id,
                    volume: state.volume->0,
                }) && (last.volume is None || !same_number)
            }
        }),
{
    exactly_the_changes_are_reported(id, watch.cache[id], state, event);
}

/// One more reading of a session that has no state yet reports exactly its track, its playback
/// state, and its position where it has one.
pub proof fn readings_report_exactly_the_first_state(
    watch: WatchModel,
    id: Seq<char>,
    state: StateModel,
    event: EventModel,
)
    requires
        watch.sessions.contains(id),
        !watch.cache.contains_key(id),
    ensures
        reading_events(watch, id, Some(state)).contains(event) <==> {
            ||| event == (EventModel::TrackChanged { player_name: id, track: state.track })
            ||| event == (EventModel::StateChanged {
                    player_name: id,
                    state: state.playback_state,
                })
            ||| state.position is Some && event == (EventModel::PositionChanged {
                    player_name: id,
                    position: state.position->0,
                })
        },
{
    exactly_the_first_state_is_reported(id, state, event);
}

/// A listener who knew the state last seen of a tracked session and hears the events of one more
/// reading knows the new song, the new playback state, the volume where one is told (but for the
/// sign of a zero), and the position to within two seconds.
pub proof fn listener_keeps_up_with_readings(
    watch: WatchModel,
    id: Seq<char>,
    state: StateModel,
)
    requires
        watch.settled(),
        watch.sessions.contains(id),
    ensures
        ({
            let known = heard_all(watch.cache[id], reading_events(watch, id, Some(state)));
            &&& known.track.title == state.track.title
            &&& known.track.artist == state.track.artist
            &&& known.playback_state == state.playback_state
            &&& state.volume matches Some(y) ==> known.volume matches Some(x) && (x.bits == y.bits
                || (x.bits as int % 0x8000_0000_0000_0000 == 0 && y.bits as int
                % 0x8000_0000_0000_0000 == 0))
            &&& state.position matches Some(p) ==> known.position matches Some(q) && p - q
                <= 2_000_000_000 && q - p <= 2_000_000_000
        }),
{
    listener_keeps_up(id, watch.cache[id], state);
}

/// The events of one more reading come in order: a track before all else, a playback state before
/// a position and a volume, a position before a volume, and none of them twice.
pub proof fn reading_events_come_in_order(
    watch: WatchModel,
    id: Seq<char>,
    reading: Option<StateModel>,
    i: int,
    j: int,
)
    requires
        0 <= i < j < reading_events(watch, id, reading).len(),
    ensures
        ({
            let earlier = reading_events(watch, id, reading)[i];
            let later = reading_events(watch, id, reading)[j];
            &&& !(later is TrackChanged)
            &&& later is StateChanged ==> earlier is TrackChanged
            &&& later is PositionChanged ==> earlier is TrackChanged || earlier is StateChanged
            &&& later is VolumeChanged ==> !(earlier is VolumeChanged)
        }),
{
    changes_come_in_order(id, watch.last(id), reading->0, i, j);
}

/// A reading of a tracked session that succeeded becomes the state last seen of it; all else that
/// is known stays.
pub proof fn readings_are_taken_over(
    watch: WatchModel,
    id: Seq<char>,
    reading: Option<StateModel>,
    other: Seq<char>,
)
    ensures
        ({
            let after = after_reading(watch, id, reading);
            let taken = reading is Some && watch.sessions.contains(id) && other == id;
            &&& after.sessions == watch.sessions
            &&& after.cache.contains_key(other) <==> taken || watch.cache.contains_key(other)
            &&& after.cache.contains_key(other) ==> after.cache[other] == (if taken {
                reading->0
            } else {
                watch.cache[other]
            })
        }),
{
}

/// A session that was taken up and read is introduced by three events: that it was added, its
/// track and its playback state, in that order. One whose reading failed is not told of.
pub proof fn read_sessions_are_introduced(id: Seq<char>, state: StateModel)
    ensures
        first_readings_events(seq![(id, Some(state))]) == seq![
            EventModel::PlayerAdded { player_name: id },
            EventModel::TrackChanged { player_name: id, track: state.track },
            EventModel::StateChanged { player_name: id, state: state.playback_state },
        ],
        first_readings_events(seq![(id, None::<StateModel>)]) == Seq::<EventModel>::empty(),
{
    let read = seq![(id, Some(state))];
    let missed = seq![(id, None::<StateModel>)];
    reveal_with_fuel(first_readings_events, 2);
    assert(read.drop_last().len() == 0);
    assert(missed.drop_last().len() == 0);
    assert(first_readings_events(read) =~= introduction(id, state));
    assert(introduction(id, state) =~= seq![
        EventModel::PlayerAdded { player_name: id },
        EventModel::TrackChanged { player_name: id, track: state.track },
        EventModel::StateChanged { player_name: id, state: state.playback_state },
    ]);
    assert(first_readings_events(missed) =~= Seq::<EventModel>::empty());
}

/// First readings are reported one after the other: those of two runs as those of the first and
/// then those of the second.
pub proof fn first_readings_are_reported_in_turn(
    a: Seq<(Seq<char>, Option<StateModel>)>,
    b: Seq<(Seq<char>, Option<StateModel>)>,
)
    ensures
        first_readings_events(a + b) == first_readings_events(a) + first_readings_events(b),
    decreases b.len(),
{
    if b.len() == 0 {
        assert(a + b =~= a);
        assert(first_readings_events(a) + first_readings_events(b) =~= first_readings_events(a));
    } else {
        first_readings_are_reported_in_turn(a, b.drop_last());
        assert((a + b).drop_last() =~= a + b.drop_last());
        assert(first_readings_events(a + b) =~= first_readings_events(a) + first_readings_events(
            b,
        ));
    }
}

/// After a first reading that succeeded the session has the state read, and all else is as it
/// was; after one that failed it is not tracked, and every other session is as before.
pub proof fn first_readings_are_taken_over(
    watch: WatchModel,
    id: Seq<char>,
    reading: Option<StateModel>,
    other: Seq<char>,
)
    ensures
        ({
            let after = after_first_reading(watch, id, reading);
            &&& after.sessions.contains(other) <==> watch.sessions.contains(other) && !(reading
                is None && other == id)
            &&& after.cache.contains_key(other) <==> watch.cache.contains_key(other) || (reading
                is Some && other == id)
            &&& after.cache.contains_key(other) ==> after.cache[other] == (if reading is Some
                && other == id {
                reading->0
            } else {
                watch.cache[other]
            })
            &&& reading is Some ==> after.sessions == watch.sessions
        }),
{
    without_holds(watch.sessions, id, other);
}

/// A listed session is taken up exactly when it is not tracked and all three of its handlers are
/// registered; it then stands behind all others, and no state is touched.
pub proof fn registrations_need_all_handlers(
    watch: WatchModel,
    id: Seq<char>,
    entry: SessionEntry,
)
    ensures
        takes_up(watch, id, entry) <==> !watch.sessions.contains(id) && entry.token_media_props
            is Some && entry.token_playback_info is Some && entry.token_timeline is Some,
        after_registering(watch, id, entry).sessions == if !watch.sessions.contains(id)
            && entry.token_media_props is Some && entry.token_playback_info is Some
            && entry.token_timeline is Some {
            watch.sessions.push(id)
        } else {
            watch.sessions
        },
        after_registering(watch, id, entry).cache == watch.cache,
{
}

/// Removals are reported in the order in which the sessions were found: those of two runs of
/// sessions as those of the first and then those of the second.
pub proof fn removals_are_reported_in_turn(
    a: Seq<Seq<char>>,
    b: Seq<Seq<char>>,
    listed: Seq<Seq<char>>,
)
    ensures
        removals(a + b, listed) == removals(a, listed) + removals(b, listed),
        among(a + b, listed) == among(a, listed) + among(b, listed),
    decreases b.len(),
{
    if b.len() == 0 {
        assert(a + b =~= a);
        assert(removals(a, listed) + removals(b, listed) =~= removals(a, listed));
        assert(among(a, listed) + among(b, listed) =~= among(a, listed));
    } else {
        removals_are_reported_in_turn(a, b.drop_last(), listed);
        assert((a + b).drop_last() =~= a + b.drop_last());
        let event = |id: Seq<char>| EventModel::PlayerRemoved { player_name: id };
        if listed.contains(b.last()) {
            assert(removals(a + b, listed) =~= removals(a, listed) + removals(b, listed));
        } else {
            let rest = missing(b.drop_last(), listed);
            assert(missing(b, listed) == rest.push(b.last()));
            assert(removals(b, listed) =~= rest.map_values(event).push(event(b.last())));
            assert(removals(a + b, listed) =~= removals(a + b.drop_last(), listed).push(
                event(b.last()),
            ));
            assert(removals(a + b, listed) =~= removals(a, listed) + removals(b, listed));
        }
        assert(among(a + b, listed) =~= among(a, listed) + among(b, listed));
    }
}

/// A tracked session that is not on the list is reported as removed by one event, and one that is
/// stays without any.
pub proof fn one_removal_for_each_session(id: Seq<char>, listed: Seq<Seq<char>>)
    ensures
        removals(seq![id], listed) == if listed.contains(id) {
            Seq::<EventModel>::empty()
        } else {
            seq![EventModel::PlayerRemoved { player_name: id }]
        },
        among(seq![id], listed) == if listed.contains(id) {
            seq![id]
        } else {
            Seq::<Seq<char>>::empty()
        },
{
    let one = seq![id];
    reveal_with_fuel(missing, 2);
    reveal_with_fuel(among, 2);
    assert(one.drop_last() =~= Seq::<Seq<char>>::empty());
    if listed.contains(id) {
        assert(removals(one, listed) =~= Seq::<EventModel>::empty());
        assert(among(one, listed) =~= seq![id]);
    } else {
        assert(removals(one, listed) =~= seq![EventModel::PlayerRemoved { player_name: id }]);
        assert(among(one, listed) =~= Seq::<Seq<char>>::empty());
    }
}

/// What wakes the monitor up decides what it does: a changed list has it scan, a change of a
/// tracked session has it read that session, one of any other has it wait, and the end of the
/// notifications or of the listening has it stop.
pub proof fn notifications_decide_the_step(watch: WatchModel, id: String)
    ensures
        next_step(watch, WakeUp::Notified(Some(RawNotification::SessionsChanged)))
            == MonitorStepModel::Scan,
        watch.sessions.contains(id@) ==> next_step(
            watch,
            WakeUp::Notified(Some(RawNotification::SessionChanged { id })),
        ) == MonitorStepModel::Read(id@),
        !watch.sessions.contains(id@) ==> next_step(
            watch,
            WakeUp::Notified(Some(RawNotification::SessionChanged { id })),
        ) == MonitorStepModel::Wait,
        next_step(watch, WakeUp::Notified(None)) == MonitorStepModel::Stop,
        next_step(watch, WakeUp::ConsumerGone) == MonitorStepModel::Stop,
{
}

/// A reading tells its state exactly when it succeeded.
pub proof fn readings_tell_their_state(state: PlayerState, error: MediaSourceError)
    ensures
        readable(Ok(state)) == Some(state@),
        readable(Err(error)) is None,
{
}

/// What some readings say is, of each in its place, the session and its state where it was read.
pub proof fn readings_say_all(
    readings: Seq<(String, Result<PlayerState, MediaSourceError>)>,
    i: int,
)
    requires
        0 <= i < readings.len(),
    ensures
        readings_view(readings).len() == readings.len(),
        readings_view(readings)[i].0 == readings[i].0@,
        readings_view(readings)[i].1 is Some <==> readings[i].1 is Ok,
        readings[i].1 matches Ok(state) ==> readings_view(readings)[i].1 == Some(state@),
{
}

/// A new list takes the state of each tracked session that is not on it, and leaves every other
/// state; those that stay tracked keep their order.
pub proof fn listings_take_states_along(
    watch: WatchModel,
    listed: Seq<Seq<char>>,
    other: Seq<char>,
)
    ensures
        ({
            let after = after_listing(watch, listed);
            &&& after.cache.contains_key(other) <==> watch.cache.contains_key(other) && !(
            watch.sessions.contains(other) && !listed.contains(other))
            &&& after.cache.contains_key(other) ==> after.cache[other] == watch.cache[other]
            &&& after.sessions == among(watch.sessions, listed)
            &&& after.sessions.contains(other) <==> watch.sessions.contains(other)
                && listed.contains(other)
        }),
{
    among_holds(watch.sessions, listed, other);
}

/// Dropping a session from two runs of sessions drops it from each; a single one is dropped
/// exactly when it is the one.
pub proof fn sessions_are_dropped_in_turn(
    a: Seq<Seq<char>>,
    b: Seq<Seq<char>>,
    id: Seq<char>,
    gone: Seq<char>,
)
    ensures
        without(a + b, gone) == without(a, gone) + without(b, gone),
        without(seq![id], gone) == if id == gone {
            Seq::<Seq<char>>::empty()
        } else {
            seq![id]
        },
    decreases b.len(),
{
    if b.len() == 0 {
        assert(a + b =~= a);
        assert(without(a, gone) + without(b, gone) =~= without(a, gone));
    } else {
        sessions_are_dropped_in_turn(a, b.drop_last(), id, gone);
        assert((a + b).drop_last() =~= a + b.drop_last());
        assert(without(a + b, gone) =~= without(a, gone) + without(b, gone));
    }
    let one = seq![id];
    reveal_with_fuel(without, 2);
    assert(one.drop_last() =~= Seq::<Seq<char>>::empty());
    if id == gone {
        assert(without(one, gone) =~= Seq::<Seq<char>>::empty());
    } else {
        assert(without(one, gone) =~= seq![id]);
    }
}

/// First readings are taken over one after the other: those of two runs as those of the first and
/// then those of the second, and a single one by itself. One that failed drops its session from
/// among the others and leaves them in their order.
pub proof fn first_readings_are_taken_over_in_turn(
    watch: WatchModel,
    a: Seq<(Seq<char>, Option<StateModel>)>,
    b: Seq<(Seq<char>, Option<StateModel>)>,
    id: Seq<char>,
    reading: Option<StateModel>,
)
    ensures
        after_first_readings(watch, a + b) == after_first_readings(
            after_first_readings(watch, a),
            b,
        ),
        after_first_readings(watch, seq![(id, reading)]) == after_first_reading(
            watch,
            id,
            reading,
        ),
        after_first_readings(watch, seq![]) == watch,
        reading is None ==> after_first_reading(watch, id, reading).sessions == without(
            watch.sessions,
            id,
        ),
    decreases b.len(),
{
    if b.len() == 0 {
        assert(a + b =~= a);
    } else {
        first_readings_are_taken_over_in_turn(watch, a, b.drop_last(), id, reading);
        assert((a + b).drop_last() =~= a + b.drop_last());
    }
    let one = seq![(id, reading)];
    reveal_with_fuel(after_first_readings, 2);
    assert(one.drop_last() =~= Seq::<(Seq<char>, Option<StateModel>)>::empty());
}

/// A session is tracked exactly when it is among the tracked ones, and has the state that is noted
/// for it; a monitor that has seen no session tracks none and has no state.
pub proof fn what_is_known_is_what_is_noted(watch: WatchModel, id: Seq<char>)
    ensures
        watch.tracks(id) <==> watch.sessions.contains(id),
        watch.last(id) is Some <==> watch.cache.contains_key(id),
        watch.cache.contains_key(id) ==> watch.last(id) == Some(watch.cache[id]),
        nothing_tracked().sessions.len() == 0,
        !nothing_tracked().cache.contains_key(id),
{
}

/// All handlers of a session are registered exactly when each has its token.
pub proof fn handlers_are_registered_by_their_tokens(entry: SessionEntry)
    ensures
        entry.complete() <==> entry.token_media_props is Some && entry.token_playback_info is Some
            && entry.token_timeline is Some,
{
}

/// A reading reports nothing and changes nothing where its session is not tracked or it failed.
pub proof fn useless_readings_change_nothing(
    watch: WatchModel,
    id: Seq<char>,
    reading: Option<StateModel>,
)
    requires
        !watch.sessions.contains(id) || reading is None,
    ensures
        reading_events(watch, id, reading).len() == 0,
        after_reading(watch, id, reading) == watch,
{
}

/// What the monitor does says which session it reads.
pub proof fn steps_say_all(id: String)
    ensures
        MonitorStep::Scan@ == MonitorStepModel::Scan,
        MonitorStep::Read(id)@ == MonitorStepModel::Read(id@),
        MonitorStep::Wait@ == MonitorStepModel::Wait,
        MonitorStep::Stop@ == MonitorStepModel::Stop,
{
}

} // verus!
