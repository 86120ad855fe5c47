//! The session registry: one record per session, and the transition that
//! each unified event makes on it.

use std::collections::HashMap;
use vstd::prelude::*;

use crate::clock::Timestamp;
use crate::event::{EventView, NpSessionEvent};
use crate::listener::{
    ManagerEventView, ManagerEventWrapper, SessionUpdateEventWrapper, UpdateView,
};

verus! {

broadcast use vstd::std_specs::hash::group_hash_axioms;

/// What the registry knows of one session.
///
/// `last_media_update` holds the latest `Media` update of the session and
/// `last_model_update` the latest `Model` update; an update fills the one and
/// leaves the other as it was.
#[derive(Debug, PartialEq, Eq)]
pub struct SessionRecord {
    pub session_id: usize,
    pub source: Option<String>,
    pub timestamp_created: Option<Timestamp>,
    pub timestamp_updated: Option<Timestamp>,
    pub last_media_update: Option<SessionUpdateEventWrapper>,
    pub last_model_update: Option<SessionUpdateEventWrapper>,
}

/// The mathematical content of a [`SessionRecord`].
#[verifier::ext_equal]
pub struct RecordView {
    pub session_id: usize,
    pub source: Option<Seq<char>>,
    pub timestamp_created: Option<Timestamp>,
    pub timestamp_updated: Option<Timestamp>,
    pub last_media_update: Option<UpdateView>,
    pub last_model_update: Option<UpdateView>,
}

/// The view of a string that may be absent.
pub open spec fn text_view(text: Option<String>) -> Option<Seq<char>> {
    match text {
        Some(t) => Some(t@),
        None => None,
    }
}

/// The view of an update that may be absent.
pub open spec fn update_view(update: Option<SessionUpdateEventWrapper>) -> Option<UpdateView> {
    match update {
        Some(u) => Some(u@),
        None => None,
    }
}

impl View for SessionRecord {
    type V = RecordView;

    open spec fn view(&self) -> RecordView {
        RecordView {
            session_id: self.session_id,
            source: text_view(self.source),
            timestamp_created: self.timestamp_created,
            timestamp_updated: self.timestamp_updated,
            last_media_update: update_view(self.last_media_update),
            last_model_update: update_view(self.last_model_update),
        }
    }
}

fn clone_text(text: &Option<String>) -> (copy: Option<String>)
    ensures
        text_view(copy) == text_view(*text),
{
    match text {
        Some(t) => Some(t.clone()),
        None => None,
    }
}

fn clone_update(update: &Option<SessionUpdateEventWrapper>) -> (copy: Option<
    SessionUpdateEventWrapper,
>)
    ensures
        update_view(copy) == update_view(*update),
{
    match update {
        Some(u) => Some(u.clone()),
        None => None,
    }
}

impl Clone for SessionRecord {
    fn clone(&self) -> (copy: Self)
        ensures
            copy@ == self@,
    {
        SessionRecord {
            session_id: self.session_id,
            source: clone_text(&self.source),
            timestamp_created: self.timestamp_created,
            timestamp_updated: self.timestamp_updated,
            last_media_update: clone_update(&self.last_media_update),
            last_model_update: clone_update(&self.last_model_update),
        }
    }
}

impl RecordView {
    /// Each of the two slots holds an update of its own kind, if any.
    pub open spec fn slots_typed(self) -> bool {
        &&& self.last_media_update matches Some(u) ==> u is Media
        &&& self.last_model_update matches Some(u) ==> u is Model
    }

    /// The record was not updated before it was created.
    pub open spec fn timestamps_ordered(self) -> bool {
        match (self.timestamp_created, self.timestamp_updated) {
            (Some(created), Some(updated)) => created.le(updated),
            _ => true,
        }
    }
}

/// The registry as a mathematical map, from session id to record.
pub type Registry = Map<usize, RecordView>;

/// The registry that a hash map of records stands for.
pub open spec fn registry_view(sessions: Map<usize, SessionRecord>) -> Registry {
    sessions.map_values(|record: SessionRecord| record@)
}

/// What a transition reports: a label, and the record that it wrote or
/// removed, if it did either.
#[verifier::ext_equal]
pub struct DeltaView {
    pub label: Seq<char>,
    pub record: Option<RecordView>,
}

/// The view of a record that may be absent.
pub open spec fn record_view(record: Option<SessionRecord>) -> Option<RecordView> {
    match record {
        Some(r) => Some(r@),
        None => None,
    }
}

/// The mathematical content of a delta.
pub open spec fn delta_view(delta: (&str, Option<SessionRecord>)) -> DeltaView {
    DeltaView { label: delta.0@, record: record_view(delta.1) }
}

/// The record of a session that the manager has just reported: source and
/// time of creation, nothing else yet.
pub open spec fn created_record(
    session_id: usize,
    source: Seq<char>,
    now: Timestamp,
) -> RecordView {
    RecordView {
        session_id,
        source: Some(source),
        timestamp_created: Some(now),
        timestamp_updated: None,
        last_media_update: None,
        last_model_update: None,
    }
}

/// A record with `update` put into the slot of its kind.
pub open spec fn with_update(record: RecordView, update: UpdateView) -> RecordView {
    match update {
        UpdateView::Model(_) => RecordView { last_model_update: Some(update), ..record },
        UpdateView::Media(_, _) => RecordView { last_media_update: Some(update), ..record },
    }
}

/// A known session's record after `update`: the time of the update and the
/// slot of the update's kind are new, all else stays.
pub open spec fn updated_record(
    existing: RecordView,
    update: UpdateView,
    now: Timestamp,
) -> RecordView {
    with_update(RecordView { timestamp_updated: Some(now), ..existing }, update)
}

/// The record made for a session that reports an update before the registry
/// has heard of it: no source, created and updated at once, and only the
/// slot of the update's kind filled.
pub open spec fn synthesized_record(
    session_id: usize,
    update: UpdateView,
    now: Timestamp,
) -> RecordView {
    with_update(
        RecordView {
            session_id,
            source: None,
            timestamp_created: Some(now),
            timestamp_updated: Some(now),
            last_media_update: None,
            last_model_update: None,
        },
        update,
    )
}

/// The label of the delta that `event` gives.
pub open spec fn label_of(event: EventView) -> Seq<char> {
    match event {
        EventView::Create(_, _) => "session_create"@,
        EventView::Update(_, _) => "session_update"@,
        EventView::Delete(_, _) => "session_delete"@,
        EventView::Unsupported(_, _) => "unsupported"@,
    }
}

/// The record that `event`, arriving at `now`, writes into `registry` or
/// removes from it; `None` where it does neither.
///
/// A `Create` writes only if the manager event inside it reports a created
/// session, and then under that event's own session id. An `Update` writes
/// always: to the known record, or to one made up for the occasion. A
/// `Delete` removes what is there.
pub open spec fn record_of(
    registry: Registry,
    event: EventView,
    now: Timestamp,
) -> Option<RecordView> {
    match event {
        EventView::Create(_, ManagerEventView::SessionCreated { session_id, source }) => Some(
            created_record(session_id, source, now),
        ),
        EventView::Create(_, _) => None,
        EventView::Update(session_id, update) => if registry.contains_key(session_id) {
            Some(updated_record(registry[session_id], update, now))
        } else {
            Some(synthesized_record(session_id, update, now))
        },
        EventView::Delete(session_id, _) => if registry.contains_key(session_id) {
            Some(registry[session_id])
        } else {
            None
        },
        EventView::Unsupported(_, _) => None,
    }
}

/// The registry after `event`, arriving at `now`, was applied to `registry`.
pub open spec fn registry_after(registry: Registry, event: EventView, now: Timestamp) -> Registry {
    match event {
        EventView::Create(_, ManagerEventView::SessionCreated { session_id, source }) => {
            registry.insert(session_id, created_record(session_id, source, now))
        },
        EventView::Create(_, _) => registry,
        EventView::Update(session_id, update) => registry.insert(
            session_id,
            record_of(registry, event, now).unwrap(),
        ),
        EventView::Delete(session_id, _) => registry.remove(session_id),
        EventView::Unsupported(_, _) => registry,
    }
}

/// The session whose record `event` writes or removes, if it touches any:
/// a `Create` that does not report a created session touches none, nor does
/// an `Unsupported` event.
pub open spec fn touched(event: EventView) -> Option<usize> {
    match event {
        EventView::Create(_, ManagerEventView::SessionCreated { session_id, source }) => Some(
            session_id,
        ),
        EventView::Create(_, _) => None,
        EventView::Update(session_id, _) => Some(session_id),
        EventView::Delete(session_id, _) => Some(session_id),
        EventView::Unsupported(_, _) => None,
    }
}

/// The registry after a run of events, each with the time at which it
/// arrived, was applied to `registry` in order.
pub open spec fn replayed(registry: Registry, events: Seq<(EventView, Timestamp)>) -> Registry
    decreases events.len(),
{
    if events.len() == 0 {
        registry
    } else {
        registry_after(replayed(registry, events.drop_last()), events.last().0, events.last().1)
    }
}

/// The delta that applying `event` at `now` to `registry` gives.
pub open spec fn delta_of(registry: Registry, event: EventView, now: Timestamp) -> DeltaView {
    DeltaView { label: label_of(event), record: record_of(registry, event, now) }
}

/// `after` and `delta` are what one transition on `before` gives, for
/// `event` arriving at `now`.
pub open spec fn stepped(
    before: Registry,
    event: EventView,
    now: Timestamp,
    after: Registry,
    delta: DeltaView,
) -> bool {
    &&& after == registry_after(before, event, now)
    &&& delta == delta_of(before, event, now)
}

proof fn lemma_view_insert(
    sessions: Map<usize, SessionRecord>,
    session_id: usize,
    record: SessionRecord,
)
    ensures
        registry_view(sessions.insert(session_id, record)) == registry_view(sessions).insert(
            session_id,
            record@,
        ),
{
    assert(registry_view(sessions.insert(session_id, record)) =~= registry_view(sessions).insert(
        session_id,
        record@,
    ));
}

proof fn lemma_view_remove(sessions: Map<usize, SessionRecord>, session_id: usize)
    ensures
        registry_view(sessions.remove(session_id)) == registry_view(sessions).remove(session_id),
{
    assert(registry_view(sessions.remove(session_id)) =~= registry_view(sessions).remove(
        session_id,
    ));
}

/// The record for a session that the manager reports as created.
fn new_record(session_id: usize, source: String, now: Timestamp) -> (record: SessionRecord)
    ensures
        record@ == created_record(session_id, source@, now),
{
    SessionRecord {
        session_id,
        source: Some(source),
        timestamp_created: Some(now),
        timestamp_updated: None,
        last_media_update: None,
        last_model_update: None,
    }
}

/// Puts `update` into the slot of its kind.
fn store_update(record: &mut SessionRecord, update: SessionUpdateEventWrapper)
    ensures
        final(record)@ == with_update(old(record)@, update@),
{
    match update {
        SessionUpdateEventWrapper::Model(model) => {
            record.last_model_update = Some(SessionUpdateEventWrapper::Model(model));
        },
        SessionUpdateEventWrapper::Media(model, image) => {
            record.last_media_update = Some(SessionUpdateEventWrapper::Media(model, image));
        },
    }
}

/// The record of `session_id` after `update`, given what the registry holds
/// for that session.
fn record_for_update(
    existing: Option<&SessionRecord>,
    session_id: usize,
    update: SessionUpdateEventWrapper,
    now: Timestamp,
) -> (record: SessionRecord)
    ensures
        record@ == match existing {
            Some(known) => updated_record(known@, update@, now),
            None => synthesized_record(session_id, update@, now),
        },
{
    let mut record = match existing {
        Some(known) => SessionRecord {
            session_id: known.session_id,
            source: clone_text(&known.source),
            timestamp_created: known.timestamp_created,
            timestamp_updated: Some(now),
            last_media_update: clone_update(&known.last_media_update),
            last_model_update: clone_update(&known.last_model_update),
        },
        None => SessionRecord {
            session_id,
            source: None,
            timestamp_created: Some(now),
            timestamp_updated: Some(now),
            last_media_update: None,
            last_model_update: None,
        },
    };
    store_update(&mut record, update);
    record
}

/// Applies `event`, which arrived at `now`, to the registry, and reports
/// what changed.
///
/// The registry afterwards and the delta are those of [`registry_after`] and
/// [`delta_of`]: a function of the registry before, the event and `now`, and
/// of nothing else.
pub fn apply_event(
    sessions: &mut HashMap<usize, SessionRecord>,
    event: NpSessionEvent,
    now: Timestamp,
) -> (delta: (&'static str, Option<SessionRecord>))
    ensures
        stepped(
            registry_view(old(sessions)@),
            event@,
            now,
            registry_view(final(sessions)@),
            delta_view(delta),
        ),
{
    let ghost before = sessions@;
    match event {
        NpSessionEvent::Create(_, manager_event) => match manager_event {
            ManagerEventWrapper::SessionCreated { session_id, source } => {
                let record = new_record(session_id, source, now);
                let stored = record.clone();
                proof {
                    lemma_view_insert(before, session_id, stored);
                }
                sessions.insert(session_id, stored);
                ("session_create", Some(record))
            },
            _ => ("session_create", None),
        },
        NpSessionEvent::Update(session_id, update) => {
            let record = record_for_update(sessions.get(&session_id), session_id, update, now);
            let stored = record.clone();
            proof {
                lemma_view_insert(before, session_id, stored);
            }
            sessions.insert(session_id, stored);
            ("session_update", Some(record))
        },
        NpSessionEvent::Delete(session_id, _) => {
            proof {
                lemma_view_remove(before, session_id);
            }
            let removed = sessions.remove(&session_id);
            ("session_delete", removed)
        },
        NpSessionEvent::Unsupported(_, _) => ("unsupported", None),
    }
}

/// Applies `event` to the registry at the time that the system clock shows,
/// and reports what changed.
///
/// Whatever the clock shows, the outcome is that of [`apply_event`] at some
/// well-formed point in time.
pub fn updater(
    sessions: &mut HashMap<usize, SessionRecord>,
    event: NpSessionEvent,
) -> (delta: (&'static str, Option<SessionRecord>))
    ensures
        delta.0@ == label_of(event@),
        exists|now: Timestamp|
            now.wf() && #[trigger] stepped(
                registry_view(old(sessions)@),
                event@,
                now,
                registry_view(final(sessions)@),
                delta_view(delta),
            ),
{
    let now = Timestamp::now();
    apply_event(sessions, event, now)
}

/// The views of a run of events, each with the time at which it arrived.
pub open spec fn timed_views(events: Seq<(NpSessionEvent, Timestamp)>) -> Seq<
    (EventView, Timestamp),
> {
    Seq::new(events.len(), |i: int| (events[i].0@, events[i].1))
}

/// Applies a run of events in order, each at the time that stands beside it,
/// and reports the delta of each.
///
/// The registry afterwards is that of [`replayed`]; the delta at each place
/// is that of its event on the registry that the events before it gave.
pub fn replay(
    sessions: &mut HashMap<usize, SessionRecord>,
    events: &Vec<(NpSessionEvent, Timestamp)>,
) -> (deltas: Vec<(&'static str, Option<SessionRecord>)>)
    ensures
        registry_view(final(sessions)@) == replayed(
            registry_view(old(sessions)@),
            timed_views(events@),
        ),
        deltas.len() == events.len(),
        forall|i: int|
            0 <= i < events.len() ==> delta_view(#[trigger] deltas[i]) == delta_of(
                replayed(registry_view(old(sessions)@), timed_views(events@).take(i)),
                events[i].0@,
                events[i].1,
            ),
{
    let ghost start = registry_view(sessions@);
    let ghost run = timed_views(events@);
    let mut deltas: Vec<(&'static str, Option<SessionRecord>)> = Vec::new();
    let mut done: usize = 0;
    assert(run.take(0) =~= Seq::empty());
    while done < events.len()
        invariant
            done <= events.len(),
            run == timed_views(events@),
            registry_view(sessions@) == replayed(start, run.take(done as int)),
            deltas.len() == done,
            forall|i: int|
                0 <= i < done ==> delta_view(#[trigger] deltas[i]) == delta_of(
                    replayed(start, run.take(i)),
                    events[i].0@,
                    events[i].1,
                ),
        decreases events.len() - done,
    {
        let event = events[done].0.clone();
        let now = events[done].1;
        proof {
            assert(run.take(done + 1) =~= run.take(done as int).push((event@, now)));
            assert(run.take(done + 1).drop_last() =~= run.take(done as int));
        }
        let delta = apply_event(sessions, event, now);
        deltas.push(delta);
        done = done + 1;
    }
    assert(run.take(done as int) =~= run);
    deltas
}

} // verus!
