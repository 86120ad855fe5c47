//! What holds of the registry's transition, whatever the events and the
//! registry: each statement here is proved from the transition's definition.

use vstd::prelude::*;

use crate::clock::Timestamp;
use crate::event::EventView;
use crate::listener::{ManagerEventView, UpdateView};
use crate::state::{
    delta_of, record_of, registry_after, replayed, stepped, touched, DeltaView, Registry,
};

verus! {

/// Every record stands under its own session id.
pub open spec fn keyed(registry: Registry) -> bool {
    forall|session_id: usize| #[trigger]
        registry.contains_key(session_id) ==> registry[session_id].session_id == session_id
}

/// In every record each slot holds an update of its own kind, if any.
pub open spec fn slots_typed(registry: Registry) -> bool {
    forall|session_id: usize| #[trigger]
        registry.contains_key(session_id) ==> registry[session_id].slots_typed()
}

/// No record was updated before it was created.
pub open spec fn timestamps_ordered(registry: Registry) -> bool {
    forall|session_id: usize| #[trigger]
        registry.contains_key(session_id) ==> registry[session_id].timestamps_ordered()
}

/// The clock has not gone back behind the creation of the record that
/// `event` updates, if it updates a known one.
pub open spec fn clock_has_not_gone_back(
    registry: Registry,
    event: EventView,
    now: Timestamp,
) -> bool {
    match event {
        EventView::Update(session_id, _) if registry.contains_key(session_id) => {
            match registry[session_id].timestamp_created {
                Some(created) => created.le(now),
                None => true,
            }
        },
        _ => true,
    }
}

/// A transition has one outcome: the registry before, the event and the time
/// of its arrival decide the registry afterwards and the delta.
pub proof fn transition_has_one_outcome(
    before: Registry,
    event: EventView,
    now: Timestamp,
    after: Registry,
    delta: DeltaView,
    other_after: Registry,
    other_delta: DeltaView,
)
    requires
        stepped(before, event, now, after, delta),
        stepped(before, event, now, other_after, other_delta),
    ensures
        after == other_after,
        delta == other_delta,
{
}

/// The time of arrival goes into the record that an event writes and into
/// nothing else: sessions come and go as the event says, whatever the time,
/// and an event that writes no record has the same outcome at any time.
pub proof fn time_goes_into_written_records_only(
    registry: Registry,
    event: EventView,
    now: Timestamp,
    other_time: Timestamp,
)
    ensures
        registry_after(registry, event, now).dom() == registry_after(
            registry,
            event,
            other_time,
        ).dom(),
        delta_of(registry, event, now).label == delta_of(registry, event, other_time).label,
        delta_of(registry, event, now).record is Some <==> delta_of(
            registry,
            event,
            other_time,
        ).record is Some,
        event is Delete || touched(event) is None ==> {
            &&& registry_after(registry, event, now) == registry_after(registry, event, other_time)
            &&& delta_of(registry, event, now) == delta_of(registry, event, other_time)
        },
{
    assert(registry_after(registry, event, now).dom() =~= registry_after(
        registry,
        event,
        other_time,
    ).dom());
}

/// Replaying a run of events and then applying one more event gives the same
/// registry as replaying the run with that event at its end: the registry is
/// a function of the events and their times, and of nothing else.
pub proof fn replay_is_incremental(
    registry: Registry,
    events: Seq<(EventView, Timestamp)>,
    event: EventView,
    now: Timestamp,
)
    ensures
        replayed(registry, events.push((event, now))) == registry_after(
            replayed(registry, events),
            event,
            now,
        ),
{
    let longer = events.push((event, now));
    assert(longer.drop_last() =~= events);
}

/// Replaying two runs one after the other gives the same registry as
/// replaying them as one run.
pub proof fn replay_in_two_parts(
    registry: Registry,
    first: Seq<(EventView, Timestamp)>,
    second: Seq<(EventView, Timestamp)>,
)
    ensures
        replayed(registry, first + second) == replayed(replayed(registry, first), second),
    decreases second.len(),
{
    if second.len() == 0 {
        assert(first + second =~= first);
    } else {
        replay_in_two_parts(registry, first, second.drop_last());
        assert((first + second).drop_last() =~= first + second.drop_last());
    }
}

/// A transition changes the record of at most one session, the one that the
/// event touches: every other session is in the registry afterwards exactly
/// if it was before, with the record it had.
pub proof fn other_sessions_are_untouched(
    registry: Registry,
    event: EventView,
    now: Timestamp,
    other: usize,
)
    requires
        touched(event) != Some(other),
    ensures
        registry_after(registry, event, now).contains_key(other) == registry.contains_key(other),
        registry.contains_key(other) ==> registry_after(registry, event, now)[other]
            == registry[other],
{
}

/// The touched session's record changes in one piece: after an event that
/// writes, the registry holds for that session exactly the record that the
/// delta carries; after a `Delete` it holds none, and the delta carries the
/// record that was there, if one was. An event that touches no session
/// leaves the registry as it is and carries no record.
pub proof fn touched_session_changes_in_one_piece(
    registry: Registry,
    event: EventView,
    now: Timestamp,
)
    ensures
        match touched(event) {
            Some(session_id) => if event is Delete {
                &&& !registry_after(registry, event, now).contains_key(session_id)
                &&& record_of(registry, event, now) == if registry.contains_key(session_id) {
                    Some(registry[session_id])
                } else {
                    None
                }
            } else {
                &&& registry_after(registry, event, now).contains_key(session_id)
                &&& record_of(registry, event, now) == Some(
                    registry_after(registry, event, now)[session_id],
                )
            },
            None => {
                &&& registry_after(registry, event, now) == registry
                &&& record_of(registry, event, now) is None
            },
        },
{
}

/// Deleting a session a second time changes nothing and reports no record,
/// whatever was deleted the first time.
pub proof fn second_delete_changes_nothing(
    registry: Registry,
    session_id: usize,
    first: ManagerEventView,
    first_time: Timestamp,
    second: ManagerEventView,
    second_time: Timestamp,
)
    ensures
        ({
            let once = registry_after(registry, EventView::Delete(session_id, first), first_time);
            let again = EventView::Delete(session_id, second);
            &&& registry_after(once, again, second_time) == once
            &&& delta_of(once, again, second_time) == DeltaView {
                label: "session_delete"@,
                record: None,
            }
        }),
{
    let once = registry_after(registry, EventView::Delete(session_id, first), first_time);
    let again = EventView::Delete(session_id, second);
    assert(registry_after(once, again, second_time) =~= once);
}

/// An update for a session that the registry does not know makes a record
/// for it: under the session's id, without a source, created and updated at
/// the time of the update, with the update in the slot of its kind and the
/// other slot empty.
pub proof fn update_of_unknown_session_makes_a_record(
    registry: Registry,
    session_id: usize,
    update: UpdateView,
    now: Timestamp,
)
    requires
        !registry.contains_key(session_id),
    ensures
        ({
            let event = EventView::Update(session_id, update);
            let after = registry_after(registry, event, now);
            &&& after.contains_key(session_id)
            &&& delta_of(registry, event, now) == DeltaView {
                label: "session_update"@,
                record: Some(after[session_id]),
            }
            &&& after[session_id].session_id == session_id
            &&& after[session_id].source is None
            &&& after[session_id].timestamp_created == Some(now)
            &&& after[session_id].timestamp_updated == Some(now)
            &&& update is Media ==> after[session_id].last_media_update == Some(update)
                && after[session_id].last_model_update is None
            &&& update is Model ==> after[session_id].last_model_update == Some(update)
                && after[session_id].last_media_update is None
        }),
{
}

/// An update of a known session changes the time of the last update and the
/// slot of the update's kind, and nothing else: the other slot, the source,
/// the time of creation and the session id stay as they were.
pub proof fn update_of_known_session_keeps_the_rest(
    registry: Registry,
    session_id: usize,
    update: UpdateView,
    now: Timestamp,
)
    requires
        registry.contains_key(session_id),
    ensures
        ({
            let event = EventView::Update(session_id, update);
            let before = registry[session_id];
            let after = registry_after(registry, event, now);
            &&& after.contains_key(session_id)
            &&& delta_of(registry, event, now) == DeltaView {
                label: "session_update"@,
                record: Some(after[session_id]),
            }
            &&& after[session_id].session_id == before.session_id
            &&& after[session_id].source == before.source
            &&& after[session_id].timestamp_created == before.timestamp_created
            &&& after[session_id].timestamp_updated == Some(now)
            &&& update is Model ==> after[session_id].last_model_update == Some(update)
                && after[session_id].last_media_update == before.last_media_update
            &&& update is Media ==> after[session_id].last_media_update == Some(update)
                && after[session_id].last_model_update == before.last_model_update
        }),
{
}

/// Two events that do not touch the same session can be applied in either
/// order: the registry afterwards is the same, and so is the delta of each.
pub proof fn events_of_distinct_sessions_commute(
    registry: Registry,
    one: EventView,
    one_time: Timestamp,
    other: EventView,
    other_time: Timestamp,
)
    requires
        touched(one) is None || touched(other) is None || touched(one) != touched(other),
    ensures
        registry_after(registry_after(registry, one, one_time), other, other_time)
            == registry_after(registry_after(registry, other, other_time), one, one_time),
        delta_of(registry_after(registry, one, one_time), other, other_time) == delta_of(
            registry,
            other,
            other_time,
        ),
        delta_of(registry_after(registry, other, other_time), one, one_time) == delta_of(
            registry,
            one,
            one_time,
        ),
{
    assert(registry_after(registry_after(registry, one, one_time), other, other_time)
        =~= registry_after(registry_after(registry, other, other_time), one, one_time));
}

/// Where every record stands under its own session id, it still does after a
/// transition.
pub proof fn registry_stays_keyed(registry: Registry, event: EventView, now: Timestamp)
    requires
        keyed(registry),
    ensures
        keyed(registry_after(registry, event, now)),
{
}

/// Where each slot of every record holds an update of its own kind, it still
/// does after a transition.
pub proof fn slots_stay_typed(registry: Registry, event: EventView, now: Timestamp)
    requires
        slots_typed(registry),
    ensures
        slots_typed(registry_after(registry, event, now)),
{
}

/// Where no record was updated before it was created, none is after a
/// transition, as long as the clock has not gone back behind the creation of
/// the record that the event updates.
pub proof fn timestamps_stay_ordered(registry: Registry, event: EventView, now: Timestamp)
    requires
        timestamps_ordered(registry),
        clock_has_not_gone_back(registry, event, now),
    ensures
        timestamps_ordered(registry_after(registry, event, now)),
{
}

/// A transition whose delta carries no record has changed nothing: what is
/// not reported has not happened.
pub proof fn delta_without_record_changes_nothing(
    registry: Registry,
    event: EventView,
    now: Timestamp,
)
    requires
        delta_of(registry, event, now).record is None,
    ensures
        registry_after(registry, event, now) == registry,
{
    assert(registry_after(registry, event, now) =~= registry);
}

/// A delta that carries a record is labelled as a creation, an update or a
/// deletion: an event that the registry does not support never carries one.
pub proof fn delta_with_record_names_a_change(registry: Registry, event: EventView, now: Timestamp)
    requires
        delta_of(registry, event, now).record is Some,
    ensures
        ({
            let label = delta_of(registry, event, now).label;
            &&& label == "session_create"@ || label == "session_update"@ || label
                == "session_delete"@
            &&& label != "unsupported"@
        }),
{
    reveal_strlit("session_create");
    reveal_strlit("session_update");
    reveal_strlit("session_delete");
    reveal_strlit("unsupported");
    assert("session_create"@.len() == 14);
    assert("session_update"@.len() == 14);
    assert("session_delete"@.len() == 14);
    assert("unsupported"@.len() == 11);
}

} // verus!
