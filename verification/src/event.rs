//! The unified event: what the listener hands to the registry.

use vstd::prelude::*;
use vstd::std_specs::convert::FromSpecImpl;

use crate::listener::{
    ManagerEventView, ManagerEventWrapper, SessionUpdateEventWrapper, UpdateView,
};
use crate::state::SessionRecord;

verus! {

/// One event on the unified stream, tagged with the session it is about.
///
/// `Create` and `Delete` carry the manager's report as it came; the session
/// id stands beside it so that every variant leads with an id.
#[derive(Debug, PartialEq, Eq)]
pub enum NpSessionEvent {
    Create(usize, ManagerEventWrapper),
    Update(usize, SessionUpdateEventWrapper),
    Delete(usize, ManagerEventWrapper),
    Unsupported(Option<usize>, String),
}

/// The mathematical content of an [`NpSessionEvent`].
#[verifier::ext_equal]
pub enum EventView {
    Create(usize, ManagerEventView),
    Update(usize, UpdateView),
    Delete(usize, ManagerEventView),
    Unsupported(Option<usize>, Seq<char>),
}

impl View for NpSessionEvent {
    type V = EventView;

    open spec fn view(&self) -> EventView {
        match *self {
            NpSessionEvent::Create(session_id, event) => EventView::Create(session_id, event@),
            NpSessionEvent::Update(session_id, event) => EventView::Update(session_id, event@),
            NpSessionEvent::Delete(session_id, event) => EventView::Delete(session_id, event@),
            NpSessionEvent::Unsupported(session_id, label) => EventView::Unsupported(
                session_id,
                label@,
            ),
        }
    }
}

impl Clone for NpSessionEvent {
    fn clone(&self) -> (copy: Self)
        ensures
            copy@ == self@,
    {
        match self {
            NpSessionEvent::Create(session_id, event) => NpSessionEvent::Create(
                *session_id,
                event.clone(),
            ),
            NpSessionEvent::Update(session_id, event) => NpSessionEvent::Update(
                *session_id,
                event.clone(),
            ),
            NpSessionEvent::Delete(session_id, event) => NpSessionEvent::Delete(
                *session_id,
                event.clone(),
            ),
            NpSessionEvent::Unsupported(session_id, label) => NpSessionEvent::Unsupported(
                *session_id,
                label.clone(),
            ),
        }
    }
}

/// The label under which a change of the current session travels.
pub open spec fn current_session_changed_label() -> Seq<char> {
    "CurrentSessionChanged"@
}

/// The unified event that a manager event becomes: a created session gives
/// `Create`, a removed one `Delete`, each under the session's id and with the
/// manager event inside; a change of the current session is not part of the
/// registry's state and gives `Unsupported`, with the id where there is one.
pub open spec fn unified(event: ManagerEventView) -> EventView {
    match event {
        ManagerEventView::SessionCreated { session_id, source } => EventView::Create(
            session_id,
            event,
        ),
        ManagerEventView::SessionRemoved { session_id } => EventView::Delete(session_id, event),
        ManagerEventView::CurrentSessionChanged { session_id } => EventView::Unsupported(
            session_id,
            current_session_changed_label(),
        ),
    }
}

impl FromSpecImpl<ManagerEventWrapper> for NpSessionEvent {
    /// The label of an `Unsupported` event is a string made anew, known by
    /// its view alone: so `from` states its result by the view, in its own
    /// `ensures`, and not as this value.
    open spec fn obeys_from_spec() -> bool {
        false
    }

    open spec fn from_spec(event: ManagerEventWrapper) -> NpSessionEvent {
        match event {
            ManagerEventWrapper::SessionCreated { session_id, source } => NpSessionEvent::Create(
                session_id,
                event,
            ),
            ManagerEventWrapper::SessionRemoved { session_id } => NpSessionEvent::Delete(
                session_id,
                event,
            ),
            ManagerEventWrapper::CurrentSessionChanged { session_id } => {
                NpSessionEvent::Unsupported(
                    session_id,
                    choose|label: String| label@ == current_session_changed_label(),
                )
            },
        }
    }
}

impl From<ManagerEventWrapper> for NpSessionEvent {
    fn from(event: ManagerEventWrapper) -> (unified_event: NpSessionEvent)
        ensures
            unified_event@ == unified(event@),
    {
        match event {
            ManagerEventWrapper::SessionCreated { session_id, source } => NpSessionEvent::Create(
                session_id,
                ManagerEventWrapper::SessionCreated { session_id, source },
            ),
            ManagerEventWrapper::SessionRemoved { session_id } => NpSessionEvent::Delete(
                session_id,
                ManagerEventWrapper::SessionRemoved { session_id },
            ),
            ManagerEventWrapper::CurrentSessionChanged { session_id } => {
                NpSessionEvent::Unsupported(session_id, "CurrentSessionChanged".to_owned())
            },
        }
    }
}

impl NpSessionEvent {
    /// The unified event for an update that the session `session_id` reports.
    pub fn from_session_update_event(
        event: SessionUpdateEventWrapper,
        session_id: usize,
    ) -> (unified_event: Self)
        ensures
            unified_event == NpSessionEvent::Update(session_id, event),
    {
        NpSessionEvent::Update(session_id, event)
    }
}

/// What the bridge publishes for a delta: the label with the record, where
/// the delta carries one. A delta without a record is not published, for
/// nothing that a subscriber could see has changed.
pub fn bridge_message<'a>(delta: (&'a str, Option<SessionRecord>)) -> (message: Option<
    (&'a str, SessionRecord),
>)
    ensures
        match message {
            Some((label, record)) => label == delta.0 && delta.1 == Some(record),
            None => delta.1 is None,
        },
{
    match delta {
        (label, Some(record)) => Some((label, record)),
        (_, None) => None,
    }
}

} // verus!
