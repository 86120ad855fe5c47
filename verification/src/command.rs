//! The query interface: the whole registry, as it stands at one moment.

use std::collections::HashMap;
use vstd::prelude::*;

use crate::state::{registry_view, Registry, SessionRecord};

verus! {

/// The answer to a query for the sessions: every record, under its id.
pub struct UpdateResponse {
    pub sessions: HashMap<usize, SessionRecord>,
}

impl View for UpdateResponse {
    type V = Registry;

    open spec fn view(&self) -> Registry {
        registry_view(self.sessions@)
    }
}

/// Copies the registry for a query. The copy holds every session that the
/// registry holds at the call, each with its whole record, and no other.
///
/// The registry is borrowed for the time of the copy, so no transition runs
/// while the copy is made: a caller who guards the registry needs the guard
/// for this call and no longer.
pub fn initial_sessions(sessions: &HashMap<usize, SessionRecord>) -> (response: UpdateResponse)
    ensures
        response@ == registry_view(sessions@),
{
    UpdateResponse { sessions: sessions.clone() }
}

} // verus!
