//! What the session source reports, in the registry's own terms, and what
//! the listener does with each report.

use vstd::prelude::*;
use vstd::string::StringExecFns;

use crate::event::{unified, NpSessionEvent};
use crate::model::{ModelView, SessionModel};
use crate::text::{decimal, to_decimal};

verus! {

/// Artwork of a track: its bytes and their media type, never decoded here.
#[derive(Debug, PartialEq, Eq)]
pub struct ImageWrapper {
    pub content_type: String,
    pub data: Vec<u8>,
}

/// The mathematical content of an [`ImageWrapper`].
#[verifier::ext_equal]
pub struct ImageView {
    pub content_type: Seq<char>,
    pub data: Seq<u8>,
}

impl View for ImageWrapper {
    type V = ImageView;

    open spec fn view(&self) -> ImageView {
        ImageView { content_type: self.content_type@, data: self.data@ }
    }
}

impl Clone for ImageWrapper {
    fn clone(&self) -> (copy: Self)
        ensures
            copy@ == self@,
    {
        ImageWrapper { content_type: self.content_type.clone(), data: self.data.clone() }
    }
}

/// How an image reads in a log: its media type and the number of its bytes,
/// not the bytes themselves.
pub open spec fn described(content_type: Seq<char>, size: nat) -> Seq<char> {
    "ImageWrapper { content_type: "@ + content_type + ", data: u8["@ + decimal(size) + "] }"@
}

/// The line for a log of an image with this media type and this many bytes,
/// as [`described`] gives it.
pub fn describe_image(content_type: &str, size: usize) -> (text: String)
    ensures
        text@ == described(content_type@, size as nat),
{
    let mut text = String::from_str("ImageWrapper { content_type: ");
    text.append(content_type);
    text.append(", data: u8[");
    text.append(to_decimal(size).as_str());
    text.append("] }");
    text
}

impl ImageWrapper {
    /// The image as a line for a log.
    pub fn describe(&self) -> (text: String)
        ensures
            text@ == described(self@.content_type, self@.data.len()),
    {
        describe_image(self.content_type.as_str(), self.data.len())
    }
}

/// The view of artwork that may be absent.
pub open spec fn image_view(image: Option<ImageWrapper>) -> Option<ImageView> {
    match image {
        Some(i) => Some(i@),
        None => None,
    }
}

/// A change that one session reports: of its metadata alone, or of the
/// track, with the artwork where there is any.
#[derive(Debug, PartialEq, Eq)]
pub enum SessionUpdateEventWrapper {
    Model(SessionModel),
    Media(SessionModel, Option<ImageWrapper>),
}

/// The mathematical content of a [`SessionUpdateEventWrapper`].
#[verifier::ext_equal]
pub enum UpdateView {
    Model(ModelView),
    Media(ModelView, Option<ImageView>),
}

impl View for SessionUpdateEventWrapper {
    type V = UpdateView;

    open spec fn view(&self) -> UpdateView {
        match *self {
            SessionUpdateEventWrapper::Model(model) => UpdateView::Model(model@),
            SessionUpdateEventWrapper::Media(model, image) => UpdateView::Media(
                model@,
                image_view(image),
            ),
        }
    }
}

impl Clone for SessionUpdateEventWrapper {
    fn clone(&self) -> (copy: Self)
        ensures
            copy@ == self@,
    {
        match self {
            SessionUpdateEventWrapper::Model(model) => SessionUpdateEventWrapper::Model(
                model.clone(),
            ),
            SessionUpdateEventWrapper::Media(model, image) => {
                let image_copy = match image {
                    Some(i) => Some(i.clone()),
                    None => None,
                };
                SessionUpdateEventWrapper::Media(model.clone(), image_copy)
            },
        }
    }
}

/// A change in the set of sessions, as the session manager reports it.
#[derive(Debug, PartialEq, Eq)]
#[allow(inconsistent_fields)]
pub enum ManagerEventWrapper {
    SessionCreated { session_id: usize, source: String },
    SessionRemoved { session_id: usize },
    CurrentSessionChanged { session_id: Option<usize> },
}

/// The mathematical content of a [`ManagerEventWrapper`].
#[verifier::ext_equal]
#[allow(inconsistent_fields)]
pub enum ManagerEventView {
    SessionCreated { session_id: usize, source: Seq<char> },
    SessionRemoved { session_id: usize },
    CurrentSessionChanged { session_id: Option<usize> },
}

impl View for ManagerEventWrapper {
    type V = ManagerEventView;

    open spec fn view(&self) -> ManagerEventView {
        match *self {
            ManagerEventWrapper::SessionCreated { session_id, source } => {
                ManagerEventView::SessionCreated { session_id, source: source@ }
            },
            ManagerEventWrapper::SessionRemoved { session_id } => {
                ManagerEventView::SessionRemoved { session_id }
            },
            ManagerEventWrapper::CurrentSessionChanged { session_id } => {
                ManagerEventView::CurrentSessionChanged { session_id }
            },
        }
    }
}

impl Clone for ManagerEventWrapper {
    fn clone(&self) -> (copy: Self)
        ensures
            copy@ == self@,
    {
        match self {
            ManagerEventWrapper::SessionCreated { session_id, source } => {
                ManagerEventWrapper::SessionCreated {
                    session_id: *session_id,
                    source: source.clone(),
                }
            },
            ManagerEventWrapper::SessionRemoved { session_id } => {
                ManagerEventWrapper::SessionRemoved { session_id: *session_id }
            },
            ManagerEventWrapper::CurrentSessionChanged { session_id } => {
                ManagerEventWrapper::CurrentSessionChanged { session_id: *session_id }
            },
        }
    }
}

/// What the listener does with one manager event.
///
/// `forward` goes onto the unified stream. Where `relay` names a session,
/// the listener then starts to relay that session's updates onto the same
/// stream, each as [`NpSessionEvent::from_session_update_event`] gives it,
/// until the session's own stream of updates ends. Nothing else ends a
/// relay: an update that arrives after its session was removed makes a new
/// record in the registry.
#[derive(Debug, PartialEq, Eq)]
pub struct ListenerStep {
    pub forward: NpSessionEvent,
    pub relay: Option<usize>,
}

/// The session whose updates are to be relayed after `event`: the one that
/// was created, if one was.
pub open spec fn relayed(event: ManagerEventView) -> Option<usize> {
    match event {
        ManagerEventView::SessionCreated { session_id, source } => Some(session_id),
        _ => None,
    }
}

/// Decides what the listener does with `event`: every manager event goes
/// onto the unified stream as [`unified`] gives it, and a created session
/// gets a relay.
pub fn on_manager_event(event: ManagerEventWrapper) -> (step: ListenerStep)
    ensures
        step.forward@ == unified(event@),
        step.relay == relayed(event@),
{
    let relay = match &event {
        ManagerEventWrapper::SessionCreated { session_id, source: _ } => Some(*session_id),
        _ => None,
    };
    ListenerStep { forward: NpSessionEvent::from(event), relay }
}

} // verus!
