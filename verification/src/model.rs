//! The metadata snapshot that a media session reports about itself.
//!
//! The registry never looks inside a snapshot: it stores the latest one per
//! session and hands it on. The types here hold a snapshot as plain values,
//! each with a view that contracts speak of.

use vstd::prelude::*;

verus! {

/// What kind of media a session plays.
#[derive(Clone, Copy, Debug, PartialEq, Eq, Structural)]
pub enum PlaybackType {
    Unknown,
    Music,
    Video,
    Image,
}

/// What a session's player is doing.
#[derive(Clone, Copy, Debug, PartialEq, Eq, Structural)]
pub enum PlaybackStatus {
    Closed,
    Opened,
    Changing,
    Stopped,
    Playing,
    Paused,
}

/// How a session repeats what it plays.
#[derive(Clone, Copy, Debug, PartialEq, Eq, Structural)]
pub enum AutoRepeatMode {
    Off,
    Track,
    List,
}

/// The playback state of a session.
///
/// The playback rate is held as the bit pattern of its IEEE 754 double, so
/// that it passes through unchanged.
#[derive(Clone, Copy, Debug, PartialEq, Eq, Structural)]
pub struct PlaybackModel {
    pub status: PlaybackStatus,
    pub kind: PlaybackType,
    pub rate_bits: u64,
    pub shuffle: bool,
    pub auto_repeat: AutoRepeatMode,
}

/// Where a session stands in what it plays, in the units of the source.
#[derive(Clone, Copy, Debug, PartialEq, Eq, Structural)]
pub struct TimelineModel {
    pub start: i64,
    pub end: i64,
    pub position: i64,
    pub last_updated_at_ms: i64,
}

/// The album that a track belongs to.
#[derive(Debug, PartialEq, Eq)]
pub struct AlbumModel {
    pub artist: String,
    pub title: String,
    pub track_count: u32,
}

/// The mathematical content of an [`AlbumModel`].
#[verifier::ext_equal]
pub struct AlbumView {
    pub artist: Seq<char>,
    pub title: Seq<char>,
    pub track_count: u32,
}

impl View for AlbumModel {
    type V = AlbumView;

    open spec fn view(&self) -> AlbumView {
        AlbumView { artist: self.artist@, title: self.title@, track_count: self.track_count }
    }
}

impl Clone for AlbumModel {
    fn clone(&self) -> (copy: Self)
        ensures
            copy@ == self@,
    {
        AlbumModel {
            artist: self.artist.clone(),
            title: self.title.clone(),
            track_count: self.track_count,
        }
    }
}

/// What a session says about the track it plays.
#[derive(Debug, PartialEq, Eq)]
pub struct MediaModel {
    pub title: String,
    pub subtitle: String,
    pub artist: String,
    pub album: Option<AlbumModel>,
    pub track_number: Option<u32>,
    pub genres: Vec<String>,
    pub playback_type: PlaybackType,
}

/// The mathematical content of a [`MediaModel`].
#[verifier::ext_equal]
pub struct MediaView {
    pub title: Seq<char>,
    pub subtitle: Seq<char>,
    pub artist: Seq<char>,
    pub album: Option<AlbumView>,
    pub track_number: Option<u32>,
    pub genres: Seq<Seq<char>>,
    pub playback_type: PlaybackType,
}

/// The view of an album that may be absent.
pub open spec fn album_view(album: Option<AlbumModel>) -> Option<AlbumView> {
    match album {
        Some(a) => Some(a@),
        None => None,
    }
}

/// The genres as sequences of characters, in their order.
pub open spec fn genres_view(genres: Seq<String>) -> Seq<Seq<char>> {
    Seq::new(genres.len(), |i: int| genres[i]@)
}

impl View for MediaModel {
    type V = MediaView;

    open spec fn view(&self) -> MediaView {
        MediaView {
            title: self.title@,
            subtitle: self.subtitle@,
            artist: self.artist@,
            album: album_view(self.album),
            track_number: self.track_number,
            genres: genres_view(self.genres@),
            playback_type: self.playback_type,
        }
    }
}

/// Copies the genres one by one.
fn clone_genres(genres: &Vec<String>) -> (copy: Vec<String>)
    ensures
        genres_view(copy@) == genres_view(genres@),
{
    let mut copy: Vec<String> = Vec::new();
    let mut i: usize = 0;
    while i < genres.len()
        invariant
            i <= genres.len(),
            copy.len() == i,
            forall|j: int| 0 <= j < i ==> copy@[j]@ == genres@[j]@,
        decreases genres.len() - i,
    {
        copy.push(genres[i].clone());
        i = i + 1;
    }
    assert(genres_view(copy@) =~= genres_view(genres@));
    copy
}

impl Clone for MediaModel {
    fn clone(&self) -> (copy: Self)
        ensures
            copy@ == self@,
    {
        let album = match &self.album {
            Some(a) => Some(a.clone()),
            None => None,
        };
        MediaModel {
            title: self.title.clone(),
            subtitle: self.subtitle.clone(),
            artist: self.artist.clone(),
            album,
            track_number: self.track_number,
            genres: clone_genres(&self.genres),
            playback_type: self.playback_type,
        }
    }
}

/// One snapshot of a session: playback state, timeline and track, each as
/// far as the session reports it, and the application that plays.
#[derive(Debug, PartialEq, Eq)]
pub struct SessionModel {
    pub playback: Option<PlaybackModel>,
    pub timeline: Option<TimelineModel>,
    pub media: Option<MediaModel>,
    pub source: String,
}

/// The mathematical content of a [`SessionModel`].
#[verifier::ext_equal]
pub struct ModelView {
    pub playback: Option<PlaybackModel>,
    pub timeline: Option<TimelineModel>,
    pub media: Option<MediaView>,
    pub source: Seq<char>,
}

/// The view of a track description that may be absent.
pub open spec fn media_view(media: Option<MediaModel>) -> Option<MediaView> {
    match media {
        Some(m) => Some(m@),
        None => None,
    }
}

impl View for SessionModel {
    type V = ModelView;

    open spec fn view(&self) -> ModelView {
        ModelView {
            playback: self.playback,
            timeline: self.timeline,
            media: media_view(self.media),
            source: self.source@,
        }
    }
}

impl Clone for SessionModel {
    fn clone(&self) -> (copy: Self)
        ensures
            copy@ == self@,
    {
        let media = match &self.media {
            Some(m) => Some(m.clone()),
            None => None,
        };
        SessionModel {
            playback: self.playback,
            timeline: self.timeline,
            media,
            source: self.source.clone(),
        }
    }
}

} // verus!
