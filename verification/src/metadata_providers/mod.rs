//! Now-playing metadata and the sources it comes from.
use std::time::Duration;
use vstd::prelude::*;

use crate::settings::AppSettings;
use crate::time::{duration_as_nanos, duration_nanos};

pub mod mpris_parser;
pub mod windows;

verus! {

/// Whether the player is playing.
#[derive(Debug, PartialEq, Eq, Structural, Clone, Copy)]
pub enum PlaybackState {
    PLAYING,
    PAUSED,
    STOPPED,
    UNKNOWN,
}

/// What kind of media is playing.
#[derive(Debug, PartialEq, Eq, Structural, Clone, Copy)]
pub enum MediaType {
    AUDIO,
    VIDEO,
    MIXED,
}

/// The playback status that an MPRIS player reports.
#[derive(Debug, PartialEq, Eq, Structural, Clone, Copy)]
pub enum PlaybackStatus {
    Playing,
    Paused,
    Stopped,
}

/// The playback status code of a Windows media session.
#[derive(Debug, PartialEq, Eq, Structural, Clone, Copy)]
pub struct SessionPlaybackStatus(pub i32);

/// The playback type code of a Windows media session.
#[derive(Debug, PartialEq, Eq, Structural, Clone, Copy)]
pub struct MediaPlaybackType(pub i32);

/// The playback state of an MPRIS status: each status has its own state.
pub open spec fn state_of_status(status: PlaybackStatus) -> PlaybackState {
    match status {
        PlaybackStatus::Playing => PlaybackState::PLAYING,
        PlaybackStatus::Paused => PlaybackState::PAUSED,
        PlaybackStatus::Stopped => PlaybackState::STOPPED,
    }
}

/// The playback state of a Windows session status code: 4 is playing, 5 is paused, and
/// every other code is unknown.
pub open spec fn state_of_session_status(code: i32) -> PlaybackState {
    if code == 4 {
        PlaybackState::PLAYING
    } else if code == 5 {
        PlaybackState::PAUSED
    } else {
        PlaybackState::UNKNOWN
    }
}

/// The media type of a Windows playback type code: 1 is video, 2 is audio, and every
/// other code is mixed.
pub open spec fn media_type_of_playback_type(code: i32) -> MediaType {
    if code == 1 {
        MediaType::VIDEO
    } else if code == 2 {
        MediaType::AUDIO
    } else {
        MediaType::MIXED
    }
}

impl From<PlaybackStatus> for PlaybackState {
    fn from(value: PlaybackStatus) -> (state: PlaybackState)
        ensures
            value == PlaybackStatus::Playing <==> state == PlaybackState::PLAYING,
            value == PlaybackStatus::Paused <==> state == PlaybackState::PAUSED,
            value == PlaybackStatus::Stopped <==> state == PlaybackState::STOPPED,
            state != PlaybackState::UNKNOWN,
    {
        match value {
            PlaybackStatus::Playing => PlaybackState::PLAYING,
            PlaybackStatus::Paused => PlaybackState::PAUSED,
            PlaybackStatus::Stopped => PlaybackState::STOPPED,
        }
    }
}

impl vstd::std_specs::convert::FromSpecImpl<PlaybackStatus> for PlaybackState {
    open spec fn obeys_from_spec() -> bool {
        true
    }

    open spec fn from_spec(v: PlaybackStatus) -> PlaybackState {
        state_of_status(v)
    }
}

impl From<SessionPlaybackStatus> for PlaybackState {
    fn from(value: SessionPlaybackStatus) -> (state: PlaybackState)
        ensures
            value.0 == 4 <==> state == PlaybackState::PLAYING,
            value.0 == 5 <==> state == PlaybackState::PAUSED,
            value.0 != 4 && value.0 != 5 <==> state == PlaybackState::UNKNOWN,
    {
        if value.0 == 4 {
            PlaybackState::PLAYING
        } else if value.0 == 5 {
            PlaybackState::PAUSED
        } else {
            PlaybackState::UNKNOWN
        }
    }
}

impl vstd::std_specs::convert::FromSpecImpl<SessionPlaybackStatus> for PlaybackState {
    open spec fn obeys_from_spec() -> bool {
        true
    }

    open spec fn from_spec(v: SessionPlaybackStatus) -> PlaybackState {
        state_of_session_status(v.0)
    }
}

impl From<MediaPlaybackType> for MediaType {
    fn from(value: MediaPlaybackType) -> (media_type: MediaType)
        ensures
            value.0 == 1 <==> media_type == MediaType::VIDEO,
            value.0 == 2 <==> media_type == MediaType::AUDIO,
            value.0 != 1 && value.0 != 2 <==> media_type == MediaType::MIXED,
    {
        if value.0 == 1 {
            MediaType::VIDEO
        } else if value.0 == 2 {
            MediaType::AUDIO
        } else {
            MediaType::MIXED
        }
    }
}

impl vstd::std_specs::convert::FromSpecImpl<MediaPlaybackType> for MediaType {
    open spec fn obeys_from_spec() -> bool {
        true
    }

    open spec fn from_spec(v: MediaPlaybackType) -> MediaType {
        media_type_of_playback_type(v.0)
    }
}

/// What is known about the item that is playing.
#[derive(Debug, PartialEq)]
pub struct Metadata {
    pub title: String,
    pub aux_title: Option<String>,
    /// How far playback has got.
    pub progress: Option<Duration>,
    pub state: Option<PlaybackState>,
    pub provider_name: String,
    pub subprovider_name: Option<String>,
    pub media_type: MediaType,
    pub metadata_media: Option<String>,
}

/// The contents of a `Metadata`: its texts as characters, its progress in nanoseconds.
pub struct MetadataView {
    pub title: Seq<char>,
    pub aux_title: Option<Seq<char>>,
    pub progress: Option<nat>,
    pub state: Option<PlaybackState>,
    pub provider_name: Seq<char>,
    pub subprovider_name: Option<Seq<char>>,
    pub media_type: MediaType,
    pub metadata_media: Option<Seq<char>>,
}

/// The nanoseconds of an optional duration.
pub open spec fn progress_nanos(progress: Option<Duration>) -> Option<nat> {
    match progress {
        Some(d) => Some(duration_nanos(d)),
        None => None,
    }
}

impl View for Metadata {
    type V = MetadataView;

    open spec fn view(&self) -> MetadataView {
        MetadataView {
            title: self.title@,
            aux_title: self.aux_title.deep_view(),
            progress: progress_nanos(self.progress),
            state: self.state,
            provider_name: self.provider_name@,
            subprovider_name: self.subprovider_name.deep_view(),
            media_type: self.media_type,
            metadata_media: self.metadata_media.deep_view(),
        }
    }
}

/// Whether two optional strings are both absent or both present with the same contents.
pub fn same_text(a: &Option<String>, b: &Option<String>) -> (r: bool)
    ensures
        r == (a.deep_view() == b.deep_view()),
{
    match (a, b) {
        (Some(x), Some(y)) => *x == *y,
        (None, None) => true,
        _ => false,
    }
}

/// Whether two optional durations are both absent or both present and equally long.
pub fn same_progress(a: &Option<Duration>, b: &Option<Duration>) -> (r: bool)
    ensures
        r == (progress_nanos(*a) == progress_nanos(*b)),
        r == match (*a, *b) {
            (Some(x), Some(y)) => duration_nanos(x) == duration_nanos(y),
            (None, None) => true,
            _ => false,
        },
{
    match (a, b) {
        (Some(x), Some(y)) => duration_as_nanos(x) == duration_as_nanos(y),
        (None, None) => true,
        _ => false,
    }
}

impl Metadata {
    /// Whether two metadata describe the same thing: every field equal, texts by their
    /// characters and durations by their length.
    pub fn same_as(&self, other: &Metadata) -> (r: bool)
        ensures
            r == (self@ == other@),
            r == {
                &&& self.title@ == other.title@
                &&& self.aux_title.deep_view() == other.aux_title.deep_view()
                &&& match (self.progress, other.progress) {
                    (Some(x), Some(y)) => duration_nanos(x) == duration_nanos(y),
                    (None, None) => true,
                    _ => false,
                }
                &&& self.state == other.state
                &&& self.provider_name@ == other.provider_name@
                &&& self.subprovider_name.deep_view() == other.subprovider_name.deep_view()
                &&& self.media_type == other.media_type
                &&& self.metadata_media.deep_view() == other.metadata_media.deep_view()
            },
    {
        let same_state = match (self.state, other.state) {
            (Some(x), Some(y)) => x == y,
            (None, None) => true,
            _ => false,
        };
        self.title == other.title && same_text(&self.aux_title, &other.aux_title)
            && same_progress(&self.progress, &other.progress) && same_state
            && self.provider_name == other.provider_name && same_text(
            &self.subprovider_name,
            &other.subprovider_name,
        ) && self.media_type == other.media_type && same_text(
            &self.metadata_media,
            &other.metadata_media,
        )
    }
}

/// A source of now-playing metadata.
pub trait MetadataProvider {
    /// What is playing now, if anything.
    fn get_playing_metadata(&self, settings: &AppSettings) -> Option<Metadata>;
}

} // verus!

verus! {

/// Two metadata have the same contents exactly when every field agrees: the texts by their
/// characters, the progress by its length in nanoseconds, the rest by value.
pub proof fn lemma_metadata_view_fields(a: Metadata, b: Metadata)
    ensures
        (a@ == b@) == {
            &&& a.title@ == b.title@
            &&& a.aux_title.deep_view() == b.aux_title.deep_view()
            &&& match (a.progress, b.progress) {
                (Some(x), Some(y)) => duration_nanos(x) == duration_nanos(y),
                (None, None) => true,
                _ => false,
            }
            &&& a.state == b.state
            &&& a.provider_name@ == b.provider_name@
            &&& a.subprovider_name.deep_view() == b.subprovider_name.deep_view()
            &&& a.media_type == b.media_type
            &&& a.metadata_media.deep_view() == b.metadata_media.deep_view()
        },
        a@.title == a.title@,
        a@.aux_title == a.aux_title.deep_view(),
        a.progress matches Some(d) ==> a@.progress == Some(duration_nanos(d)),
        a.progress is None ==> a@.progress is None,
        a@.state == a.state,
        a@.provider_name == a.provider_name@,
        a@.subprovider_name == a.subprovider_name.deep_view(),
        a@.media_type == a.media_type,
        a@.metadata_media == a.metadata_media.deep_view(),
{
}

/// Each MPRIS status gives the state of the same name.
pub proof fn lemma_status_states()
    ensures
        state_of_status(PlaybackStatus::Playing) == PlaybackState::PLAYING,
        state_of_status(PlaybackStatus::Paused) == PlaybackState::PAUSED,
        state_of_status(PlaybackStatus::Stopped) == PlaybackState::STOPPED,
{
}

/// A Windows session status code gives PLAYING exactly when it is 4, PAUSED exactly when
/// it is 5, and UNKNOWN for every other code; the state never is STOPPED.
pub proof fn lemma_session_status_states(code: i32)
    ensures
        state_of_session_status(code) == PlaybackState::PLAYING <==> code == 4,
        state_of_session_status(code) == PlaybackState::PAUSED <==> code == 5,
        state_of_session_status(code) == PlaybackState::UNKNOWN <==> (code != 4 && code != 5),
        state_of_session_status(code) != PlaybackState::STOPPED,
{
}

/// A Windows playback type code gives VIDEO exactly when it is 1, AUDIO exactly when it is
/// 2, and MIXED for every other code.
pub proof fn lemma_playback_type_media_types(code: i32)
    ensures
        media_type_of_playback_type(code) == MediaType::VIDEO <==> code == 1,
        media_type_of_playback_type(code) == MediaType::AUDIO <==> code == 2,
        media_type_of_playback_type(code) == MediaType::MIXED <==> (code != 1 && code != 2),
{
}

/// Every MPRIS status has a known playback state of its own: none is unknown, and
/// different statuses give different states.
pub proof fn lemma_status_states_distinct(a: PlaybackStatus, b: PlaybackStatus)
    ensures
        state_of_status(a) != PlaybackState::UNKNOWN,
        a != b ==> state_of_status(a) != state_of_status(b),
{
}

} // verus!
