//! Metadata from the Windows media session.
use vstd::prelude::*;

use crate::metadata_providers::{
    media_type_of_playback_type, state_of_session_status, MediaPlaybackType, MediaType,
    Metadata, MetadataProvider, PlaybackState, SessionPlaybackStatus,
};
use crate::settings::AppSettings;

verus! {

/// Reads now-playing metadata from the Windows media session.
#[derive(Debug, Default)]
pub struct WindowsParser {}

impl WindowsParser {
    /// The metadata of the current Windows media session: its title, its artist as the
    /// auxiliary title, the playback state and media type of its status and playback type
    /// codes, and "Windows Media" as the provider.
    pub fn metadata_from_session(
        title: String,
        artist: String,
        status: SessionPlaybackStatus,
        playback_type: MediaPlaybackType,
    ) -> (metadata: Metadata)
        ensures
            metadata.title@ == title@,
            metadata.aux_title.deep_view() == Some(artist@),
            metadata.state == Some(state_of_session_status(status.0)),
            status.0 == 4 <==> metadata.state == Some(PlaybackState::PLAYING),
            status.0 == 5 <==> metadata.state == Some(PlaybackState::PAUSED),
            status.0 != 4 && status.0 != 5 <==> metadata.state == Some(PlaybackState::UNKNOWN),
            playback_type.0 == 1 <==> metadata.media_type == MediaType::VIDEO,
            playback_type.0 == 2 <==> metadata.media_type == MediaType::AUDIO,
            playback_type.0 != 1 && playback_type.0 != 2 <==> metadata.media_type
                == MediaType::MIXED,
            metadata.progress is None,
            metadata.provider_name@ == "Windows Media"@,
            metadata.subprovider_name is None,
            metadata.media_type == media_type_of_playback_type(playback_type.0),
            metadata.metadata_media is None,
    {
        let playback_status = PlaybackState::from(status);
        let media_type = MediaType::from(playback_type);
        Metadata {
            title,
            aux_title: Some(artist),
            state: Some(playback_status),
            progress: None,
            provider_name: String::from_str("Windows Media"),
            subprovider_name: None,
            media_type,
            metadata_media: None,
        }
    }
}

impl MetadataProvider for WindowsParser {
    /// Outside Windows there is no media session to read: nothing is playing.
    fn get_playing_metadata(&self, settings: &AppSettings) -> (metadata: Option<Metadata>)
        ensures
            metadata is None,
    {
        None
    }
}

} // verus!
