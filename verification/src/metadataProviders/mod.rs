//! Now-playing records as the Tautulli and single-artist MPRIS readers describe them.
use std::time::Duration;
use vstd::prelude::*;

pub mod mpris;
pub mod tautulli;
pub mod windows;

verus! {

/// Whether the player is playing.
#[derive(Debug, PartialEq, Eq, Structural, Clone, Copy)]
pub enum PlaybackState {
    PLAYING,
    PAUSED,
}

/// What kind of media is playing.
#[derive(Debug, PartialEq, Eq, Structural, Clone, Copy)]
pub enum MediaType {
    AUDIO,
    VIDEO,
    MIXED,
}

/// A now-playing record.
#[allow(non_snake_case)]
#[derive(Debug, PartialEq)]
pub struct MetadataProvider {
    pub title: String,
    pub aux_title: Option<String>,
    pub playback_state: Option<String>,
    /// How far playback has got.
    pub progress: Option<Duration>,
    pub state: Option<PlaybackState>,
    pub providerName: String,
    pub subproviderName: Option<String>,
    pub mediaType: MediaType,
    pub metadata_media: Option<String>,
}

} // verus!
