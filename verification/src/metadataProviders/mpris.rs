//! A now-playing record from an MPRIS player that names its first artist.
use vstd::prelude::*;

use super::{MediaType, MetadataProvider};

verus! {

/// The record of what an MPRIS player reports: "<title> - <first artist>" as the title,
/// the album as the auxiliary title, the player's identity as the subprovider, the art URL
/// as the media, mixed media, and no playback state or progress.
pub fn record_from_player(
    identity: String,
    title: String,
    artists: Vec<String>,
    album: String,
    art_url: String,
) -> (record: MetadataProvider)
    requires
        artists.len() > 0,
    ensures
        record.title@ == title@ + " - "@ + artists[0]@,
        record.aux_title.deep_view() == Some(album@),
        record.playback_state is None,
        record.progress is None,
        record.state is None,
        record.providerName@ == "MPRIS provider"@,
        record.subproviderName.deep_view() == Some(identity@),
        record.mediaType == MediaType::MIXED,
        record.metadata_media.deep_view() == Some(art_url@),
{
    let mut full_title = title;
    full_title.append(" - ");
    full_title.append(artists[0].as_str());
    MetadataProvider {
        title: full_title,
        aux_title: Some(album),
        playback_state: None,
        progress: None,
        state: None,
        providerName: String::from_str("MPRIS provider"),
        subproviderName: Some(identity),
        mediaType: MediaType::MIXED,
        metadata_media: Some(art_url),
    }
}

} // verus!
