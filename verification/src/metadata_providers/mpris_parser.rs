//! Metadata from an MPRIS media player.
use std::time::Duration;
use vstd::prelude::*;

use crate::metadata_providers::{
    progress_nanos, state_of_status, MediaType, Metadata, MetadataView, PlaybackState,
    PlaybackStatus,
};
use crate::time::{duration_as_nanos, duration_nanos};
use crate::util::{contains_text, join_texts, joined};

verus! {

/// The player identities that play music and those that play video.
#[derive(Debug)]
pub struct ProcessTypes {
    pub music: Vec<String>,
    pub video: Vec<String>,
}

/// Reads now-playing metadata from MPRIS players, and tells music players from video
/// players by their identity.
pub struct MprisParser {
    process_types: ProcessTypes,
}

/// What an MPRIS player reports: its identity, its playback status and position, and the
/// fields of its metadata that the parser reads.
#[derive(Debug)]
pub struct PlayerSnapshot {
    pub identity: String,
    pub status: Option<PlaybackStatus>,
    pub position: Option<Duration>,
    /// `xesam:title`
    pub title: Option<String>,
    /// `xesam:artist`
    pub artists: Option<Vec<String>>,
    /// `xesam:album`
    pub album: Option<String>,
    /// `mpris:artUrl`
    pub art_url: Option<String>,
}

/// The media type of a player: audio if its identity is among the music players, else
/// video if it is among the video players, else mixed.
pub open spec fn media_type_of_player(
    music: Seq<Seq<char>>,
    video: Seq<Seq<char>>,
    identity: Seq<char>,
) -> MediaType {
    if music.contains(identity) {
        MediaType::AUDIO
    } else if video.contains(identity) {
        MediaType::VIDEO
    } else {
        MediaType::MIXED
    }
}

/// The title shown for a track: the title, followed by " - " and the artists joined by
/// ", " when the player names artists.
pub open spec fn track_title(title: Seq<char>, artists: Option<Seq<Seq<char>>>) -> Seq<char> {
    match artists {
        None => title,
        Some(names) => title + " - "@ + joined(names, ", "@),
    }
}

/// The position, unless it is zero.
pub open spec fn nonzero_progress(position: Option<Duration>) -> Option<nat> {
    match progress_nanos(position) {
        Some(n) => if n == 0 {
            None
        } else {
            Some(n)
        },
        None => None,
    }
}

/// The metadata of what a player reports, or none when it reports no title.
pub open spec fn player_metadata(
    music: Seq<Seq<char>>,
    video: Seq<Seq<char>>,
    player: PlayerSnapshot,
) -> Option<MetadataView> {
    match player.title {
        None => None,
        Some(title) => Some(
            MetadataView {
                title: track_title(title@, player.artists.deep_view()),
                aux_title: player.album.deep_view(),
                progress: nonzero_progress(player.position),
                state: match player.status {
                    Some(s) => Some(state_of_status(s)),
                    None => None,
                },
                provider_name: "MPRIS provider"@,
                subprovider_name: Some(player.identity@),
                media_type: media_type_of_player(music, video, player.identity@),
                metadata_media: player.art_url.deep_view(),
            },
        ),
    }
}

impl View for MprisParser {
    type V = (Seq<Seq<char>>, Seq<Seq<char>>);

    /// The music players and the video players.
    closed spec fn view(&self) -> (Seq<Seq<char>>, Seq<Seq<char>>) {
        (self.process_types.music.deep_view(), self.process_types.video.deep_view())
    }
}

impl MprisParser {
    /// A parser that knows the players of `process_types`, or no players at all when the
    /// process types could not be read.
    pub fn new(process_types: Option<ProcessTypes>) -> (parser: MprisParser)
        ensures
            process_types matches Some(p) ==> parser@ == (
                p.music.deep_view(),
                p.video.deep_view(),
            ),
            process_types is None ==> parser@ == (Seq::<Seq<char>>::empty(), Seq::<Seq<char>>::empty()),
    {
        let ghost given = process_types;
        let known = match process_types {
            Some(p) => p,
            None => ProcessTypes { music: Vec::new(), video: Vec::new() },
        };
        let parser = MprisParser { process_types: known };
        assert(given is None ==> parser@.0 =~= Seq::<Seq<char>>::empty());
        assert(given is None ==> parser@.1 =~= Seq::<Seq<char>>::empty());
        parser
    }

    /// The media type of the player called `identity`.
    pub fn media_type_of(&self, identity: &String) -> (media_type: MediaType)
        ensures
            media_type == media_type_of_player(self@.0, self@.1, identity@),
            self@.0.contains(identity@) ==> media_type == MediaType::AUDIO,
            !self@.0.contains(identity@) && self@.1.contains(identity@) ==> media_type
                == MediaType::VIDEO,
            !self@.0.contains(identity@) && !self@.1.contains(identity@) ==> media_type
                == MediaType::MIXED,
    {
        if contains_text(&self.process_types.music, identity) {
            MediaType::AUDIO
        } else if contains_text(&self.process_types.video, identity) {
            MediaType::VIDEO
        } else {
            MediaType::MIXED
        }
    }

    /// The metadata of what an MPRIS player reports: none when it reports no title;
    /// otherwise the track title with its artists, the album, the position unless it is
    /// zero, the playback state, the player's identity as the subprovider, the media type
    /// of the player and the art URL.
    pub fn metadata_from_player(&self, player: PlayerSnapshot) -> (metadata: Option<Metadata>)
        ensures
            player.title is None <==> metadata is None,
            metadata matches Some(m) ==> Some(m@) == player_metadata(self@.0, self@.1, player),
            metadata matches Some(m) ==> {
                &&& player.status == Some(PlaybackStatus::Playing) ==> m.state == Some(
                    PlaybackState::PLAYING,
                )
                &&& player.status == Some(PlaybackStatus::Paused) ==> m.state == Some(
                    PlaybackState::PAUSED,
                )
                &&& player.status == Some(PlaybackStatus::Stopped) ==> m.state == Some(
                    PlaybackState::STOPPED,
                )
                &&& player.status is None ==> m.state is None
                &&& player.artists is None ==> m.title@ == player.title.unwrap()@
                &&& player.artists matches Some(names) ==> m.title@ == player.title.unwrap()@
                    + " - "@ + joined(names.deep_view(), ", "@)
                &&& m.aux_title.deep_view() == player.album.deep_view()
                &&& m.metadata_media.deep_view() == player.art_url.deep_view()
                &&& m.subprovider_name.deep_view() == Some(player.identity@)
                &&& m.provider_name@ == "MPRIS provider"@
                &&& (player.position matches Some(d) && duration_nanos(d) != 0) ==> m.progress
                    == player.position
                &&& !(player.position matches Some(d) && duration_nanos(d) != 0)
                    ==> m.progress is None
                &&& self@.0.contains(player.identity@) ==> m.media_type == MediaType::AUDIO
                &&& !self@.0.contains(player.identity@) && self@.1.contains(player.identity@)
                    ==> m.media_type == MediaType::VIDEO
                &&& !self@.0.contains(player.identity@) && !self@.1.contains(player.identity@)
                    ==> m.media_type == MediaType::MIXED
            },
    {
        let ghost p = player;
        let PlayerSnapshot { identity, status, position, title, artists, album, art_url } = player;
        let media_type = self.media_type_of(&identity);
        let title = match title {
            Some(t) => t,
            None => {
                return None;
            },
        };
        let formatted_title = match artists {
            None => title.clone(),
            Some(names) => {
                let artist = join_texts(&names, ", ");
                let mut t = title.clone();
                t.append(" - ");
                t.append(artist.as_str());
                t
            },
        };
        let progress = match position {
            Some(d) => if duration_as_nanos(&d) == 0 {
                None
            } else {
                Some(d)
            },
            None => None,
        };
        let state = match status {
            Some(s) => Some(PlaybackState::from(s)),
            None => None,
        };
        let metadata = Metadata {
            title: formatted_title,
            aux_title: album,
            progress,
            state,
            provider_name: String::from_str("MPRIS provider"),
            subprovider_name: Some(identity),
            media_type,
            metadata_media: art_url,
        };
        assert(metadata@ == player_metadata(self@.0, self@.1, p).unwrap());
        Some(metadata)
    }
}

} // verus!

verus! {

/// The metadata of a player report, field by field: the playback state is the player's
/// status, each status giving its own state; the title is the reported title, with " - "
/// and the artists joined by ", " when artists are named; album, art URL and identity
/// are carried over; the progress is the position when it is not zero; music players
/// play audio, other video players video, and any other player mixed media.
pub proof fn lemma_player_metadata_fields(
    music: Seq<Seq<char>>,
    video: Seq<Seq<char>>,
    player: PlayerSnapshot,
)
    ensures
        player.title is None <==> player_metadata(music, video, player) is None,
        player_metadata(music, video, player) matches Some(m) ==> {
            &&& player.status == Some(PlaybackStatus::Playing) ==> m.state == Some(
                PlaybackState::PLAYING,
            )
            &&& player.status == Some(PlaybackStatus::Paused) ==> m.state == Some(
                PlaybackState::PAUSED,
            )
            &&& player.status == Some(PlaybackStatus::Stopped) ==> m.state == Some(
                PlaybackState::STOPPED,
            )
            &&& player.status is None ==> m.state is None
            &&& player.artists is None ==> m.title == player.title.unwrap()@
            &&& player.artists matches Some(names) ==> m.title == player.title.unwrap()@ + " - "@
                + joined(names.deep_view(), ", "@)
            &&& m.aux_title == player.album.deep_view()
            &&& m.metadata_media == player.art_url.deep_view()
            &&& m.subprovider_name == Some(player.identity@)
            &&& m.provider_name == "MPRIS provider"@
            &&& player.position matches Some(d) ==> (duration_nanos(d) == 0 ==> m.progress is None)
                && (duration_nanos(d) != 0 ==> m.progress == Some(duration_nanos(d)))
            &&& player.position is None ==> m.progress is None
            &&& music.contains(player.identity@) ==> m.media_type == MediaType::AUDIO
            &&& !music.contains(player.identity@) && video.contains(player.identity@)
                ==> m.media_type == MediaType::VIDEO
            &&& !music.contains(player.identity@) && !video.contains(player.identity@)
                ==> m.media_type == MediaType::MIXED
        },
{
}

} // verus!
