use std::time::Duration;

use drp_rs::metadataProviders::mpris::record_from_player;
use drp_rs::metadataProviders::tautulli::{user_sessions, TautulliSession};
use drp_rs::metadataProviders::MediaType as RecordMediaType;
use drp_rs::metadata_providers::mpris_parser::{MprisParser, PlayerSnapshot, ProcessTypes};
use drp_rs::metadata_providers::windows::WindowsParser;
use drp_rs::metadata_providers::{
    same_progress, same_text, MediaPlaybackType, MediaType, Metadata, MetadataProvider,
    PlaybackState, PlaybackStatus, SessionPlaybackStatus,
};
use drp_rs::settings::AppSettings;

fn parser() -> MprisParser {
    MprisParser::new(Some(ProcessTypes {
        music: vec!["Spotify".to_string(), "Both".to_string()],
        video: vec!["mpv".to_string(), "Both".to_string()],
    }))
}

fn snapshot(identity: &str) -> PlayerSnapshot {
    PlayerSnapshot {
        identity: identity.to_string(),
        status: Some(PlaybackStatus::Playing),
        position: Some(Duration::from_secs(42)),
        title: Some("Song".to_string()),
        artists: Some(vec!["A".to_string(), "B".to_string()]),
        album: Some("Album".to_string()),
        art_url: Some("file:///art.png".to_string()),
    }
}

#[test]
fn mpris_metadata_fields() {
    let m = parser().metadata_from_player(snapshot("Spotify")).unwrap();
    assert_eq!(m.title, "Song - A, B");
    assert_eq!(m.aux_title, Some("Album".to_string()));
    assert_eq!(m.progress, Some(Duration::from_secs(42)));
    assert_eq!(m.state, Some(PlaybackState::PLAYING));
    assert_eq!(m.provider_name, "MPRIS provider");
    assert_eq!(m.subprovider_name, Some("Spotify".to_string()));
    assert_eq!(m.media_type, MediaType::AUDIO);
    assert_eq!(m.metadata_media, Some("file:///art.png".to_string()));
}

#[test]
fn mpris_without_title_gives_nothing() {
    let mut s = snapshot("Spotify");
    s.title = None;
    assert!(parser().metadata_from_player(s).is_none());
}

#[test]
fn mpris_without_artist_keeps_bare_title() {
    let mut s = snapshot("Spotify");
    s.artists = None;
    assert_eq!(parser().metadata_from_player(s).unwrap().title, "Song");
}

#[test]
fn mpris_with_empty_artist_list() {
    let mut s = snapshot("Spotify");
    s.artists = Some(Vec::new());
    assert_eq!(parser().metadata_from_player(s).unwrap().title, "Song - ");
}

#[test]
fn mpris_zero_position_is_no_progress() {
    let mut s = snapshot("Spotify");
    s.position = Some(Duration::ZERO);
    assert_eq!(parser().metadata_from_player(s).unwrap().progress, None);
    let mut s = snapshot("Spotify");
    s.position = Some(Duration::from_nanos(1));
    assert_eq!(parser().metadata_from_player(s).unwrap().progress, Some(Duration::from_nanos(1)));
}

#[test]
fn mpris_media_type_by_identity() {
    let p = parser();
    assert_eq!(p.media_type_of(&"Spotify".to_string()), MediaType::AUDIO);
    assert_eq!(p.media_type_of(&"mpv".to_string()), MediaType::VIDEO);
    assert_eq!(p.media_type_of(&"Both".to_string()), MediaType::AUDIO);
    assert_eq!(p.media_type_of(&"firefox".to_string()), MediaType::MIXED);
}

#[test]
fn mpris_without_process_types_knows_no_player() {
    let p = MprisParser::new(None);
    assert_eq!(p.media_type_of(&"Spotify".to_string()), MediaType::MIXED);
    let m = p.metadata_from_player(snapshot("Spotify")).unwrap();
    assert_eq!(m.media_type, MediaType::MIXED);
}

#[test]
fn mpris_status_states() {
    assert_eq!(PlaybackState::from(PlaybackStatus::Playing), PlaybackState::PLAYING);
    assert_eq!(PlaybackState::from(PlaybackStatus::Paused), PlaybackState::PAUSED);
    assert_eq!(PlaybackState::from(PlaybackStatus::Stopped), PlaybackState::STOPPED);
    let mut s = snapshot("x");
    s.status = None;
    assert_eq!(parser().metadata_from_player(s).unwrap().state, None);
}

#[test]
fn windows_status_codes() {
    assert_eq!(PlaybackState::from(SessionPlaybackStatus(4)), PlaybackState::PLAYING);
    assert_eq!(PlaybackState::from(SessionPlaybackStatus(5)), PlaybackState::PAUSED);
    assert_eq!(PlaybackState::from(SessionPlaybackStatus(0)), PlaybackState::UNKNOWN);
    assert_eq!(PlaybackState::from(SessionPlaybackStatus(-1)), PlaybackState::UNKNOWN);
    assert_eq!(MediaType::from(MediaPlaybackType(1)), MediaType::VIDEO);
    assert_eq!(MediaType::from(MediaPlaybackType(2)), MediaType::AUDIO);
    assert_eq!(MediaType::from(MediaPlaybackType(0)), MediaType::MIXED);
    assert_eq!(MediaType::from(MediaPlaybackType(3)), MediaType::MIXED);
}

#[test]
fn windows_session_metadata() {
    let m = WindowsParser::metadata_from_session(
        "Title".to_string(),
        "Artist".to_string(),
        SessionPlaybackStatus(5),
        MediaPlaybackType(2),
    );
    assert_eq!(m.title, "Title");
    assert_eq!(m.aux_title, Some("Artist".to_string()));
    assert_eq!(m.state, Some(PlaybackState::PAUSED));
    assert_eq!(m.progress, None);
    assert_eq!(m.provider_name, "Windows Media");
    assert_eq!(m.subprovider_name, None);
    assert_eq!(m.media_type, MediaType::AUDIO);
    assert_eq!(m.metadata_media, None);
}

#[test]
fn windows_provider_reports_nothing() {
    let settings = AppSettings::defaults();
    assert!(WindowsParser::default().get_playing_metadata(&settings).is_none());
}

fn sample() -> Metadata {
    parser().metadata_from_player(snapshot("Spotify")).unwrap()
}

#[test]
fn same_as_compares_every_field() {
    assert!(sample().same_as(&sample()));
    let mut other = sample();
    other.progress = Some(Duration::from_millis(42_001));
    assert!(!sample().same_as(&other));
    let mut other = sample();
    other.aux_title = None;
    assert!(!sample().same_as(&other));
    let mut other = sample();
    other.state = Some(PlaybackState::PAUSED);
    assert!(!sample().same_as(&other));
    let mut other = sample();
    other.title.push('!');
    assert!(!sample().same_as(&other));
}

#[test]
fn same_progress_and_text() {
    assert!(same_progress(&Some(Duration::from_secs(1)), &Some(Duration::from_millis(1000))));
    assert!(!same_progress(&Some(Duration::from_secs(1)), &Some(Duration::from_nanos(999_999_999))));
    assert!(!same_progress(&Some(Duration::ZERO), &None));
    assert!(same_progress(&None, &None));
    assert!(same_text(&Some("a".to_string()), &Some("a".to_string())));
    assert!(!same_text(&Some("a".to_string()), &None));
}

#[test]
fn single_artist_record() {
    let r = record_from_player(
        "vlc".to_string(),
        "Song".to_string(),
        vec!["First".to_string(), "Second".to_string()],
        "Album".to_string(),
        "http://art".to_string(),
    );
    assert_eq!(r.title, "Song - First");
    assert_eq!(r.aux_title, Some("Album".to_string()));
    assert_eq!(r.providerName, "MPRIS provider");
    assert_eq!(r.subproviderName, Some("vlc".to_string()));
    assert_eq!(r.mediaType, RecordMediaType::MIXED);
    assert_eq!(r.metadata_media, Some("http://art".to_string()));
    assert!(r.playback_state.is_none() && r.progress.is_none() && r.state.is_none());
}

fn session(user: &str) -> TautulliSession {
    TautulliSession {
        user: user.to_string(),
        full_title: "Film".to_string(),
        progress_percent: 10,
        state: "playing".to_string(),
        media_type: "movie".to_string(),
    }
}

#[test]
fn tautulli_sessions_of_user() {
    let sessions = vec![session("ann"), session("bob"), session("ann")];
    assert_eq!(user_sessions(&sessions, &"ann".to_string()), vec![0, 2]);
    assert_eq!(user_sessions(&sessions, &"bob".to_string()), vec![1]);
    assert!(user_sessions(&sessions, &"eve".to_string()).is_empty());
    assert!(user_sessions(&Vec::new(), &"ann".to_string()).is_empty());
}
