use std::time::Duration;

use drp_rs::metadata_providers::{MediaType, Metadata};
use drp_rs::service::{
    activity_kind_and_image, build_activity, connect_decision, get_os_specific_provider,
    select_provider, service_step, ActivityKind, ConnectDecision, ProviderKind, ServiceAction,
    ServiceEvent, ServiceState, TargetOs, DELAY_TO_RECHECK,
};
use drp_rs::settings::AppSettings;

const CD: &str = "https://raw.githubusercontent.com/js5253/drp-rs/refs/heads/main/assets/CD.svg?token=GHSAT0AAAAAAEE36YXNCUT4XT5CS7BPZVE62UB6J5Q";
const MEDIA: &str = "https://raw.githubusercontent.com/js5253/drp-rs/refs/heads/main/assets/Media.svg?token=GHSAT0AAAAAAEE36YXNRCMTOTAZ2P3V46TQ2UB6MGQ";
const TV: &str = "https://raw.githubusercontent.com/js5253/drp-rs/refs/heads/main/assets/TV.svg?token=GHSAT0AAAAAAEE36YXNTSBLSWHMRP2GYJC42UB6KSQ";

fn song(title: &str) -> Metadata {
    Metadata {
        title: title.to_string(),
        aux_title: Some("Album".to_string()),
        progress: None,
        state: None,
        provider_name: "MPRIS provider".to_string(),
        subprovider_name: None,
        media_type: MediaType::AUDIO,
        metadata_media: None,
    }
}

fn shown(action: &ServiceAction) -> &drp_rs::service::PresenceActivity {
    match action {
        ServiceAction::Show(a) => a,
        other => panic!("expected an activity, got {:?}", other),
    }
}

#[test]
fn activity_for_audio() {
    let a = build_activity(&song("Song"), 7);
    assert_eq!(a.kind, ActivityKind::Listening);
    assert_eq!(a.name, "Listening to Song");
    assert_eq!(a.large_image, CD);
    assert_eq!(a.details, "Song - Album");
    assert_eq!(a.state, "00:07 played");
}

#[test]
fn activity_prefers_reported_progress_and_media() {
    let mut m = song("Clip");
    m.media_type = MediaType::MIXED;
    m.aux_title = None;
    m.progress = Some(Duration::from_millis(61_500));
    m.metadata_media = Some("http://cover".to_string());
    let a = build_activity(&m, 300);
    assert_eq!(a.kind, ActivityKind::Playing);
    assert_eq!(a.name, "Clip");
    assert_eq!(a.large_image, "http://cover");
    assert_eq!(a.details, "Clip - ");
    assert_eq!(a.state, "01:01 played");
}

#[test]
fn kinds_and_default_images() {
    let (k, img) = activity_kind_and_image(MediaType::AUDIO);
    assert_eq!((k, img.as_str()), (ActivityKind::Listening, CD));
    let (k, img) = activity_kind_and_image(MediaType::VIDEO);
    assert_eq!((k, img.as_str()), (ActivityKind::Watching, TV));
    let (k, img) = activity_kind_and_image(MediaType::MIXED);
    assert_eq!((k, img.as_str()), (ActivityKind::Playing, MEDIA));
}

#[test]
fn same_song_counts_up_by_delay() {
    let state = ServiceState::new();
    let (state, a1) = service_step(state, ServiceEvent::Polled(Some(song("Song"))));
    assert_eq!(shown(&a1).state, "00:00 played");
    assert_eq!(state.time_elapsed, DELAY_TO_RECHECK);
    let (state, a2) = service_step(state, ServiceEvent::Polled(Some(song("Song"))));
    assert_eq!(shown(&a2).state, "00:03 played");
    let (state, a3) = service_step(state, ServiceEvent::Polled(Some(song("Song"))));
    assert_eq!(shown(&a3).state, "00:06 played");
    assert_eq!(state.time_elapsed, 9);
    assert_eq!(state.time_elapsed % DELAY_TO_RECHECK, 0);
}

#[test]
fn new_song_restarts_count() {
    let state = ServiceState { time_elapsed: 30, prev_playing: Some(song("Old")) };
    let (state, a) = service_step(state, ServiceEvent::Polled(Some(song("New"))));
    assert_eq!(shown(&a).state, "00:00 played");
    assert_eq!(shown(&a).name, "Listening to New");
    assert_eq!(state.time_elapsed, 3);
    assert_eq!(state.prev_playing.unwrap().title, "New");
}

#[test]
fn nothing_playing_polls_again_and_keeps_last() {
    let state = ServiceState { time_elapsed: 30, prev_playing: Some(song("Old")) };
    let (state, a) = service_step(state, ServiceEvent::Polled(None));
    assert!(matches!(a, ServiceAction::PollAgain));
    assert_eq!(state.time_elapsed, 0);
    assert_eq!(state.prev_playing.unwrap().title, "Old");

    let (state, a) = service_step(ServiceState::new(), ServiceEvent::Polled(None));
    assert!(matches!(a, ServiceAction::PollAgain));
    assert_eq!(state.time_elapsed, 0);
    assert!(state.prev_playing.is_none());
}

#[test]
fn cancel_closes_and_keeps_state() {
    let state = ServiceState { time_elapsed: 12, prev_playing: Some(song("Old")) };
    let (state, a) = service_step(state, ServiceEvent::Cancelled);
    assert!(matches!(a, ServiceAction::Close));
    assert_eq!(state.time_elapsed, 12);
    assert_eq!(state.prev_playing.unwrap().title, "Old");
}

#[test]
fn provider_choice() {
    assert_eq!(get_os_specific_provider(TargetOs::Linux), Some(ProviderKind::Mpris));
    assert_eq!(get_os_specific_provider(TargetOs::Windows), Some(ProviderKind::Windows));
    assert_eq!(get_os_specific_provider(TargetOs::Other), None);
    let defaults = AppSettings::defaults();
    assert_eq!(select_provider(&defaults, TargetOs::Linux), Some(ProviderKind::Mpris));
    let mut other = AppSettings::defaults();
    other.metadata_sources = vec!["tautulli".to_string()];
    assert_eq!(select_provider(&other, TargetOs::Linux), None);
    other.metadata_sources = Vec::new();
    assert_eq!(select_provider(&other, TargetOs::Windows), None);
}

#[test]
fn connect_decisions() {
    assert_eq!(connect_decision(true, Duration::from_secs(1000)), ConnectDecision::Connected);
    assert_eq!(connect_decision(false, Duration::from_secs(60)), ConnectDecision::Retry);
    assert_eq!(connect_decision(false, Duration::from_nanos(60_000_000_001)), ConnectDecision::GiveUp);
    assert_eq!(connect_decision(false, Duration::ZERO), ConnectDecision::Retry);
}
