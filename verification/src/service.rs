//! The decisions of the presence service: which metadata source to use, when to give up
//! waiting for Discord, and what to show after each poll of the source.
use std::time::Duration;
use vstd::prelude::*;

use crate::metadata_providers::{MediaType, Metadata, MetadataView};
use crate::settings::AppSettings;
use crate::time::{duration_as_nanos, duration_nanos, whole_secs, NANOS_PER_SEC};
use crate::util::{action_text, clock_text, format_clock, get_action_string};

verus! {

/// Seconds between two polls of the metadata source.
pub const DELAY_TO_RECHECK: u64 = 3;

/// Seconds to keep trying to reach Discord before giving up.
pub const IPC_WAITING_TIMEOUT_SECS: u64 = 60;

/// The operating system the service runs on.
#[derive(Debug, PartialEq, Eq, Structural, Clone, Copy)]
pub enum TargetOs {
    Linux,
    Windows,
    Other,
}

/// A source of now-playing metadata.
#[derive(Debug, PartialEq, Eq, Structural, Clone, Copy)]
pub enum ProviderKind {
    Mpris,
    Windows,
}

/// The native source of an operating system: MPRIS on Linux, the media session on
/// Windows, none elsewhere.
pub open spec fn os_provider(os: TargetOs) -> Option<ProviderKind> {
    match os {
        TargetOs::Linux => Some(ProviderKind::Mpris),
        TargetOs::Windows => Some(ProviderKind::Windows),
        TargetOs::Other => None,
    }
}

/// The native metadata source of `os`.
pub fn get_os_specific_provider(os: TargetOs) -> (provider: Option<ProviderKind>)
    ensures
        provider == os_provider(os),
        os == TargetOs::Linux ==> provider == Some(ProviderKind::Mpris),
        os == TargetOs::Windows ==> provider == Some(ProviderKind::Windows),
        os == TargetOs::Other ==> provider is None,
{
    match os {
        TargetOs::Linux => Some(ProviderKind::Mpris),
        TargetOs::Windows => Some(ProviderKind::Windows),
        TargetOs::Other => None,
    }
}

/// The source the service polls: the native one of `os` when the settings ask for the
/// native now-playing source, none otherwise.
pub fn select_provider(settings: &AppSettings, os: TargetOs) -> (provider: Option<
    ProviderKind,
>)
    ensures
        provider == (if settings.metadata_sources.deep_view().contains(
            crate::settings::native_now_playing(),
        ) {
            os_provider(os)
        } else {
            None
        }),
{
    if settings.uses_native_now_playing() {
        get_os_specific_provider(os)
    } else {
        None
    }
}

/// What to do after an attempt to connect to Discord.
#[derive(Debug, PartialEq, Eq, Structural, Clone, Copy)]
pub enum ConnectDecision {
    Connected,
    Retry,
    GiveUp,
}

/// After an attempt to connect, `elapsed` after the first: done when it connected, give
/// up when it failed and more than the timeout has passed, try again otherwise.
pub fn connect_decision(connected: bool, elapsed: Duration) -> (decision: ConnectDecision)
    ensures
        connected ==> decision == ConnectDecision::Connected,
        !connected && duration_nanos(elapsed) > IPC_WAITING_TIMEOUT_SECS * NANOS_PER_SEC
            ==> decision == ConnectDecision::GiveUp,
        !connected && duration_nanos(elapsed) <= IPC_WAITING_TIMEOUT_SECS * NANOS_PER_SEC
            ==> decision == ConnectDecision::Retry,
{
    if connected {
        ConnectDecision::Connected
    } else if duration_as_nanos(&elapsed) > (IPC_WAITING_TIMEOUT_SECS as u128) * (
    NANOS_PER_SEC as u128) {
        ConnectDecision::GiveUp
    } else {
        ConnectDecision::Retry
    }
}

/// The kind of Discord activity.
#[derive(Debug, PartialEq, Eq, Structural, Clone, Copy)]
pub enum ActivityKind {
    Listening,
    Watching,
    Playing,
}

/// The Discord activity that the service shows.
#[derive(Debug)]
pub struct PresenceActivity {
    pub kind: ActivityKind,
    pub name: String,
    pub large_image: String,
    pub details: String,
    pub state: String,
}

/// The activity kind of a media type: listening to audio, watching video, playing mixed
/// media.
pub open spec fn activity_kind_of(media_type: MediaType) -> ActivityKind {
    match media_type {
        MediaType::AUDIO => ActivityKind::Listening,
        MediaType::VIDEO => ActivityKind::Watching,
        MediaType::MIXED => ActivityKind::Playing,
    }
}

/// The image shown for a media type when the metadata names none.
pub open spec fn default_image_of(media_type: MediaType) -> Seq<char> {
    match media_type {
        MediaType::AUDIO => "https://raw.githubusercontent.com/js5253/drp-rs/refs/heads/main/assets/CD.svg?token=GHSAT0AAAAAAEE36YXNCUT4XT5CS7BPZVE62UB6J5Q"@,
        MediaType::VIDEO => "https://raw.githubusercontent.com/js5253/drp-rs/refs/heads/main/assets/TV.svg?token=GHSAT0AAAAAAEE36YXNTSBLSWHMRP2GYJC42UB6KSQ"@,
        MediaType::MIXED => "https://raw.githubusercontent.com/js5253/drp-rs/refs/heads/main/assets/Media.svg?token=GHSAT0AAAAAAEE36YXNRCMTOTAZ2P3V46TQ2UB6MGQ"@,
    }
}

/// The activity kind and default image of a media type.
pub fn activity_kind_and_image(media_type: MediaType) -> (r: (ActivityKind, String))
    ensures
        r.0 == activity_kind_of(media_type),
        r.1@ == default_image_of(media_type),
        media_type == MediaType::AUDIO ==> r.0 == ActivityKind::Listening && r.1@
            == "https://raw.githubusercontent.com/js5253/drp-rs/refs/heads/main/assets/CD.svg?token=GHSAT0AAAAAAEE36YXNCUT4XT5CS7BPZVE62UB6J5Q"@,
        media_type == MediaType::VIDEO ==> r.0 == ActivityKind::Watching && r.1@
            == "https://raw.githubusercontent.com/js5253/drp-rs/refs/heads/main/assets/TV.svg?token=GHSAT0AAAAAAEE36YXNTSBLSWHMRP2GYJC42UB6KSQ"@,
        media_type == MediaType::MIXED ==> r.0 == ActivityKind::Playing && r.1@
            == "https://raw.githubusercontent.com/js5253/drp-rs/refs/heads/main/assets/Media.svg?token=GHSAT0AAAAAAEE36YXNRCMTOTAZ2P3V46TQ2UB6MGQ"@,
{
    match media_type {
        MediaType::AUDIO => (ActivityKind::Listening, String::from_str("https://raw.githubusercontent.com/js5253/drp-rs/refs/heads/main/assets/CD.svg?token=GHSAT0AAAAAAEE36YXNCUT4XT5CS7BPZVE62UB6J5Q")),
        MediaType::VIDEO => (ActivityKind::Watching, String::from_str("https://raw.githubusercontent.com/js5253/drp-rs/refs/heads/main/assets/TV.svg?token=GHSAT0AAAAAAEE36YXNTSBLSWHMRP2GYJC42UB6KSQ")),
        MediaType::MIXED => (ActivityKind::Playing, String::from_str("https://raw.githubusercontent.com/js5253/drp-rs/refs/heads/main/assets/Media.svg?token=GHSAT0AAAAAAEE36YXNRCMTOTAZ2P3V46TQ2UB6MGQ")),
    }
}

/// The seconds that the activity shows as played: the progress that the metadata
/// reports, else the seconds the service has counted for it.
pub open spec fn shown_secs(progress: Option<nat>, time_elapsed: nat) -> nat {
    match progress {
        Some(n) => whole_secs(n),
        None => time_elapsed,
    }
}

/// Whether `activity` is what the service shows for `metadata` after `time_elapsed`
/// seconds: the kind and the default image of its media type, its title as the name,
/// its media URL (else the default image) as the large image, "<title> - <aux title>" as
/// the details and "<MM:SS> played" as the state.
pub open spec fn shows(activity: PresenceActivity, metadata: MetadataView, time_elapsed: nat) -> bool {
    &&& activity.kind == activity_kind_of(metadata.media_type)
    &&& activity.name@ == action_text(metadata.media_type, metadata.title)
    &&& activity.large_image@ == match metadata.metadata_media {
        Some(url) => url,
        None => default_image_of(metadata.media_type),
    }
    &&& activity.details@ == metadata.title + " - "@ + match metadata.aux_title {
        Some(aux) => aux,
        None => Seq::<char>::empty(),
    }
    &&& activity.state@ == clock_text(shown_secs(metadata.progress, time_elapsed)) + " played"@
}

/// The activity shown for `metadata` after `time_elapsed` seconds. Video has no activity
/// name yet.
pub fn build_activity(metadata: &Metadata, time_elapsed: u64) -> (activity: PresenceActivity)
    requires
        metadata.media_type != MediaType::VIDEO,
    ensures
        shows(activity, metadata@, time_elapsed as nat),
        metadata.progress matches Some(d) ==> activity.state@ == clock_text(
            duration_nanos(d) / (NANOS_PER_SEC as nat),
        ) + " played"@,
        metadata.progress is None ==> activity.state@ == clock_text(time_elapsed as nat)
            + " played"@,
        metadata.metadata_media matches Some(url) ==> activity.large_image@ == url@,
        metadata.metadata_media is None ==> activity.large_image@ == default_image_of(
            metadata.media_type,
        ),
        metadata.aux_title matches Some(aux) ==> activity.details@ == metadata.title@ + " - "@
            + aux@,
        metadata.aux_title is None ==> activity.details@ == metadata.title@ + " - "@,
        metadata.media_type == MediaType::AUDIO ==> activity.kind == ActivityKind::Listening
            && activity.name@ == "Listening to "@ + metadata.title@,
        metadata.media_type == MediaType::MIXED ==> activity.kind == ActivityKind::Playing
            && activity.name@ == metadata.title@,
{
    let (kind, default_image) = activity_kind_and_image(metadata.media_type);
    let name = get_action_string(&metadata.media_type, metadata.title.clone());
    let large_image = match &metadata.metadata_media {
        Some(url) => url.clone(),
        None => default_image,
    };
    let mut details = metadata.title.clone();
    details.append(" - ");
    match &metadata.aux_title {
        Some(aux) => details.append(aux.as_str()),
        None => {},
    }
    let seconds = match &metadata.progress {
        Some(d) => crate::time::duration_as_secs(d),
        None => time_elapsed,
    };
    let mut state = format_clock(seconds);
    state.append(" played");
    let activity = PresenceActivity { kind, name, large_image, details, state };
    proof {
        if metadata.aux_title is None {
            assert(activity.details@ =~= metadata.title@ + " - "@ + Seq::<char>::empty());
        }
    }
    activity
}

/// The state of the service between two polls: the seconds counted for what is playing
/// and what the last poll that found something found.
#[derive(Debug)]
pub struct ServiceState {
    pub time_elapsed: u64,
    pub prev_playing: Option<Metadata>,
}

/// What the service learns before it decides.
#[derive(Debug)]
pub enum ServiceEvent {
    /// The service was asked to stop.
    Cancelled,
    /// The metadata source was polled, with this result.
    Polled(Option<Metadata>),
}

/// What the service does next.
#[derive(Debug)]
pub enum ServiceAction {
    /// Close the connection to Discord and stop.
    Close,
    /// Poll the source again at once.
    PollAgain,
    /// Show this activity, wait `DELAY_TO_RECHECK` seconds, then poll again.
    Show(PresenceActivity),
}

/// The contents of optional metadata.
pub open spec fn playing_view(playing: Option<Metadata>) -> Option<MetadataView> {
    match playing {
        Some(m) => Some(m@),
        None => None,
    }
}

/// The seconds counted for what a poll found: kept while it is what was found before,
/// restarted from zero when it changed.
pub open spec fn counted_secs(state: ServiceState, found: Option<Metadata>) -> nat {
    if playing_view(found) == playing_view(state.prev_playing) {
        state.time_elapsed as nat
    } else {
        0
    }
}

/// The events on which the service can take a step: a poll that finds video has no
/// activity name yet, and the seconds counted must not run past `u64::MAX`.
pub open spec fn step_defined(state: ServiceState, event: ServiceEvent) -> bool {
    match event {
        ServiceEvent::Cancelled => true,
        ServiceEvent::Polled(found) => match found {
            None => true,
            Some(m) => m.media_type != MediaType::VIDEO && counted_secs(state, found)
                + DELAY_TO_RECHECK <= u64::MAX,
        },
    }
}

/// One step of the service: on cancellation it closes and keeps its state; after a poll
/// it restarts the count when the metadata changed, polls again at once when nothing
/// plays, and otherwise shows the activity for the metadata and the count, then counts
/// `DELAY_TO_RECHECK` more seconds and remembers the metadata.
pub open spec fn service_transition(
    state: ServiceState,
    event: ServiceEvent,
    next: ServiceState,
    action: ServiceAction,
) -> bool {
    match event {
        ServiceEvent::Cancelled => next == state && action is Close,
        ServiceEvent::Polled(found) => {
            let t = counted_secs(state, found);
            match found {
                None => {
                    &&& next.time_elapsed == t
                    &&& next.prev_playing == state.prev_playing
                    &&& action is PollAgain
                },
                Some(m) => {
                    &&& next.time_elapsed == t + DELAY_TO_RECHECK
                    &&& next.prev_playing == found
                    &&& action matches ServiceAction::Show(a) && shows(a, m@, t)
                },
            }
        },
    }
}

/// Whether two optional metadata are both absent or both present with the same contents.
pub fn same_playing(a: &Option<Metadata>, b: &Option<Metadata>) -> (r: bool)
    ensures
        r == (playing_view(*a) == playing_view(*b)),
{
    match (a, b) {
        (Some(x), Some(y)) => x.same_as(y),
        (None, None) => true,
        _ => false,
    }
}

/// The seconds counted for what a poll found, given the state before the poll.
pub fn counted_time(state: &ServiceState, found: &Option<Metadata>) -> (t: u64)
    ensures
        t == counted_secs(*state, *found),
        found is None && state.prev_playing is None ==> t == state.time_elapsed,
        found is None && state.prev_playing is Some ==> t == 0,
        found is Some && state.prev_playing is None ==> t == 0,
        found matches Some(f) ==> (state.prev_playing matches Some(p) ==> t == (if f@ == p@ {
            state.time_elapsed
        } else {
            0
        })),
{
    if same_playing(found, &state.prev_playing) {
        state.time_elapsed
    } else {
        0
    }
}

impl ServiceState {
    /// The state before the first poll: nothing counted, nothing found.
    pub fn new() -> (state: ServiceState)
        ensures
            state.time_elapsed == 0,
            state.prev_playing is None,
    {
        ServiceState { time_elapsed: 0, prev_playing: None }
    }
}

/// Takes one step of the service.
pub fn service_step(state: ServiceState, event: ServiceEvent) -> (r: (ServiceState, ServiceAction))
    requires
        step_defined(state, event),
    ensures
        service_transition(state, event, r.0, r.1),
        event is Cancelled ==> r.0 == state && r.1 is Close,
        event == ServiceEvent::Polled(None) ==> r.1 is PollAgain && r.0.prev_playing
            == state.prev_playing && r.0.time_elapsed == (if state.prev_playing is None {
            state.time_elapsed
        } else {
            0
        }),
        event matches ServiceEvent::Polled(Some(m)) ==> {
            let t: nat = if state.prev_playing matches Some(p) && p@ == m@ {
                state.time_elapsed as nat
            } else {
                0
            };
            &&& r.0.prev_playing == Some(m)
            &&& r.0.time_elapsed == t + 3
            &&& r.1 matches ServiceAction::Show(a) && shows(a, m@, t)
        },
{
    let ghost old_state = state;
    match event {
        ServiceEvent::Cancelled => (state, ServiceAction::Close),
        ServiceEvent::Polled(found) => {
            let time_elapsed = counted_time(&state, &found);
            let prev_playing = state.prev_playing;
            match found {
                None => (ServiceState { time_elapsed, prev_playing }, ServiceAction::PollAgain),
                Some(metadata) => {
                    let activity = build_activity(&metadata, time_elapsed);
                    (
                        ServiceState {
                            time_elapsed: time_elapsed + DELAY_TO_RECHECK,
                            prev_playing: Some(metadata),
                        },
                        ServiceAction::Show(activity),
                    )
                },
            }
        },
    }
}

} // verus!

verus! {

/// The service polls every three seconds and gives Discord one minute.
pub proof fn lemma_service_timings()
    ensures
        DELAY_TO_RECHECK == 3,
        IPC_WAITING_TIMEOUT_SECS * NANOS_PER_SEC == 60_000_000_000,
{
}

/// Each media type has its own activity kind: audio is listened to, video watched, and
/// mixed media played.
pub proof fn lemma_activity_kinds()
    ensures
        activity_kind_of(MediaType::AUDIO) == ActivityKind::Listening,
        activity_kind_of(MediaType::VIDEO) == ActivityKind::Watching,
        activity_kind_of(MediaType::MIXED) == ActivityKind::Playing,
{
}

/// The count of seconds only ever grows by whole polling delays: from a count that is a
/// multiple of `DELAY_TO_RECHECK`, every step leads to a count that is one too.
pub proof fn lemma_count_stays_multiple_of_delay(
    state: ServiceState,
    event: ServiceEvent,
    next: ServiceState,
    action: ServiceAction,
)
    requires
        service_transition(state, event, next, action),
        state.time_elapsed % DELAY_TO_RECHECK == 0,
    ensures
        next.time_elapsed % DELAY_TO_RECHECK == 0,
{
}

/// When a poll finds something other than what the last poll found, the activity counts
/// from zero, and the service has counted one delay once it is shown.
pub proof fn lemma_change_restarts_count(
    state: ServiceState,
    found: Metadata,
    next: ServiceState,
    action: ServiceAction,
)
    requires
        service_transition(state, ServiceEvent::Polled(Some(found)), next, action),
        playing_view(Some(found)) != playing_view(state.prev_playing),
    ensures
        next.time_elapsed == DELAY_TO_RECHECK,
        action matches ServiceAction::Show(a) && shows(a, found@, 0),
{
}

/// Two polls in a row that find the same thing show it with counts one delay apart, and
/// the service remembers it.
pub proof fn lemma_same_item_advances_by_delay(
    s0: ServiceState,
    first: Metadata,
    s1: ServiceState,
    a1: ServiceAction,
    second: Metadata,
    s2: ServiceState,
    a2: ServiceAction,
)
    requires
        service_transition(s0, ServiceEvent::Polled(Some(first)), s1, a1),
        service_transition(s1, ServiceEvent::Polled(Some(second)), s2, a2),
        first@ == second@,
    ensures
        a1 matches ServiceAction::Show(x) && shows(x, first@, (s1.time_elapsed - DELAY_TO_RECHECK) as nat),
        a2 matches ServiceAction::Show(y) && shows(y, second@, s1.time_elapsed as nat),
        s2.time_elapsed == s1.time_elapsed + DELAY_TO_RECHECK,
        s2.prev_playing == Some(second),
{
}

/// A poll that finds nothing shows nothing and forgets nothing: the service polls again
/// and still remembers what it found last.
pub proof fn lemma_nothing_playing_keeps_last(
    state: ServiceState,
    next: ServiceState,
    action: ServiceAction,
)
    requires
        service_transition(state, ServiceEvent::Polled(None), next, action),
    ensures
        action is PollAgain,
        next.prev_playing == state.prev_playing,
        next.time_elapsed <= state.time_elapsed,
{
}

/// Cancellation closes the connection and leaves the state as it was.
pub proof fn lemma_cancel_closes(state: ServiceState, next: ServiceState, action: ServiceAction)
    requires
        service_transition(state, ServiceEvent::Cancelled, next, action),
    ensures
        action is Close,
        next == state,
{
}

/// The default settings ask for the native source, so with them the service polls the
/// native source of its operating system.
pub proof fn lemma_defaults_use_native_source(settings: AppSettings, os: TargetOs)
    requires
        settings.metadata_sources.deep_view() == seq![crate::settings::native_now_playing()],
    ensures
        (if settings.metadata_sources.deep_view().contains(crate::settings::native_now_playing()) {
            os_provider(os)
        } else {
            None
        }) == os_provider(os),
{
    assert(settings.metadata_sources.deep_view()[0] == crate::settings::native_now_playing());
}

} // verus!

verus! {

/// What an activity shown for some metadata holds, field by field: the state names the
/// progress the metadata reports, whatever the media type, and the counted seconds only
/// when it reports none; the large image is the metadata's media URL when it names one,
/// and the default image of its media type only otherwise; the details are the title,
/// " - " and the auxiliary title; audio is listened to under "Listening to <title>",
/// mixed media played under its title, and video watched.
pub proof fn lemma_shown_activity_fields(
    activity: PresenceActivity,
    metadata: MetadataView,
    time_elapsed: nat,
)
    requires
        shows(activity, metadata, time_elapsed),
    ensures
        metadata.progress matches Some(p) ==> activity.state@ == clock_text(
            p / (NANOS_PER_SEC as nat),
        ) + " played"@,
        metadata.progress is None ==> activity.state@ == clock_text(time_elapsed) + " played"@,
        metadata.metadata_media matches Some(url) ==> activity.large_image@ == url,
        metadata.metadata_media is None ==> activity.large_image@ == default_image_of(
            metadata.media_type,
        ),
        metadata.aux_title matches Some(aux) ==> activity.details@ == metadata.title + " - "@
            + aux,
        metadata.aux_title is None ==> activity.details@ == metadata.title + " - "@,
        metadata.media_type == MediaType::AUDIO ==> activity.kind == ActivityKind::Listening
            && activity.name@ == "Listening to "@ + metadata.title,
        metadata.media_type == MediaType::MIXED ==> activity.kind == ActivityKind::Playing
            && activity.name@ == metadata.title,
        metadata.media_type == MediaType::VIDEO ==> activity.kind == ActivityKind::Watching,
{
    if metadata.aux_title is None {
        assert(metadata.title + " - "@ + Seq::<char>::empty() =~= metadata.title + " - "@);
    }
}

/// Each media type has its own default image, and the image is the asset of that type:
/// a CD for audio, a TV for video, a media sign for mixed media.
pub proof fn lemma_default_images_distinct()
    ensures
        default_image_of(MediaType::AUDIO) != default_image_of(MediaType::VIDEO),
        default_image_of(MediaType::AUDIO) != default_image_of(MediaType::MIXED),
        default_image_of(MediaType::VIDEO) != default_image_of(MediaType::MIXED),
{
    reveal_strlit("https://raw.githubusercontent.com/js5253/drp-rs/refs/heads/main/assets/CD.svg?token=GHSAT0AAAAAAEE36YXNCUT4XT5CS7BPZVE62UB6J5Q");
    reveal_strlit("https://raw.githubusercontent.com/js5253/drp-rs/refs/heads/main/assets/TV.svg?token=GHSAT0AAAAAAEE36YXNTSBLSWHMRP2GYJC42UB6KSQ");
    reveal_strlit("https://raw.githubusercontent.com/js5253/drp-rs/refs/heads/main/assets/Media.svg?token=GHSAT0AAAAAAEE36YXNRCMTOTAZ2P3V46TQ2UB6MGQ");
    assert(default_image_of(MediaType::AUDIO)[71] != default_image_of(MediaType::VIDEO)[71]);
    assert(default_image_of(MediaType::AUDIO)[71] != default_image_of(MediaType::MIXED)[71]);
    assert(default_image_of(MediaType::VIDEO)[71] != default_image_of(MediaType::MIXED)[71]);
}

} // verus!

verus! {

/// The service can step on every event but a poll that finds video or that would count
/// past `u64::MAX`: cancellation and a poll that finds nothing always, and a poll that
/// finds anything else whenever the count it starts from is at most `u64::MAX - 3`.
pub proof fn lemma_step_defined(state: ServiceState, event: ServiceEvent)
    ensures
        event is Cancelled ==> step_defined(state, event),
        event == ServiceEvent::Polled(None) ==> step_defined(state, event),
        event matches ServiceEvent::Polled(Some(m)) ==> (step_defined(state, event) <==> (
        m.media_type != MediaType::VIDEO && counted_secs(state, Some(m)) + 3 <= u64::MAX)),
        event matches ServiceEvent::Polled(Some(m)) ==> (m.media_type != MediaType::VIDEO
            && state.time_elapsed <= u64::MAX - 3 ==> step_defined(state, event)),
{
}

} // verus!
