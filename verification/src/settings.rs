//! The application's settings.
use vstd::prelude::*;

use crate::util::contains_text;

verus! {

/// The name under which `metadata_sources` asks for the operating system's own
/// now-playing source.
pub open spec fn native_now_playing() -> Seq<char> {
    "native_now_playing"@
}

/// The native now-playing source is asked for by the name "native_now_playing".
pub proof fn lemma_native_now_playing_name()
    ensures
        native_now_playing() == "native_now_playing"@,
{
}

/// The settings that the configuration file holds.
#[derive(Debug, Clone)]
pub struct AppSettings {
    pub discord_username: Option<String>,
    pub tautulli_server_url: Option<String>,
    pub tautulli_server_cookie: Option<String>,
    pub metadata_sources: Vec<String>,
    pub extension_host_enabled: bool,
}

impl AppSettings {
    /// The settings that are written when no configuration file exists yet: no Discord
    /// user name and no Tautulli server, the native now-playing source only, and the
    /// extension host enabled.
    pub fn defaults() -> (settings: AppSettings)
        ensures
            settings.discord_username is None,
            settings.tautulli_server_url is None,
            settings.tautulli_server_cookie is None,
            settings.metadata_sources.deep_view() == seq![native_now_playing()],
            settings.metadata_sources.deep_view() == seq!["native_now_playing"@],
            settings.extension_host_enabled,
    {
        let mut metadata_sources: Vec<String> = Vec::new();
        metadata_sources.push(String::from_str("native_now_playing"));
        let settings = AppSettings {
            discord_username: None,
            tautulli_server_url: None,
            tautulli_server_cookie: None,
            metadata_sources,
            extension_host_enabled: true,
        };
        assert(settings.metadata_sources.deep_view() =~= seq![native_now_playing()]);
        settings
    }

    /// Replaces the settings with `new_settings`.
    pub fn update(&mut self, new_settings: AppSettings)
        ensures
            *final(self) == new_settings,
    {
        *self = new_settings;
    }

    /// Whether the settings ask for the native now-playing source.
    pub fn uses_native_now_playing(&self) -> (r: bool)
        ensures
            r == self.metadata_sources.deep_view().contains(native_now_playing()),
            r == (exists|i: int|
                0 <= i < self.metadata_sources.len() && #[trigger] self.metadata_sources[i]@
                    == "native_now_playing"@),
    {
        let wanted = String::from_str("native_now_playing");
        let r = contains_text(&self.metadata_sources, &wanted);
        proof {
            if r {
                let i = choose|i: int| 0 <= i < self.metadata_sources.deep_view().len() && self.metadata_sources.deep_view()[i] == native_now_playing();
                assert(self.metadata_sources[i]@ == "native_now_playing"@);
            } else {
                assert forall|i: int| 0 <= i < self.metadata_sources.len() implies #[trigger] self.metadata_sources[i]@ != "native_now_playing"@ by {
                    assert(self.metadata_sources.deep_view()[i] == self.metadata_sources[i]@);
                }
            }
        }
        r
    }
}

} // verus!
