use drp_rs::settings::AppSettings;

#[test]
fn defaults_use_native_source() {
    let s = AppSettings::defaults();
    assert_eq!(s.discord_username, None);
    assert_eq!(s.tautulli_server_url, None);
    assert_eq!(s.tautulli_server_cookie, None);
    assert_eq!(s.metadata_sources, vec!["native_now_playing".to_string()]);
    assert!(s.extension_host_enabled);
    assert!(s.uses_native_now_playing());
}

#[test]
fn native_source_found_anywhere_in_list() {
    let mut s = AppSettings::defaults();
    s.metadata_sources = vec!["tautulli".to_string(), "native_now_playing".to_string()];
    assert!(s.uses_native_now_playing());
    s.metadata_sources = vec!["native".to_string(), "Native_now_playing".to_string()];
    assert!(!s.uses_native_now_playing());
}

#[test]
fn update_replaces_everything() {
    let mut s = AppSettings::defaults();
    let mut new_settings = AppSettings::defaults();
    new_settings.discord_username = Some("me".to_string());
    new_settings.metadata_sources = Vec::new();
    new_settings.extension_host_enabled = false;
    s.update(new_settings);
    assert_eq!(s.discord_username, Some("me".to_string()));
    assert!(s.metadata_sources.is_empty());
    assert!(!s.extension_host_enabled);
}
