use std::time::Duration;

use drp_rs::metadata_providers::MediaType;
use drp_rs::util::{contains_text, format_clock, get_action_string, get_playback_sign, join_texts, pretty_time};

#[test]
fn pretty_time_pads_minutes_and_seconds() {
    assert_eq!(pretty_time(Duration::from_secs(0)), "00:00");
    assert_eq!(pretty_time(Duration::from_secs(65)), "01:05");
    assert_eq!(pretty_time(Duration::from_secs(600)), "10:00");
}

#[test]
fn pretty_time_drops_fractions_of_a_second() {
    assert_eq!(pretty_time(Duration::from_millis(125_999)), "02:05");
    assert_eq!(pretty_time(Duration::from_nanos(59_999_999_999)), "00:59");
}

#[test]
fn pretty_time_keeps_all_minutes() {
    assert_eq!(pretty_time(Duration::from_secs(100 * 60 + 9)), "100:09");
    assert_eq!(pretty_time(Duration::from_secs(3599)), "59:59");
}

#[test]
fn format_clock_values() {
    assert_eq!(format_clock(9), "00:09");
    assert_eq!(format_clock(61), "01:01");
    assert_eq!(format_clock(u64::MAX), "307445734561825860:15");
}

#[test]
fn clock_seconds_always_take_two_digits() {
    for secs in [0u64, 5, 59, 60, 61, 599, 3600, 86_399] {
        let text = format_clock(secs);
        let tail: String = text.chars().rev().take(3).collect::<Vec<_>>().into_iter().rev().collect();
        assert_eq!(tail, format!(":{:02}", secs % 60));
        assert_eq!(text, format!("{:02}:{:02}", secs / 60, secs % 60));
    }
}

#[test]
fn action_string_for_audio() {
    assert_eq!(get_action_string(&MediaType::AUDIO, "Song".to_string()), "Listening to Song");
}

#[test]
fn action_string_for_mixed_media() {
    assert_eq!(get_action_string(&MediaType::MIXED, "Clip".to_string()), "Clip");
    assert_eq!(get_action_string(&MediaType::MIXED, String::new()), "");
}

#[test]
fn playback_signs() {
    assert_eq!(get_playback_sign("paused"), "⏸︎");
    assert_eq!(get_playback_sign("playing"), "⏵︎");
    assert_eq!(get_playback_sign("stopped"), "");
    assert_eq!(get_playback_sign("Paused"), "");
    assert_eq!(get_playback_sign(""), "");
}

#[test]
fn join_texts_separates_neighbours() {
    let names = vec!["A".to_string(), "B".to_string(), "C".to_string()];
    assert_eq!(join_texts(&names, ", "), "A, B, C");
    assert_eq!(join_texts(&vec!["Solo".to_string()], ", "), "Solo");
    assert_eq!(join_texts(&Vec::new(), ", "), "");
}

#[test]
fn contains_text_compares_contents() {
    let list = vec!["spotify".to_string(), "vlc".to_string()];
    assert!(contains_text(&list, &"vlc".to_string()));
    assert!(!contains_text(&list, &"VLC".to_string()));
    assert!(!contains_text(&Vec::new(), &"vlc".to_string()));
}
