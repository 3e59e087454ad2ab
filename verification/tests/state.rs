use std::path::PathBuf;

use eqterm::browser::{BrowserState, Entry, EntryKind};
use eqterm::display::{
    empty_list_message, footer_notes, is_active_preset, list_title, preset_label, showing_presets,
    state_label, status_is_error, FooterNote,
};
use eqterm::eq::{EqProfile, Preset};
use eqterm::presets::BgMessage;
use eqterm::state::{AppState, Mode, SearchTarget};

fn entry(name: &str, kind: EntryKind) -> Entry {
    Entry { name: name.to_string(), path: PathBuf::from(format!("/music/{name}")), kind }
}

fn preset(name: &str) -> Preset {
    Preset { name: name.to_string(), eq: EqProfile { preamp: None, filters: Vec::new() } }
}

fn app() -> AppState {
    AppState::new(BrowserState::new(
        PathBuf::from("/music"),
        vec![
            entry("Albums", EntryKind::Dir),
            entry("one.mp3", EntryKind::File),
            entry("Singles", EntryKind::Dir),
            entry("More", EntryKind::Dir),
            entry("two.flac", EntryKind::File),
        ],
    ))
}

#[test]
fn stepping_skips_folders() {
    let mut s = app();
    assert!(s.step_target(1));
    assert_eq!(s.browser.selected, 1);
    assert!(s.step_target(1));
    assert_eq!(s.browser.selected, 4);
    assert!(!s.step_target(1));
    assert_eq!(s.status, "End of list");
    assert_eq!(s.browser.selected, 4);
    assert!(s.step_target(-1));
    assert_eq!(s.browser.selected, 1);
    assert!(!s.step_target(-1));
    assert_eq!(s.status, "Start of list");
}

#[test]
fn playing_and_pausing() {
    let mut s = app();
    assert!(!s.toggle_pause());
    assert_eq!(s.status, "Nothing playing");
    assert!(s.playable_entry().is_none());
    s.browser.move_by(1);
    let e = s.playable_entry().unwrap();
    let (path, name) = (e.path.clone(), e.name.clone());
    s.presets.set_presets(vec![preset("x"), preset("EQ 1"), preset("EQ 1")]);
    s.preset_applied("EQ 1".to_string());
    assert_eq!(s.status, "EQ: EQ 1");
    assert_eq!(s.playing_started(path.clone(), &name), Some(1));
    assert_eq!(s.now_playing, Some(path));
    assert_eq!(s.status, "Playing: one.mp3");
    assert!(s.toggle_pause());
    assert!(s.paused);
    assert_eq!(s.status, "Paused");
    assert!(s.toggle_pause());
    assert!(!s.paused);
    assert_eq!(s.status, "Resumed");
    s.mark_stopped();
    assert_eq!(s.now_playing, None);
    assert_eq!(s.status, "Stopped");
    s.play_failed("bad.mp3");
    assert_eq!(s.status, "Failed to play: bad.mp3");
}

#[test]
fn auto_advance_fires_once_per_end() {
    let mut s = app();
    assert!(!s.playback_tick(true));
    s.playing_started(PathBuf::from("/music/one.mp3"), "one.mp3");
    assert!(s.playback_tick(true));
    assert!(!s.playback_tick(true));
    assert!(!s.playback_tick(false));
    assert!(s.playback_tick(true));
    s.toggle_pause();
    assert!(!s.playback_tick(false));
    assert!(!s.playback_tick(true));
}

#[test]
fn eq_status() {
    let mut s = app();
    s.preset_failed("bad value");
    assert_eq!(s.status, "Failed to apply preset: bad value");
    s.eq_cleared();
    assert_eq!(s.status, "EQ cleared (flat)");
    assert_eq!(s.active_preset, None);
    s.eq_clear_failed("oops");
    assert_eq!(s.status, "Failed to clear EQ: oops");
}

#[test]
fn folders() {
    let mut s = app();
    s.browser.set_search("one".to_string());
    s.open_folder(PathBuf::from("/music/Albums"), vec![entry("a.mp3", EntryKind::File)], "/music/Albums");
    assert_eq!(s.browser.cwd, PathBuf::from("/music/Albums"));
    assert_eq!(s.browser.search, "");
    assert_eq!(s.browser.filtered, vec![0]);
    assert_eq!(s.status, "Opened /music/Albums");
    s.open_parent(PathBuf::from("/music"), vec![], "/music");
    assert_eq!(s.status, "\u{2190} /music");
    s.refreshed(vec![entry("x.mp3", EntryKind::File), entry("y.mp3", EntryKind::File)]);
    assert_eq!(s.status, "Refreshed \u{2014} 2 items");
}

#[test]
fn screen_texts() {
    let mut s = app();
    assert!(!showing_presets(&s));
    assert_eq!(list_title(&s), " LIBRARY  \u{b7}  5/5 ");
    assert_eq!(state_label(&s), "IDLE");
    assert_eq!(preset_label(&s), "flat");
    assert_eq!(
        footer_notes(&s),
        vec![FooterNote::Hint("j/k move  h/l browse  Enter play  e EQ  space pause  n/p next/prev  ,/. seek  +/- vol  ? help  q quit".to_string())]
    );
    s.browser.set_search("zzz".to_string());
    assert_eq!(empty_list_message(&s), "No files match this filter. Press Ctrl-l to clear.");
    assert_eq!(footer_notes(&s)[1], FooterNote::Filter("filter: /zzz".to_string()));
    s.mode = Mode::PresetPicker;
    assert!(showing_presets(&s));
    assert_eq!(list_title(&s), " EQ PRESETS  \u{b7}  LOADING\u{2026} ");
    assert_eq!(empty_list_message(&s), "Loading AutoEq presets in the background\u{2026}");
    assert_eq!(footer_notes(&s)[1], FooterNote::Loading("Loading AutoEq presets in the background\u{2026}".to_string()));
    s.apply_bg_message(BgMessage::PresetsLoaded(vec![preset("A very long preset name that certainly exceeds forty eight characters")]));
    assert_eq!(list_title(&s), " EQ PRESETS  \u{b7}  1/1 ");
    assert_eq!(footer_notes(&s).len(), 1);
    s.preset_applied("A very long preset name that certainly exceeds forty eight characters".to_string());
    assert_eq!(preset_label(&s), "A very long preset name\u{2026} forty eight characters");
    assert!(is_active_preset(&s, "A very long preset name that certainly exceeds forty eight characters"));
    assert!(!is_active_preset(&s, "A very long"));
    s.mode = Mode::Help;
    s.return_mode = Mode::PresetPicker;
    assert!(showing_presets(&s));
    s.mode = Mode::Search(SearchTarget::Presets);
    s.search_input = "ab".to_string();
    assert_eq!(
        footer_notes(&s)[0],
        FooterNote::SearchPrompt { label: "presets".to_string(), input: "ab".to_string() }
    );
    s.playing_started(PathBuf::from("/music/one.mp3"), "one.mp3");
    assert_eq!(state_label(&s), "PLAYING");
    s.toggle_pause();
    assert_eq!(state_label(&s), "PAUSED");
}

#[test]
fn error_statuses() {
    assert!(status_is_error("Failed to play: x"));
    assert!(status_is_error("AutoEq ERROR: x"));
    assert!(!status_is_error("Playing: x"));
}
