use std::path::PathBuf;

use eqterm::browser::{BrowserState, Entry, EntryKind};
use eqterm::eq::{EqProfile, Preset};
use eqterm::keys::{handle_key_event, Command, KeyCode, KeyInput};
use eqterm::presets::BgMessage;
use eqterm::state::{AppState, Mode, SearchTarget};

fn entry(name: &str, kind: EntryKind) -> Entry {
    Entry { name: name.to_string(), path: PathBuf::from(format!("/music/{name}")), kind }
}

fn preset(name: &str) -> Preset {
    Preset { name: name.to_string(), eq: EqProfile { preamp: None, filters: Vec::new() } }
}

fn app() -> AppState {
    AppState::new(BrowserState::new(
        PathBuf::from("/music"),
        vec![
            entry("Albums", EntryKind::Dir),
            entry("one.mp3", EntryKind::File),
            entry("Singles", EntryKind::Dir),
            entry("two.flac", EntryKind::File),
            entry("three.ogg", EntryKind::File),
        ],
    ))
}

fn key(c: char) -> KeyInput {
    KeyInput { code: KeyCode::Char(c), ctrl: false }
}

fn ctrl(c: char) -> KeyInput {
    KeyInput { code: KeyCode::Char(c), ctrl: true }
}

fn code(k: KeyCode) -> KeyInput {
    KeyInput { code: k, ctrl: false }
}

/// Presses `k` at `now_ms` milliseconds.
fn press(s: &mut AppState, k: KeyInput, now_ms: u64) -> Command {
    assert!(s.within_limits());
    handle_key_event(s, k, now_ms * 1_000_000)
}

#[test]
fn start_state() {
    let s = app();
    assert_eq!(s.mode, Mode::Browser);
    assert_eq!(s.status, "Ready \u{2014} press ? for help");
    assert!(s.presets.loading);
    assert_eq!(s.list_height, 20);
}

#[test]
fn quitting() {
    let mut s = app();
    assert_eq!(press(&mut s, ctrl('c'), 0), Command::Quit);
    assert_eq!(press(&mut s, key('q'), 0), Command::Quit);
    s.mode = Mode::PresetPicker;
    assert_eq!(press(&mut s, key('q'), 0), Command::Nothing);
    assert_eq!(s.mode, Mode::Browser);
}

#[test]
fn browser_navigation_and_commands() {
    let mut s = app();
    assert_eq!(press(&mut s, key('j'), 0), Command::Nothing);
    assert_eq!(press(&mut s, code(KeyCode::Down), 0), Command::Nothing);
    assert_eq!(s.browser.selected, 2);
    press(&mut s, key('G'), 0);
    assert_eq!(s.browser.selected, 4);
    press(&mut s, key('k'), 0);
    assert_eq!(s.browser.selected, 3);
    assert_eq!(press(&mut s, key('n'), 0), Command::StepFile(1));
    assert_eq!(press(&mut s, key('p'), 0), Command::StepFile(-1));
    assert_eq!(press(&mut s, key('h'), 0), Command::GoParent);
    assert_eq!(press(&mut s, code(KeyCode::Enter), 0), Command::OpenSelected);
    assert_eq!(press(&mut s, key(' '), 0), Command::TogglePause);
    assert_eq!(press(&mut s, key('s'), 0), Command::Stop);
    assert_eq!(press(&mut s, key('r'), 0), Command::Refresh);
    assert_eq!(press(&mut s, key('x'), 0), Command::ClearEq);
    assert_eq!(press(&mut s, key(','), 0), Command::Seek(-5));
    assert_eq!(press(&mut s, key(']'), 0), Command::Seek(30));
    assert_eq!(press(&mut s, key('='), 0), Command::Volume(5));
    assert_eq!(press(&mut s, key('_'), 0), Command::Volume(-5));
    assert_eq!(press(&mut s, code(KeyCode::Other), 0), Command::Nothing);
}

#[test]
fn gg_window_is_350_ms_inclusive() {
    let mut s = app();
    press(&mut s, key('G'), 0);
    handle_key_event(&mut s, key('g'), 1_000_000_000);
    handle_key_event(&mut s, key('g'), 1_350_000_001);
    assert_eq!(s.browser.selected, 4);
    handle_key_event(&mut s, key('g'), 1_700_000_001);
    assert_eq!(s.browser.selected, 0);
}

#[test]
fn gg_jumps_to_top_only_when_quick() {
    let mut s = app();
    press(&mut s, key('G'), 0);
    press(&mut s, key('g'), 1000);
    assert_eq!(s.g_pending, Some(1_000_000_000));
    press(&mut s, key('g'), 1400);
    assert_eq!(s.browser.selected, 4);
    assert_eq!(s.g_pending, Some(1_400_000_000));
    press(&mut s, key('g'), 1750);
    assert_eq!(s.browser.selected, 0);
    assert_eq!(s.g_pending, None);
}

#[test]
fn paging_uses_list_height() {
    let mut s = app();
    s.list_height = 2;
    press(&mut s, code(KeyCode::PageDown), 0);
    assert_eq!(s.browser.selected, 2);
    press(&mut s, ctrl('d'), 0);
    assert_eq!(s.browser.selected, 3);
    press(&mut s, ctrl('u'), 0);
    press(&mut s, code(KeyCode::PageUp), 0);
    assert_eq!(s.browser.selected, 0);
    s.list_height = 0;
    press(&mut s, code(KeyCode::PageDown), 0);
    assert_eq!(s.browser.selected, 1);
}

#[test]
fn live_search_and_cancel() {
    let mut s = app();
    press(&mut s, key('/'), 0);
    assert_eq!(s.mode, Mode::Search(SearchTarget::Browser));
    press(&mut s, key('t'), 10);
    press(&mut s, key('w'), 20);
    assert_eq!(s.search_input, "tw");
    assert_eq!(s.browser.filtered, vec![3]);
    press(&mut s, code(KeyCode::Backspace), 30);
    assert_eq!(s.browser.filtered, vec![3, 4]);
    press(&mut s, code(KeyCode::Esc), 40);
    assert_eq!(s.mode, Mode::Browser);
    assert_eq!(s.browser.search, "");
    assert_eq!(s.browser.filtered, vec![0, 1, 2, 3, 4]);
}

#[test]
fn enter_confirms_search() {
    let mut s = app();
    press(&mut s, key('/'), 0);
    for c in "ONE".chars() {
        press(&mut s, key(c), 0);
    }
    press(&mut s, code(KeyCode::Enter), 0);
    assert_eq!(s.mode, Mode::Browser);
    assert_eq!(s.browser.search, "ONE");
    assert_eq!(s.browser.filtered, vec![1]);
    press(&mut s, ctrl('l'), 0);
    assert_eq!(s.browser.search, "");
    assert_eq!(s.status, "Cleared file filter");
}

#[test]
fn jk_leaves_search() {
    let mut s = app();
    press(&mut s, key('/'), 0);
    press(&mut s, key('o'), 0);
    press(&mut s, key('j'), 1000);
    press(&mut s, key('k'), 1200);
    assert_eq!(s.mode, Mode::Browser);
    assert_eq!(s.search_input, "o");
    assert_eq!(s.browser.search, "");
    // A slow "jk" types both letters.
    press(&mut s, key('/'), 2000);
    press(&mut s, key('j'), 3000);
    press(&mut s, key('k'), 4000);
    assert_eq!(s.mode, Mode::Search(SearchTarget::Browser));
    assert_eq!(s.search_input, "jk");
}

#[test]
fn control_characters_are_not_typed() {
    let mut s = app();
    press(&mut s, key('/'), 0);
    press(&mut s, ctrl('x'), 0);
    assert_eq!(s.search_input, "");
}

#[test]
fn help_toggles_and_returns() {
    let mut s = app();
    press(&mut s, key('e'), 0);
    assert_eq!(s.mode, Mode::PresetPicker);
    assert_eq!(s.status, "Loading AutoEq presets\u{2026}");
    press(&mut s, key('?'), 0);
    assert_eq!(s.mode, Mode::Help);
    assert_eq!(s.return_mode, Mode::PresetPicker);
    press(&mut s, key('x'), 0);
    assert_eq!(s.mode, Mode::Help);
    press(&mut s, code(KeyCode::Esc), 0);
    assert_eq!(s.mode, Mode::PresetPicker);
    assert_eq!(s.return_mode, Mode::Browser);
}

#[test]
fn preset_picker_keys() {
    let mut s = app();
    s.apply_bg_message(BgMessage::PresetsLoaded(vec![preset("A"), preset("B"), preset("C")]));
    assert_eq!(s.status, "Loaded 3 EQ presets");
    press(&mut s, key('e'), 0);
    assert_eq!(s.status, "Loaded 3 EQ presets");
    press(&mut s, key('j'), 0);
    press(&mut s, key('j'), 0);
    assert_eq!(s.presets.selected, 2);
    press(&mut s, key('g'), 100);
    press(&mut s, key('g'), 200);
    assert_eq!(s.presets.selected, 0);
    assert_eq!(press(&mut s, code(KeyCode::Enter), 0), Command::ApplyPreset);
    assert_eq!(press(&mut s, key('.'), 0), Command::Seek(5));
    assert_eq!(press(&mut s, key('+'), 0), Command::Volume(5));
    press(&mut s, key('/'), 0);
    assert_eq!(s.mode, Mode::Search(SearchTarget::Presets));
    press(&mut s, key('b'), 0);
    assert_eq!(s.presets.filtered, vec![1]);
    press(&mut s, code(KeyCode::Enter), 0);
    assert_eq!(s.mode, Mode::PresetPicker);
}

#[test]
fn loader_messages() {
    let mut s = app();
    s.apply_bg_message(BgMessage::Status("Loading presets\u{2026}".to_string()));
    assert_eq!(s.status, "Loading presets\u{2026}");
    s.apply_bg_message(BgMessage::Error("AutoEq error: boom".to_string()));
    assert_eq!(s.status, "AutoEq error: boom");
}
