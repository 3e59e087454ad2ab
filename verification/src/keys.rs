//! The key map: what each key does in each mode. A key changes the state
//! and may ask the caller to do one thing that needs the audio engine or
//! the file system.
use vstd::prelude::*;

use crate::state::{AppState, AppView, Mode, SearchTarget};
use crate::text::{chars_of, push_char, string_of};

verus! {

#[derive(Debug, Copy, Clone, PartialEq, Eq, Structural)]
pub enum KeyCode {
    Char(char),
    Esc,
    Enter,
    Backspace,
    Up,
    Down,
    Left,
    Right,
    PageUp,
    PageDown,
    Other,
}

/// A key press: the key and whether Control was held.
#[derive(Debug, Copy, Clone, PartialEq, Eq, Structural)]
pub struct KeyInput {
    pub code: KeyCode,
    pub ctrl: bool,
}

/// What a key asks the caller to do after the state has changed.
#[derive(Debug, Copy, Clone, PartialEq, Eq, Structural)]
pub enum Command {
    Nothing,
    Quit,
    GoParent,
    OpenSelected,
    TogglePause,
    Stop,
    /// Play the next (+1) or previous (-1) file.
    StepFile(i32),
    Refresh,
    ClearEq,
    /// Seek by this many seconds.
    Seek(i32),
    /// Change the volume by this many percent.
    Volume(i32),
    ApplyPreset,
}

/// Nanoseconds (350 ms) within which a second key completes "gg" or "jk".
pub const CHORD_NS: u64 = 350_000_000;

/// `now` is within the chord window of `then` (an earlier time; a later
/// one counts as no time elapsed).
pub open spec fn within_chord(now: u64, then: u64) -> bool {
    now <= then || now - then <= CHORD_NS
}

/// The mode a search returns to.
pub open spec fn mode_after_search(t: SearchTarget) -> Mode {
    match t {
        SearchTarget::Browser => Mode::Browser,
        SearchTarget::Presets => Mode::PresetPicker,
    }
}

impl AppView {
    pub open spec fn g_cleared(self) -> AppView {
        AppView { g_pending: None, ..self }
    }

    /// A 'g' press: a second 'g' within the window jumps to the top of the
    /// browser (or the preset list); otherwise it starts the chord.
    pub open spec fn g_pressed(self, now: u64, browser: bool) -> AppView {
        match self.g_pending {
            Some(p) => if within_chord(now, p) {
                if browser {
                    AppView { browser: self.browser.at_first(), g_pending: None, ..self }
                } else {
                    AppView { presets: self.presets.at_first(), g_pending: None, ..self }
                }
            } else {
                AppView { g_pending: Some(now), ..self }
            },
            None => AppView { g_pending: Some(now), ..self },
        }
    }

    /// Rows of a page (at least one).
    pub open spec fn page_rows(self) -> int {
        if self.list_height >= 1 {
            self.list_height as int
        } else {
            1
        }
    }

    /// Rows of half a page (at least one).
    pub open spec fn half_page_rows(self) -> int {
        if self.list_height / 2 >= 1 {
            (self.list_height / 2) as int
        } else {
            1
        }
    }

    /// Half a page forward or back in the list on screen.
    pub open spec fn half_paged(self, forward: bool) -> AppView {
        match self.mode {
            Mode::Browser | Mode::Search(SearchTarget::Browser) => AppView {
                browser: self.browser.paged(self.half_page_rows(), forward),
                ..self
            },
            Mode::PresetPicker | Mode::Search(SearchTarget::Presets) => AppView {
                presets: self.presets.paged(self.half_page_rows(), forward),
                ..self
            },
            Mode::Help => self,
        }
    }
}

/// Keys in the help: Esc, 'q' and '?' close it.
pub open spec fn help_step(s: AppView, key: KeyInput) -> (AppView, Command) {
    match key.code {
        KeyCode::Esc | KeyCode::Char('q') | KeyCode::Char('?') => (s.help_toggled(), Command::Nothing),
        _ => (s, Command::Nothing),
    }
}

/// Keys while typing a search of `t`: Esc cancels, Enter confirms,
/// Backspace deletes, "jk" typed quickly cancels, other characters are
/// typed (and filter live); characters with Control are ignored.
pub open spec fn search_step(s: AppView, key: KeyInput, t: SearchTarget, now: u64) -> (AppView, Command) {
    match key.code {
        KeyCode::Esc => (AppView { mode: mode_after_search(t), ..s.search_cancelled(t) }, Command::Nothing),
        KeyCode::Enter => (AppView { mode: mode_after_search(t), ..s.search_updated(t) }, Command::Nothing),
        KeyCode::Backspace => {
            let s1 = AppView {
                search_input: if s.search_input.len() > 0 {
                    s.search_input.drop_last()
                } else {
                    s.search_input
                },
                search_j_pending: None,
                ..s
            };
            (s1.search_updated(t), Command::Nothing)
        },
        KeyCode::Char(ch) => if key.ctrl {
            (s, Command::Nothing)
        } else if ch == 'k' && s.search_j_pending is Some && within_chord(
            now,
            s.search_j_pending->0,
        ) {
            let s1 = AppView {
                search_input: if s.search_input.len() > 0 && s.search_input.last() == 'j' {
                    s.search_input.drop_last()
                } else {
                    s.search_input
                },
                ..s
            };
            (AppView { mode: mode_after_search(t), ..s1.search_cancelled(t) }, Command::Nothing)
        } else {
            let s1 = AppView {
                search_j_pending: if ch == 'j' {
                    Some(now)
                } else {
                    None
                },
                search_input: s.search_input.push(ch),
                ..s
            };
            (s1.search_updated(t), Command::Nothing)
        },
        _ => (s, Command::Nothing),
    }
}

/// Keys in the folder browser (see the README's keymap).
pub open spec fn browser_step(s: AppView, key: KeyInput, now: u64) -> (AppView, Command) {
    let c = s.g_cleared();
    match key.code {
        KeyCode::Char('q') => (s, Command::Quit),
        KeyCode::Char('?') => (s.help_toggled(), Command::Nothing),
        KeyCode::Char('j') | KeyCode::Down => (AppView { browser: c.browser.moved(1), ..c }, Command::Nothing),
        KeyCode::Char('k') | KeyCode::Up => (AppView { browser: c.browser.moved(-1), ..c }, Command::Nothing),
        KeyCode::PageDown => (AppView { browser: c.browser.paged(c.page_rows(), true), ..c }, Command::Nothing),
        KeyCode::PageUp => (AppView { browser: c.browser.paged(c.page_rows(), false), ..c }, Command::Nothing),
        KeyCode::Char('h') | KeyCode::Left => (c, Command::GoParent),
        KeyCode::Char('l') | KeyCode::Right | KeyCode::Enter => (c, Command::OpenSelected),
        KeyCode::Char('/') => (c.search_entered(SearchTarget::Browser), Command::Nothing),
        KeyCode::Char('e') => {
            let p = AppView { mode: Mode::PresetPicker, ..c };
            (
                if c.presets.loading {
                    p.with_status("Loading AutoEq presets\u{2026}"@)
                } else {
                    p
                },
                Command::Nothing,
            )
        },
        KeyCode::Char(' ') => (c, Command::TogglePause),
        KeyCode::Char('s') => (c, Command::Stop),
        KeyCode::Char('n') => (c, Command::StepFile(1i32)),
        KeyCode::Char('p') => (c, Command::StepFile(-1i32)),
        KeyCode::Char('r') => (c, Command::Refresh),
        KeyCode::Char('x') => (c, Command::ClearEq),
        KeyCode::Char(',') => (c, Command::Seek(-5i32)),
        KeyCode::Char('.') => (c, Command::Seek(5i32)),
        KeyCode::Char('[') => (c, Command::Seek(-30i32)),
        KeyCode::Char(']') => (c, Command::Seek(30i32)),
        KeyCode::Char('+') | KeyCode::Char('=') => (c, Command::Volume(5i32)),
        KeyCode::Char('-') | KeyCode::Char('_') => (c, Command::Volume(-5i32)),
        KeyCode::Char('g') => (s.g_pressed(now, true), Command::Nothing),
        KeyCode::Char('G') => (AppView { browser: c.browser.at_last(), ..c }, Command::Nothing),
        _ => (s, Command::Nothing),
    }
}

/// Keys in the preset picker (see the README's keymap); playback keys
/// keep working there.
pub open spec fn preset_step(s: AppView, key: KeyInput, now: u64) -> (AppView, Command) {
    let c = s.g_cleared();
    match key.code {
        KeyCode::Esc | KeyCode::Char('q') => (AppView { mode: Mode::Browser, ..c }, Command::Nothing),
        KeyCode::Char('?') => (s.help_toggled(), Command::Nothing),
        KeyCode::Char('j') | KeyCode::Down => (AppView { presets: c.presets.moved(1), ..c }, Command::Nothing),
        KeyCode::Char('k') | KeyCode::Up => (AppView { presets: c.presets.moved(-1), ..c }, Command::Nothing),
        KeyCode::PageDown => (AppView { presets: c.presets.paged(c.page_rows(), true), ..c }, Command::Nothing),
        KeyCode::PageUp => (AppView { presets: c.presets.paged(c.page_rows(), false), ..c }, Command::Nothing),
        KeyCode::Char('/') => (c.search_entered(SearchTarget::Presets), Command::Nothing),
        KeyCode::Enter => (c, Command::ApplyPreset),
        KeyCode::Char('x') => (c, Command::ClearEq),
        KeyCode::Char('g') => (s.g_pressed(now, false), Command::Nothing),
        KeyCode::Char('G') => (AppView { presets: c.presets.at_last(), ..c }, Command::Nothing),
        KeyCode::Char(' ') => (s, Command::TogglePause),
        KeyCode::Char(',') => (s, Command::Seek(-5i32)),
        KeyCode::Char('.') => (s, Command::Seek(5i32)),
        KeyCode::Char('[') => (s, Command::Seek(-30i32)),
        KeyCode::Char(']') => (s, Command::Seek(30i32)),
        KeyCode::Char('+') | KeyCode::Char('=') => (s, Command::Volume(5i32)),
        KeyCode::Char('-') | KeyCode::Char('_') => (s, Command::Volume(-5i32)),
        _ => (s, Command::Nothing),
    }
}

/// What a key press does: Control-c quits, Control-l clears the filter,
/// Control-d and Control-u move half a page; every other key goes to the
/// current mode.
pub open spec fn key_step(s: AppView, key: KeyInput, now: u64) -> (AppView, Command) {
    if key.ctrl && key.code == KeyCode::Char('c') {
        (s, Command::Quit)
    } else if key.ctrl && key.code == KeyCode::Char('l') {
        (s.search_cleared(), Command::Nothing)
    } else if key.ctrl && key.code == KeyCode::Char('d') {
        (s.half_paged(true), Command::Nothing)
    } else if key.ctrl && key.code == KeyCode::Char('u') {
        (s.half_paged(false), Command::Nothing)
    } else {
        match s.mode {
            Mode::Help => help_step(s, key),
            Mode::Search(t) => search_step(s, key, t, now),
            Mode::Browser => browser_step(s, key, now),
            Mode::PresetPicker => preset_step(s, key, now),
        }
    }
}

fn chord_ok(now: u64, then: u64) -> (r: bool)
    ensures
        r == within_chord(now, then),
{
    now <= then || now - then <= CHORD_NS
}

fn page_rows(state: &AppState) -> (r: usize)
    ensures
        r as int == state@.page_rows(),
{
    if state.list_height >= 1 {
        state.list_height
    } else {
        1
    }
}

fn half_page_rows(state: &AppState) -> (r: usize)
    ensures
        r as int == state@.half_page_rows(),
{
    if state.list_height / 2 >= 1 {
        state.list_height / 2
    } else {
        1
    }
}

fn half_page(state: &mut AppState, forward: bool)
    requires
        old(state)@.within_limits(),
    ensures
        final(state)@ == old(state)@.half_paged(forward),
{
    let amount = half_page_rows(state);
    match state.mode {
        Mode::Browser | Mode::Search(SearchTarget::Browser) => state.browser.page_by(amount, forward),
        Mode::PresetPicker | Mode::Search(SearchTarget::Presets) => state.presets.page_by(
            amount,
            forward,
        ),
        Mode::Help => {},
    }
}

fn handle_gg(state: &mut AppState, now: u64, browser: bool)
    ensures
        final(state)@ == old(state)@.g_pressed(now, browser),
{
    match state.g_pending {
        Some(p) => {
            if chord_ok(now, p) {
                if browser {
                    state.browser.select_first();
                } else {
                    state.presets.select_first();
                }
                state.g_pending = None;
            } else {
                state.g_pending = Some(now);
            }
        },
        None => {
            state.g_pending = Some(now);
        },
    }
}

fn handle_help_keys(state: &mut AppState, key: KeyInput) -> (r: Command)
    ensures
        (final(state)@, r) == help_step(old(state)@, key),
{
    match key.code {
        KeyCode::Esc | KeyCode::Char('q') | KeyCode::Char('?') => state.show_help(),
        _ => {},
    }
    Command::Nothing
}

fn pop_char(s: &String) -> (r: String)
    ensures
        r@ == if s@.len() > 0 {
            s@.drop_last()
        } else {
            s@
        },
{
    let mut cs = chars_of(s.as_str());
    if cs.len() > 0 {
        cs.pop();
    }
    string_of(&cs)
}

fn ends_with_j(s: &String) -> (r: bool)
    ensures
        r == (s@.len() > 0 && s@.last() == 'j'),
{
    let cs = chars_of(s.as_str());
    cs.len() > 0 && cs[cs.len() - 1] == 'j'
}

fn leave_search(state: &mut AppState, target: SearchTarget)
    ensures
        final(state)@ == (AppView { mode: mode_after_search(target), ..old(state)@ }),
{
    state.mode = match target {
        SearchTarget::Browser => Mode::Browser,
        SearchTarget::Presets => Mode::PresetPicker,
    };
}

fn handle_search_input(state: &mut AppState, key: KeyInput, target: SearchTarget, now: u64) -> (r: Command)
    ensures
        (final(state)@, r) == search_step(old(state)@, key, target, now),
{
    match key.code {
        KeyCode::Esc => {
            state.cancel_search(target);
            leave_search(state, target);
        },
        KeyCode::Enter => {
            state.update_search(target);
            leave_search(state, target);
        },
        KeyCode::Backspace => {
            state.search_input = pop_char(&state.search_input);
            state.search_j_pending = None;
            state.update_search(target);
        },
        KeyCode::Char(ch) => {
            if !key.ctrl {
                if ch == 'k' {
                    if let Some(pending_at) = state.search_j_pending {
                        if chord_ok(now, pending_at) {
                            if ends_with_j(&state.search_input) {
                                state.search_input = pop_char(&state.search_input);
                            }
                            state.cancel_search(target);
                            leave_search(state, target);
                            return Command::Nothing;
                        }
                    }
                }
                if ch == 'j' {
                    state.search_j_pending = Some(now);
                } else {
                    state.search_j_pending = None;
                }
                push_char(&mut state.search_input, ch);
                state.update_search(target);
            }
        },
        _ => {},
    }
    Command::Nothing
}

fn handle_browser_keys(state: &mut AppState, key: KeyInput, now: u64) -> (r: Command)
    requires
        old(state)@.within_limits(),
    ensures
        (final(state)@, r) == browser_step(old(state)@, key, now),
{
    match key.code {
        KeyCode::Char('q') => return Command::Quit,
        KeyCode::Char('?') => state.show_help(),
        KeyCode::Char('j') | KeyCode::Down => {
            state.g_pending = None;
            state.browser.move_by(1);
        },
        KeyCode::Char('k') | KeyCode::Up => {
            state.g_pending = None;
            state.browser.move_by(-1);
        },
        KeyCode::PageDown => {
            state.g_pending = None;
            let rows = page_rows(state);
            state.browser.page_by(rows, true);
        },
        KeyCode::PageUp => {
            state.g_pending = None;
            let rows = page_rows(state);
            state.browser.page_by(rows, false);
        },
        KeyCode::Char('h') | KeyCode::Left => {
            state.g_pending = None;
            return Command::GoParent;
        },
        KeyCode::Char('l') | KeyCode::Right | KeyCode::Enter => {
            state.g_pending = None;
            return Command::OpenSelected;
        },
        KeyCode::Char('/') => {
            state.g_pending = None;
            state.enter_search(SearchTarget::Browser);
        },
        KeyCode::Char('e') => {
            state.g_pending = None;
            state.mode = Mode::PresetPicker;
            if state.presets.loading {
                state.status = crate::state::text("Loading AutoEq presets\u{2026}");
            }
        },
        KeyCode::Char(' ') => {
            state.g_pending = None;
            return Command::TogglePause;
        },
        KeyCode::Char('s') => {
            state.g_pending = None;
            return Command::Stop;
        },
        KeyCode::Char('n') => {
            state.g_pending = None;
            return Command::StepFile(1);
        },
        KeyCode::Char('p') => {
            state.g_pending = None;
            return Command::StepFile(-1);
        },
        KeyCode::Char('r') => {
            state.g_pending = None;
            return Command::Refresh;
        },
        KeyCode::Char('x') => {
            state.g_pending = None;
            return Command::ClearEq;
        },
        KeyCode::Char(',') => {
            state.g_pending = None;
            return Command::Seek(-5);
        },
        KeyCode::Char('.') => {
            state.g_pending = None;
            return Command::Seek(5);
        },
        KeyCode::Char('[') => {
            state.g_pending = None;
            return Command::Seek(-30);
        },
        KeyCode::Char(']') => {
            state.g_pending = None;
            return Command::Seek(30);
        },
        KeyCode::Char('+') | KeyCode::Char('=') => {
            state.g_pending = None;
            return Command::Volume(5);
        },
        KeyCode::Char('-') | KeyCode::Char('_') => {
            state.g_pending = None;
            return Command::Volume(-5);
        },
        KeyCode::Char('g') => handle_gg(state, now, true),
        KeyCode::Char('G') => {
            state.g_pending = None;
            state.browser.select_last();
        },
        _ => {},
    }
    Command::Nothing
}

fn handle_preset_keys(state: &mut AppState, key: KeyInput, now: u64) -> (r: Command)
    requires
        old(state)@.within_limits(),
    ensures
        (final(state)@, r) == preset_step(old(state)@, key, now),
{
    match key.code {
        KeyCode::Esc | KeyCode::Char('q') => {
            state.g_pending = None;
            state.mode = Mode::Browser;
        },
        KeyCode::Char('?') => state.show_help(),
        KeyCode::Char('j') | KeyCode::Down => {
            state.g_pending = None;
            state.presets.move_by(1);
        },
        KeyCode::Char('k') | KeyCode::Up => {
            state.g_pending = None;
            state.presets.move_by(-1);
        },
        KeyCode::PageDown => {
            state.g_pending = None;
            let rows = page_rows(state);
            state.presets.page_by(rows, true);
        },
        KeyCode::PageUp => {
            state.g_pending = None;
            let rows = page_rows(state);
            state.presets.page_by(rows, false);
        },
        KeyCode::Char('/') => {
            state.g_pending = None;
            state.enter_search(SearchTarget::Presets);
        },
        KeyCode::Enter => {
            state.g_pending = None;
            return Command::ApplyPreset;
        },
        KeyCode::Char('x') => {
            state.g_pending = None;
            return Command::ClearEq;
        },
        KeyCode::Char('g') => handle_gg(state, now, false),
        KeyCode::Char('G') => {
            state.g_pending = None;
            state.presets.select_last();
        },
        KeyCode::Char(' ') => return Command::TogglePause,
        KeyCode::Char(',') => return Command::Seek(-5),
        KeyCode::Char('.') => return Command::Seek(5),
        KeyCode::Char('[') => return Command::Seek(-30),
        KeyCode::Char(']') => return Command::Seek(30),
        KeyCode::Char('+') | KeyCode::Char('=') => return Command::Volume(5),
        KeyCode::Char('-') | KeyCode::Char('_') => return Command::Volume(-5),
        _ => {},
    }
    Command::Nothing
}

/// Handles one key press at time `now` (nanoseconds): updates the state
/// and returns what the caller must do next.
pub fn handle_key_event(state: &mut AppState, key: KeyInput, now: u64) -> (r: Command)
    requires
        old(state)@.within_limits(),
    ensures
        (final(state)@, r) == key_step(old(state)@, key, now),
{
    if key.ctrl {
        match key.code {
            KeyCode::Char('c') => return Command::Quit,
            KeyCode::Char('l') => {
                state.clear_search_filter();
                return Command::Nothing;
            },
            KeyCode::Char('d') => {
                half_page(state, true);
                return Command::Nothing;
            },
            KeyCode::Char('u') => {
                half_page(state, false);
                return Command::Nothing;
            },
            _ => {},
        }
    }
    match state.mode {
        Mode::Help => handle_help_keys(state, key),
        Mode::Search(target) => handle_search_input(state, key, target, now),
        Mode::Browser => handle_browser_keys(state, key, now),
        Mode::PresetPicker => handle_preset_keys(state, key, now),
    }
}

/// Control-c quits from every mode and changes nothing.
pub proof fn ctrl_c_quits(s: AppView, now: u64)
    ensures
        key_step(s, KeyInput { code: KeyCode::Char('c'), ctrl: true }, now) == (s, Command::Quit),
{
}

/// "gg" typed within the chord window in the browser selects its first
/// item.
pub proof fn gg_selects_first(s: AppView, t1: u64, t2: u64)
    requires
        s.mode == Mode::Browser,
        s.g_pending is None,
        t1 <= t2 <= t1 + CHORD_NS,
    ensures
        ({
            let g = KeyInput { code: KeyCode::Char('g'), ctrl: false };
            let s1 = key_step(s, g, t1).0;
            let s2 = key_step(s1, g, t2).0;
            &&& s1.g_pending == Some(t1)
            &&& s2.browser == s.browser.at_first()
            &&& s2.g_pending is None
        }),
{
}

/// Typing "jk" quickly in a search leaves it with the search text and the
/// filtered list it had when the search was opened.
pub proof fn jk_cancels_search(s: AppView, t: SearchTarget, t1: u64, t2: u64)
    requires
        s.mode == Mode::Search(t),
        s.search_backup == s.search_of(t),
        s.browser.wf(),
        s.presets.wf(),
        t1 <= t2 <= t1 + CHORD_NS,
    ensures
        ({
            let s1 = key_step(s, KeyInput { code: KeyCode::Char('j'), ctrl: false }, t1).0;
            let s2 = key_step(s1, KeyInput { code: KeyCode::Char('k'), ctrl: false }, t2).0;
            &&& s2.mode == mode_after_search(t)
            &&& s2.search_of(t) == s.search_of(t)
            &&& s2.browser.filtered == s.browser.filtered
            &&& s2.presets.filtered == s.presets.filtered
            &&& s2.search_input == s.search_input
        }),
{
    let s1 = key_step(s, KeyInput { code: KeyCode::Char('j'), ctrl: false }, t1).0;
    assert(s1.search_input.drop_last() =~= s.search_input);
}

/// Esc in a search restores the search text and the filtered list it had
/// when the search was opened, whatever was typed since.
pub proof fn esc_restores_search(s: AppView, t: SearchTarget, now: u64)
    requires
        s.mode == Mode::Search(t),
        s.browser.wf(),
        s.presets.wf(),
        s.search_backup == s.search_of(t),
    ensures
        ({
            let r = key_step(s, KeyInput { code: KeyCode::Esc, ctrl: false }, now).0;
            &&& r.mode == mode_after_search(t)
            &&& r.search_of(t) == s.search_of(t)
            &&& r.browser.filtered == s.browser.filtered
            &&& r.presets.filtered == s.presets.filtered
        }),
{
}

/// Enter in a search makes the typed text the search of that list.
pub proof fn enter_confirms_search(s: AppView, t: SearchTarget, now: u64)
    requires
        s.mode == Mode::Search(t),
    ensures
        ({
            let r = key_step(s, KeyInput { code: KeyCode::Enter, ctrl: false }, now).0;
            &&& r.mode == mode_after_search(t)
            &&& r.search_of(t) == s.search_input
        }),
{
}

/// The key `c` pressed without Control.
pub open spec fn plain(c: char) -> KeyInput {
    KeyInput { code: KeyCode::Char(c), ctrl: false }
}

/// `t` is `s` with at most the pending "g" chord changed.
pub open spec fn only_chord_changed(s: AppView, t: AppView) -> bool {
    t == (AppView { g_pending: t.g_pending, ..s })
}

/// The playback keys, in the browser and in the preset picker: '.' and
/// ']' seek forward 5 s and 30 s, ',' and '[' seek back as far; '+' (or
/// '=') raises and '-' (or '_') lowers the volume by 5 %; space toggles
/// pause. None of them changes the lists, the mode or the search.
pub proof fn playback_keys(s: AppView, now: u64)
    requires
        s.mode == Mode::Browser || s.mode == Mode::PresetPicker,
    ensures
        key_step(s, plain('.'), now).1 == Command::Seek(5i32),
        key_step(s, plain(','), now).1 == Command::Seek(-5i32),
        key_step(s, plain(']'), now).1 == Command::Seek(30i32),
        key_step(s, plain('['), now).1 == Command::Seek(-30i32),
        key_step(s, plain('+'), now).1 == Command::Volume(5i32),
        key_step(s, plain('='), now).1 == Command::Volume(5i32),
        key_step(s, plain('-'), now).1 == Command::Volume(-5i32),
        key_step(s, plain('_'), now).1 == Command::Volume(-5i32),
        key_step(s, plain(' '), now).1 == Command::TogglePause,
        only_chord_changed(s, key_step(s, plain('.'), now).0),
        only_chord_changed(s, key_step(s, plain(','), now).0),
        only_chord_changed(s, key_step(s, plain(']'), now).0),
        only_chord_changed(s, key_step(s, plain('['), now).0),
        only_chord_changed(s, key_step(s, plain('+'), now).0),
        only_chord_changed(s, key_step(s, plain('='), now).0),
        only_chord_changed(s, key_step(s, plain('-'), now).0),
        only_chord_changed(s, key_step(s, plain('_'), now).0),
        only_chord_changed(s, key_step(s, plain(' '), now).0),
{
}

/// The browser's track keys: 'n' and 'p' step to the next and previous
/// file, 's' stops, 'x' clears the EQ, 'r' re-reads the folder, 'h' goes
/// to the parent and 'l' opens the selection; none changes the state but
/// the pending "g" chord, which it cancels.
pub proof fn browser_track_keys(s: AppView, now: u64)
    requires
        s.mode == Mode::Browser,
    ensures
        key_step(s, plain('n'), now) == (s.g_cleared(), Command::StepFile(1i32)),
        key_step(s, plain('p'), now) == (s.g_cleared(), Command::StepFile(-1i32)),
        key_step(s, plain('s'), now) == (s.g_cleared(), Command::Stop),
        key_step(s, plain('x'), now) == (s.g_cleared(), Command::ClearEq),
        key_step(s, plain('r'), now) == (s.g_cleared(), Command::Refresh),
        key_step(s, plain('h'), now) == (s.g_cleared(), Command::GoParent),
        key_step(s, plain('l'), now) == (s.g_cleared(), Command::OpenSelected),
        key_step(s, plain('.'), now).0.g_pending is None,
{
}

} // verus!
