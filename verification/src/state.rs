//! The player's state apart from the audio engine: what is shown, what is
//! selected, what is playing, and the status line. Every change the
//! player makes to it is one of the transitions below; the audio engine's
//! work happens around them.
use vstd::prelude::*;

use std::path::PathBuf;

use crate::browser::{BrowserState, BrowserView, Entry, EntryKind};
use crate::eq::Preset;
use crate::presets::{BgMessage, PresetState, PresetView};
use crate::text::{append_chars, chars_of, decimal, string_of, u64_to_decimal};

verus! {

#[derive(Debug, Copy, Clone, PartialEq, Eq, Structural)]
pub enum SearchTarget {
    Browser,
    Presets,
}

#[derive(Debug, Copy, Clone, PartialEq, Eq, Structural)]
pub enum Mode {
    Browser,
    PresetPicker,
    Search(SearchTarget),
    Help,
}

/// The player's state. Times are nanoseconds on a clock the caller keeps.
pub struct AppState {
    pub mode: Mode,
    /// The mode to go back to when the help closes.
    pub return_mode: Mode,
    pub browser: BrowserState,
    pub presets: PresetState,
    pub status: String,
    pub now_playing: Option<PathBuf>,
    pub paused: bool,
    pub active_preset: Option<String>,
    pub search_input: String,
    /// The search text to restore when a search is cancelled.
    pub search_backup: String,
    /// When a first 'g' of "gg" was pressed.
    pub g_pending: Option<u64>,
    /// When a 'j' that may start "jk" was typed in a search.
    pub search_j_pending: Option<u64>,
    /// Rows of the visible list.
    pub list_height: usize,
    /// Auto-advance already fired for the current end of file.
    pub auto_advanced: bool,
}

/// The state as a value.
pub struct AppView {
    pub mode: Mode,
    pub return_mode: Mode,
    pub browser: BrowserView,
    pub presets: PresetView,
    pub status: Seq<char>,
    pub now_playing: Option<PathBuf>,
    pub paused: bool,
    pub active_preset: Option<Seq<char>>,
    pub search_input: Seq<char>,
    pub search_backup: Seq<char>,
    pub g_pending: Option<u64>,
    pub search_j_pending: Option<u64>,
    pub list_height: usize,
    pub auto_advanced: bool,
}

pub open spec fn opt_text(o: Option<String>) -> Option<Seq<char>> {
    match o {
        Some(s) => Some(s@),
        None => None,
    }
}

impl View for AppState {
    type V = AppView;

    open spec fn view(&self) -> AppView {
        AppView {
            mode: self.mode,
            return_mode: self.return_mode,
            browser: self.browser@,
            presets: self.presets@,
            status: self.status@,
            now_playing: self.now_playing,
            paused: self.paused,
            active_preset: opt_text(self.active_preset),
            search_input: self.search_input@,
            search_backup: self.search_backup@,
            g_pending: self.g_pending,
            search_j_pending: self.search_j_pending,
            list_height: self.list_height,
            auto_advanced: self.auto_advanced,
        }
    }
}

/// A string with the characters of `s`.
pub fn text(s: &str) -> (r: String)
    ensures
        r@ == s@,
{
    string_of(&chars_of(s))
}

fn concat(a: &str, b: &str) -> (r: String)
    ensures
        r@ == a@ + b@,
{
    let mut v = chars_of(a);
    append_chars(&mut v, &chars_of(b));
    string_of(&v)
}

/// The first index of a preset called `name`.
pub open spec fn is_first_named(presets: Seq<Preset>, name: Seq<char>, i: int) -> bool {
    &&& 0 <= i < presets.len()
    &&& presets[i].name@ == name
    &&& forall|j: int| 0 <= j < i ==> presets[j].name@ != name
}

/// The position, moving from `pos` in steps of `dir`, of the next listed
/// item that is a file.
pub open spec fn next_file_position(b: BrowserView, pos: int, dir: int) -> Option<int>
    decreases (if dir > 0 {
        b.filtered.len() - pos
    } else {
        pos + 1
    }),
    when dir != 0 && pos >= -1 && pos <= b.filtered.len()
{
    let p = pos + dir;
    if p < 0 || p >= b.filtered.len() {
        None
    } else if b.entries[b.filtered[p] as int].kind == EntryKind::File {
        Some(p)
    } else {
        next_file_position(b, p, dir)
    }
}

impl AppView {
    /// The status line says `t`.
    pub open spec fn with_status(self, t: Seq<char>) -> AppView {
        AppView { status: t, ..self }
    }

    pub open spec fn search_of(self, t: SearchTarget) -> Seq<char> {
        match t {
            SearchTarget::Browser => self.browser.search,
            SearchTarget::Presets => self.presets.search,
        }
    }

    /// The search of `t` set to `v`, its list refiltered.
    pub open spec fn searched(self, t: SearchTarget, v: Seq<char>) -> AppView {
        match t {
            SearchTarget::Browser => AppView { browser: self.browser.with_search(v), ..self },
            SearchTarget::Presets => AppView { presets: self.presets.with_search(v), ..self },
        }
    }

    /// Starts editing the search of `t`, remembering its current text.
    pub open spec fn search_entered(self, t: SearchTarget) -> AppView {
        AppView {
            search_backup: self.search_of(t),
            search_input: self.search_of(t),
            search_j_pending: None,
            mode: Mode::Search(t),
            ..self
        }
    }

    /// The typed text becomes the search of `t`.
    pub open spec fn search_updated(self, t: SearchTarget) -> AppView {
        self.searched(t, self.search_input)
    }

    /// The search of `t` goes back to what it was before editing.
    pub open spec fn search_cancelled(self, t: SearchTarget) -> AppView {
        AppView { search_j_pending: None, ..self.searched(t, self.search_backup) }
    }

    /// Clears the filter of the list on screen.
    pub open spec fn search_cleared(self) -> AppView {
        match self.mode {
            Mode::Browser | Mode::Search(SearchTarget::Browser) => AppView {
                search_input: Seq::<char>::empty(),
                status: "Cleared file filter"@,
                ..self.searched(SearchTarget::Browser, Seq::<char>::empty())
            },
            Mode::PresetPicker | Mode::Search(SearchTarget::Presets) => AppView {
                search_input: Seq::<char>::empty(),
                status: "Cleared preset filter"@,
                ..self.searched(SearchTarget::Presets, Seq::<char>::empty())
            },
            Mode::Help => self,
        }
    }

    /// Toggles the help: closing it returns to the mode it was opened
    /// from; it does not open over a search.
    pub open spec fn help_toggled(self) -> AppView {
        if self.mode == Mode::Help {
            AppView { mode: self.return_mode, return_mode: Mode::Browser, ..self }
        } else if self.mode is Search {
            self
        } else {
            AppView { return_mode: self.mode, mode: Mode::Help, ..self }
        }
    }

    /// The state after a message from the preset loader.
    pub open spec fn after_message(self, msg: BgMessage) -> AppView {
        match msg {
            BgMessage::Status(t) => self.with_status(t@),
            BgMessage::PresetsLoaded(p) => AppView {
                presets: self.presets.with_presets(p@),
                status: "Loaded "@ + decimal(p@.len()) + " EQ presets"@,
                ..self
            },
            BgMessage::Error(e) => self.with_status(e@),
        }
    }

    /// The result of a pause toggle: nothing to toggle without a track.
    pub open spec fn pause_toggled(self) -> AppView {
        if self.now_playing is None {
            self.with_status("Nothing playing"@)
        } else {
            AppView {
                paused: !self.paused,
                status: if !self.paused {
                    "Paused"@
                } else {
                    "Resumed"@
                },
                ..self
            }
        }
    }

    pub open spec fn stopped(self) -> AppView {
        AppView {
            now_playing: None,
            paused: false,
            auto_advanced: false,
            status: "Stopped"@,
            ..self
        }
    }

    /// A track started: it is playing, unpaused.
    pub open spec fn playing(self, path: PathBuf, name: Seq<char>) -> AppView {
        AppView {
            now_playing: Some(path),
            paused: false,
            auto_advanced: false,
            status: "Playing: "@ + name,
            ..self
        }
    }

    /// Moves to the next (or previous) file of the list; at the end of the
    /// list, says so. The flag tells whether a file was selected to play.
    pub open spec fn file_stepped(self, dir: int) -> (AppView, bool) {
        let b = self.browser;
        if b.selected < 0 || b.selected >= b.filtered.len() {
            (self, false)
        } else {
            match next_file_position(b, b.selected, dir) {
                Some(p) => (AppView { browser: BrowserView { selected: p, ..b }, ..self }, true),
                None => (
                    self.with_status(
                        if dir > 0 {
                            "End of list"@
                        } else {
                            "Start of list"@
                        },
                    ),
                    false,
                ),
            }
        }
    }

    /// The browser now shows folder `cwd` with `entries`, unfiltered.
    pub open spec fn in_folder(self, cwd: PathBuf, entries: Seq<Entry>, status: Seq<char>) -> AppView {
        AppView {
            browser: BrowserView { cwd, search: Seq::<char>::empty(), ..self.browser }.with_entries(
                entries,
            ),
            status,
            ..self
        }
    }

    /// The playback poll: at the end of a track, advance once unless
    /// paused; otherwise re-arm the advance.
    pub open spec fn ticked(self, eof: bool) -> (AppView, bool) {
        if self.now_playing is None {
            (self, false)
        } else if eof {
            if !self.auto_advanced && !self.paused {
                (AppView { auto_advanced: true, ..self }, true)
            } else {
                (self, false)
            }
        } else {
            (AppView { auto_advanced: false, ..self }, false)
        }
    }

    /// Index arithmetic of key handling and stepping stays inside `i32`.
    pub open spec fn within_limits(self) -> bool {
        &&& 0 <= self.browser.selected <= self.browser.filtered.len()
        &&& 0 <= self.presets.selected <= self.presets.filtered.len()
        &&& self.browser.filtered.len() + self.list_height + 2 <= i32::MAX
        &&& self.presets.filtered.len() + self.list_height + 2 <= i32::MAX
        &&& forall|j: int|
            0 <= j < self.browser.filtered.len() ==> #[trigger] self.browser.filtered[j]
                < self.browser.entries.len()
    }
}

impl AppState {
    /// The state at start-up, browsing `browser`.
    pub fn new(browser: BrowserState) -> (r: Self)
        ensures
            r@ == (AppView {
                mode: Mode::Browser,
                return_mode: Mode::Browser,
                browser: browser@,
                presets: r@.presets,
                status: "Ready \u{2014} press ? for help"@,
                now_playing: None,
                paused: false,
                active_preset: None,
                search_input: Seq::<char>::empty(),
                search_backup: Seq::<char>::empty(),
                g_pending: None,
                search_j_pending: None,
                list_height: 20,
                auto_advanced: false,
            }),
            r@.presets == (PresetView {
                presets: Seq::<Preset>::empty(),
                filtered: Seq::<usize>::empty(),
                selected: 0,
                search: Seq::<char>::empty(),
                loading: true,
            }),
    {
        AppState {
            mode: Mode::Browser,
            return_mode: Mode::Browser,
            browser,
            presets: PresetState::new(),
            status: text("Ready \u{2014} press ? for help"),
            now_playing: None,
            paused: false,
            active_preset: None,
            search_input: String::new(),
            search_backup: String::new(),
            g_pending: None,
            search_j_pending: None,
            list_height: 20,
            auto_advanced: false,
        }
    }

    /// Whether the index arithmetic of key handling stays in range.
    pub fn within_limits(&self) -> (r: bool)
        ensures
            r == self@.within_limits(),
    {
        let h = self.list_height as u64;
        let max: u64 = 2147483647;
        let bl = self.browser.filtered.len() as u64;
        let pl = self.presets.filtered.len() as u64;
        if !(self.browser.selected <= self.browser.filtered.len()
            && self.presets.selected <= self.presets.filtered.len()
            && bl <= max && pl <= max && h <= max && bl + h + 2 <= max && pl + h + 2 <= max) {
            return false;
        }
        let mut j: usize = 0;
        while j < self.browser.filtered.len()
            invariant
                j <= self.browser.filtered.len(),
                forall|k: int| 0 <= k < j ==> #[trigger] self.browser.filtered@[k] < self.browser.entries.len(),
            decreases self.browser.filtered.len() - j,
        {
            if self.browser.filtered[j] >= self.browser.entries.len() {
                return false;
            }
            j = j + 1;
        }
        true
    }

    fn search_text_of(&self, target: SearchTarget) -> (r: String)
        ensures
            r@ == self@.search_of(target),
    {
        match target {
            SearchTarget::Browser => self.browser.search.clone(),
            SearchTarget::Presets => self.presets.search.clone(),
        }
    }

    fn set_search_of(&mut self, target: SearchTarget, value: String)
        ensures
            final(self)@ == old(self)@.searched(target, value@),
    {
        match target {
            SearchTarget::Browser => self.browser.set_search(value),
            SearchTarget::Presets => self.presets.set_search(value),
        }
    }

    /// Starts editing the search of `target`.
    pub fn enter_search(&mut self, target: SearchTarget)
        ensures
            final(self)@ == old(self)@.search_entered(target),
    {
        self.search_backup = self.search_text_of(target);
        self.search_input = self.search_backup.clone();
        self.search_j_pending = None;
        self.mode = Mode::Search(target);
    }

    /// Applies the typed text as the search of `target`.
    pub fn update_search(&mut self, target: SearchTarget)
        ensures
            final(self)@ == old(self)@.search_updated(target),
    {
        let value = self.search_input.clone();
        self.set_search_of(target, value);
    }

    /// Restores the search of `target` from before editing.
    pub fn cancel_search(&mut self, target: SearchTarget)
        ensures
            final(self)@ == old(self)@.search_cancelled(target),
    {
        let value = self.search_backup.clone();
        self.set_search_of(target, value);
        self.search_j_pending = None;
    }

    /// Clears the filter of the list on screen.
    pub fn clear_search_filter(&mut self)
        ensures
            final(self)@ == old(self)@.search_cleared(),
    {
        match self.mode {
            Mode::Browser | Mode::Search(SearchTarget::Browser) => {
                self.browser.set_search(String::new());
                self.search_input = String::new();
                self.status = text("Cleared file filter");
            },
            Mode::PresetPicker | Mode::Search(SearchTarget::Presets) => {
                self.presets.set_search(String::new());
                self.search_input = String::new();
                self.status = text("Cleared preset filter");
            },
            Mode::Help => {},
        }
    }

    /// Opens or closes the help.
    pub fn show_help(&mut self)
        ensures
            final(self)@ == old(self)@.help_toggled(),
    {
        match self.mode {
            Mode::Help => {
                self.mode = self.return_mode;
                self.return_mode = Mode::Browser;
            },
            Mode::Search(_) => {},
            _ => {
                self.return_mode = self.mode;
                self.mode = Mode::Help;
            },
        }
    }

    /// Takes in one message of the preset loader.
    pub fn apply_bg_message(&mut self, msg: BgMessage)
        ensures
            final(self)@ == old(self)@.after_message(msg),
    {
        match msg {
            BgMessage::Status(t) => {
                self.status = t;
            },
            BgMessage::PresetsLoaded(presets) => {
                let count = presets.len();
                self.presets.set_presets(presets);
                let n = u64_to_decimal(count as u64);
                let mut v = chars_of("Loaded ");
                append_chars(&mut v, &chars_of(n.as_str()));
                append_chars(&mut v, &chars_of(" EQ presets"));
                self.status = string_of(&v);
            },
            BgMessage::Error(e) => {
                self.status = e;
            },
        }
    }

    /// Toggles the pause flag; `true` when there is a track, so that the
    /// audio engine must follow the new flag.
    pub fn toggle_pause(&mut self) -> (r: bool)
        ensures
            final(self)@ == old(self)@.pause_toggled(),
            r == old(self).now_playing is Some,
    {
        if self.now_playing.is_none() {
            self.status = text("Nothing playing");
            return false;
        }
        self.paused = !self.paused;
        self.status = if self.paused {
            text("Paused")
        } else {
            text("Resumed")
        };
        true
    }

    /// For commands that need a track: `false`, with a status saying so,
    /// when nothing is playing.
    pub fn require_playing(&mut self) -> (r: bool)
        ensures
            r == old(self).now_playing is Some,
            r ==> final(self)@ == old(self)@,
            !r ==> final(self)@ == old(self)@.with_status("Nothing playing"@),
    {
        if self.now_playing.is_none() {
            self.status = text("Nothing playing");
            false
        } else {
            true
        }
    }

    /// Playback stopped.
    pub fn mark_stopped(&mut self)
        ensures
            final(self)@ == old(self)@.stopped(),
    {
        self.now_playing = None;
        self.paused = false;
        self.auto_advanced = false;
        self.status = text("Stopped");
    }

    /// The selected entry when it is a file that can be played.
    pub fn playable_entry(&self) -> (r: Option<&Entry>)
        ensures
            r is Some <==> (self.selected_is_listed() && self.browser.entries@[self.browser.filtered@[self.browser.selected as int] as int].kind
                == EntryKind::File),
            r matches Some(e) ==> *e == self.browser.entries@[self.browser.filtered@[self.browser.selected as int] as int],
    {
        match self.browser.selected_entry() {
            Some(e) => match e.kind {
                EntryKind::File => Some(e),
                EntryKind::Dir => None,
            },
            None => None,
        }
    }

    pub open spec fn selected_is_listed(&self) -> bool {
        self.browser.selected < self.browser.filtered.len() && self.browser.filtered@[self.browser.selected as int]
            < self.browser.entries.len()
    }

    /// The track at `path`, called `name`, started playing. Gives the
    /// index of the active preset, so that its EQ can be applied again.
    pub fn playing_started(&mut self, path: PathBuf, name: &str) -> (r: Option<usize>)
        ensures
            final(self)@ == old(self)@.playing(path, name@),
            match old(self)@.active_preset {
                Some(a) => match r {
                    Some(i) => is_first_named(old(self).presets.presets@, a, i as int),
                    None => forall|j: int| 0 <= j < old(self).presets.presets@.len() ==> #[trigger] old(self).presets.presets@[j].name@ != a,
                },
                None => r is None,
            },
    {
        let mut found: Option<usize> = None;
        match &self.active_preset {
            Some(a) => {
                let mut i: usize = 0;
                while found.is_none() && i < self.presets.presets.len()
                    invariant
                        i <= self.presets.presets.len(),
                        found is None ==> forall|j: int| 0 <= j < i ==> #[trigger] self.presets.presets@[j].name@ != a@,
                        found matches Some(k) ==> is_first_named(self.presets.presets@, a@, k as int),
                    decreases self.presets.presets.len() - i,
                {
                    if self.presets.presets[i].name == *a {
                        found = Some(i);
                    }
                    i = i + 1;
                }
            },
            None => {},
        }
        self.now_playing = Some(path);
        self.paused = false;
        self.auto_advanced = false;
        self.status = concat("Playing: ", name);
        found
    }

    /// The track called `name` could not be played.
    pub fn play_failed(&mut self, name: &str)
        ensures
            final(self)@ == old(self)@.with_status("Failed to play: "@ + name@),
    {
        self.status = concat("Failed to play: ", name);
    }

    /// Selects the next (`direction > 0`) or previous file of the list;
    /// `true` when one was selected and should now play.
    pub fn step_target(&mut self, direction: i32) -> (r: bool)
        requires
            direction != 0,
            old(self)@.within_limits(),
            direction > 0 ==> old(self).browser.filtered.len() + direction <= i32::MAX + 1,
        ensures
            (final(self)@, r) == old(self)@.file_stepped(direction as int),
    {
        let len = self.browser.filtered.len();
        if self.browser.selected >= len {
            return false;
        }
        let ghost b = self.browser@;
        let mut idx: i64 = self.browser.selected as i64;
        loop
            invariant
                0 <= idx < len,
                len == self.browser.filtered.len(),
                self.browser@ == b,
                old(self)@ == self@,
                0 <= b.selected < len,
                old(self)@.within_limits(),
                direction != 0,
                next_file_position(b, b.selected, direction as int) == next_file_position(
                    b,
                    idx as int,
                    direction as int,
                ),
            decreases (if direction > 0 {
                len - idx
            } else {
                idx + 1
            }),
        {
            idx = idx + direction as i64;
            if idx < 0 || idx >= len as i64 {
                if direction > 0 {
                    self.status = text("End of list");
                } else {
                    self.status = text("Start of list");
                }
                return false;
            }
            let entry = &self.browser.entries[self.browser.filtered[idx as usize]];
            if let EntryKind::File = entry.kind {
                self.browser.selected = idx as usize;
                return true;
            }
        }
    }

    /// The preset called `name` was applied.
    pub fn preset_applied(&mut self, name: String)
        ensures
            final(self)@ == (AppView {
                active_preset: Some(name@),
                status: "EQ: "@ + name@,
                mode: Mode::Browser,
                ..old(self)@
            }),
    {
        self.status = concat("EQ: ", name.as_str());
        self.active_preset = Some(name);
        self.mode = Mode::Browser;
    }

    /// Applying a preset failed with the error `err`.
    pub fn preset_failed(&mut self, err: &str)
        ensures
            final(self)@ == old(self)@.with_status("Failed to apply preset: "@ + err@),
    {
        self.status = concat("Failed to apply preset: ", err);
    }

    /// The EQ was cleared.
    pub fn eq_cleared(&mut self)
        ensures
            final(self)@ == (AppView {
                active_preset: None,
                status: "EQ cleared (flat)"@,
                ..old(self)@
            }),
    {
        self.active_preset = None;
        self.status = text("EQ cleared (flat)");
    }

    /// Clearing the EQ failed with the error `err`.
    pub fn eq_clear_failed(&mut self, err: &str)
        ensures
            final(self)@ == old(self)@.with_status("Failed to clear EQ: "@ + err@),
    {
        self.status = concat("Failed to clear EQ: ", err);
    }

    /// The browser moved into the folder `cwd` (shown as `shown`) whose
    /// listing is `entries`.
    pub fn open_folder(&mut self, cwd: PathBuf, entries: Vec<Entry>, shown: &str)
        ensures
            final(self)@ == old(self)@.in_folder(cwd, entries@, "Opened "@ + shown@),
    {
        self.browser.cwd = cwd;
        self.browser.search = String::new();
        self.browser.refresh(entries);
        self.status = concat("Opened ", shown);
    }

    /// The browser moved up to the parent folder `cwd` (shown as `shown`)
    /// whose listing is `entries`.
    pub fn open_parent(&mut self, cwd: PathBuf, entries: Vec<Entry>, shown: &str)
        ensures
            final(self)@ == old(self)@.in_folder(cwd, entries@, "\u{2190} "@ + shown@),
    {
        self.browser.cwd = cwd;
        self.browser.search = String::new();
        self.browser.refresh(entries);
        self.status = concat("\u{2190} ", shown);
    }

    /// The current folder was listed again.
    pub fn refreshed(&mut self, entries: Vec<Entry>)
        ensures
            final(self)@ == (AppView {
                browser: old(self)@.browser.with_entries(entries@),
                status: "Refreshed \u{2014} "@ + decimal(final(self)@.browser.filtered.len()) + " items"@,
                ..old(self)@
            }),
    {
        self.browser.refresh(entries);
        let n = u64_to_decimal(self.browser.filtered.len() as u64);
        let mut v = chars_of("Refreshed \u{2014} ");
        append_chars(&mut v, &chars_of(n.as_str()));
        append_chars(&mut v, &chars_of(" items"));
        self.status = string_of(&v);
    }

    /// The playback poll with the engine's end-of-file flag; `true` when
    /// the next file should start.
    pub fn playback_tick(&mut self, eof: bool) -> (r: bool)
        ensures
            (final(self)@, r) == old(self)@.ticked(eof),
    {
        if self.now_playing.is_none() {
            return false;
        }
        if eof {
            if !self.auto_advanced && !self.paused {
                self.auto_advanced = true;
                return true;
            }
        } else {
            self.auto_advanced = false;
        }
        false
    }
}

/// Opening a search and cancelling it straight away leaves both lists as
/// they were.
pub proof fn cancel_right_after_enter_restores(s: AppView, t: SearchTarget)
    requires
        s.browser.wf(),
        s.presets.wf(),
    ensures
        s.search_entered(t).search_cancelled(t).browser == s.browser,
        s.search_entered(t).search_cancelled(t).presets == s.presets,
        s.search_entered(t).search_cancelled(t).mode == Mode::Search(t),
{
    let b = s.browser;
    let p = s.presets;
    assert(BrowserView { search: b.search, ..b }.refiltered() == b);
    assert(PresetView { search: p.search, ..p }.refiltered() == p);
}

/// Refiltering twice gives what refiltering once gives.
pub proof fn refilter_idempotent(b: BrowserView, p: PresetView)
    ensures
        b.refiltered().refiltered() == b.refiltered(),
        p.refiltered().refiltered() == p.refiltered(),
{
}

/// Opening the help from the browser or the picker and closing it again
/// comes back to the same mode.
pub proof fn help_round_trip(s: AppView)
    requires
        s.mode == Mode::Browser || s.mode == Mode::PresetPicker,
    ensures
        s.help_toggled().mode == Mode::Help,
        s.help_toggled().help_toggled() == (AppView { return_mode: Mode::Browser, ..s }),
{
}

/// The help never opens over a search.
pub proof fn help_not_over_search(s: AppView, t: SearchTarget)
    requires
        s.mode == Mode::Search(t),
    ensures
        s.help_toggled() == s,
{
}

/// Toggling pause twice while a track plays restores the pause flag.
pub proof fn pause_twice_restores(s: AppView)
    requires
        s.now_playing is Some,
    ensures
        s.pause_toggled().pause_toggled().paused == s.paused,
        s.pause_toggled().paused == !s.paused,
{
}

/// Auto-advance fires at most once per end of file: a second poll that
/// still sees the end does not advance again, and a poll before the end
/// re-arms it.
pub proof fn auto_advance_once(s: AppView)
    ensures
        !s.ticked(true).0.ticked(true).1,
        s.now_playing is Some && !s.paused ==> s.ticked(false).0.ticked(true).1,
{
}

/// Stepping to the next or previous file lands on a file, and every item
/// passed over on the way is a folder.
pub proof fn step_lands_on_nearest_file(b: BrowserView, pos: int, dir: int)
    requires
        dir != 0,
        -1 <= pos <= b.filtered.len(),
    ensures
        next_file_position(b, pos, dir) matches Some(p) ==> {
            &&& 0 <= p < b.filtered.len()
            &&& b.entries[b.filtered[p] as int].kind == EntryKind::File
            &&& (dir > 0 ==> p > pos) && (dir < 0 ==> p < pos)
            &&& forall|m: int|
                #![trigger passed_over(pos, dir, m)]
                m >= 1 && (if dir > 0 {
                    passed_over(pos, dir, m) < p
                } else {
                    passed_over(pos, dir, m) > p
                }) ==> b.entries[b.filtered[passed_over(pos, dir, m)] as int].kind
                    == EntryKind::Dir
        },
    decreases (if dir > 0 {
        b.filtered.len() - pos
    } else {
        pos + 1
    }),
{
    let p1 = pos + dir;
    if 0 <= p1 < b.filtered.len() && b.entries[b.filtered[p1] as int].kind != EntryKind::File {
        step_lands_on_nearest_file(b, p1, dir);
        if let Some(p) = next_file_position(b, pos, dir) {
            assert forall|m: int|
                #![trigger passed_over(pos, dir, m)]
                m >= 1 && (if dir > 0 {
                    passed_over(pos, dir, m) < p
                } else {
                    passed_over(pos, dir, m) > p
                }) implies b.entries[b.filtered[passed_over(pos, dir, m)] as int].kind
                == EntryKind::Dir by {
                if m > 1 {
                    assert(passed_over(pos, dir, m) == passed_over(p1, dir, m - 1)) by (nonlinear_arith)
                        requires
                            p1 == pos + dir,
                    ;
                } else {
                    assert(passed_over(pos, dir, m) == p1) by (nonlinear_arith)
                        requires
                            p1 == pos + dir,
                            m == 1,
                    ;
                    match b.entries[b.filtered[p1] as int].kind {
                        EntryKind::Dir => {},
                        EntryKind::File => {},
                    }
                }
            }
        }
    } else {
        assert forall|m: int| #![trigger passed_over(pos, dir, m)] m >= 1 implies (if dir > 0 {
            passed_over(pos, dir, m) >= p1
        } else {
            passed_over(pos, dir, m) <= p1
        }) by {
            if dir > 0 {
                assert(m * dir >= dir) by (nonlinear_arith)
                    requires
                        m >= 1,
                        dir > 0,
                ;
            } else {
                assert(m * dir <= dir) by (nonlinear_arith)
                    requires
                        m >= 1,
                        dir < 0,
                ;
            }
        }
    }
}

/// The position `m` steps of `dir` away from `pos`.
pub open spec fn passed_over(pos: int, dir: int, m: int) -> int {
    pos + m * dir
}

/// Clearing the filter (Ctrl-l) lists every item of the list on screen,
/// in order.
pub proof fn clearing_filter_lists_everything(s: AppView)
    requires
        s.browser.entries.len() <= usize::MAX,
        s.presets.presets.len() <= usize::MAX,
    ensures
        s.mode == Mode::Browser || s.mode == Mode::Search(SearchTarget::Browser) ==> {
            &&& s.search_cleared().browser.filtered.len() == s.browser.entries.len()
            &&& forall|i: int|
                0 <= i < s.browser.entries.len() ==> s.search_cleared().browser.filtered[i] == i
        },
        s.mode == Mode::PresetPicker || s.mode == Mode::Search(SearchTarget::Presets) ==> {
            &&& s.search_cleared().presets.filtered.len() == s.presets.presets.len()
            &&& forall|i: int|
                0 <= i < s.presets.presets.len() ==> s.search_cleared().presets.filtered[i] == i
        },
{
    crate::browser::empty_search_lists_everything(s.browser.entries, Seq::<char>::empty());
    crate::presets::empty_search_lists_every_preset(s.presets.presets, Seq::<char>::empty());
}

/// Position `m` of the browser's list shows a file.
pub open spec fn lists_file(b: BrowserView, m: int) -> bool {
    b.entries[b.filtered[m] as int].kind == EntryKind::File
}

/// No position strictly between `lo` and `hi` shows a file.
pub open spec fn only_folders_between(b: BrowserView, lo: int, hi: int) -> bool {
    forall|m: int| lo < m < hi ==> !#[trigger] lists_file(b, m)
}

proof fn lemma_back_finds(b: BrowserView, pos: int, q: int)
    requires
        0 <= q < pos <= b.filtered.len(),
        lists_file(b, q),
        only_folders_between(b, q, pos),
    ensures
        next_file_position(b, pos, -1) == Some(q),
    decreases pos - q,
{
    let p = pos - 1;
    if p > q {
        assert(!lists_file(b, p));
        lemma_back_finds(b, p, q);
    }
}

proof fn lemma_back_none(b: BrowserView, pos: int)
    requires
        0 <= pos <= b.filtered.len(),
        forall|m: int| 0 <= m < pos ==> !#[trigger] lists_file(b, m),
    ensures
        next_file_position(b, pos, -1) is None,
    decreases pos,
{
    if pos > 0 {
        assert(!lists_file(b, pos - 1));
        lemma_back_none(b, pos - 1);
    }
}

proof fn lemma_forward_finds(b: BrowserView, pos: int, q: int)
    requires
        -1 <= pos < q < b.filtered.len(),
        lists_file(b, q),
        only_folders_between(b, pos, q),
    ensures
        next_file_position(b, pos, 1) == Some(q),
    decreases q - pos,
{
    let p = pos + 1;
    if p < q {
        assert(!lists_file(b, p));
        lemma_forward_finds(b, p, q);
    }
}

proof fn lemma_forward_none(b: BrowserView, pos: int)
    requires
        -1 <= pos < b.filtered.len(),
        forall|m: int| pos < m < b.filtered.len() ==> !#[trigger] lists_file(b, m),
    ensures
        next_file_position(b, pos, 1) is None,
    decreases b.filtered.len() - pos,
{
    if pos + 1 < b.filtered.len() {
        assert(!lists_file(b, pos + 1));
        lemma_forward_none(b, pos + 1);
    }
}

/// Stepping back (`p`) from a listed selection selects the nearest file
/// before it, the first item included, and says "Start of list" only when
/// no file comes before it; stepping forward (`n`) selects the nearest file
/// after it, the last item included, and says "End of list" only when no
/// file comes after it.
pub proof fn step_finds_nearest_file(s: AppView, q: int)
    requires
        0 <= s.browser.selected < s.browser.filtered.len(),
    ensures
        0 <= q < s.browser.selected && lists_file(s.browser, q) && only_folders_between(
            s.browser,
            q,
            s.browser.selected,
        ) ==> s.file_stepped(-1) == (
            AppView { browser: BrowserView { selected: q, ..s.browser }, ..s },
            true,
        ),
        s.browser.selected < q < s.browser.filtered.len() && lists_file(s.browser, q)
            && only_folders_between(s.browser, s.browser.selected, q) ==> s.file_stepped(1) == (
            AppView { browser: BrowserView { selected: q, ..s.browser }, ..s },
            true,
        ),
        (forall|m: int| 0 <= m < s.browser.selected ==> !#[trigger] lists_file(s.browser, m))
            ==> s.file_stepped(-1) == (s.with_status("Start of list"@), false),
        (forall|m: int|
            s.browser.selected < m < s.browser.filtered.len() ==> !#[trigger] lists_file(
                s.browser,
                m,
            )) ==> s.file_stepped(1) == (s.with_status("End of list"@), false),
{
    let b = s.browser;
    if 0 <= q < b.selected && lists_file(b, q) && only_folders_between(b, q, b.selected) {
        lemma_back_finds(b, b.selected, q);
    }
    if b.selected < q < b.filtered.len() && lists_file(b, q) && only_folders_between(b, b.selected, q) {
        lemma_forward_finds(b, b.selected, q);
    }
    if forall|m: int| 0 <= m < b.selected ==> !#[trigger] lists_file(b, m) {
        lemma_back_none(b, b.selected);
    }
    if forall|m: int| b.selected < m < b.filtered.len() ==> !#[trigger] lists_file(b, m) {
        lemma_forward_none(b, b.selected);
    }
}

} // verus!
