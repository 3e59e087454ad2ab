//! What the screen shows, decided from the state: which list, its title,
//! the message of an empty list, the header labels and the footer lines.
//! Drawing them is left to the caller.
use vstd::prelude::*;

use crate::state::{AppState, AppView, Mode, SearchTarget};
use crate::text::{append_chars, chars_of, contains_seq, decimal, find_in, lowered, string_of, lowercase, u64_to_decimal};
use crate::util::{truncate_middle, truncated_middle};

verus! {

/// The list on screen is the preset list: in the picker, in a preset
/// search, and in the help opened from the picker.
pub open spec fn shows_presets(s: AppView) -> bool {
    match s.mode {
        Mode::PresetPicker | Mode::Search(SearchTarget::Presets) => true,
        Mode::Help => s.return_mode == Mode::PresetPicker,
        _ => false,
    }
}

/// Whether the list on screen is the preset list.
pub fn showing_presets(state: &AppState) -> (r: bool)
    ensures
        r == shows_presets(state@),
{
    match state.mode {
        Mode::PresetPicker | Mode::Search(SearchTarget::Presets) => true,
        Mode::Help => match state.return_mode {
            Mode::PresetPicker => true,
            _ => false,
        },
        _ => false,
    }
}

/// The title of the list panel.
pub open spec fn list_title_text(s: AppView) -> Seq<char> {
    if shows_presets(s) {
        if s.presets.loading {
            " EQ PRESETS  \u{b7}  LOADING\u{2026} "@
        } else {
            " EQ PRESETS  \u{b7}  "@ + decimal(s.presets.filtered.len()) + "/"@ + decimal(
                s.presets.presets.len(),
            ) + " "@
        }
    } else {
        " LIBRARY  \u{b7}  "@ + decimal(s.browser.filtered.len()) + "/"@ + decimal(
            s.browser.entries.len(),
        ) + " "@
    }
}

fn shown_of_total(prefix: &str, shown: usize, total: usize) -> (r: String)
    ensures
        r@ == prefix@ + decimal(shown as nat) + "/"@ + decimal(total as nat) + " "@,
{
    let mut v = chars_of(prefix);
    append_chars(&mut v, &chars_of(u64_to_decimal(shown as u64).as_str()));
    append_chars(&mut v, &chars_of("/"));
    append_chars(&mut v, &chars_of(u64_to_decimal(total as u64).as_str()));
    append_chars(&mut v, &chars_of(" "));
    string_of(&v)
}

/// The title of the list panel: which list, and how many of its items
/// the filter shows.
pub fn list_title(state: &AppState) -> (r: String)
    ensures
        r@ == list_title_text(state@),
{
    if showing_presets(state) {
        if state.presets.loading {
            string_of(&chars_of(" EQ PRESETS  \u{b7}  LOADING\u{2026} "))
        } else {
            shown_of_total(
                " EQ PRESETS  \u{b7}  ",
                state.presets.filtered.len(),
                state.presets.presets.len(),
            )
        }
    } else {
        shown_of_total(" LIBRARY  \u{b7}  ", state.browser.filtered.len(), state.browser.entries.len())
    }
}

/// The message shown in place of an empty list.
pub open spec fn empty_list_text(s: AppView) -> Seq<char> {
    if shows_presets(s) {
        if s.presets.loading {
            "Loading AutoEq presets in the background\u{2026}"@
        } else if s.presets.search.len() > 0 {
            "No presets match this filter. Press Ctrl-l to clear."@
        } else {
            "No presets found. Check AutoEq download or --presets-dir."@
        }
    } else if s.browser.search.len() > 0 {
        "No files match this filter. Press Ctrl-l to clear."@
    } else {
        "No audio files here. Press h for parent, or open another folder."@
    }
}

/// The message shown in place of an empty list.
pub fn empty_list_message(state: &AppState) -> (r: String)
    ensures
        r@ == empty_list_text(state@),
{
    let t = if showing_presets(state) {
        if state.presets.loading {
            "Loading AutoEq presets in the background\u{2026}"
        } else if state.presets.search.as_str().unicode_len() > 0 {
            "No presets match this filter. Press Ctrl-l to clear."
        } else {
            "No presets found. Check AutoEq download or --presets-dir."
        }
    } else if state.browser.search.as_str().unicode_len() > 0 {
        "No files match this filter. Press Ctrl-l to clear."
    } else {
        "No audio files here. Press h for parent, or open another folder."
    };
    string_of(&chars_of(t))
}

/// A status line reports a failure when, lowercased, it mentions "fail"
/// or "error".
pub open spec fn is_error_status(status: Seq<char>) -> bool {
    contains_seq(lowered(status), "fail"@) || contains_seq(lowered(status), "error"@)
}

/// Whether the status line reports a failure (it is then highlighted).
pub fn status_is_error(status: &str) -> (r: bool)
    ensures
        r == is_error_status(status@),
{
    let lower = chars_of(lowercase(status).as_str());
    find_in(&lower, &chars_of("fail")) || find_in(&lower, &chars_of("error"))
}

/// The playback state in the header.
pub open spec fn state_label_text(s: AppView) -> Seq<char> {
    if s.now_playing is Some {
        if s.paused {
            "PAUSED"@
        } else {
            "PLAYING"@
        }
    } else {
        "IDLE"@
    }
}

/// "PAUSED", "PLAYING" or "IDLE".
pub fn state_label(state: &AppState) -> (r: String)
    ensures
        r@ == state_label_text(state@),
{
    let t = if state.now_playing.is_some() {
        if state.paused {
            "PAUSED"
        } else {
            "PLAYING"
        }
    } else {
        "IDLE"
    };
    string_of(&chars_of(t))
}

/// The EQ shown in the header: the active preset, shortened to 48
/// characters, or "flat".
pub open spec fn preset_label_text(s: AppView) -> Seq<char> {
    match s.active_preset {
        Some(p) => truncated_middle(p, 48),
        None => "flat"@,
    }
}

/// The EQ label of the header.
pub fn preset_label(state: &AppState) -> (r: String)
    ensures
        r@ == preset_label_text(state@),
{
    match &state.active_preset {
        Some(p) => truncate_middle(p.as_str(), 48),
        None => string_of(&chars_of("flat")),
    }
}

/// Whether the preset called `name` is the active one.
pub fn is_active_preset(state: &AppState, name: &str) -> (r: bool)
    ensures
        r == (state@.active_preset == Some(name@)),
{
    match &state.active_preset {
        Some(a) => {
            let x = chars_of(a.as_str());
            let y = chars_of(name);
            crate::text::same_chars(&x, y.as_slice())
        },
        None => false,
    }
}

/// One line of the footer after the status line.
#[derive(Debug, PartialEq, Eq)]
pub enum FooterNote {
    /// The search being typed: what it filters ("files" or "presets") and
    /// the text so far.
    SearchPrompt { label: String, input: String },
    /// Key hints.
    Hint(String),
    /// The filter in force.
    Filter(String),
    /// The presets are still loading.
    Loading(String),
}

pub open spec fn search_hint() -> Seq<char> {
    "Enter confirm  Esc cancel  jk cancel (vim)  type to filter live"@
}

pub open spec fn picker_hint() -> Seq<char> {
    "j/k move  Enter apply  / search  x clear EQ  gg/G top/bottom  PgUp/Dn page  Esc back  ? help"@
}

pub open spec fn help_hint() -> Seq<char> {
    "Press ? or Esc to close help"@
}

pub open spec fn browser_hint() -> Seq<char> {
    "j/k move  h/l browse  Enter play  e EQ  space pause  n/p next/prev  ,/. seek  +/- vol  ? help  q quit"@
}

pub open spec fn loading_note() -> Seq<char> {
    "Loading AutoEq presets in the background\u{2026}"@
}

pub open spec fn is_hint(n: FooterNote, t: Seq<char>) -> bool {
    match n {
        FooterNote::Hint(h) => h@ == t,
        _ => false,
    }
}

pub open spec fn is_filter(n: FooterNote, t: Seq<char>) -> bool {
    match n {
        FooterNote::Filter(f) => f@ == t,
        _ => false,
    }
}

pub open spec fn is_loading(n: FooterNote, t: Seq<char>) -> bool {
    match n {
        FooterNote::Loading(l) => l@ == t,
        _ => false,
    }
}

pub open spec fn is_prompt(n: FooterNote, label: Seq<char>, input: Seq<char>) -> bool {
    match n {
        FooterNote::SearchPrompt { label: l, input: i } => l@ == label && i@ == input,
        _ => false,
    }
}

/// The footer lines below the status line, by mode: the search prompt and
/// its hint; the picker's hint and its filter or loading note; the help's
/// hint; the browser's hint and its filter.
pub open spec fn footer_matches(s: AppView, notes: Seq<FooterNote>) -> bool {
    match s.mode {
        Mode::Search(t) => {
            &&& notes.len() == 2
            &&& is_prompt(
                notes[0],
                if t == SearchTarget::Browser {
                    "files"@
                } else {
                    "presets"@
                },
                s.search_input,
            )
            &&& is_hint(notes[1], search_hint())
        },
        Mode::PresetPicker => {
            &&& notes.len() >= 1
            &&& is_hint(notes[0], picker_hint())
            &&& if s.presets.search.len() > 0 {
                notes.len() == 2 && is_filter(notes[1], "filter: /"@ + s.presets.search)
            } else if s.presets.loading {
                notes.len() == 2 && is_loading(notes[1], loading_note())
            } else {
                notes.len() == 1
            }
        },
        Mode::Help => notes.len() == 1 && is_hint(notes[0], help_hint()),
        Mode::Browser => {
            &&& notes.len() >= 1
            &&& is_hint(notes[0], browser_hint())
            &&& if s.browser.search.len() > 0 {
                notes.len() == 2 && is_filter(notes[1], "filter: /"@ + s.browser.search)
            } else {
                notes.len() == 1
            }
        },
    }
}

fn filter_note(search: &String) -> (r: FooterNote)
    ensures
        r matches FooterNote::Filter(f) && f@ == "filter: /"@ + search@,
{
    let mut v = chars_of("filter: /");
    append_chars(&mut v, &chars_of(search.as_str()));
    FooterNote::Filter(string_of(&v))
}

/// The footer lines below the status line.
pub fn footer_notes(state: &AppState) -> (r: Vec<FooterNote>)
    ensures
        footer_matches(state@, r@),
{
    let mut notes: Vec<FooterNote> = Vec::new();
    match state.mode {
        Mode::Search(t) => {
            let label = match t {
                SearchTarget::Browser => string_of(&chars_of("files")),
                SearchTarget::Presets => string_of(&chars_of("presets")),
            };
            notes.push(FooterNote::SearchPrompt { label, input: state.search_input.clone() });
            notes.push(
                FooterNote::Hint(
                    string_of(
                        &chars_of("Enter confirm  Esc cancel  jk cancel (vim)  type to filter live"),
                    ),
                ),
            );
        },
        Mode::PresetPicker => {
            notes.push(
                FooterNote::Hint(
                    string_of(
                        &chars_of(
                            "j/k move  Enter apply  / search  x clear EQ  gg/G top/bottom  PgUp/Dn page  Esc back  ? help",
                        ),
                    ),
                ),
            );
            if state.presets.search.as_str().unicode_len() > 0 {
                notes.push(filter_note(&state.presets.search));
            } else if state.presets.loading {
                notes.push(
                    FooterNote::Loading(
                        string_of(&chars_of("Loading AutoEq presets in the background\u{2026}")),
                    ),
                );
            }
        },
        Mode::Help => {
            notes.push(FooterNote::Hint(string_of(&chars_of("Press ? or Esc to close help"))));
        },
        Mode::Browser => {
            notes.push(
                FooterNote::Hint(
                    string_of(
                        &chars_of(
                            "j/k move  h/l browse  Enter play  e EQ  space pause  n/p next/prev  ,/. seek  +/- vol  ? help  q quit",
                        ),
                    ),
                ),
            );
            if state.browser.search.as_str().unicode_len() > 0 {
                notes.push(filter_note(&state.browser.search));
            }
        },
    }
    notes
}

} // verus!
