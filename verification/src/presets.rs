//! EQ presets: the picker's filtered list, preset names derived from file
//! paths, the order presets are listed in, and the decisions taken while
//! fetching the AutoEq results.
use vstd::prelude::*;

use crate::eq::Preset;
use crate::selection::{
    clamp_selection, clamped_selection, matching_indices, move_fits, move_selection,
    moved_selection, name_kept, name_matches, page_fits, page_selection, paged_selection,
    search_needle, selection_fits,
};
use crate::selection::search_key;
use crate::text::contains_seq;
use crate::sorting::{same_ties, sorted_by, stable_sort, SortKey};
use crate::text::{
    append_chars, chars_of, decimal, is_white_space, is_whitespace, lowered, string_of,
    lowercase, u64_to_decimal,
};

verus! {

/// Messages from the background preset loader.
#[derive(Debug)]
pub enum BgMessage {
    Status(String),
    PresetsLoaded(Vec<Preset>),
    Error(String),
}

/// The state of the preset picker.
pub struct PresetState {
    pub presets: Vec<Preset>,
    /// Indices into `presets` of the presets the search keeps.
    pub filtered: Vec<usize>,
    /// Position in `filtered` of the selected preset.
    pub selected: usize,
    pub search: String,
    /// The presets have not been loaded yet.
    pub loading: bool,
}

/// The indices of the presets that `search` keeps, in order.
pub open spec fn presets_kept(presets: Seq<Preset>, search: Seq<char>) -> Seq<usize> {
    matching_indices(presets.len(), |i: int| name_matches(presets[i].name@, search))
}

/// The picker as a value.
pub struct PresetView {
    pub presets: Seq<Preset>,
    pub filtered: Seq<usize>,
    pub selected: int,
    pub search: Seq<char>,
    pub loading: bool,
}

impl View for PresetState {
    type V = PresetView;

    open spec fn view(&self) -> PresetView {
        PresetView {
            presets: self.presets@,
            filtered: self.filtered@,
            selected: self.selected as int,
            search: self.search@,
            loading: self.loading,
        }
    }
}

impl PresetView {
    /// The filtered list agrees with the presets and the search, and the
    /// selection lies inside it.
    pub open spec fn wf(self) -> bool {
        &&& self.filtered == presets_kept(self.presets, self.search)
        &&& selection_fits(self.selected, self.filtered.len() as int)
    }

    pub open spec fn refiltered(self) -> PresetView {
        let f = presets_kept(self.presets, self.search);
        PresetView { filtered: f, selected: clamped_selection(self.selected, f.len() as int), ..self }
    }

    pub open spec fn with_search(self, search: Seq<char>) -> PresetView {
        PresetView { search, ..self }.refiltered()
    }

    /// The presets installed: loading is over.
    pub open spec fn with_presets(self, presets: Seq<Preset>) -> PresetView {
        PresetView { presets, loading: false, ..self }.refiltered()
    }

    pub open spec fn moved(self, delta: int) -> PresetView {
        PresetView { selected: moved_selection(self.selected, self.filtered.len() as int, delta), ..self }
    }

    pub open spec fn paged(self, page: int, forward: bool) -> PresetView {
        PresetView {
            selected: paged_selection(self.selected, self.filtered.len() as int, page, forward),
            ..self
        }
    }

    pub open spec fn at_first(self) -> PresetView {
        PresetView { selected: 0, ..self }
    }

    pub open spec fn at_last(self) -> PresetView {
        if self.filtered.len() == 0 {
            self
        } else {
            PresetView { selected: self.filtered.len() - 1, ..self }
        }
    }
}

impl PresetState {
    /// An empty picker, waiting for presets.
    pub fn new() -> (r: Self)
        ensures
            r@ == (PresetView {
                presets: Seq::<Preset>::empty(),
                filtered: Seq::<usize>::empty(),
                selected: 0,
                search: Seq::<char>::empty(),
                loading: true,
            }),
            r@.wf(),
    {
        let r = PresetState {
            presets: Vec::new(),
            filtered: Vec::new(),
            selected: 0,
            search: String::new(),
            loading: true,
        };
        assert(r@.filtered =~= presets_kept(r@.presets, r@.search));
        r
    }

    /// Installs the loaded presets and refilters.
    pub fn set_presets(&mut self, presets: Vec<Preset>)
        ensures
            final(self)@ == old(self)@.with_presets(presets@),
            final(self)@.wf(),
    {
        self.presets = presets;
        self.loading = false;
        self.apply_filter();
    }

    /// Recomputes which presets the search keeps and clamps the selection.
    pub fn apply_filter(&mut self)
        ensures
            final(self)@ == old(self)@.refiltered(),
            final(self)@.wf(),
    {
        let needle = search_needle(self.search.as_str());
        let ghost presets = self.presets@;
        let ghost search = self.search@;
        let ghost keep = |i: int| name_matches(presets[i].name@, search);
        let mut filtered: Vec<usize> = Vec::new();
        let mut i: usize = 0;
        while i < self.presets.len()
            invariant
                presets == self.presets@,
                search == self.search@,
                keep == (|i: int| name_matches(presets[i].name@, search)),
                needle is None <==> search.len() == 0,
                needle matches Some(n) ==> n@ == crate::selection::search_key(search),
                i <= self.presets.len(),
                filtered@ == matching_indices(i as nat, keep),
            decreases self.presets.len() - i,
        {
            if name_kept(self.presets[i].name.as_str(), &needle, Ghost(search)) {
                filtered.push(i);
            }
            i = i + 1;
        }
        self.filtered = filtered;
        self.selected = clamp_selection(self.selected, self.filtered.len());
        proof {
            crate::selection::selection_stays_in_range(old(self).selected as int, self.filtered.len() as int, 0);
        }
    }

    /// Sets the search text and refilters.
    pub fn set_search(&mut self, value: String)
        ensures
            final(self)@ == old(self)@.with_search(value@),
            final(self)@.wf(),
    {
        self.search = value;
        self.apply_filter();
    }

    /// The selected preset, if the selection points at one.
    pub fn selected_preset(&self) -> (r: Option<&Preset>)
        ensures
            r is Some <==> (self.selected < self.filtered.len() && self.filtered@[self.selected as int]
                < self.presets.len()),
            r matches Some(p) ==> *p == self.presets@[self.filtered@[self.selected as int] as int],
    {
        if self.selected < self.filtered.len() {
            let idx = self.filtered[self.selected];
            if idx < self.presets.len() {
                return Some(&self.presets[idx]);
            }
        }
        None
    }

    /// Moves the selection by `delta`, clamped to the filtered list.
    pub fn move_by(&mut self, delta: i32)
        requires
            move_fits(old(self).selected as int, old(self).filtered.len() as int, delta as int),
        ensures
            final(self)@ == old(self)@.moved(delta as int),
            old(self)@.wf() ==> final(self)@.wf(),
    {
        self.selected = move_selection(self.selected, self.filtered.len(), delta);
    }

    /// Moves the selection a page forward or back.
    pub fn page_by(&mut self, page_size: usize, forward: bool)
        requires
            page_fits(
                old(self).selected as int,
                old(self).filtered.len() as int,
                page_size as int,
                forward,
            ),
        ensures
            final(self)@ == old(self)@.paged(page_size as int, forward),
            old(self)@.wf() ==> final(self)@.wf(),
    {
        self.selected = page_selection(self.selected, self.filtered.len(), page_size, forward);
    }

    /// Selects the first preset.
    pub fn select_first(&mut self)
        ensures
            final(self)@ == old(self)@.at_first(),
            old(self)@.wf() ==> final(self)@.wf(),
    {
        self.selected = 0;
    }

    /// Selects the last preset, if there is one.
    pub fn select_last(&mut self)
        ensures
            final(self)@ == old(self)@.at_last(),
            old(self)@.wf() ==> final(self)@.wf(),
    {
        if self.filtered.len() > 0 {
            self.selected = self.filtered.len() - 1;
        }
    }
}

/// `s` ends with `p`.
pub open spec fn ends_with(s: Seq<char>, p: Seq<char>) -> bool {
    p.len() <= s.len() && s.skip(s.len() - p.len()) == p
}

/// `s` with every trailing occurrence of the non-empty `p` removed, as
/// `str::trim_end_matches` does.
pub open spec fn trim_end_all(s: Seq<char>, p: Seq<char>) -> Seq<char>
    decreases s.len(),
{
    if p.len() > 0 && ends_with(s, p) {
        trim_end_all(s.take(s.len() - p.len()), p)
    } else {
        s
    }
}

/// `s` without trailing white space.
pub open spec fn trim_end_ws(s: Seq<char>) -> Seq<char>
    decreases s.len(),
{
    if s.len() > 0 && is_white_space(s.last()) {
        trim_end_ws(s.drop_last())
    } else {
        s
    }
}

/// `s` without leading white space.
pub open spec fn trim_start_ws(s: Seq<char>) -> Seq<char>
    decreases s.len(),
{
    if s.len() > 0 && is_white_space(s[0]) {
        trim_start_ws(s.drop_first())
    } else {
        s
    }
}

/// `s` without leading and trailing white space, as `str::trim` does.
pub open spec fn trim_ws(s: Seq<char>) -> Seq<char> {
    trim_start_ws(trim_end_ws(s))
}

/// `s` with each '/' and '\' replaced by " / ".
pub open spec fn spaced_separators(s: Seq<char>) -> Seq<char>
    decreases s.len(),
{
    if s.len() == 0 {
        s
    } else if s.last() == '/' || s.last() == '\\' {
        spaced_separators(s.drop_last()) + seq![' ', '/', ' ']
    } else {
        spaced_separators(s.drop_last()).push(s.last())
    }
}

/// The display name of a preset file from its path relative to the preset
/// root: the "ParametricEQ.txt" and ".txt" endings and trailing slashes
/// dropped, folder separators shown as " / ", surrounding white space and
/// a trailing '/' trimmed. When nothing is left, the file name (or
/// "Unknown" without one).
pub open spec fn preset_name_text(rel: Seq<char>, file_name: Option<Seq<char>>) -> Seq<char> {
    let stem = trim_end_all(
        trim_end_all(
            trim_end_all(trim_end_all(rel, "ParametricEQ.txt"@), ".txt"@),
            seq!['/'],
        ),
        seq!['\\'],
    );
    let name = trim_ws(trim_end_all(trim_ws(spaced_separators(stem)), seq!['/']));
    if name.len() == 0 {
        match file_name {
            Some(f) => f,
            None => "Unknown"@,
        }
    } else {
        name
    }
}

fn ends_with_chars(s: &Vec<char>, n: usize, p: &Vec<char>) -> (r: bool)
    requires
        n <= s.len(),
    ensures
        r == ends_with(s@.take(n as int), p@),
{
    if p.len() > n {
        return false;
    }
    let start = n - p.len();
    let mut m: usize = 0;
    while m < p.len()
        invariant
            start + p.len() == n,
            n <= s.len(),
            m <= p.len(),
            forall|t: int| 0 <= t < m ==> s@[start + t] == p@[t],
        decreases p.len() - m,
    {
        if s[start + m] != p[m] {
            assert(s@.take(n as int).skip(start as int)[m as int] != p@[m as int]);
            return false;
        }
        m = m + 1;
    }
    assert(s@.take(n as int).skip(start as int) =~= p@);
    true
}

fn take_chars(s: &Vec<char>, n: usize) -> (r: Vec<char>)
    requires
        n <= s.len(),
    ensures
        r@ == s@.take(n as int),
{
    let mut r: Vec<char> = Vec::new();
    let mut i: usize = 0;
    while i < n
        invariant
            i <= n <= s.len(),
            r@ == s@.take(i as int),
        decreases n - i,
    {
        r.push(s[i]);
        i = i + 1;
        assert(r@ =~= s@.take(i as int));
    }
    r
}

fn trim_end_all_chars(s: &Vec<char>, p: &Vec<char>) -> (r: Vec<char>)
    ensures
        r@ == trim_end_all(s@, p@),
{
    if p.len() == 0 {
        return take_chars(s, s.len());
    }
    let mut n = s.len();
    assert(s@.take(n as int) =~= s@);
    while ends_with_chars(s, n, p)
        invariant
            n <= s.len(),
            p.len() > 0,
            trim_end_all(s@, p@) == trim_end_all(s@.take(n as int), p@),
        decreases n,
    {
        assert(s@.take(n as int).take(n - p.len()) =~= s@.take(n - p.len()));
        n = n - p.len();
    }
    take_chars(s, n)
}

fn trim_ws_chars(s: &Vec<char>) -> (r: Vec<char>)
    ensures
        r@ == trim_ws(s@),
{
    let mut end = s.len();
    assert(s@.take(end as int) =~= s@);
    while end > 0 && is_whitespace(s[end - 1])
        invariant
            end <= s.len(),
            trim_end_ws(s@) == trim_end_ws(s@.take(end as int)),
        decreases end,
    {
        assert(s@.take(end as int).drop_last() =~= s@.take(end - 1));
        end = end - 1;
    }
    let ghost t = s@.take(end as int);
    assert(trim_end_ws(t) == t);
    let mut start: usize = 0;
    assert(t.skip(0) =~= t);
    while start < end && is_whitespace(s[start])
        invariant
            start <= end <= s.len(),
            t == s@.take(end as int),
            trim_start_ws(t) == trim_start_ws(t.skip(start as int)),
        decreases end - start,
    {
        assert(t.skip(start as int).drop_first() =~= t.skip(start + 1));
        start = start + 1;
    }
    assert(trim_start_ws(t.skip(start as int)) == t.skip(start as int));
    let mut r: Vec<char> = Vec::new();
    let mut i = start;
    while i < end
        invariant
            start <= i <= end <= s.len(),
            r@ == s@.subrange(start as int, i as int),
        decreases end - i,
    {
        r.push(s[i]);
        i = i + 1;
        assert(r@ =~= s@.subrange(start as int, i as int));
    }
    assert(s@.subrange(start as int, end as int) =~= t.skip(start as int));
    r
}

fn spaced_separators_chars(s: &Vec<char>) -> (r: Vec<char>)
    ensures
        r@ == spaced_separators(s@),
{
    let mut r: Vec<char> = Vec::new();
    let mut i: usize = 0;
    while i < s.len()
        invariant
            i <= s.len(),
            r@ == spaced_separators(s@.take(i as int)),
        decreases s.len() - i,
    {
        assert(s@.take(i + 1).drop_last() =~= s@.take(i as int));
        if s[i] == '/' || s[i] == '\\' {
            r.push(' ');
            r.push('/');
            r.push(' ');
            assert(r@ =~= spaced_separators(s@.take(i as int)) + seq![' ', '/', ' ']);
        } else {
            r.push(s[i]);
        }
        i = i + 1;
    }
    assert(s@.take(s.len() as int) =~= s@);
    r
}

/// The display name of a preset file (see `preset_name_text`); `rel` is
/// its path relative to the preset root, `file_name` its file name.
pub fn preset_name(rel: &str, file_name: Option<String>) -> (r: String)
    ensures
        r@ == preset_name_text(
            rel@,
            match file_name {
                Some(f) => Some(f@),
                None => None,
            },
        ),
{
    let cs = chars_of(rel);
    let a = trim_end_all_chars(&cs, &chars_of("ParametricEQ.txt"));
    let b = trim_end_all_chars(&a, &chars_of(".txt"));
    let mut slash: Vec<char> = Vec::new();
    slash.push('/');
    let mut backslash: Vec<char> = Vec::new();
    backslash.push('\\');
    assert(slash@ =~= seq!['/']);
    assert(backslash@ =~= seq!['\\']);
    let c = trim_end_all_chars(&b, &slash);
    let stem = trim_end_all_chars(&c, &backslash);
    let spaced = spaced_separators_chars(&stem);
    let t1 = trim_ws_chars(&spaced);
    let t2 = trim_end_all_chars(&t1, &slash);
    let name = trim_ws_chars(&t2);
    if name.len() == 0 {
        match file_name {
            Some(f) => f,
            None => string_of(&chars_of("Unknown")),
        }
    } else {
        string_of(&name)
    }
}

/// The listed name of a preset loaded from a pack labelled `label`.
pub open spec fn labeled_text(label: Seq<char>, name: Seq<char>) -> Seq<char> {
    label + " / "@ + name
}

/// "<label> / <name>".
pub fn labeled_name(label: &str, name: &str) -> (r: String)
    ensures
        r@ == labeled_text(label@, name@),
{
    let mut out = chars_of(label);
    append_chars(&mut out, &chars_of(" / "));
    append_chars(&mut out, &chars_of(name));
    string_of(&out)
}

/// The file name of a parametric EQ profile ends with "ParametricEQ.txt".
pub fn is_parametric_eq_file(name: &str) -> (r: bool)
    ensures
        r == ends_with(name@, "ParametricEQ.txt"@),
{
    let cs = chars_of(name);
    let r = ends_with_chars(&cs, cs.len(), &chars_of("ParametricEQ.txt"));
    assert(cs@.take(cs.len() as int) =~= cs@);
    r
}

/// Preset order: by lowercased name.
pub open spec fn preset_key(p: Preset) -> (int, Seq<char>) {
    (0, lowered(p.name@))
}

pub open spec fn preset_order() -> spec_fn(Preset) -> (int, Seq<char>) {
    |p: Preset| preset_key(p)
}

/// Orders presets by lowercased name, keeping presets whose names only
/// differ in case in their original order.
pub fn sort_presets(presets: Vec<Preset>) -> (r: Vec<Preset>)
    ensures
        sorted_by(r@, preset_order()),
        same_ties(r@, presets@, preset_order()),
        r.len() == presets.len(),
{
    let mut keys: Vec<SortKey> = Vec::new();
    let mut i: usize = 0;
    while i < presets.len()
        invariant
            i <= presets.len(),
            keys.len() == i,
            forall|j: int| 0 <= j < i ==> #[trigger] keys@[j]@ == preset_key(presets@[j]),
        decreases presets.len() - i,
    {
        let lower = lowercase(presets[i].name.as_str());
        keys.push(SortKey { rank: 0, text: chars_of(lower.as_str()) });
        i = i + 1;
    }
    stable_sort(presets, keys, Ghost(preset_order()))
}

/// What to do with one member of the AutoEq archive.
#[derive(Debug, PartialEq, Eq)]
pub enum ZipAction {
    /// Not part of the results, or not a parametric EQ profile.
    Skip,
    /// Create this folder (relative to the results folder).
    MakeDir(String),
    /// Extract this file (relative to the results folder).
    Extract(String),
}

/// The part of an archive member's name below the results folder of the
/// AutoEq master or main branch.
pub open spec fn results_relative(name: Seq<char>) -> Option<Seq<char>> {
    if crate::eq::starts_with(name, "AutoEq-master/results/"@) {
        Some(name.skip("AutoEq-master/results/"@.len() as int))
    } else if crate::eq::starts_with(name, "AutoEq-main/results/"@) {
        Some(name.skip("AutoEq-main/results/"@.len() as int))
    } else {
        None
    }
}

fn strip_prefix_chars(s: &Vec<char>, p: &Vec<char>) -> (r: Option<Vec<char>>)
    ensures
        crate::eq::starts_with(s@, p@) ==> (r matches Some(x) && x@ == s@.skip(p@.len() as int)),
        !crate::eq::starts_with(s@, p@) ==> r is None,
{
    if p.len() > s.len() {
        return None;
    }
    let mut m: usize = 0;
    while m < p.len()
        invariant
            p.len() <= s.len(),
            m <= p.len(),
            forall|t: int| 0 <= t < m ==> s@[t] == p@[t],
        decreases p.len() - m,
    {
        if s[m] != p[m] {
            assert(s@.take(p.len() as int)[m as int] != p@[m as int]);
            return None;
        }
        m = m + 1;
    }
    assert(s@.take(p.len() as int) =~= p@);
    let mut r: Vec<char> = Vec::new();
    let mut i = p.len();
    while i < s.len()
        invariant
            p.len() <= i <= s.len(),
            r@ == s@.subrange(p.len() as int, i as int),
        decreases s.len() - i,
    {
        r.push(s[i]);
        i = i + 1;
        assert(r@ =~= s@.subrange(p.len() as int, i as int));
    }
    assert(s@.subrange(p.len() as int, s.len() as int) =~= s@.skip(p.len() as int));
    Some(r)
}

/// What becomes of an archive member: members outside the results folder,
/// the results folder itself and files that are not parametric EQ profiles
/// are skipped; folders are created; profiles are extracted.
pub open spec fn zip_action_of(name: Seq<char>, is_dir: bool) -> Option<(bool, Seq<char>)> {
    match results_relative(name) {
        None => None,
        Some(rel) => if rel.len() == 0 {
            None
        } else if is_dir {
            Some((true, rel))
        } else if !ends_with(rel, "ParametricEQ.txt"@) {
            None
        } else {
            Some((false, rel))
        },
    }
}

/// Decides what to do with the archive member `name`.
pub fn zip_entry_action(name: &str, is_dir: bool) -> (r: ZipAction)
    ensures
        match zip_action_of(name@, is_dir) {
            None => r == ZipAction::Skip,
            Some((true, rel)) => r matches ZipAction::MakeDir(d) && d@ == rel,
            Some((false, rel)) => r matches ZipAction::Extract(f) && f@ == rel,
        },
{
    let cs = chars_of(name);
    let rel = match strip_prefix_chars(&cs, &chars_of("AutoEq-master/results/")) {
        Some(r) => r,
        None => match strip_prefix_chars(&cs, &chars_of("AutoEq-main/results/")) {
            Some(r) => r,
            None => return ZipAction::Skip,
        },
    };
    if rel.len() == 0 {
        return ZipAction::Skip;
    }
    if is_dir {
        return ZipAction::MakeDir(string_of(&rel));
    }
    let ok = ends_with_chars(&rel, rel.len(), &chars_of("ParametricEQ.txt"));
    assert(rel@.take(rel.len() as int) =~= rel@);
    if !ok {
        return ZipAction::Skip;
    }
    ZipAction::Extract(string_of(&rel))
}

/// Bytes in a mebibyte.
pub const MIB: u64 = 1048576;

/// A progress message is due once 10 MiB more have arrived since the last.
pub fn progress_due(downloaded: u64, last_report: u64) -> (r: bool)
    ensures
        r == (downloaded - last_report >= 10 * MIB),
{
    downloaded.saturating_sub(last_report) >= 10 * MIB
}

/// The progress message for `downloaded` bytes of `total` (when known),
/// counted in whole MiB.
pub open spec fn progress_text(downloaded: nat, total: Option<nat>) -> Seq<char> {
    match total {
        Some(t) => "Downloading AutoEq results\u{2026} "@ + decimal(downloaded / (MIB as nat))
            + " / "@ + decimal(t / (MIB as nat)) + " MB"@,
        None => "Downloading AutoEq results\u{2026} "@ + decimal(downloaded / (MIB as nat))
            + " MB"@,
    }
}

/// "Downloading AutoEq results… <d> / <t> MB", or without the total.
pub fn progress_message(downloaded: u64, total: Option<u64>) -> (r: String)
    ensures
        r@ == progress_text(
            downloaded as nat,
            match total {
                Some(t) => Some(t as nat),
                None => None,
            },
        ),
{
    let mut out = chars_of("Downloading AutoEq results\u{2026} ");
    let d = u64_to_decimal(downloaded / MIB);
    append_chars(&mut out, &chars_of(d.as_str()));
    match total {
        Some(t) => {
            append_chars(&mut out, &chars_of(" / "));
            let ts = u64_to_decimal(t / MIB);
            append_chars(&mut out, &chars_of(ts.as_str()));
        },
        None => {},
    }
    append_chars(&mut out, &chars_of(" MB"));
    string_of(&out)
}

/// An empty search lists every preset, in order.
pub proof fn empty_search_lists_every_preset(presets: Seq<Preset>, search: Seq<char>)
    requires
        presets.len() <= usize::MAX,
        search.len() == 0,
    ensures
        presets_kept(presets, search).len() == presets.len(),
        forall|i: int| 0 <= i < presets.len() ==> presets_kept(presets, search)[i] == i,
{
    let keep = |i: int| name_matches(presets[i].name@, search);
    assert forall|i: int| 0 <= i < presets.len() implies #[trigger] keep(i) by {}
    crate::selection::empty_search_keeps_all(presets.len(), keep);
}

/// Narrowing a search never lists a preset the wider search did not.
pub proof fn narrowing_search_lists_fewer_presets(presets: Seq<Preset>, wide: Seq<char>, narrow: Seq<char>)
    requires
        presets.len() <= usize::MAX,
        contains_seq(search_key(narrow), search_key(wide)),
    ensures
        forall|a: int|
            0 <= a < presets_kept(presets, narrow).len() ==> presets_kept(presets, wide).contains(
                #[trigger] presets_kept(presets, narrow)[a],
            ),
{
    let k1 = |i: int| name_matches(presets[i].name@, wide);
    let k2 = |i: int| name_matches(presets[i].name@, narrow);
    assert forall|i: int| 0 <= i < presets.len() && #[trigger] k2(i) implies k1(i) by {
        crate::selection::narrower_search_matches_fewer(presets[i].name@, wide, narrow);
    }
    crate::selection::lemma_matching_subset(presets.len(), k1, k2);
}

} // verus!
