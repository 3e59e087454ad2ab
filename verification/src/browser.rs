//! The folder browser: which directory items are listed, in what order,
//! and the filtered, navigable view of them.
use vstd::prelude::*;

use std::path::PathBuf;

use crate::selection::{
    clamp_selection, clamped_selection, matching_indices, move_fits, move_selection,
    moved_selection, name_kept, name_matches, page_fits, page_selection, paged_selection,
    search_needle, selection_fits,
};
use crate::selection::search_key;
use crate::text::contains_seq;
use crate::sorting::{same_ties, sorted_by, stable_sort, SortKey};
use crate::text::{chars_of, lowered, same_chars, string_of, lowercase};

verus! {

/// Paths are carried through the library unchanged; it never looks inside.
#[verifier::external_type_specification]
#[verifier::external_body]
pub struct ExPathBuf(std::path::PathBuf);

#[derive(Clone, Copy, Debug, PartialEq, Eq, Structural)]
pub enum EntryKind {
    Dir,
    File,
}

/// A listed folder or audio file.
#[derive(Debug)]
pub struct Entry {
    pub name: String,
    pub path: PathBuf,
    pub kind: EntryKind,
}

/// One item of a directory as read from disk: its file name (lossily
/// decoded), its path, and whether it is a directory or a regular file.
pub struct DirItem {
    pub name: String,
    pub path: PathBuf,
    pub is_dir: bool,
    pub is_file: bool,
}

/// Index of the last '.' in `s`, or -1.
pub open spec fn last_dot(s: Seq<char>) -> int
    decreases s.len(),
{
    if s.len() == 0 {
        -1
    } else if s.last() == '.' {
        s.len() - 1
    } else {
        last_dot(s.drop_last())
    }
}

/// The extension of a file name, as `Path::extension` defines it: the part
/// after the final '.', absent when there is no '.', when the only '.' is
/// the first character, and for "..".
pub open spec fn file_extension(name: Seq<char>) -> Option<Seq<char>> {
    let d = last_dot(name);
    if d <= 0 || name == seq!['.', '.'] {
        None
    } else {
        Some(name.skip(d + 1))
    }
}

/// The audio extensions the player lists (lowercase).
pub open spec fn is_supported_extension(e: Seq<char>) -> bool {
    ||| e == seq!['m', 'p', '3']
    ||| e == seq!['f', 'l', 'a', 'c']
    ||| e == seq!['w', 'a', 'v']
    ||| e == seq!['a', 'a', 'c']
    ||| e == seq!['m', '4', 'a']
    ||| e == seq!['o', 'g', 'g']
    ||| e == seq!['o', 'p', 'u', 's']
    ||| e == seq!['a', 'l', 'a', 'c']
    ||| e == seq!['a', 'i', 'f', 'f']
    ||| e == seq!['w', 'm', 'a']
    ||| e == seq!['m', 'k', 'a']
}

/// A file name with a supported audio extension, in any letter case.
pub open spec fn is_audio_name(name: Seq<char>) -> bool {
    match file_extension(name) {
        Some(e) => is_supported_extension(lowered(e)),
        None => false,
    }
}

fn supported_extension(e: &Vec<char>) -> (r: bool)
    ensures
        r == is_supported_extension(e@),
{
    let exts: [&[char]; 11] = [
        &['m', 'p', '3'],
        &['f', 'l', 'a', 'c'],
        &['w', 'a', 'v'],
        &['a', 'a', 'c'],
        &['m', '4', 'a'],
        &['o', 'g', 'g'],
        &['o', 'p', 'u', 's'],
        &['a', 'l', 'a', 'c'],
        &['a', 'i', 'f', 'f'],
        &['w', 'm', 'a'],
        &['m', 'k', 'a'],
    ];
    assert(exts[0]@ =~= seq!['m', 'p', '3']);
    assert(exts[1]@ =~= seq!['f', 'l', 'a', 'c']);
    assert(exts[2]@ =~= seq!['w', 'a', 'v']);
    assert(exts[3]@ =~= seq!['a', 'a', 'c']);
    assert(exts[4]@ =~= seq!['m', '4', 'a']);
    assert(exts[5]@ =~= seq!['o', 'g', 'g']);
    assert(exts[6]@ =~= seq!['o', 'p', 'u', 's']);
    assert(exts[7]@ =~= seq!['a', 'l', 'a', 'c']);
    assert(exts[8]@ =~= seq!['a', 'i', 'f', 'f']);
    assert(exts[9]@ =~= seq!['w', 'm', 'a']);
    assert(exts[10]@ =~= seq!['m', 'k', 'a']);
    let mut i: usize = 0;
    while i < 11
        invariant
            i <= 11,
            forall|m: int| 0 <= m < i ==> e@ != #[trigger] exts[m]@,
            exts[0]@ == seq!['m', 'p', '3'],
            exts[1]@ == seq!['f', 'l', 'a', 'c'],
            exts[2]@ == seq!['w', 'a', 'v'],
            exts[3]@ == seq!['a', 'a', 'c'],
            exts[4]@ == seq!['m', '4', 'a'],
            exts[5]@ == seq!['o', 'g', 'g'],
            exts[6]@ == seq!['o', 'p', 'u', 's'],
            exts[7]@ == seq!['a', 'l', 'a', 'c'],
            exts[8]@ == seq!['a', 'i', 'f', 'f'],
            exts[9]@ == seq!['w', 'm', 'a'],
            exts[10]@ == seq!['m', 'k', 'a'],
        decreases 11 - i,
    {
        if same_chars(e, exts[i]) {
            return true;
        }
        i = i + 1;
    }
    assert(e@ != exts[0]@ && e@ != exts[1]@ && e@ != exts[2]@ && e@ != exts[3]@ && e@ != exts[4]@
        && e@ != exts[5]@ && e@ != exts[6]@ && e@ != exts[7]@ && e@ != exts[8]@ && e@ != exts[9]@
        && e@ != exts[10]@);
    false
}

/// The extension of a file name (see `file_extension`).
pub fn extension_of(name: &Vec<char>) -> (r: Option<Vec<char>>)
    ensures
        match file_extension(name@) {
            Some(e) => r matches Some(x) && x@ == e,
            None => r is None,
        },
{
    let mut i: usize = name.len();
    assert(name@.take(name.len() as int) =~= name@);
    while i > 0 && name[i - 1] != '.'
        invariant
            i <= name.len(),
            last_dot(name@) == last_dot(name@.take(i as int)),
        decreases i,
    {
        assert(name@.take(i as int).drop_last() =~= name@.take(i - 1));
        i = i - 1;
    }
    assert(name@.take(name.len() as int) =~= name@);
    if i > 0 {
        assert(name@.take(i as int).last() == '.');
    } else {
        assert(name@.take(0) =~= Seq::<char>::empty());
    }
    if i <= 1 {
        return None;
    }
    let d = i - 1;
    if name.len() == 2 && name[0] == '.' && name[1] == '.' {
        assert(name@ =~= seq!['.', '.']);
        return None;
    }
    let mut ext: Vec<char> = Vec::new();
    let mut j: usize = d + 1;
    while j < name.len()
        invariant
            d + 1 <= j <= name.len(),
            ext@ == name@.subrange(d + 1, j as int),
        decreases name.len() - j,
    {
        ext.push(name[j]);
        j = j + 1;
        assert(ext@ =~= name@.subrange(d + 1, j as int));
    }
    assert(name@.subrange(d + 1, name.len() as int) =~= name@.skip(d + 1));
    Some(ext)
}

/// Whether a file called `name` is one the player lists as audio: its
/// extension, lowercased, is one of mp3, flac, wav, aac, m4a, ogg, opus,
/// alac, aiff, wma, mka.
pub fn is_audio_file(name: &str) -> (r: bool)
    ensures
        r == is_audio_name(name@),
{
    let cs = chars_of(name);
    match extension_of(&cs) {
        None => false,
        Some(ext) => {
            let ext_text = string_of(&ext);
            let lower = lowercase(ext_text.as_str());
            let lower_chars = chars_of(lower.as_str());
            supported_extension(&lower_chars)
        },
    }
}

/// What a directory item becomes in the listing: hidden items (name
/// starting with '.') are dropped, directories are listed, regular files
/// only when they are audio files.
pub open spec fn entry_of(item: DirItem) -> Option<Entry> {
    if item.name@.len() > 0 && item.name@[0] == '.' {
        None
    } else if item.is_dir {
        Some(Entry { name: item.name, path: item.path, kind: EntryKind::Dir })
    } else if item.is_file && is_audio_name(item.name@) {
        Some(Entry { name: item.name, path: item.path, kind: EntryKind::File })
    } else {
        None
    }
}

/// The entries a directory's items yield, in the directory's order.
pub open spec fn listed(items: Seq<DirItem>) -> Seq<Entry>
    decreases items.len(),
{
    if items.len() == 0 {
        Seq::<Entry>::empty()
    } else {
        let before = listed(items.drop_last());
        match entry_of(items.last()) {
            Some(e) => before.push(e),
            None => before,
        }
    }
}

/// Listing order: folders first, then by lowercased name.
pub open spec fn entry_key(e: Entry) -> (int, Seq<char>) {
    (
        if e.kind == EntryKind::Dir {
            0
        } else {
            1
        },
        lowered(e.name@),
    )
}

pub open spec fn entry_order() -> spec_fn(Entry) -> (int, Seq<char>) {
    |e: Entry| entry_key(e)
}

fn entry_from(item: DirItem) -> (r: Option<Entry>)
    ensures
        r == entry_of(item),
{
    let DirItem { name, path, is_dir, is_file } = item;
    let cs = chars_of(name.as_str());
    if cs.len() > 0 && cs[0] == '.' {
        None
    } else if is_dir {
        Some(Entry { name, path, kind: EntryKind::Dir })
    } else if is_file && is_audio_file(name.as_str()) {
        Some(Entry { name, path, kind: EntryKind::File })
    } else {
        None
    }
}

fn entry_sort_key(e: &Entry) -> (r: SortKey)
    ensures
        r@ == entry_key(*e),
{
    let lower = lowercase(e.name.as_str());
    SortKey {
        rank: match e.kind {
            EntryKind::Dir => 0,
            EntryKind::File => 1,
        },
        text: chars_of(lower.as_str()),
    }
}

/// The listing of a directory from its raw items: hidden items dropped,
/// folders and audio files kept, folders before files, each group ordered
/// by lowercased name, ties in the directory's order.
pub fn build_entries(items: Vec<DirItem>) -> (r: Vec<Entry>)
    ensures
        sorted_by(r@, entry_order()),
        same_ties(r@, listed(items@), entry_order()),
        r.len() == listed(items@).len(),
{
    let ghost all = items@;
    let mut kept: Vec<Entry> = Vec::new();
    let mut keys: Vec<SortKey> = Vec::new();
    for item in it: items
        invariant
            it.seq() == all,
            kept@ == listed(all.take(it.index() as int)),
            kept.len() == keys.len(),
            forall|i: int| 0 <= i < kept.len() ==> #[trigger] keys@[i]@ == entry_key(kept@[i]),
    {
        let ghost idx = it.index();
        assert(all.take(idx + 1).drop_last() =~= all.take(idx as int));
        assert(all.take(idx + 1).last() == item);
        match entry_from(item) {
            Some(e) => {
                let k = entry_sort_key(&e);
                kept.push(e);
                keys.push(k);
            },
            None => {},
        }
    }
    assert(all.take(all.len() as int) =~= all);
    stable_sort(kept, keys, Ghost(entry_order()))
}

/// In a listing in entry order, no file stands before a folder.
pub proof fn folders_before_files(s: Seq<Entry>)
    requires
        sorted_by(s, entry_order()),
    ensures
        forall|i: int, j: int|
            0 <= i < j < s.len() ==> !(s[i].kind == EntryKind::File && s[j].kind == EntryKind::Dir),
{
    assert forall|i: int, j: int| 0 <= i < j < s.len() implies !(s[i].kind == EntryKind::File
        && s[j].kind == EntryKind::Dir) by {
        assert(crate::sorting::key_le(entry_order()(s[i]), entry_order()(s[j])));
    }
}

/// Every entry a directory yields is a visible folder or a visible audio
/// file.
pub proof fn listed_entries_are_visible(items: Seq<DirItem>)
    ensures
        forall|i: int|
            0 <= i < listed(items).len() ==> is_visible_entry(#[trigger] listed(items)[i]),
    decreases items.len(),
{
    if items.len() > 0 {
        listed_entries_are_visible(items.drop_last());
        let before = listed(items.drop_last());
        match entry_of(items.last()) {
            Some(e) => {
                assert(is_visible_entry(e));
                assert forall|i: int| 0 <= i < listed(items).len() implies is_visible_entry(
                    #[trigger] listed(items)[i],
                ) by {
                    if i < before.len() {
                        assert(listed(items)[i] == before[i]);
                    }
                }
            },
            None => {},
        }
    }
}

/// Not hidden, and a folder or an audio file.
pub open spec fn is_visible_entry(e: Entry) -> bool {
    &&& !(e.name@.len() > 0 && e.name@[0] == '.')
    &&& (e.kind == EntryKind::Dir || is_audio_name(e.name@))
}

/// A listing built from a directory shows only visible folders and audio
/// files, each one the directory yields.
pub proof fn listing_shows_only_visible(items: Seq<DirItem>, r: Seq<Entry>)
    requires
        same_ties(r, listed(items), entry_order()),
    ensures
        forall|i: int| 0 <= i < r.len() ==> #[trigger] listed(items).contains(r[i]),
        forall|i: int| 0 <= i < r.len() ==> is_visible_entry(#[trigger] r[i]),
{
    listed_entries_are_visible(items);
    assert forall|i: int| 0 <= i < r.len() implies #[trigger] listed(items).contains(r[i]) by {
        let k = entry_key(r[i]);
        let pk = crate::sorting::has_key(entry_order(), k);
        assert(pk(r[i]));
        r.lemma_filter_contains(pk, i);
        assert(r.filter(pk) == listed(items).filter(pk));
        listed(items).lemma_filter_contains_rev(pk, r[i]);
    }
    assert forall|i: int| 0 <= i < r.len() implies is_visible_entry(#[trigger] r[i]) by {
        assert(listed(items).contains(r[i]));
        let j = choose|j: int| 0 <= j < listed(items).len() && listed(items)[j] == r[i];
        assert(is_visible_entry(listed(items)[j]));
    }
}

/// The state of the folder browser.
pub struct BrowserState {
    pub cwd: PathBuf,
    pub entries: Vec<Entry>,
    /// Indices into `entries` of the items the search keeps.
    pub filtered: Vec<usize>,
    /// Position in `filtered` of the selected item.
    pub selected: usize,
    pub search: String,
}

/// The indices of the entries that `search` keeps, in order.
pub open spec fn entries_kept(entries: Seq<Entry>, search: Seq<char>) -> Seq<usize> {
    matching_indices(entries.len(), |i: int| name_matches(entries[i].name@, search))
}

/// The browser as a value.
pub struct BrowserView {
    pub cwd: PathBuf,
    pub entries: Seq<Entry>,
    pub filtered: Seq<usize>,
    pub selected: int,
    pub search: Seq<char>,
}

impl View for BrowserState {
    type V = BrowserView;

    open spec fn view(&self) -> BrowserView {
        BrowserView {
            cwd: self.cwd,
            entries: self.entries@,
            filtered: self.filtered@,
            selected: self.selected as int,
            search: self.search@,
        }
    }
}

impl BrowserView {
    /// The filtered list agrees with the entries and the search, and the
    /// selection lies inside it.
    pub open spec fn wf(self) -> bool {
        &&& self.filtered == entries_kept(self.entries, self.search)
        &&& selection_fits(self.selected, self.filtered.len() as int)
    }

    /// The filtered list recomputed, the selection clamped to it.
    pub open spec fn refiltered(self) -> BrowserView {
        let f = entries_kept(self.entries, self.search);
        BrowserView { filtered: f, selected: clamped_selection(self.selected, f.len() as int), ..self }
    }

    pub open spec fn with_search(self, search: Seq<char>) -> BrowserView {
        BrowserView { search, ..self }.refiltered()
    }

    pub open spec fn with_entries(self, entries: Seq<Entry>) -> BrowserView {
        BrowserView { entries, ..self }.refiltered()
    }

    pub open spec fn moved(self, delta: int) -> BrowserView {
        BrowserView { selected: moved_selection(self.selected, self.filtered.len() as int, delta), ..self }
    }

    pub open spec fn paged(self, page: int, forward: bool) -> BrowserView {
        BrowserView {
            selected: paged_selection(self.selected, self.filtered.len() as int, page, forward),
            ..self
        }
    }

    pub open spec fn at_first(self) -> BrowserView {
        BrowserView { selected: 0, ..self }
    }

    pub open spec fn at_last(self) -> BrowserView {
        if self.filtered.len() == 0 {
            self
        } else {
            BrowserView { selected: self.filtered.len() - 1, ..self }
        }
    }
}

impl BrowserState {
    /// A browser for `cwd` showing `entries` with no search.
    pub fn new(cwd: PathBuf, entries: Vec<Entry>) -> (r: Self)
        ensures
            r@ == (BrowserView {
                cwd,
                entries: entries@,
                filtered: Seq::<usize>::empty(),
                selected: 0,
                search: Seq::<char>::empty(),
            }).refiltered(),
            r@.wf(),
    {
        let mut state = BrowserState {
            cwd,
            entries,
            filtered: Vec::new(),
            selected: 0,
            search: String::new(),
        };
        state.apply_filter();
        state
    }

    /// Replaces the entries with a fresh listing of the same folder and
    /// refilters.
    pub fn refresh(&mut self, entries: Vec<Entry>)
        ensures
            final(self)@ == old(self)@.with_entries(entries@),
            final(self)@.wf(),
    {
        self.entries = entries;
        self.apply_filter();
    }

    /// Recomputes which entries the search keeps and clamps the selection.
    pub fn apply_filter(&mut self)
        ensures
            final(self)@ == old(self)@.refiltered(),
            final(self)@.wf(),
    {
        let needle = search_needle(self.search.as_str());
        let ghost entries = self.entries@;
        let ghost search = self.search@;
        let ghost keep = |i: int| name_matches(entries[i].name@, search);
        let mut filtered: Vec<usize> = Vec::new();
        let mut i: usize = 0;
        while i < self.entries.len()
            invariant
                entries == self.entries@,
                search == self.search@,
                keep == (|i: int| name_matches(entries[i].name@, search)),
                needle is None <==> search.len() == 0,
                needle matches Some(n) ==> n@ == crate::selection::search_key(search),
                i <= self.entries.len(),
                filtered@ == matching_indices(i as nat, keep),
            decreases self.entries.len() - i,
        {
            if name_kept(self.entries[i].name.as_str(), &needle, Ghost(search)) {
                filtered.push(i);
            }
            i = i + 1;
        }
        self.filtered = filtered;
        self.selected = clamp_selection(self.selected, self.filtered.len());
        proof {
            crate::selection::selection_stays_in_range(old(self).selected as int, self.filtered.len() as int, 0);
        }
    }

    /// Sets the search text and refilters.
    pub fn set_search(&mut self, value: String)
        ensures
            final(self)@ == old(self)@.with_search(value@),
            final(self)@.wf(),
    {
        self.search = value;
        self.apply_filter();
    }

    /// The selected entry, if the selection points at one.
    pub fn selected_entry(&self) -> (r: Option<&Entry>)
        ensures
            r is Some <==> (self.selected < self.filtered.len() && self.filtered@[self.selected as int]
                < self.entries.len()),
            r matches Some(e) ==> *e == self.entries@[self.filtered@[self.selected as int] as int],
    {
        if self.selected < self.filtered.len() {
            let idx = self.filtered[self.selected];
            if idx < self.entries.len() {
                return Some(&self.entries[idx]);
            }
        }
        None
    }

    /// Moves the selection by `delta`, clamped to the filtered list.
    pub fn move_by(&mut self, delta: i32)
        requires
            move_fits(old(self).selected as int, old(self).filtered.len() as int, delta as int),
        ensures
            final(self)@ == old(self)@.moved(delta as int),
            old(self)@.wf() ==> final(self)@.wf(),
    {
        self.selected = move_selection(self.selected, self.filtered.len(), delta);
    }

    /// Moves the selection a page forward or back.
    pub fn page_by(&mut self, page_size: usize, forward: bool)
        requires
            page_fits(
                old(self).selected as int,
                old(self).filtered.len() as int,
                page_size as int,
                forward,
            ),
        ensures
            final(self)@ == old(self)@.paged(page_size as int, forward),
            old(self)@.wf() ==> final(self)@.wf(),
    {
        self.selected = page_selection(self.selected, self.filtered.len(), page_size, forward);
    }

    /// Selects the first item.
    pub fn select_first(&mut self)
        ensures
            final(self)@ == old(self)@.at_first(),
            old(self)@.wf() ==> final(self)@.wf(),
    {
        self.selected = 0;
    }

    /// Selects the last item, if there is one.
    pub fn select_last(&mut self)
        ensures
            final(self)@ == old(self)@.at_last(),
            old(self)@.wf() ==> final(self)@.wf(),
    {
        if self.filtered.len() > 0 {
            self.selected = self.filtered.len() - 1;
        }
    }
}

/// A well-formed browser with a non-empty filtered list always has a
/// selected entry, and it is one the search keeps.
pub proof fn selection_always_present(b: BrowserView)
    requires
        b.wf(),
        b.filtered.len() > 0,
        b.entries.len() <= usize::MAX,
    ensures
        0 <= b.selected < b.filtered.len(),
        b.filtered[b.selected] < b.entries.len(),
        name_matches(b.entries[b.filtered[b.selected] as int].name@, b.search),
{
    crate::selection::matching_indices_exact(
        b.entries.len(),
        |i: int| name_matches(b.entries[i].name@, b.search),
    );
}

/// An empty search lists every entry, in order.
pub proof fn empty_search_lists_everything(entries: Seq<Entry>, search: Seq<char>)
    requires
        entries.len() <= usize::MAX,
        search.len() == 0,
    ensures
        entries_kept(entries, search).len() == entries.len(),
        forall|i: int| 0 <= i < entries.len() ==> entries_kept(entries, search)[i] == i,
{
    let keep = |i: int| name_matches(entries[i].name@, search);
    assert forall|i: int| 0 <= i < entries.len() implies #[trigger] keep(i) by {}
    crate::selection::empty_search_keeps_all(entries.len(), keep);
}

/// Narrowing a search never lists an entry the wider search did not:
/// when the search key of `narrow` contains that of `wide`, every index
/// `narrow` keeps is kept by `wide`.
pub proof fn narrowing_search_lists_fewer(entries: Seq<Entry>, wide: Seq<char>, narrow: Seq<char>)
    requires
        entries.len() <= usize::MAX,
        contains_seq(search_key(narrow), search_key(wide)),
    ensures
        forall|a: int|
            0 <= a < entries_kept(entries, narrow).len() ==> entries_kept(entries, wide).contains(
                #[trigger] entries_kept(entries, narrow)[a],
            ),
{
    let k1 = |i: int| name_matches(entries[i].name@, wide);
    let k2 = |i: int| name_matches(entries[i].name@, narrow);
    assert forall|i: int| 0 <= i < entries.len() && #[trigger] k2(i) implies k1(i) by {
        crate::selection::narrower_search_matches_fewer(entries[i].name@, wide, narrow);
    }
    crate::selection::lemma_matching_subset(entries.len(), k1, k2);
}

} // verus!
