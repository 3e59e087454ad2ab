//! The filtered, navigable list shared by the file browser and the preset
//! picker: which items a search keeps, and how the selection moves.
use vstd::prelude::*;

use crate::text::{contains_seq, find_in, lowered, lowercase, occurs_at};
use crate::util::{normalized, normalized_chars};

verus! {

/// The text a search looks for in normalised names: the search,
/// lowercased, then normalised (which lowercases it once more).
pub open spec fn search_key(search: Seq<char>) -> Seq<char> {
    normalized(lowered(search))
}

/// Whether an item called `name` is kept by the search text `search`: an
/// empty search keeps everything; otherwise the search key must occur in
/// the normalised name.
pub open spec fn name_matches(name: Seq<char>, search: Seq<char>) -> bool {
    search.len() == 0 || contains_seq(normalized(name), search_key(search))
}

/// The indices `i < n` for which `keep(i)` holds, in increasing order.
pub open spec fn matching_indices(n: nat, keep: spec_fn(int) -> bool) -> Seq<usize>
    decreases n,
{
    if n == 0 {
        Seq::<usize>::empty()
    } else {
        let before = matching_indices((n - 1) as nat, keep);
        if keep(n - 1) {
            before.push((n - 1) as usize)
        } else {
            before
        }
    }
}

/// The selection after the list was refiltered to `len` items: unchanged
/// if still in range, else the last item, or 0 for an empty list.
pub open spec fn clamped_selection(selected: int, len: int) -> int {
    if len == 0 {
        0
    } else if selected >= len {
        len - 1
    } else {
        selected
    }
}

/// The selection after moving by `delta` in a list of `len` items: clamped
/// to the list, and unchanged in an empty list.
pub open spec fn moved_selection(selected: int, len: int, delta: int) -> int {
    if len == 0 {
        selected
    } else if selected + delta < 0 {
        0
    } else if selected + delta > len - 1 {
        len - 1
    } else {
        selected + delta
    }
}

/// The selection after paging forward or back by `page` items.
pub open spec fn paged_selection(selected: int, len: int, page: int, forward: bool) -> int {
    if len == 0 || page == 0 {
        selected
    } else if forward {
        moved_selection(selected, len, page)
    } else {
        moved_selection(selected, len, -page)
    }
}

/// What moving by `delta` needs so that the index arithmetic (done in
/// `i32`) stays in range.
pub open spec fn move_fits(selected: int, len: int, delta: int) -> bool {
    len > 0 ==> (len <= i32::MAX && selected <= i32::MAX && i32::MIN <= selected + delta
        <= i32::MAX)
}

/// What paging by `page` needs so that the index arithmetic stays in range.
pub open spec fn page_fits(selected: int, len: int, page: int, forward: bool) -> bool {
    (len > 0 && page > 0) ==> (page <= i32::MAX && move_fits(
        selected,
        len,
        if forward {
            page
        } else {
            -page
        },
    ))
}

/// A selection fits a list of `len` items: inside it, or 0 when it is empty.
pub open spec fn selection_fits(selected: int, len: int) -> bool {
    if len == 0 {
        selected == 0
    } else {
        0 <= selected < len
    }
}

pub fn clamp_selection(selected: usize, len: usize) -> (r: usize)
    ensures
        r == clamped_selection(selected as int, len as int),
{
    if len == 0 {
        0
    } else if selected >= len {
        len - 1
    } else {
        selected
    }
}

pub fn move_selection(selected: usize, len: usize, delta: i32) -> (r: usize)
    requires
        move_fits(selected as int, len as int, delta as int),
    ensures
        r == moved_selection(selected as int, len as int, delta as int),
{
    if len == 0 {
        return selected;
    }
    let next: i64 = selected as i64 + delta as i64;
    let last: i64 = len as i64 - 1;
    if next < 0 {
        0
    } else if next > last {
        len - 1
    } else {
        next as usize
    }
}

pub fn page_selection(selected: usize, len: usize, page: usize, forward: bool) -> (r: usize)
    requires
        page_fits(selected as int, len as int, page as int, forward),
    ensures
        r == paged_selection(selected as int, len as int, page as int, forward),
{
    if len == 0 || page == 0 {
        return selected;
    }
    let delta = page as i32;
    move_selection(selected, len, if forward { delta } else { -delta })
}

/// The normalised search needle, or `None` when the search keeps
/// everything.
pub fn search_needle(search: &str) -> (r: Option<Vec<char>>)
    ensures
        r is None <==> search@.len() == 0,
        r matches Some(n) ==> n@ == search_key(search@),
{
    let lower = lowercase(search);
    if lower.as_str().unicode_len() == 0 {
        None
    } else {
        Some(normalized_chars(lower.as_str()))
    }
}

/// Whether `name` is kept by a search whose needle is `needle`.
pub fn name_kept(name: &str, needle: &Option<Vec<char>>, Ghost(search): Ghost<Seq<char>>) -> (r: bool)
    requires
        needle is None <==> search.len() == 0,
        needle matches Some(n) ==> n@ == search_key(search),
    ensures
        r == name_matches(name@, search),
{
    match needle {
        None => true,
        Some(n) => {
            let hay = normalized_chars(name);
            find_in(&hay, n)
        },
    }
}

/// A text that occurs in `b`, where `b` occurs in `a`, occurs in `a`.
pub proof fn lemma_contains_transitive(a: Seq<char>, b: Seq<char>, c: Seq<char>)
    requires
        contains_seq(a, b),
        contains_seq(b, c),
    ensures
        contains_seq(a, c),
{
    let i = choose|i: int| occurs_at(a, b, i);
    let j = choose|j: int| occurs_at(b, c, j);
    assert forall|k: int| 0 <= k < c.len() implies a.subrange(i + j, i + j + c.len())[k] == c[k] by {
        assert(b.subrange(j, j + c.len())[k] == c[k]);
        assert(a.subrange(i, i + b.len())[j + k] == b[j + k]);
    }
    assert(a.subrange(i + j, i + j + c.len()) =~= c);
    assert(occurs_at(a, c, i + j));
}

/// The empty text occurs in every text.
pub proof fn lemma_contains_empty(a: Seq<char>, c: Seq<char>)
    requires
        c.len() == 0,
    ensures
        contains_seq(a, c),
{
    assert(a.subrange(0, 0) =~= c);
    assert(occurs_at(a, c, 0));
}

/// Narrowing a search never adds a match: when the search key of `narrow`
/// contains the search key of `wide`, a name that `narrow` keeps is kept
/// by `wide` too.
pub proof fn narrower_search_matches_fewer(name: Seq<char>, wide: Seq<char>, narrow: Seq<char>)
    requires
        contains_seq(search_key(narrow), search_key(wide)),
    ensures
        name_matches(name, narrow) ==> name_matches(name, wide),
{
    if wide.len() > 0 && name_matches(name, narrow) {
        if narrow.len() == 0 {
            assert(search_key(narrow).len() == 0);
            let i = choose|i: int| occurs_at(search_key(narrow), search_key(wide), i);
            lemma_contains_empty(normalized(name), search_key(wide));
        } else {
            lemma_contains_transitive(normalized(name), search_key(narrow), search_key(wide));
        }
    }
}

/// The indices kept under `keep2` are all kept under `keep1` when `keep2`
/// implies `keep1`.
pub proof fn lemma_matching_subset(n: nat, keep1: spec_fn(int) -> bool, keep2: spec_fn(int) -> bool)
    requires
        n <= usize::MAX,
        forall|i: int| 0 <= i < n && #[trigger] keep2(i) ==> keep1(i),
    ensures
        forall|a: int|
            0 <= a < matching_indices(n, keep2).len() ==> matching_indices(n, keep1).contains(
                #[trigger] matching_indices(n, keep2)[a],
            ),
{
    matching_indices_exact(n, keep1);
    matching_indices_exact(n, keep2);
    assert forall|a: int|
        0 <= a < matching_indices(n, keep2).len() implies matching_indices(n, keep1).contains(
        #[trigger] matching_indices(n, keep2)[a],
    ) by {
        let x = matching_indices(n, keep2)[a];
        assert(keep2(x as int));
        assert(keep1(x as int));
    }
}

/// Moving one way and back by the same amount returns to the start when no
/// clamping happened on the way out.
pub proof fn move_then_back(selected: int, len: int, delta: int)
    requires
        0 <= selected < len,
        0 <= selected + delta < len,
    ensures
        moved_selection(moved_selection(selected, len, delta), len, -delta) == selected,
{
}

/// Moving keeps a fitting selection fitting; refiltering makes any
/// selection fit.
pub proof fn selection_stays_in_range(selected: int, len: int, delta: int)
    requires
        len >= 0,
    ensures
        selection_fits(selected, len) ==> selection_fits(moved_selection(selected, len, delta), len),
        selected >= 0 ==> selection_fits(clamped_selection(selected, len), len),
        clamped_selection(clamped_selection(selected, len), len) == clamped_selection(selected, len),
{
}

/// The indices kept are increasing, in range, and exactly those that
/// satisfy `keep`.
pub proof fn matching_indices_exact(n: nat, keep: spec_fn(int) -> bool)
    requires
        n <= usize::MAX,
    ensures
        forall|a: int, b: int|
            0 <= a < b < matching_indices(n, keep).len() ==> matching_indices(n, keep)[a]
                < matching_indices(n, keep)[b],
        forall|a: int|
            0 <= a < matching_indices(n, keep).len() ==> matching_indices(n, keep)[a] < n && keep(
                matching_indices(n, keep)[a] as int,
            ),
        forall|i: int| 0 <= i < n && #[trigger] keep(i) ==> matching_indices(n, keep).contains(i as usize),
        matching_indices(n, keep).len() <= n,
    decreases n,
{
    if n > 0 {
        matching_indices_exact((n - 1) as nat, keep);
        let before = matching_indices((n - 1) as nat, keep);
        assert forall|i: int| 0 <= i < n && #[trigger] keep(i) implies matching_indices(n, keep).contains(
            i as usize,
        ) by {
            if i < n - 1 {
                let w = choose|w: int| 0 <= w < before.len() && before[w] == i as usize;
                assert(matching_indices(n, keep)[w] == i as usize);
            } else {
                assert(matching_indices(n, keep)[before.len() as int] == i as usize);
            }
        }
    }
}

/// When every item satisfies `keep`, every item is kept, in order.
pub proof fn empty_search_keeps_all(n: nat, keep: spec_fn(int) -> bool)
    requires
        n <= usize::MAX,
        forall|i: int| 0 <= i < n ==> #[trigger] keep(i),
    ensures
        matching_indices(n, keep).len() == n,
        forall|i: int| 0 <= i < n ==> matching_indices(n, keep)[i] == i,
    decreases n,
{
    if n > 0 {
        empty_search_keeps_all((n - 1) as nat, keep);
    }
}

/// Moving by `delta` in a non-empty list lands on `selected + delta`
/// clamped to the list: the first item when that falls before the list,
/// the last item when it falls after it.
pub proof fn move_clamps_to_list(selected: int, len: int, delta: int)
    requires
        len > 0,
    ensures
        0 <= selected + delta < len ==> moved_selection(selected, len, delta) == selected + delta,
        selected + delta < 0 ==> moved_selection(selected, len, delta) == 0,
        selected + delta >= len ==> moved_selection(selected, len, delta) == len - 1,
{
}

/// Paging by `page > 0` in a non-empty list from an item of it: forward
/// goes `page` items down, stopping at the last item; back goes `page`
/// items up, stopping at the first.
pub proof fn page_moves_a_page(selected: int, len: int, page: int)
    requires
        len > 0,
        page > 0,
        0 <= selected < len,
    ensures
        paged_selection(selected, len, page, true) == (if selected + page < len - 1 {
            selected + page
        } else {
            len - 1
        }),
        paged_selection(selected, len, page, false) == (if selected - page > 0 {
            selected - page
        } else {
            0
        }),
{
}

} // verus!
