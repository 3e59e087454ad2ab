//! Search normalisation, clock formatting and middle truncation.
use vstd::prelude::*;

use crate::text::{append_chars, chars_of, decimal, lowered, string_of, lowercase, u64_to_decimal};

verus! {

/// Characters that searching ignores: spaces, underscores, dashes,
/// slashes, backslashes, parentheses and square brackets.
pub open spec fn is_search_separator(c: char) -> bool {
    c == ' ' || c == '_' || c == '-' || c == '/' || c == '\\' || c == '(' || c == ')' || c == '['
        || c == ']'
}

/// `s` with every search separator removed.
pub open spec fn without_separators(s: Seq<char>) -> Seq<char>
    decreases s.len(),
{
    if s.len() == 0 {
        s
    } else {
        let rest = without_separators(s.drop_last());
        if is_search_separator(s.last()) {
            rest
        } else {
            rest.push(s.last())
        }
    }
}

/// The search form of a text: lowercased, then stripped of separators.
pub open spec fn normalized(s: Seq<char>) -> Seq<char> {
    without_separators(lowered(s))
}

/// Removing separators a second time changes nothing.
pub proof fn lemma_without_separators_idempotent(s: Seq<char>)
    ensures
        without_separators(without_separators(s)) == without_separators(s),
    decreases s.len(),
{
    if s.len() > 0 {
        lemma_without_separators_idempotent(s.drop_last());
        let rest = without_separators(s.drop_last());
        if !is_search_separator(s.last()) {
            assert(rest.push(s.last()).drop_last() =~= rest);
        }
    }
}

/// Normalising a normalised text gives it back whenever lowercasing leaves
/// that text unchanged: what remains after normalising holds no separator.
pub proof fn normalizing_normalized_text(s: Seq<char>)
    requires
        lowered(normalized(s)) == normalized(s),
    ensures
        normalized(normalized(s)) == normalized(s),
{
    lemma_without_separators_idempotent(lowered(s));
}

fn is_separator(c: char) -> (r: bool)
    ensures
        r == is_search_separator(c),
{
    c == ' ' || c == '_' || c == '-' || c == '/' || c == '\\' || c == '(' || c == ')' || c == '['
        || c == ']'
}

fn without_separators_chars(s: &Vec<char>) -> (r: Vec<char>)
    ensures
        r@ == without_separators(s@),
{
    let mut r: Vec<char> = Vec::new();
    let mut i: usize = 0;
    while i < s.len()
        invariant
            i <= s.len(),
            r@ == without_separators(s@.take(i as int)),
        decreases s.len() - i,
    {
        assert(s@.take(i + 1).drop_last() =~= s@.take(i as int));
        if !is_separator(s[i]) {
            r.push(s[i]);
        }
        i = i + 1;
    }
    assert(s@.take(s.len() as int) =~= s@);
    r
}

/// `s` with every search separator removed (the step of
/// `normalized_search` that follows lowercasing).
pub fn strip_separators(s: &str) -> (r: String)
    ensures
        r@ == without_separators(s@),
{
    let cs = chars_of(s);
    let kept = without_separators_chars(&cs);
    string_of(&kept)
}

/// The characters of `normalized_search(input)`.
pub fn normalized_chars(input: &str) -> (r: Vec<char>)
    ensures
        r@ == normalized(input@),
{
    let lower = lowercase(input);
    let cs = chars_of(lower.as_str());
    without_separators_chars(&cs)
}

/// Lowercases `input` and drops the characters that searching ignores, so
/// that "HD-600 / A" and "hd600a" compare equal.
pub fn normalized_search(input: &str) -> (r: String)
    ensures
        r@ == normalized(input@),
{
    let cs = normalized_chars(input);
    string_of(&cs)
}

/// Two-digit, zero-padded numeral of `n` (for `n < 100`).
pub open spec fn two_digits(n: nat) -> Seq<char> {
    if n < 10 {
        seq!['0'] + decimal(n)
    } else {
        decimal(n)
    }
}

/// A duration of `total` whole seconds as `m:ss`, or `h:mm:ss` from one
/// hour on.
pub open spec fn clock_text(total: nat) -> Seq<char> {
    let hours = total / 3600;
    let mins = (total % 3600) / 60;
    let secs = total % 60;
    if hours > 0 {
        decimal(hours) + seq![':'] + two_digits(mins) + seq![':'] + two_digits(secs)
    } else {
        decimal(mins) + seq![':'] + two_digits(secs)
    }
}

fn two_digits_chars(n: u64) -> (r: Vec<char>)
    requires
        n < 100,
    ensures
        r@ == two_digits(n as nat),
{
    let d = u64_to_decimal(n);
    let ds = chars_of(d.as_str());
    if n < 10 {
        let mut r: Vec<char> = Vec::new();
        r.push('0');
        append_chars(&mut r, &ds);
        assert(r@ =~= seq!['0'] + decimal(n as nat));
        r
    } else {
        ds
    }
}

/// Formats `total` whole seconds as a clock: "0:00", "1:05", "1:02:03".
pub fn format_clock(total: u64) -> (r: String)
    ensures
        r@ == clock_text(total as nat),
{
    let hours = total / 3600;
    let mins = (total % 3600) / 60;
    let secs = total % 60;
    let mut out: Vec<char> = Vec::new();
    if hours > 0 {
        let h = u64_to_decimal(hours);
        let hs = chars_of(h.as_str());
        append_chars(&mut out, &hs);
        out.push(':');
        let ms = two_digits_chars(mins);
        append_chars(&mut out, &ms);
        out.push(':');
        let ss = two_digits_chars(secs);
        append_chars(&mut out, &ss);
    } else {
        let m = u64_to_decimal(mins);
        let ms = chars_of(m.as_str());
        append_chars(&mut out, &ms);
        out.push(':');
        let ss = two_digits_chars(secs);
        append_chars(&mut out, &ss);
    }
    proof {
        if hours > 0 {
            assert(out@ =~= decimal(hours as nat) + seq![':'] + two_digits(mins as nat) + seq![':']
                + two_digits(secs as nat));
        } else {
            assert(out@ =~= decimal(mins as nat) + seq![':'] + two_digits(secs as nat));
        }
    }
    string_of(&out)
}

/// `s` shortened to at most `max` characters by replacing its middle with
/// an ellipsis; unchanged when it already fits or when `max < 4`.
pub open spec fn truncated_middle(s: Seq<char>, max: nat) -> Seq<char> {
    if max < 4 || s.len() <= max {
        s
    } else {
        let keep = ((max - 1) / 2) as int;
        s.take(keep) + seq!['\u{2026}'] + s.skip(s.len() - keep)
    }
}

/// Shortens `s` to at most `max` characters, keeping its start and end
/// around an ellipsis.
pub fn truncate_middle(s: &str, max: usize) -> (r: String)
    ensures
        r@ == truncated_middle(s@, max as nat),
{
    let cs = chars_of(s);
    if max < 4 || cs.len() <= max {
        return string_of(&cs);
    }
    let keep = (max - 1) / 2;
    let mut out: Vec<char> = Vec::new();
    let mut i: usize = 0;
    while i < keep
        invariant
            keep == (max - 1) / 2,
            keep < cs.len(),
            i <= keep,
            out@ == cs@.take(i as int),
        decreases keep - i,
    {
        out.push(cs[i]);
        i = i + 1;
        assert(out@ =~= cs@.take(i as int));
    }
    out.push('\u{2026}');
    let start = cs.len() - keep;
    let mut j: usize = start;
    while j < cs.len()
        invariant
            start == cs.len() - keep,
            start <= j <= cs.len(),
            out@ == cs@.take(keep as int) + seq!['\u{2026}'] + cs@.subrange(start as int, j as int),
        decreases cs.len() - j,
    {
        out.push(cs[j]);
        j = j + 1;
        assert(out@ =~= cs@.take(keep as int) + seq!['\u{2026}'] + cs@.subrange(start as int, j as int));
    }
    assert(cs@.subrange(start as int, cs.len() as int) =~= cs@.skip(start as int));
    string_of(&out)
}

/// A middle-truncated text never exceeds its limit once the limit is at
/// least 4, and keeps its first and last characters.
pub proof fn truncate_middle_fits(s: Seq<char>, max: nat)
    requires
        max >= 4,
    ensures
        truncated_middle(s, max).len() <= max,
        s.len() > max ==> truncated_middle(s, max).len() == 2 * ((max - 1) / 2) + 1,
        s.len() > 0 ==> truncated_middle(s, max)[0] == s[0],
        s.len() > 0 ==> truncated_middle(s, max).last() == s.last(),
{
}

} // verus!
