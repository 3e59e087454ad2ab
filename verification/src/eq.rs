//! Parametric EQ profiles in the AutoEq text format, and the mpv audio
//! filter chain built from them.
//!
//! A profile file holds lines such as
//!
//! ```text
//! Preamp: -6.2 dB
//! Filter 1: ON PK Fc 105.0 Hz Gain 2.5 dB Q 0.700
//! ```
//!
//! The numbers are kept as the text that stands in the file; turning them
//! into floating-point values is left to the caller.
use vstd::prelude::*;

use crate::text::{append_chars, chars_of, is_decimal_digit, is_digit, is_white_space, is_whitespace, string_of};

verus! {

#[derive(Clone, Copy, Debug, PartialEq, Eq, Structural)]
pub enum FilterType {
    Peak,
    LowShelf,
    HighShelf,
}

/// One enabled filter: its kind and the numerals of its centre frequency
/// (Hz), gain (dB) and quality factor, as they stand in the profile.
#[derive(Clone, Debug)]
pub struct EqFilter {
    pub kind: FilterType,
    pub freq: String,
    pub gain: String,
    pub q: String,
}

pub type FilterView = (FilterType, Seq<char>, Seq<char>, Seq<char>);

impl View for EqFilter {
    type V = FilterView;

    open spec fn view(&self) -> FilterView {
        (self.kind, self.freq@, self.gain@, self.q@)
    }
}

/// A parsed profile: the numeral of the last preamp line (none if the
/// profile has no preamp line) and the enabled filters in file order.
#[derive(Clone, Debug)]
pub struct EqProfile {
    pub preamp: Option<String>,
    pub filters: Vec<EqFilter>,
}

pub type ProfileView = (Option<Seq<char>>, Seq<FilterView>);

impl View for EqProfile {
    type V = ProfileView;

    open spec fn view(&self) -> ProfileView {
        (
            match self.preamp {
                Some(s) => Some(s@),
                None => None,
            },
            self.filters@.map_values(|f: EqFilter| f@),
        )
    }
}

/// A named EQ preset.
#[derive(Clone, Debug)]
pub struct Preset {
    pub name: String,
    pub eq: EqProfile,
}

/// Character classes of the profile grammar.
#[derive(Clone, Copy, PartialEq, Eq, Structural)]
pub enum CharClass {
    /// Unicode white space.
    Space,
    /// A Unicode decimal digit.
    Digit,
    /// A digit or '.'.
    NumberChar,
    /// 'A' to 'Z'.
    Upper,
}

pub open spec fn in_class(c: char, k: CharClass) -> bool {
    match k {
        CharClass::Space => is_white_space(c),
        CharClass::Digit => is_decimal_digit(c),
        CharClass::NumberChar => is_decimal_digit(c) || c == '.',
        CharClass::Upper => 65 <= c as int <= 90,
    }
}

/// The end of the run of `k` characters that starts at `i`.
pub open spec fn run_end(l: Seq<char>, i: int, k: CharClass) -> int
    decreases l.len() - i,
{
    if i < 0 || i >= l.len() {
        i
    } else if in_class(l[i], k) {
        run_end(l, i + 1, k)
    } else {
        i
    }
}

/// `lit` stands in `l` at `i`.
pub open spec fn lit_at(l: Seq<char>, i: int, lit: Seq<char>) -> bool {
    0 <= i && i + lit.len() <= l.len() && l.subrange(i, i + lit.len()) == lit
}

/// After an optional '+' or '-' at `i`.
pub open spec fn after_sign(l: Seq<char>, i: int) -> int {
    if 0 <= i < l.len() && (l[i] == '+' || l[i] == '-') {
        i + 1
    } else {
        i
    }
}

/// The numeral of a preamp line: the line starts with "Preamp:", then
/// optional white space, an optionally signed number with an optional
/// fractional part, optional white space and "dB".
pub open spec fn preamp_of_line(l: Seq<char>) -> Option<Seq<char>> {
    let a = run_end(l, "Preamp:"@.len() as int, CharClass::Space);
    let b = after_sign(l, a);
    let c = run_end(l, b, CharClass::Digit);
    let e = if c < l.len() && l[c] == '.' && run_end(l, c + 1, CharClass::Digit) > c + 1 {
        run_end(l, c + 1, CharClass::Digit)
    } else {
        c
    };
    let f = run_end(l, e, CharClass::Space);
    if lit_at(l, 0, "Preamp:"@) && c > b && lit_at(l, f, "dB"@) {
        Some(l.subrange(a, e))
    } else {
        None
    }
}

/// The filter kind named by the type field of a filter line.
pub open spec fn kind_of(raw: Seq<char>) -> Option<FilterType> {
    if starts_with(raw, "PK"@) {
        Some(FilterType::Peak)
    } else if starts_with(raw, "LS"@) {
        Some(FilterType::LowShelf)
    } else if starts_with(raw, "HS"@) {
        Some(FilterType::HighShelf)
    } else {
        None
    }
}

pub open spec fn starts_with(s: Seq<char>, p: Seq<char>) -> bool {
    p.len() <= s.len() && s.take(p.len() as int) == p
}

/// The fields of a filter line, `Filter <n>: <ON|OFF> <TYPE> Fc <f> Hz Gain
/// <g> dB Q <q>` with white space between the fields, and whether it is ON.
/// The line may continue after the quality factor.
pub open spec fn filter_fields(l: Seq<char>) -> Option<(bool, Seq<char>, FilterView)> {
    let p0 = "Filter"@.len() as int;
    let p1 = run_end(l, p0, CharClass::Space);
    let p2 = run_end(l, p1, CharClass::Digit);
    let p3 = run_end(l, p2 + ":"@.len(), CharClass::Space);
    let on = lit_at(l, p3, "ON"@);
    let off = !on && lit_at(l, p3, "OFF"@);
    let p4 = if on {
        p3 + "ON"@.len()
    } else {
        p3 + "OFF"@.len()
    };
    let p5 = run_end(l, p4, CharClass::Space);
    let p6 = run_end(l, p5, CharClass::Upper);
    let p7 = run_end(l, p6, CharClass::Space);
    let p8 = run_end(l, p7 + "Fc"@.len(), CharClass::Space);
    let p9 = run_end(l, p8, CharClass::NumberChar);
    let p10 = run_end(l, p9, CharClass::Space);
    let p11 = run_end(l, p10 + "Hz"@.len(), CharClass::Space);
    let p12 = run_end(l, p11 + "Gain"@.len(), CharClass::Space);
    let g = after_sign(l, p12);
    let p13 = run_end(l, g, CharClass::NumberChar);
    let p14 = run_end(l, p13, CharClass::Space);
    let p15 = run_end(l, p14 + "dB"@.len(), CharClass::Space);
    let p16 = run_end(l, p15 + "Q"@.len(), CharClass::Space);
    let p17 = run_end(l, p16, CharClass::NumberChar);
    if lit_at(l, 0, "Filter"@) && p1 > p0 && p2 > p1 && lit_at(l, p2, ":"@) && p3 > p2
        + ":"@.len() && (on || off) && p5 > p4 && p6 > p5 && p7 > p6 && lit_at(l, p7, "Fc"@) && p8
        > p7 + "Fc"@.len() && p9 > p8 && p10 > p9 && lit_at(l, p10, "Hz"@) && p11 > p10
        + "Hz"@.len() && lit_at(l, p11, "Gain"@) && p12 > p11 + "Gain"@.len() && p13 > g && p14
        > p13 && lit_at(l, p14, "dB"@) && p15 > p14 + "dB"@.len() && lit_at(l, p15, "Q"@) && p16
        > p15 + "Q"@.len() && p17 > p16 {
        Some(
            (
                on,
                l.subrange(p5, p6),
                (
                    FilterType::Peak,
                    l.subrange(p8, p9),
                    l.subrange(p12, p13),
                    l.subrange(p16, p17),
                ),
            ),
        )
    } else {
        None
    }
}

/// The filter a line adds: it must be a filter line that is ON and whose
/// type starts with PK (peak), LS (low shelf) or HS (high shelf).
pub open spec fn filter_of_line(l: Seq<char>) -> Option<FilterView> {
    match filter_fields(l) {
        Some((on, raw, f)) => if on {
            match kind_of(raw) {
                Some(k) => Some((k, f.1, f.2, f.3)),
                None => None,
            }
        } else {
            None
        },
        None => None,
    }
}

/// The profile after reading one more line: a preamp line replaces the
/// preamp, an enabled filter line adds a filter, other lines change nothing.
pub open spec fn apply_line(p: ProfileView, l: Seq<char>) -> ProfileView {
    match preamp_of_line(l) {
        Some(v) => (Some(v), p.1),
        None => match filter_of_line(l) {
            Some(f) => (p.0, p.1.push(f)),
            None => p,
        },
    }
}

/// The pieces of `s` between '\n' characters. (A trailing '\r' and a final
/// empty piece, which `str::lines` would drop, never change what a line
/// contributes.)
pub open spec fn lines_of(s: Seq<char>) -> Seq<Seq<char>>
    decreases s.len(),
{
    if s.len() == 0 {
        seq![Seq::<char>::empty()]
    } else {
        let ls = lines_of(s.drop_last());
        if s.last() == '\n' {
            ls.push(Seq::<char>::empty())
        } else {
            ls.update(ls.len() - 1, ls.last().push(s.last()))
        }
    }
}

pub open spec fn profile_from_lines(lines: Seq<Seq<char>>) -> ProfileView
    decreases lines.len(),
{
    if lines.len() == 0 {
        (None, Seq::<FilterView>::empty())
    } else {
        apply_line(profile_from_lines(lines.drop_last()), lines.last())
    }
}

/// The profile a text describes: its lines applied in order to an empty
/// profile.
pub open spec fn parsed_profile(s: Seq<char>) -> ProfileView {
    profile_from_lines(lines_of(s))
}

/// `p` continued with `lines`.
pub open spec fn fold_lines(p: ProfileView, lines: Seq<Seq<char>>) -> ProfileView
    decreases lines.len(),
{
    if lines.len() == 0 {
        p
    } else {
        apply_line(fold_lines(p, lines.drop_last()), lines.last())
    }
}

proof fn lemma_lines_concat(a: Seq<char>, b: Seq<char>)
    ensures
        lines_of(a + seq!['\n'] + b) == lines_of(a) + lines_of(b),
    decreases b.len(),
{
    lemma_lines_nonempty(b);
    if b.len() == 0 {
        assert(a + seq!['\n'] + b =~= (a + seq!['\n']));
        assert((a + seq!['\n']).drop_last() =~= a);
        assert(lines_of(a).push(Seq::<char>::empty()) =~= lines_of(a) + seq![Seq::<char>::empty()]);
    } else {
        let b0 = b.drop_last();
        lemma_lines_concat(a, b0);
        lemma_lines_nonempty(b0);
        assert((a + seq!['\n'] + b).drop_last() =~= a + seq!['\n'] + b0);
        let la = lines_of(a);
        let lb0 = lines_of(b0);
        if b.last() == '\n' {
            assert((la + lb0).push(Seq::<char>::empty()) =~= la + lb0.push(Seq::<char>::empty()));
        } else {
            let c = b.last();
            assert((la + lb0).update((la + lb0).len() - 1, (la + lb0).last().push(c)) =~= la
                + lb0.update(lb0.len() - 1, lb0.last().push(c)));
        }
    }
}

proof fn lemma_fold_concat(l1: Seq<Seq<char>>, l2: Seq<Seq<char>>)
    ensures
        profile_from_lines(l1 + l2) == fold_lines(profile_from_lines(l1), l2),
    decreases l2.len(),
{
    if l2.len() == 0 {
        assert(l1 + l2 =~= l1);
    } else {
        lemma_fold_concat(l1, l2.drop_last());
        assert((l1 + l2).drop_last() =~= l1 + l2.drop_last());
    }
}

proof fn lemma_fold_keeps_filters(p: ProfileView, lines: Seq<Seq<char>>)
    ensures
        fold_lines(p, lines).1.len() >= p.1.len(),
        fold_lines(p, lines).1.subrange(0, p.1.len() as int) == p.1,
    decreases lines.len(),
{
    if lines.len() > 0 {
        lemma_fold_keeps_filters(p, lines.drop_last());
        let q = fold_lines(p, lines.drop_last());
        match preamp_of_line(lines.last()) {
            Some(v) => {},
            None => match filter_of_line(lines.last()) {
                Some(f) => {
                    assert(q.1.push(f).subrange(0, p.1.len() as int) =~= q.1.subrange(
                        0,
                        p.1.len() as int,
                    ));
                },
                None => {},
            },
        }
    }
}

/// A profile is read line by line: the profile of two texts joined by a
/// line break is the first text's profile continued with the second's
/// lines, so the first text's filters come first, unchanged.
pub proof fn profile_reads_line_by_line(a: Seq<char>, b: Seq<char>)
    ensures
        parsed_profile(a + seq!['\n'] + b) == fold_lines(parsed_profile(a), lines_of(b)),
        parsed_profile(a + seq!['\n'] + b).1.subrange(0, parsed_profile(a).1.len() as int)
            == parsed_profile(a).1,
{
    lemma_lines_concat(a, b);
    lemma_fold_concat(lines_of(a), lines_of(b));
    lemma_fold_keeps_filters(parsed_profile(a), lines_of(b));
}

proof fn lemma_lines_nonempty(s: Seq<char>)
    ensures
        lines_of(s).len() >= 1,
    decreases s.len(),
{
    if s.len() > 0 {
        lemma_lines_nonempty(s.drop_last());
    }
}

fn char_in_class(c: char, k: CharClass) -> (r: bool)
    ensures
        r == in_class(c, k),
{
    match k {
        CharClass::Space => is_whitespace(c),
        CharClass::Digit => is_digit(c),
        CharClass::NumberChar => is_digit(c) || c == '.',
        CharClass::Upper => 'A' <= c && c <= 'Z',
    }
}

fn scan_run(l: &Vec<char>, i: usize, k: CharClass) -> (r: usize)
    requires
        i <= l.len(),
    ensures
        r == run_end(l@, i as int, k),
        i <= r <= l.len(),
{
    let mut j = i;
    while j < l.len() && char_in_class(l[j], k)
        invariant
            i <= j <= l.len(),
            run_end(l@, i as int, k) == run_end(l@, j as int, k),
        decreases l.len() - j,
    {
        j = j + 1;
    }
    j
}

fn lit_matches(l: &Vec<char>, i: usize, lit: &Vec<char>) -> (r: bool)
    requires
        i <= l.len(),
    ensures
        r == lit_at(l@, i as int, lit@),
{
    if lit.len() > l.len() - i {
        return false;
    }
    let mut m: usize = 0;
    while m < lit.len()
        invariant
            i + lit.len() <= l.len(),
            m <= lit.len(),
            forall|t: int| 0 <= t < m ==> l@[i + t] == lit@[t],
        decreases lit.len() - m,
    {
        if l[i + m] != lit[m] {
            assert(l@.subrange(i as int, i + lit.len())[m as int] != lit@[m as int]);
            return false;
        }
        m = m + 1;
    }
    assert(l@.subrange(i as int, i + lit.len()) =~= lit@);
    true
}

fn sign_skip(l: &Vec<char>, i: usize) -> (r: usize)
    requires
        i <= l.len(),
    ensures
        r == after_sign(l@, i as int),
        r <= l.len(),
{
    if i < l.len() && (l[i] == '+' || l[i] == '-') {
        i + 1
    } else {
        i
    }
}

fn slice_chars(l: &Vec<char>, a: usize, b: usize) -> (r: String)
    requires
        a <= b <= l.len(),
    ensures
        r@ == l@.subrange(a as int, b as int),
{
    let mut v: Vec<char> = Vec::new();
    let mut j = a;
    while j < b
        invariant
            a <= j <= b <= l.len(),
            v@ == l@.subrange(a as int, j as int),
        decreases b - j,
    {
        v.push(l[j]);
        j = j + 1;
        assert(v@ =~= l@.subrange(a as int, j as int));
    }
    string_of(&v)
}

fn preamp_line(l: &Vec<char>) -> (r: Option<String>)
    ensures
        match preamp_of_line(l@) {
            Some(v) => r matches Some(x) && x@ == v,
            None => r is None,
        },
{
    let lit = chars_of("Preamp:");
    if !lit_matches(l, 0, &lit) {
        return None;
    }
    let a = scan_run(l, lit.len(), CharClass::Space);
    let b = sign_skip(l, a);
    let c = scan_run(l, b, CharClass::Digit);
    if c <= b {
        return None;
    }
    let mut e = c;
    if c < l.len() && l[c] == '.' {
        let d = scan_run(l, c + 1, CharClass::Digit);
        if d > c + 1 {
            e = d;
        }
    }
    let f = scan_run(l, e, CharClass::Space);
    let db = chars_of("dB");
    if !lit_matches(l, f, &db) {
        return None;
    }
    Some(slice_chars(l, a, e))
}

fn has_prefix(s: &Vec<char>, p: &Vec<char>) -> (r: bool)
    ensures
        r == starts_with(s@, p@),
{
    if p.len() > s.len() {
        return false;
    }
    let r = lit_matches(s, 0, p);
    assert(s@.subrange(0, p.len() as int) =~= s@.take(p.len() as int));
    r
}

fn kind_from(l: &Vec<char>, a: usize, b: usize) -> (r: Option<FilterType>)
    requires
        a <= b <= l.len(),
    ensures
        r == kind_of(l@.subrange(a as int, b as int)),
{
    let s = slice_chars(l, a, b);
    let raw = chars_of(s.as_str());
    if has_prefix(&raw, &chars_of("PK")) {
        Some(FilterType::Peak)
    } else if has_prefix(&raw, &chars_of("LS")) {
        Some(FilterType::LowShelf)
    } else if has_prefix(&raw, &chars_of("HS")) {
        Some(FilterType::HighShelf)
    } else {
        None
    }
}

/// Scans past the literal `lit` at `i` and the white space after it;
/// `None` unless the literal is there and at least one white-space
/// character follows it.
fn token_then_space(l: &Vec<char>, i: usize, lit: &Vec<char>) -> (r: Option<usize>)
    requires
        i <= l.len(),
    ensures
        match r {
            Some(j) => lit_at(l@, i as int, lit@) && j == run_end(l@, i + lit@.len(), CharClass::Space)
                && j > i + lit@.len() && j <= l.len(),
            None => !lit_at(l@, i as int, lit@) || run_end(l@, i + lit@.len(), CharClass::Space)
                <= i + lit@.len(),
        },
{
    if !lit_matches(l, i, lit) {
        return None;
    }
    let j = scan_run(l, i + lit.len(), CharClass::Space);
    if j > i + lit.len() {
        Some(j)
    } else {
        None
    }
}

fn filter_line(l: &Vec<char>) -> (r: Option<EqFilter>)
    ensures
        match filter_of_line(l@) {
            Some(f) => r matches Some(x) && x@ == f,
            None => r is None,
        },
{
    let p1 = match token_then_space(l, 0, &chars_of("Filter")) {
        Some(p) => p,
        None => return None,
    };
    let p2 = scan_run(l, p1, CharClass::Digit);
    if p2 <= p1 {
        return None;
    }
    let p3 = match token_then_space(l, p2, &chars_of(":")) {
        Some(p) => p,
        None => return None,
    };
    let on_lit = chars_of("ON");
    let off_lit = chars_of("OFF");
    let on = lit_matches(l, p3, &on_lit);
    let off = !on && lit_matches(l, p3, &off_lit);
    if !on && !off {
        return None;
    }
    let p5 = match token_then_space(l, p3, if on { &on_lit } else { &off_lit }) {
        Some(p) => p,
        None => return None,
    };
    let p4 = if on { p3 + on_lit.len() } else { p3 + off_lit.len() };
    let p6 = scan_run(l, p5, CharClass::Upper);
    if p6 <= p5 {
        return None;
    }
    let p7 = scan_run(l, p6, CharClass::Space);
    if p7 <= p6 {
        return None;
    }
    let p8 = match token_then_space(l, p7, &chars_of("Fc")) {
        Some(p) => p,
        None => return None,
    };
    let p9 = scan_run(l, p8, CharClass::NumberChar);
    if p9 <= p8 {
        return None;
    }
    let p10 = scan_run(l, p9, CharClass::Space);
    if p10 <= p9 {
        return None;
    }
    let p11 = match token_then_space(l, p10, &chars_of("Hz")) {
        Some(p) => p,
        None => return None,
    };
    let p12 = match token_then_space(l, p11, &chars_of("Gain")) {
        Some(p) => p,
        None => return None,
    };
    let g = sign_skip(l, p12);
    let p13 = scan_run(l, g, CharClass::NumberChar);
    if p13 <= g {
        return None;
    }
    let p14 = scan_run(l, p13, CharClass::Space);
    if p14 <= p13 {
        return None;
    }
    let p15 = match token_then_space(l, p14, &chars_of("dB")) {
        Some(p) => p,
        None => return None,
    };
    let p16 = match token_then_space(l, p15, &chars_of("Q")) {
        Some(p) => p,
        None => return None,
    };
    let p17 = scan_run(l, p16, CharClass::NumberChar);
    if p17 <= p16 {
        return None;
    }
    if !on {
        return None;
    }
    let kind = match kind_from(l, p5, p6) {
        Some(k) => k,
        None => return None,
    };
    Some(
        EqFilter {
            kind,
            freq: slice_chars(l, p8, p9),
            gain: slice_chars(l, p12, p13),
            q: slice_chars(l, p16, p17),
        },
    )
}

fn apply_line_to(profile: &mut EqProfile, line: &Vec<char>)
    ensures
        final(profile)@ == apply_line(old(profile)@, line@),
{
    match preamp_line(line) {
        Some(v) => {
            profile.preamp = Some(v);
        },
        None => match filter_line(line) {
            Some(f) => {
                let ghost before = profile.filters@;
                profile.filters.push(f);
                assert(profile.filters@.map_values(|f: EqFilter| f@) =~= before.map_values(
                    |f: EqFilter| f@,
                ).push(f@));
            },
            None => {},
        },
    }
}

/// Reads an AutoEq parametric EQ profile. The last "Preamp:" line gives
/// the preamp; every enabled PK, LS or HS filter line adds a filter; every
/// other line is ignored.
pub fn parse_eq_profile(input: &str) -> (r: EqProfile)
    ensures
        r@ == parsed_profile(input@),
{
    let cs = chars_of(input);
    let mut profile = EqProfile { preamp: None, filters: Vec::new() };
    let mut line: Vec<char> = Vec::new();
    let mut i: usize = 0;
    assert(profile.filters@.map_values(|f: EqFilter| f@) =~= Seq::<FilterView>::empty());
    assert(lines_of(cs@.take(0)) =~= seq![Seq::<char>::empty()]) by {
        assert(cs@.take(0) =~= Seq::<char>::empty());
    }
    while i < cs.len()
        invariant
            i <= cs.len(),
            lines_of(cs@.take(i as int)).len() >= 1,
            line@ == lines_of(cs@.take(i as int)).last(),
            profile@ == profile_from_lines(lines_of(cs@.take(i as int)).drop_last()),
        decreases cs.len() - i,
    {
        let ghost ls = lines_of(cs@.take(i as int));
        assert(cs@.take(i + 1).drop_last() =~= cs@.take(i as int));
        if cs[i] == '\n' {
            apply_line_to(&mut profile, &line);
            line = Vec::new();
            assert(lines_of(cs@.take(i + 1)) == ls.push(Seq::<char>::empty()));
            assert(lines_of(cs@.take(i + 1)).drop_last() =~= ls);
            assert(ls =~= ls.drop_last().push(ls.last()));
        } else {
            line.push(cs[i]);
            assert(lines_of(cs@.take(i + 1)) == ls.update(ls.len() - 1, ls.last().push(cs@[i as int])));
            assert(lines_of(cs@.take(i + 1)).drop_last() =~= ls.drop_last());
        }
        i = i + 1;
    }
    assert(cs@.take(cs.len() as int) =~= cs@);
    let ghost ls = lines_of(cs@);
    apply_line_to(&mut profile, &line);
    assert(ls =~= ls.drop_last().push(ls.last()));
    profile
}

/// The name mpv's lavfi uses for a filter kind.
pub open spec fn lavfi_name(kind: FilterType) -> Seq<char> {
    match kind {
        FilterType::Peak => "equalizer"@,
        FilterType::LowShelf => "lowshelf"@,
        FilterType::HighShelf => "highshelf"@,
    }
}

/// The lavfi entry of one filter, from its formatted frequency, width (Q)
/// and gain: `<name>=f=<freq>:t=q:w=<q>:g=<gain>`.
pub open spec fn filter_entry_text(kind: FilterType, freq: Seq<char>, q: Seq<char>, gain: Seq<char>) -> Seq<char> {
    lavfi_name(kind) + "=f="@ + freq + ":t=q:w="@ + q + ":g="@ + gain
}

/// The lavfi entry of a preamp of `db` decibels: `volume=<db>dB`.
pub open spec fn preamp_entry_text(db: Seq<char>) -> Seq<char> {
    "volume="@ + db + "dB"@
}

/// Entries joined by ','.
pub open spec fn joined(entries: Seq<Seq<char>>) -> Seq<char>
    decreases entries.len(),
{
    if entries.len() == 0 {
        Seq::<char>::empty()
    } else if entries.len() == 1 {
        entries[0]
    } else {
        joined(entries.drop_last()) + ","@ + entries.last()
    }
}

/// The mpv `af` value of a chain of lavfi entries: empty for no entries,
/// else `lavfi=[e1,e2,...]`.
pub open spec fn af_chain_text(entries: Seq<Seq<char>>) -> Seq<char> {
    if entries.len() == 0 {
        Seq::<char>::empty()
    } else {
        "lavfi=["@ + joined(entries) + "]"@
    }
}

/// The lavfi entry of one filter (see `filter_entry_text`).
pub fn filter_entry(kind: FilterType, freq: &str, q: &str, gain: &str) -> (r: String)
    ensures
        r@ == filter_entry_text(kind, freq@, q@, gain@),
{
    let mut out = match kind {
        FilterType::Peak => chars_of("equalizer"),
        FilterType::LowShelf => chars_of("lowshelf"),
        FilterType::HighShelf => chars_of("highshelf"),
    };
    append_chars(&mut out, &chars_of("=f="));
    append_chars(&mut out, &chars_of(freq));
    append_chars(&mut out, &chars_of(":t=q:w="));
    append_chars(&mut out, &chars_of(q));
    append_chars(&mut out, &chars_of(":g="));
    append_chars(&mut out, &chars_of(gain));
    string_of(&out)
}

/// The lavfi entry of a preamp (see `preamp_entry_text`).
pub fn preamp_entry(db: &str) -> (r: String)
    ensures
        r@ == preamp_entry_text(db@),
{
    let mut out = chars_of("volume=");
    append_chars(&mut out, &chars_of(db));
    append_chars(&mut out, &chars_of("dB"));
    string_of(&out)
}

/// The mpv `af` value for a chain of lavfi entries (see `af_chain_text`).
pub fn af_chain(entries: &Vec<String>) -> (r: String)
    ensures
        r@ == af_chain_text(entries@.map_values(|e: String| e@)),
{
    let ghost views = entries@.map_values(|e: String| e@);
    if entries.len() == 0 {
        return String::new();
    }
    let mut out = chars_of("lavfi=[");
    let ghost head = out@;
    append_chars(&mut out, &chars_of(entries[0].as_str()));
    assert(views.take(1) =~= seq![views[0]]);
    let mut i: usize = 1;
    while i < entries.len()
        invariant
            1 <= i <= entries.len(),
            views == entries@.map_values(|e: String| e@),
            head == "lavfi=["@,
            out@ == head + joined(views.take(i as int)),
        decreases entries.len() - i,
    {
        append_chars(&mut out, &chars_of(","));
        append_chars(&mut out, &chars_of(entries[i].as_str()));
        assert(views.take(i + 1).drop_last() =~= views.take(i as int));
        assert(out@ =~= head + joined(views.take(i + 1)));
        i = i + 1;
    }
    append_chars(&mut out, &chars_of("]"));
    assert(views.take(entries.len() as int) =~= views);
    string_of(&out)
}

/// The `af` value of a chain: empty for no entries, `lavfi=[e]` for one
/// entry, and one entry more adds `,e` before the closing bracket, so
/// every entry appears, in order, whatever their number.
pub proof fn af_chain_grows_by_each_entry(entries: Seq<Seq<char>>, e: Seq<char>)
    ensures
        af_chain_text(Seq::<Seq<char>>::empty()) == Seq::<char>::empty(),
        af_chain_text(seq![e]) == "lavfi=["@ + e + "]"@,
        entries.len() > 0 ==> af_chain_text(entries.push(e)) == af_chain_text(entries).drop_last()
            + ","@ + e + "]"@,
{
    reveal_strlit("]");
    assert(seq![e].len() == 1);
    if entries.len() > 0 {
        let p = entries.push(e);
        assert(p.drop_last() =~= entries);
        assert(joined(p) == joined(entries) + ","@ + e);
        let a = "lavfi=["@ + joined(entries) + "]"@;
        assert(a.drop_last() =~= "lavfi=["@ + joined(entries));
        assert(af_chain_text(p) =~= a.drop_last() + ","@ + e + "]"@);
    }
}

/// The type field `raw` starts with the letters `a` then `b`.
pub open spec fn starts_with_letters(raw: Seq<char>, a: char, b: char) -> bool {
    raw.len() >= 2 && raw[0] == a && raw[1] == b
}

/// The kind of a filter depends only on the first two letters of its type
/// field: "PK" is a peak, "LS" a low shelf, "HS" a high shelf (so "LSC" and
/// "HSC" are shelves too); any other start names no kind.
pub proof fn filter_kind_by_first_two_letters(raw: Seq<char>)
    ensures
        starts_with_letters(raw, 'P', 'K') ==> kind_of(raw) == Some(FilterType::Peak),
        starts_with_letters(raw, 'L', 'S') ==> kind_of(raw) == Some(FilterType::LowShelf),
        starts_with_letters(raw, 'H', 'S') ==> kind_of(raw) == Some(FilterType::HighShelf),
        !starts_with_letters(raw, 'P', 'K') && !starts_with_letters(raw, 'L', 'S')
            && !starts_with_letters(raw, 'H', 'S') ==> kind_of(raw) is None,
{
    reveal_strlit("PK");
    reveal_strlit("LS");
    reveal_strlit("HS");
    if raw.len() >= 2 {
        assert(raw.take(2) =~= seq![raw[0], raw[1]]);
    }
    assert("PK"@ =~= seq!['P', 'K']);
    assert("LS"@ =~= seq!['L', 'S']);
    assert("HS"@ =~= seq!['H', 'S']);
}

proof fn lemma_single_line(l: Seq<char>)
    requires
        forall|i: int| 0 <= i < l.len() ==> l[i] != '\n',
    ensures
        lines_of(l) == seq![l],
    decreases l.len(),
{
    if l.len() == 0 {
        assert(l =~= Seq::<char>::empty());
    } else {
        let d = l.drop_last();
        assert forall|i: int| 0 <= i < d.len() implies d[i] != '\n' by {
            assert(d[i] == l[i]);
        }
        lemma_single_line(d);
        assert(l[l.len() - 1] != '\n');
        assert(d.push(l.last()) =~= l);
        assert(lines_of(l) =~= seq![l]);
    }
}

/// An enabled filter line read after a profile text adds exactly one
/// filter, with the line's numerals, whose kind is given by the first two
/// letters of its type field; the preamp and the earlier filters stay.
pub proof fn filter_line_adds_its_filter(t: Seq<char>, l: Seq<char>)
    requires
        forall|i: int| 0 <= i < l.len() ==> l[i] != '\n',
        filter_fields(l) matches Some((on, raw, f)) && on && (starts_with_letters(raw, 'P', 'K')
            || starts_with_letters(raw, 'L', 'S') || starts_with_letters(raw, 'H', 'S')),
    ensures
        ({
            let (on, raw, f) = filter_fields(l)->0;
            let k = if starts_with_letters(raw, 'P', 'K') {
                FilterType::Peak
            } else if starts_with_letters(raw, 'L', 'S') {
                FilterType::LowShelf
            } else {
                FilterType::HighShelf
            };
            parsed_profile(t + seq!['\n'] + l) == (
                parsed_profile(t).0,
                parsed_profile(t).1.push((k, f.1, f.2, f.3)),
            )
        }),
{
    let (on, raw, f) = filter_fields(l)->0;
    filter_kind_by_first_two_letters(raw);
    profile_reads_line_by_line(t, l);
    lemma_single_line(l);
    reveal_strlit("Filter");
    reveal_strlit("Preamp:");
    assert(l[0] == 'F') by {
        assert(l.subrange(0, 6)[0] == "Filter"@[0]);
    }
    if lit_at(l, 0, "Preamp:"@) {
        assert(l.subrange(0, 7)[0] == "Preamp:"@[0]);
    }
    assert(preamp_of_line(l) is None);
    let p = parsed_profile(t);
    assert(seq![l].drop_last() =~= Seq::<Seq<char>>::empty());
    assert(fold_lines(p, Seq::<Seq<char>>::empty()) == p);
    assert(fold_lines(p, seq![l]) == apply_line(p, l));
    assert(filter_of_line(l) == Some((kind_of(raw)->0, f.1, f.2, f.3)));
}

} // verus!
