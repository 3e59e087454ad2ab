use eqterm::util::{format_clock, normalized_search, strip_separators, truncate_middle};

#[test]
fn search_normalization() {
    assert_eq!(normalized_search("HD-600 / A"), "hd600a");
}

#[test]
fn separators_are_stripped_without_lowercasing() {
    assert_eq!(strip_separators("A_b-(c)[d] e/f\\g"), "Abcdefg");
    assert_eq!(strip_separators(""), "");
}

#[test]
fn normalization_lowercases_and_strips_brackets() {
    assert_eq!(normalized_search("Sennheiser HD 600 (2020)"), "sennheiserhd6002020");
    assert_eq!(normalized_search("[AKG]_K-371"), "akgk371");
}

/// A playback position in seconds on the clock, whole seconds only.
fn clock_of(seconds: f64) -> String {
    format_clock(seconds.floor() as u64)
}

#[test]
fn time_formatting() {
    assert_eq!(clock_of(0.0), "0:00");
    assert_eq!(clock_of(65.2), "1:05");
    assert_eq!(clock_of(3723.0), "1:02:03");
}

#[test]
fn clock_formatting() {
    assert_eq!(format_clock(0), "0:00");
    assert_eq!(format_clock(65), "1:05");
    assert_eq!(format_clock(3723), "1:02:03");
    assert_eq!(format_clock(59), "0:59");
    assert_eq!(format_clock(600), "10:00");
    assert_eq!(format_clock(3600), "1:00:00");
    assert_eq!(format_clock(36000 + 59), "10:00:59");
}

#[test]
fn truncation_keeps_ends() {
    assert_eq!(truncate_middle("abcdefghij", 7), "abc\u{2026}hij");
    assert_eq!(truncate_middle("abcdefghij", 8), "abc\u{2026}hij");
    assert_eq!(truncate_middle("abcdefghij", 10), "abcdefghij");
    assert_eq!(truncate_middle("abcdefghij", 3), "abcdefghij");
    assert_eq!(truncate_middle("äöüßéèàùñç", 5), "äö\u{2026}ñç");
}

#[test]
fn truncation_never_exceeds_limit() {
    for max in 4..20usize {
        let s = "0123456789abcdefghijklmnopqrstuvwxyz";
        let t = truncate_middle(s, max);
        assert!(t.chars().count() <= max);
        assert!(t.starts_with('0'));
        assert!(t.ends_with('z'));
    }
}
