use eqterm::eq::{af_chain, filter_entry, parse_eq_profile, preamp_entry, FilterType};

const SAMPLE: &str = "\
Preamp: -6.2 dB
Filter 1: ON PK Fc 105.0 Hz Gain 2.5 dB Q 0.700
Filter 2: ON LS Fc 105.0 Hz Gain 6.0 dB Q 0.700
Filter 3: ON HS Fc 10000.0 Hz Gain -1.5 dB Q 0.700
Filter 4: OFF PK Fc 200.0 Hz Gain 1.0 dB Q 1.000
";

/// The chain mpv receives for a parsed profile, numbers written with three
/// decimals as the player writes them.
fn chain_of(eq: &eqterm::eq::EqProfile) -> String {
    let three = |t: &str| format!("{:.3}", t.parse::<f32>().unwrap_or(0.0));
    let mut entries = Vec::new();
    if let Some(p) = eq.preamp.as_deref() {
        entries.push(preamp_entry(&three(p)));
    }
    for f in &eq.filters {
        entries.push(filter_entry(f.kind, &three(&f.freq), &three(&f.q), &three(&f.gain)));
    }
    af_chain(&entries)
}

#[test]
fn parses_autoeq_style_profile() {
    let eq = parse_eq_profile(SAMPLE);
    let preamp_db: f32 = eq.preamp.as_deref().unwrap().parse().unwrap();
    assert!((preamp_db - (-6.2)).abs() < 0.001);
    assert_eq!(eq.filters.len(), 3);
    assert!(chain_of(&eq).contains("lavfi="));
    assert!(chain_of(&eq).contains("volume=-6.200dB"));
}

#[test]
fn parses_autoeq_sample_fields() {
    let eq = parse_eq_profile(SAMPLE);
    assert_eq!(eq.preamp.as_deref(), Some("-6.2"));
    let preamp: f32 = eq.preamp.as_deref().unwrap().parse().unwrap();
    assert!((preamp - (-6.2)).abs() < 0.001);
    assert_eq!(eq.filters.len(), 3);
    assert_eq!(eq.filters[0].kind, FilterType::Peak);
    assert_eq!(eq.filters[0].freq, "105.0");
    assert_eq!(eq.filters[0].gain, "2.5");
    assert_eq!(eq.filters[0].q, "0.700");
    assert_eq!(eq.filters[1].kind, FilterType::LowShelf);
    assert_eq!(eq.filters[2].kind, FilterType::HighShelf);
    assert_eq!(eq.filters[2].freq, "10000.0");
    assert_eq!(eq.filters[2].gain, "-1.5");
}

#[test]
fn last_preamp_wins_and_other_lines_are_ignored() {
    let text = "Preamp: 1 dB\r\nsomething else\nPreamp:-3.5dB\nFilter 1: ON XX Fc 1 Hz Gain 1 dB Q 1\nFilter 2: ON PKX Fc 1 Hz Gain +1 dB Q 2 trailing\nFilter: ON PK Fc 1 Hz Gain 1 dB Q 1\nFilter 3: ONPK Fc 1 Hz Gain 1 dB Q 1";
    let eq = parse_eq_profile(text);
    assert_eq!(eq.preamp.as_deref(), Some("-3.5"));
    assert_eq!(eq.filters.len(), 1);
    assert_eq!(eq.filters[0].kind, FilterType::Peak);
    assert_eq!(eq.filters[0].gain, "+1");
    assert_eq!(eq.filters[0].q, "2");
}

#[test]
fn malformed_preamp_is_ignored() {
    assert_eq!(parse_eq_profile("Preamp: 1. dB").preamp, None);
    assert_eq!(parse_eq_profile("Preamp: dB").preamp, None);
    assert_eq!(parse_eq_profile("Preamp: 2.25  dB extra").preamp.as_deref(), Some("2.25"));
    assert_eq!(parse_eq_profile("").preamp, None);
    assert!(parse_eq_profile("").filters.is_empty());
}

#[test]
fn numbers_are_kept_as_written() {
    let eq = parse_eq_profile("Filter 10:\tON\tLSC\tFc 1.2.3 Hz Gain 0 dB Q .5");
    assert_eq!(eq.filters.len(), 1);
    assert_eq!(eq.filters[0].kind, FilterType::LowShelf);
    assert_eq!(eq.filters[0].freq, "1.2.3");
    assert_eq!(eq.filters[0].q, ".5");
}

#[test]
fn mpv_chain() {
    assert_eq!(preamp_entry("-6.200"), "volume=-6.200dB");
    assert_eq!(
        filter_entry(FilterType::Peak, "105.000", "0.700", "2.500"),
        "equalizer=f=105.000:t=q:w=0.700:g=2.500"
    );
    assert_eq!(filter_entry(FilterType::LowShelf, "1", "2", "3"), "lowshelf=f=1:t=q:w=2:g=3");
    assert_eq!(filter_entry(FilterType::HighShelf, "1", "2", "0"), "highshelf=f=1:t=q:w=2:g=0");
    assert_eq!(af_chain(&vec![]), "");
    assert_eq!(af_chain(&vec!["a=1".to_string()]), "lavfi=[a=1]");
    assert_eq!(
        af_chain(&vec!["volume=-6.200dB".to_string(), "equalizer=f=1:t=q:w=2:g=3".to_string()]),
        "lavfi=[volume=-6.200dB,equalizer=f=1:t=q:w=2:g=3]"
    );
}

#[test]
fn unicode_decimal_digits_are_numbers() {
    // Arabic-Indic three: the line is a preamp line whose numeral does not
    // convert to a float (the player then uses 0 dB).
    let eq = parse_eq_profile("Preamp: \u{663} dB");
    assert_eq!(eq.preamp.as_deref(), Some("\u{663}"));
    assert_eq!(eq.preamp.as_deref().unwrap().parse::<f32>().unwrap_or(0.0), 0.0);
    let eq = parse_eq_profile("Filter \u{966}: ON PK Fc \u{ff11}0 Hz Gain 1 dB Q 0.5");
    assert_eq!(eq.filters.len(), 1);
    assert_eq!(eq.filters[0].freq, "\u{ff11}0");
    // A superscript two is not a decimal digit.
    assert_eq!(parse_eq_profile("Preamp: \u{b2} dB").preamp, None);
}
