use eqterm::eq::{EqProfile, Preset};
use eqterm::presets::{
    is_parametric_eq_file, labeled_name, preset_name, progress_due, progress_message,
    sort_presets, zip_entry_action, PresetState, ZipAction,
};

fn preset(name: &str) -> Preset {
    Preset { name: name.to_string(), eq: EqProfile { preamp: None, filters: Vec::new() } }
}

#[test]
fn names_from_paths() {
    assert_eq!(
        preset_name(
            "oratory1990/over-ear/Sennheiser HD 600/Sennheiser HD 600 ParametricEQ.txt",
            Some("Sennheiser HD 600 ParametricEQ.txt".to_string())
        ),
        "oratory1990 / over-ear / Sennheiser HD 600 / Sennheiser HD 600"
    );
    assert_eq!(
        preset_name("ParametricEQ.txt", Some("ParametricEQ.txt".to_string())),
        "ParametricEQ.txt"
    );
    assert_eq!(preset_name("", None), "Unknown");
    assert_eq!(preset_name("my\\pack\\Custom.txt", None), "my / pack / Custom");
    assert_eq!(preset_name("Folder/ParametricEQ.txt", None), "Folder");
    assert_eq!(preset_name("  x ParametricEQ.txtParametricEQ.txt", None), "x");
}

#[test]
fn labels_and_files() {
    assert_eq!(labeled_name("AutoEq", "HD 600"), "AutoEq / HD 600");
    assert!(is_parametric_eq_file("HD 600 ParametricEQ.txt"));
    assert!(!is_parametric_eq_file("HD 600 FixedBandEQ.txt"));
    assert!(!is_parametric_eq_file("parametriceq.txt"));
}

#[test]
fn presets_sorted_case_insensitively_and_stably() {
    let sorted = sort_presets(vec![preset("b"), preset("B"), preset("a"), preset("C")]);
    let names: Vec<&str> = sorted.iter().map(|p| p.name.as_str()).collect();
    assert_eq!(names, vec!["a", "b", "B", "C"]);
}

#[test]
fn archive_members() {
    assert_eq!(zip_entry_action("AutoEq-master/results/", true), ZipAction::Skip);
    assert_eq!(zip_entry_action("AutoEq-master/README.md", false), ZipAction::Skip);
    assert_eq!(
        zip_entry_action("AutoEq-master/results/oratory1990/", true),
        ZipAction::MakeDir("oratory1990/".to_string())
    );
    assert_eq!(
        zip_entry_action("AutoEq-main/results/x/HD 600 ParametricEQ.txt", false),
        ZipAction::Extract("x/HD 600 ParametricEQ.txt".to_string())
    );
    assert_eq!(zip_entry_action("AutoEq-main/results/x/HD 600.png", false), ZipAction::Skip);
}

#[test]
fn download_progress() {
    let mib = 1024 * 1024;
    assert!(progress_due(10 * mib, 0));
    assert!(!progress_due(10 * mib - 1, 0));
    assert!(!progress_due(5, 10));
    assert_eq!(progress_message(25 * mib + 3, Some(300 * mib)), "Downloading AutoEq results\u{2026} 25 / 300 MB");
    assert_eq!(progress_message(7 * mib, None), "Downloading AutoEq results\u{2026} 7 MB");
}

#[test]
fn picker_state() {
    let mut s = PresetState::new();
    assert!(s.loading);
    assert!(s.selected_preset().is_none());
    s.set_presets(vec![preset("AutoEq / Sennheiser HD 600"), preset("AutoEq / AKG K371"), preset("Custom / HD-650")]);
    assert!(!s.loading);
    assert_eq!(s.filtered, vec![0, 1, 2]);
    s.move_by(2);
    assert_eq!(s.selected_preset().unwrap().name, "Custom / HD-650");
    s.set_search("hd6".to_string());
    assert_eq!(s.filtered, vec![0, 2]);
    assert_eq!(s.selected, 1);
    s.page_by(10, false);
    assert_eq!(s.selected, 0);
    s.select_last();
    assert_eq!(s.selected, 1);
    s.select_first();
    assert_eq!(s.selected_preset().unwrap().name, "AutoEq / Sennheiser HD 600");
}
