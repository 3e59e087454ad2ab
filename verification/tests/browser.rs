use std::path::PathBuf;

use eqterm::browser::{build_entries, is_audio_file, BrowserState, DirItem, Entry, EntryKind};

fn item(name: &str, is_dir: bool, is_file: bool) -> DirItem {
    DirItem {
        name: name.to_string(),
        path: PathBuf::from(format!("/music/{name}")),
        is_dir,
        is_file,
    }
}

fn entry(name: &str, kind: EntryKind) -> Entry {
    Entry { name: name.to_string(), path: PathBuf::from(format!("/music/{name}")), kind }
}

fn names(entries: &[Entry]) -> Vec<String> {
    entries.iter().map(|e| e.name.clone()).collect()
}

#[test]
fn audio_extensions() {
    for name in ["a.mp3", "b.FLAC", "c.wav", "d.aac", "e.m4a", "f.Ogg", "g.opus", "h.alac", "i.aiff", "j.wma", "k.mka", ".x.mp3"] {
        assert!(is_audio_file(name), "{name}");
    }
    for name in ["a.txt", "mp3", ".mp3", "a.mp3.part", "a.", "..", "cover.jpg", ""] {
        assert!(!is_audio_file(name), "{name}");
    }
}

#[test]
fn listing_orders_folders_first_then_by_name() {
    let items = vec![
        item("b.mp3", false, true),
        item("Zeta", true, false),
        item(".hidden", true, false),
        item("A.flac", false, true),
        item("notes.txt", false, true),
        item("alpha", true, false),
        item(".secret.mp3", false, true),
        item("c.wav", false, false),
        item("a.flac", false, true),
    ];
    let entries = build_entries(items);
    assert_eq!(names(&entries), vec!["alpha", "Zeta", "A.flac", "a.flac", "b.mp3"]);
    assert!(matches!(entries[0].kind, EntryKind::Dir));
    assert!(matches!(entries[1].kind, EntryKind::Dir));
    assert!(matches!(entries[2].kind, EntryKind::File));
    assert_eq!(entries[2].path, PathBuf::from("/music/A.flac"));
}

#[test]
fn ties_keep_directory_order() {
    let entries = build_entries(vec![item("a.flac", false, true), item("A.flac", false, true)]);
    assert_eq!(names(&entries), vec!["a.flac", "A.flac"]);
}

fn sample_browser() -> BrowserState {
    BrowserState::new(
        PathBuf::from("/music"),
        vec![
            entry("Albums", EntryKind::Dir),
            entry("HD-600 test.flac", EntryKind::File),
            entry("hd600 other.mp3", EntryKind::File),
            entry("Track 3.mp3", EntryKind::File),
        ],
    )
}

#[test]
fn new_browser_shows_everything() {
    let b = sample_browser();
    assert_eq!(b.filtered, vec![0, 1, 2, 3]);
    assert_eq!(b.selected, 0);
    assert_eq!(b.selected_entry().unwrap().name, "Albums");
}

#[test]
fn search_filters_by_normalized_name() {
    let mut b = sample_browser();
    b.select_last();
    assert_eq!(b.selected, 3);
    b.set_search("HD 600".to_string());
    assert_eq!(b.filtered, vec![1, 2]);
    assert_eq!(b.selected, 1);
    assert_eq!(b.selected_entry().unwrap().name, "hd600 other.mp3");
    b.set_search("nothing".to_string());
    assert!(b.filtered.is_empty());
    assert_eq!(b.selected, 0);
    assert!(b.selected_entry().is_none());
    b.set_search(String::new());
    assert_eq!(b.filtered, vec![0, 1, 2, 3]);
}

#[test]
fn moving_is_clamped() {
    let mut b = sample_browser();
    b.move_by(1);
    assert_eq!(b.selected, 1);
    b.move_by(10);
    assert_eq!(b.selected, 3);
    b.move_by(-1);
    b.move_by(1);
    assert_eq!(b.selected, 3);
    b.move_by(-100);
    assert_eq!(b.selected, 0);
    b.page_by(2, true);
    assert_eq!(b.selected, 2);
    b.page_by(0, true);
    assert_eq!(b.selected, 2);
    b.page_by(5, false);
    assert_eq!(b.selected, 0);
    b.select_last();
    b.select_first();
    assert_eq!(b.selected, 0);
}

#[test]
fn refresh_replaces_entries_and_keeps_search() {
    let mut b = sample_browser();
    b.set_search("track".to_string());
    assert_eq!(b.filtered, vec![3]);
    b.refresh(vec![entry("Track 1.mp3", EntryKind::File), entry("Other.mp3", EntryKind::File), entry("track 2.mp3", EntryKind::File)]);
    assert_eq!(b.filtered, vec![0, 2]);
    assert_eq!(b.search, "track");
}

#[test]
fn empty_list_ignores_moves() {
    let mut b = BrowserState::new(PathBuf::from("/"), vec![]);
    b.move_by(3);
    b.page_by(4, false);
    b.select_last();
    assert_eq!(b.selected, 0);
    assert!(b.selected_entry().is_none());
}

#[test]
fn empty_and_cleared_search_list_everything() {
    let mut b = BrowserState::new(
        PathBuf::from("/m"),
        vec![
            Entry { name: "Alpha".to_string(), path: PathBuf::from("/m/Alpha"), kind: EntryKind::Dir },
            Entry { name: "beta.mp3".to_string(), path: PathBuf::from("/m/beta.mp3"), kind: EntryKind::File },
            Entry { name: "Gamma.flac".to_string(), path: PathBuf::from("/m/Gamma.flac"), kind: EntryKind::File },
        ],
    );
    assert_eq!(b.filtered, vec![0, 1, 2]);
    b.set_search("ALP".to_string());
    assert_eq!(b.filtered, vec![0]);
    b.set_search("a".to_string());
    assert_eq!(b.filtered, vec![0, 1, 2]);
    b.set_search("ma.".to_string());
    assert_eq!(b.filtered, vec![2]);
    b.set_search(String::new());
    assert_eq!(b.filtered, vec![0, 1, 2]);
}
