use esp_display::config::{VIDEOS_META_DIR, VIDEO_EXTENSION, VIDEO_META_EXTENSION};
use esp_display::file_map::{initialize_file_map, strip_suffix, FileEntry, FileMap};

fn entry(name: &str) -> FileEntry {
    FileEntry { file_name: name.to_string(), path: format!("videos/{name}") }
}

#[test]
fn strip_suffix_cases() {
    assert_eq!(strip_suffix("clip.bin", ".bin"), Some("clip".to_string()));
    assert_eq!(strip_suffix("clip.bin", ".json"), None);
    assert_eq!(strip_suffix(".bin", ".bin"), Some(String::new()));
    assert_eq!(strip_suffix("bin", ".bin"), None);
    assert_eq!(strip_suffix("äpfel.bin", ".bin"), Some("äpfel".to_string()));
    assert_eq!(strip_suffix("x", ""), Some("x".to_string()));
}

#[test]
fn lookup_after_initialize() {
    let mut m = FileMap::new();
    let entries = vec![entry("Bad Apple.bin"), entry("intro.bin")];
    initialize_file_map(&mut m, &entries, VIDEO_EXTENSION);
    assert_eq!(m.get_file_path("Bad Apple"), Some(&"videos/Bad Apple.bin".to_string()));
    assert_eq!(m.get_file_path("intro"), Some(&"videos/intro.bin".to_string()));
    assert_eq!(m.get_file_path("outro"), None);
    assert_eq!(m.get_file_path("intro.bin"), None);
}

#[test]
fn empty_listing_finds_nothing() {
    let mut m = FileMap::new();
    initialize_file_map(&mut m, &Vec::new(), VIDEO_META_EXTENSION);
    assert_eq!(m.get_file_path("Bad Apple"), None);
    assert_eq!(VIDEOS_META_DIR, "videos_meta");
}

#[test]
fn positions_count_every_file_of_the_listing() {
    // The position a name maps to counts the files without the extension
    // too, while only files with it have their paths kept.
    let mut m = FileMap::new();
    let entries = vec![entry("notes.txt"), entry("a.bin"), entry("b.bin")];
    initialize_file_map(&mut m, &entries, ".bin");
    assert_eq!(m.get_file_path("a"), Some(&"videos/b.bin".to_string()));
    assert_eq!(m.get_file_path("b"), None);
    assert_eq!(m.get_file_path("notes"), None);
}

#[test]
fn later_file_of_same_name_wins() {
    let mut m = FileMap::new();
    let entries = vec![
        FileEntry { file_name: "a.bin".to_string(), path: "first".to_string() },
        FileEntry { file_name: "a.bin".to_string(), path: "second".to_string() },
    ];
    initialize_file_map(&mut m, &entries, ".bin");
    assert_eq!(m.get_file_path("a"), Some(&"second".to_string()));
}
