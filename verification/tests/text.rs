use rust_analyzer_downloader::text::{chars_end_with, chars_of, decode_text, ends_with, same_text};

#[test]
fn valid_utf8_is_decoded() {
    assert_eq!(decode_text(b"plain"), Some("plain"));
    assert_eq!(decode_text(b""), Some(""));
    assert_eq!(decode_text("é".as_bytes()), Some("é"));
    assert_eq!(decode_text(&[0xe2, 0x82, 0xac]), Some("€"));
}

#[test]
fn invalid_utf8_is_refused() {
    assert_eq!(decode_text(&[0x80]), None);
    assert_eq!(decode_text(&[0xe2, 0x82]), None);
    assert_eq!(decode_text(&[0xc0, 0xaf]), None);
    assert_eq!(decode_text(&[0xf4, 0x90, 0x80, 0x80]), None);
}

#[test]
fn chars_come_in_order() {
    assert_eq!(chars_of("a b\n"), vec!['a', ' ', 'b', '\n']);
    assert_eq!(chars_of("é€"), vec!['é', '€']);
    assert_eq!(chars_of(""), Vec::<char>::new());
}

#[test]
fn suffixes_are_found() {
    assert!(ends_with("rust-analyzer-linux", "-linux"));
    assert!(ends_with("rust-analyzer-linux", "x"));
    assert!(ends_with("rust-analyzer-linux", "rust-analyzer-linux"));
    assert!(ends_with("rust-analyzer-linux", ""));
    assert!(ends_with("", ""));
    assert!(ends_with("ra-é", "-é"));
}

#[test]
fn other_endings_are_not_suffixes() {
    assert!(!ends_with("rust-analyzer-linux", "-mac"));
    assert!(!ends_with("rust-analyzer-linux", "-linu"));
    assert!(!ends_with("rust-analyzer-linux", "-Linux"));
    assert!(!ends_with("linux", "-linux"));
    assert!(!ends_with("", "x"));
    assert!(!ends_with("rust-analyzer-linux.gz", "-linux"));
    assert!(!ends_with("ra-e", "-é"));
}

#[test]
fn char_suffixes_are_compared_from_the_end() {
    assert!(chars_end_with(&vec!['a', 'b', 'c'], &vec!['b', 'c']));
    assert!(chars_end_with(&vec!['a', 'b', 'c'], &vec![]));
    assert!(!chars_end_with(&vec!['a', 'b', 'c'], &vec!['a', 'b']));
    assert!(!chars_end_with(&vec!['b', 'c'], &vec!['a', 'b', 'c']));
    assert!(!chars_end_with(&vec!['a', 'b', 'c'], &vec!['x', 'c']));
}

#[test]
fn equal_texts_are_the_same() {
    assert!(same_text("macos", "macos"));
    assert!(same_text("", ""));
    assert!(same_text("é€", "é€"));
}

#[test]
fn different_texts_are_not_the_same() {
    assert!(!same_text("macos", "mac"));
    assert!(!same_text("mac", "macos"));
    assert!(!same_text("macos", "Macos"));
    assert!(!same_text("macos", "linux"));
    assert!(!same_text("", " "));
    assert!(!same_text("xmacos", "macos"));
}
