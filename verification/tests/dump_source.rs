//! Scenarios for memory dumps inside zip archives.

use std::io::Write as _;

use zip::write::SimpleFileOptions;

use issen::dump_source::{choose_dump_entry, is_zip, ZipEntryInfo};

fn zip_bytes(name: &str, data: &[u8], method: zip::CompressionMethod) -> Vec<u8> {
    let mut cursor = std::io::Cursor::new(Vec::<u8>::new());
    {
        let mut zw = zip::ZipWriter::new(&mut cursor);
        let opts = SimpleFileOptions::default().compression_method(method);
        zw.start_file(name, opts).expect("start_file");
        zw.write_all(data).expect("write entry");
        zw.finish().expect("finish zip");
    }
    cursor.into_inner()
}

fn entry(name: &str, size: u64, is_dir: bool) -> ZipEntryInfo {
    ZipEntryInfo {
        name: name.to_string(),
        size,
        is_dir,
    }
}

#[test]
fn is_zip_true_for_zip_magic() {
    let bytes = zip_bytes("dump.lime", &[0u8; 64], zip::CompressionMethod::Stored);
    assert!(is_zip(&bytes), "PK\\x03\\x04 magic must be detected as zip");
}

#[test]
fn is_zip_false_for_loose_dump() {
    // A LiME header starts with its own magic, not PK.
    let dump = [0x45u8, 0x4D, 0x69, 0x4C, 1, 0, 0, 0];
    assert!(!is_zip(&dump), "a raw LiME dump is not a zip");
    assert!(!is_zip(b"PK"));
}

#[test]
fn dump_extension_is_preferred_over_size() {
    let es = vec![
        entry("readme.txt", 10_000, false),
        entry("dir/", 0, true),
        entry("memory/DC01.MEM", 5, false),
        entry("other.raw", 7, false),
    ];
    assert_eq!(choose_dump_entry(&es), Some(2));
}

#[test]
fn largest_file_wins_without_a_dump_extension() {
    let es = vec![
        entry("a.bin", 10, false),
        entry("b.bin", 30, false),
        entry("c.bin", 30, false),
        entry("big/", 0, true),
    ];
    assert_eq!(choose_dump_entry(&es), Some(1));
}

#[test]
fn read_dump_from_zip_empty_archive_fails_loud() {
    assert_eq!(choose_dump_entry(&[entry("empty/", 0, true)]), None);
    assert_eq!(choose_dump_entry(&[]), None);
}

#[test]
fn hidden_names_have_no_extension() {
    let es = vec![entry(".mem", 1, false), entry("x.data", 2, false)];
    assert_eq!(choose_dump_entry(&es), Some(1));
}
