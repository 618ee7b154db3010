//! Scenarios for evidence-source resolution.

use issen::sources::{is_container_ext, resolve_evidence_sources, source_id_for, SourceCandidate};

fn cand(path: &str, stem: Option<&str>, canonical: &str) -> SourceCandidate {
    SourceCandidate {
        path: path.to_string(),
        stem: stem.map(str::to_string),
        canonical: canonical.to_string(),
    }
}

#[test]
fn same_stem_different_dirs_get_distinct_ids() {
    let srcs = resolve_evidence_sources(&[
        cand("/case/hostA/CDrive.E01", Some("CDrive"), "/case/hostA/CDrive.E01"),
        cand("/case/hostB/CDrive.E01", Some("CDrive"), "/case/hostB/CDrive.E01"),
    ]);
    assert_eq!(srcs.len(), 2);
    assert_ne!(srcs[0].source_id, srcs[1].source_id);
    assert!(srcs.iter().all(|s| s.source_id.starts_with("CDrive")));
}

#[test]
fn the_same_file_twice_still_gets_unique_ids() {
    let c = cand("img.dd", Some("img"), "/abs/img.dd");
    let srcs = resolve_evidence_sources(&[c.clone(), c.clone(), c]);
    let base = source_id_for(Some("img"), "/abs/img.dd");
    assert_eq!(srcs[0].source_id, base);
    assert_eq!(srcs[1].source_id, format!("{base}_"));
    assert_eq!(srcs[2].source_id, format!("{base}__"));
    assert_eq!(srcs[2].path, "img.dd");
}

#[test]
fn id_is_sanitized_stem_and_eight_hex_digits_of_the_canonical_path() {
    let id = source_id_for(Some("my disk (1)"), "/abs/my disk (1).E01");
    assert!(id.starts_with("my_disk__1_-"), "{id}");
    let hex = &id["my_disk__1_-".len()..];
    assert_eq!(hex.len(), 8);
    assert!(hex.chars().all(|c| c.is_ascii_hexdigit() && !c.is_ascii_uppercase()));
    // SHA-256("") starts e3b0c442.
    assert_eq!(source_id_for(None, ""), "source-e3b0c442");
}

#[test]
fn container_extensions_are_case_insensitive() {
    assert!(is_container_ext("E01"));
    assert!(is_container_ext("vhdx"));
    assert!(is_container_ext("QCoW2"));
    assert!(!is_container_ext("txt"));
    assert!(!is_container_ext(""));
}
