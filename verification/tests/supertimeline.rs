//! Scenarios for the supertimeline: rule application and CSV rendering.

use issen::supertimeline::{csv_row, supertimeline_narrative, temporal_findings, CSV_HEADER};
use issen::temporal_rule::{bundled_temporal_rules, evaluate_temporal, DiscrepancyDetail, TemporalFinding};
use issen::timeline::{ArtifactType, EventType, TimelineEvent};

fn csv_event(desc: &str, tags: &[&str]) -> TimelineEvent {
    let mut ev = TimelineEvent::new(
        1_700_000_000_000_000_000,
        "2023-11-14T22:13:20Z".to_string(),
        EventType::FileCreate,
        ArtifactType::UsnJournal,
        "/$Extend/$UsnJrnl:$J".to_string(),
        desc.to_string(),
        "evidence-001".to_string(),
    );
    ev.tags = tags.iter().map(|t| (*t).to_string()).collect();
    ev
}

/// Split an emitted row with an independent RFC 4180 reader.
fn parse_row(row: &str) -> Vec<String> {
    let mut rdr = csv::ReaderBuilder::new()
        .has_headers(false)
        .flexible(true)
        .from_reader(row.as_bytes());
    let record = rdr
        .records()
        .next()
        .expect("one record")
        .expect("record parses as RFC 4180");
    record.iter().map(ToString::to_string).collect()
}

#[test]
fn csv_formula_prefixed_description_is_guarded() {
    for payload in [
        "=cmd|'/C calc'!A0",
        "+1+1",
        "-2+3",
        "@SUM(1+1)*cmd|'/C calc'!A0",
    ] {
        let row = csv_row(&csv_event(payload, &[]));
        let fields = parse_row(&row);
        assert_eq!(fields.len(), 5, "row must have 5 columns: {row}");
        assert!(
            fields[3].starts_with('\''),
            "description beginning with a formula character must be guarded \
             with a leading apostrophe; got {:?} from row {row}",
            fields[3]
        );
    }
}

#[test]
fn csv_comma_in_tag_does_not_break_columns() {
    let row = csv_row(&csv_event("ran calc.exe", &["persistence", "T1547,evasion"]));
    let fields = parse_row(&row);
    assert_eq!(
        fields.len(),
        5,
        "a comma inside a tag must stay inside the tags column, not split it: {row}"
    );
    assert_eq!(fields[4], "persistence|T1547,evasion");
}

#[test]
fn csv_quote_in_tag_is_escaped() {
    let row = csv_row(&csv_event("ran calc.exe", &["said \"hi\", then left"]));
    let fields = parse_row(&row);
    assert_eq!(fields.len(), 5, "row must have 5 columns: {row}");
    assert_eq!(fields[4], "said \"hi\", then left");
}

#[test]
fn csv_comma_in_event_type_does_not_break_columns() {
    let mut ev = csv_event("ran calc.exe", &[]);
    ev.event_type = EventType::Other("Carved:sqlite,wal".to_string());
    let fields = parse_row(&csv_row(&ev));
    assert_eq!(fields.len(), 5, "a comma in the event type must not add a column");
}

#[test]
fn csv_header_column_count_matches_rows() {
    let header = parse_row(CSV_HEADER);
    let row = parse_row(&csv_row(&csv_event("ran calc.exe", &["exec"])));
    assert_eq!(header.len(), row.len(), "header/row column count must agree");
}

#[test]
fn csv_row_exact_rendering() {
    assert_eq!(
        csv_row(&csv_event("ran \"calc\".exe", &["exec", "t1"])),
        "1700000000000000000,FileCreate,USN Journal,\"ran \"\"calc\"\".exe\",exec|t1"
    );
    let fields = parse_row(&csv_row(&csv_event("ran \"calc\".exe", &[])));
    assert_eq!(fields[3], "ran \"calc\".exe");
    assert_eq!(fields[4], "");
}

#[test]
fn findings_of_all_rules_are_concatenated_in_rule_order() {
    let rules = bundled_temporal_rules();
    let events = vec![csv_event("x", &[])];
    let all = temporal_findings(&rules, &events);
    let mut expected = Vec::new();
    for r in &rules {
        expected.extend(evaluate_temporal(r, &events));
    }
    assert_eq!(all, expected);
    assert!(temporal_findings(&rules, &[]).is_empty());
}

const BANNER: &str = "╔══════════════════════════════════════════════════════════╗\n\
║  Issen — Supertimeline                              ║\n\
╚══════════════════════════════════════════════════════════╝\n\n";

#[test]
fn narrative_of_an_empty_collection() {
    let text = supertimeline_narrative(&[], &[], "/evidence/case1", &[]);
    assert_eq!(
        text,
        format!(
            "{BANNER}  Collection : /evidence/case1\n  Events     : 0\n\n\
┌─ TIMELINE EVENTS ──────────────────────────────────────\n\
│  No events parsed from collection.\n\n\
┌─ TEMPORAL FINDINGS ────────────────────────────────────\n\
│  No temporal anomalies detected.\n\n  supertimeline complete.\n"
        )
    );
}

#[test]
fn narrative_lists_events_and_findings() {
    let mut unknown = csv_event("boot", &[]);
    unknown.timestamp_ns = 0;
    let events = vec![csv_event("ran calc.exe", &[]), unknown];
    let findings = vec![
        TemporalFinding {
            rule_id: "temporal.boot-log-predates-mft".to_string(),
            title: "Boot log references file before MFT creation timestamp".to_string(),
            severity: "critical".to_string(),
            anchor_record_hash: "a".to_string(),
            matched_record_hashes: vec![],
            discrepancy: Some(DiscrepancyDetail {
                entity_key: "path:/lib/x.so".to_string(),
                anchor_source: "EventLog".to_string(),
                anchor_timestamp_ns: 100,
                compare_source: "Mft".to_string(),
                compare_timestamp_ns: 1_500_000_100,
                delta_ns: 1_500_000_000,
            }),
        },
        TemporalFinding {
            rule_id: "temporal.hollow-process".to_string(),
            title: "t".to_string(),
            severity: "high".to_string(),
            anchor_record_hash: "b".to_string(),
            matched_record_hashes: vec![],
            discrepancy: None,
        },
    ];
    let text = supertimeline_narrative(&events, &findings, "c", &["1.5".to_string(), String::new()]);
    assert!(text.contains("  Events     : 2\n"));
    assert!(text.contains("│  [1700000000000000000] FileCreate — ran calc.exe\n"));
    assert!(text.contains("│  [unknown] FileCreate — boot\n"));
    assert!(text.contains(
        "│  [CRITICAL] temporal.boot-log-predates-mft — Boot log references file before MFT creation timestamp\n\
│    Discrepancy: EventLog @ 100 vs Mft @ 1500000100 (Δ 1.5s)\n\
│  [HIGH] temporal.hollow-process — t\n\n  supertimeline complete.\n"
    ));
    assert!(!text.contains("No temporal anomalies"));
}

#[test]
fn bundled_rules_anchor_where_their_tests_expect() {
    let rules = bundled_temporal_rules();
    assert_eq!(rules.len(), 22);
    let sam = rules.iter().find(|r| r.id == "temporal.sam-security-hive-copy").expect("rule");
    assert_eq!(sam.anchor.event_type, "FileAccess");
    assert_eq!(sam.anchor.description_contains.as_deref(), Some("\\config\\SAM"));
    assert_eq!(sam.sequence[0].event_type, "FileCreate");
    let boot = rules.iter().find(|r| r.id == "temporal.boot-log-predates-mft").expect("rule");
    assert_eq!(boot.discrepancy[0].direction, "before");
    assert_eq!(boot.discrepancy[0].entity_role, "path");
}
