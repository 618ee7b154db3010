//! Scenarios for progress presentation.

use std::time::Duration;

use issen::progress_view::{
    eta, events_per_sec, fmt_duration, humanize_bytes, humanize_count, percent, phase_label,
    status_line, Phase, ProgressSnapshot,
};

fn snap(phase: Phase, completed: u64, total: u64) -> ProgressSnapshot {
    ProgressSnapshot {
        phase,
        artifacts_total: total,
        artifacts_completed: completed,
        events_emitted: 0,
        bytes_processed: 0,
        errors_encountered: 0,
    }
}

#[test]
fn percent_is_completed_over_total_or_none_when_unknown() {
    assert_eq!(percent(&snap(Phase::Parsing, 100, 400)), Some(25));
    assert_eq!(percent(&snap(Phase::Parsing, 400, 400)), Some(100));
    assert_eq!(
        percent(&snap(Phase::Discovering, 0, 0)),
        None,
        "total unknown"
    );
}

#[test]
fn events_per_sec_rounds_and_guards_zero_elapsed() {
    assert_eq!(events_per_sec(1000, Duration::from_secs(2).as_nanos()), 500);
    assert_eq!(
        events_per_sec(100, Duration::ZERO.as_nanos()),
        0,
        "no divide-by-zero"
    );
}

#[test]
fn eta_extrapolates_rate_or_none_without_one() {
    assert_eq!(
        eta(100, 400, Duration::from_secs(10).as_nanos()),
        Some(Duration::from_secs(30).as_nanos()),
        "100 of 400 in 10s -> 300 left at 10/s -> 30s"
    );
    assert_eq!(eta(0, 400, Duration::from_secs(10).as_nanos()), None, "no rate yet");
    assert_eq!(
        eta(400, 400, Duration::from_secs(10).as_nanos()),
        Some(Duration::ZERO.as_nanos())
    );
    assert_eq!(eta(100, 0, Duration::from_secs(10).as_nanos()), None, "total unknown");
}

#[test]
fn humanize_count_compacts_thousands_and_millions() {
    assert_eq!(humanize_count(950), "950");
    assert_eq!(humanize_count(18_400), "18.4k");
    assert_eq!(humanize_count(2_500_000), "2.5M");
}

#[test]
fn humanize_bytes_scales_units() {
    assert_eq!(humanize_bytes(512), "512 B");
    assert_eq!(humanize_bytes(1536), "1.5 KB");
    assert_eq!(humanize_bytes(1_288_490_189), "1.2 GB");
}

#[test]
fn phase_label_is_human_readable() {
    assert_eq!(phase_label(Phase::Queued), "queued");
    assert_eq!(phase_label(Phase::Extracting), "extracting");
    assert_eq!(phase_label(Phase::Parsing), "parsing");
    assert_eq!(phase_label(Phase::Done), "done");
}

#[test]
fn status_line_carries_progress_events_and_errors() {
    let s = ProgressSnapshot {
        phase: Phase::Parsing,
        artifacts_total: 417,
        artifacts_completed: 312,
        events_emitted: 18_400,
        bytes_processed: 0,
        errors_encountered: 3,
    };
    let line = status_line(&s, Duration::from_secs(36).as_nanos());
    assert!(line.contains("312/417"), "got: {line}");
    assert!(line.contains("74%"), "got: {line}");
    assert!(line.contains("18.4k"), "got: {line}");
    assert!(line.contains("3 error"), "got: {line}");
}

#[test]
fn status_line_during_discovery_shows_no_bogus_percent() {
    let s = snap(Phase::Discovering, 0, 0);
    let line = status_line(&s, Duration::from_secs(2).as_nanos());
    assert!(line.contains("discovering"), "got: {line}");
    assert!(
        !line.contains('%'),
        "no percent before the total is known: {line}"
    );
}

#[test]
fn events_per_sec_rounds_half_up() {
    // 7 events in 2 s is 3.5/s, which rounds to 4.
    assert_eq!(events_per_sec(7, Duration::from_secs(2).as_nanos()), 4);
    // 5 events in 3 s is 1.67/s, which rounds to 2.
    assert_eq!(events_per_sec(5, Duration::from_secs(3).as_nanos()), 2);
}

#[test]
fn percent_caps_at_one_hundred() {
    assert_eq!(percent(&snap(Phase::Parsing, 500, 400)), Some(100));
    assert_eq!(percent(&snap(Phase::Parsing, 1, 3)), Some(33));
}

#[test]
fn humanize_edges() {
    assert_eq!(humanize_count(999), "999");
    assert_eq!(humanize_count(1_000), "1.0k");
    assert_eq!(humanize_bytes(1023), "1023 B");
    assert_eq!(humanize_bytes(1024), "1.0 KB");
    assert_eq!(humanize_bytes(1_048_576), "1.0 MB");
}

#[test]
fn durations_render_compactly() {
    assert_eq!(fmt_duration(Duration::from_secs(36).as_nanos()), "0:36");
    assert_eq!(fmt_duration(Duration::from_secs(125).as_nanos()), "2:05");
    assert_eq!(fmt_duration(Duration::from_secs(3725).as_nanos()), "1:02:05");
}

#[test]
fn one_decimal_follows_binary64_rounding() {
    // 18.45 and 1.15 are stored just below the tie, 1.05 just above it;
    // 1.25 (1280 / 1024) is an exact tie and goes to the even digit.
    assert_eq!(humanize_count(18_450), "18.4k");
    assert_eq!(humanize_count(1_150), "1.1k");
    assert_eq!(humanize_count(1_050), "1.1k");
    assert_eq!(humanize_bytes(1280), "1.2 KB");
    assert_eq!(humanize_bytes(1792), "1.8 KB");
    assert_eq!(humanize_count(u64::MAX), "18446744073709.6M");
    assert_eq!(humanize_bytes(u64::MAX), "17179869184.0 GB");
}
