//! Scenarios for WSL session detection.

use issen::wsl::{build_sessions, SessionEvent, SessionEventKind, WslSession};

fn ev(kind: SessionEventKind, ts: i64, pid: u32) -> SessionEvent {
    SessionEvent {
        kind,
        timestamp_ns: ts,
        windows_pid: pid,
        distro: Some("Ubuntu".to_string()),
        user: Some("alice".to_string()),
    }
}

#[test]
fn start_then_stop_makes_one_closed_session() {
    let s = build_sessions(&[
        ev(SessionEventKind::Start, 100, 7),
        ev(SessionEventKind::Stop, 250, 7),
    ]);
    assert_eq!(s.len(), 1);
    assert_eq!(s[0].distro, "Ubuntu");
    assert_eq!(s[0].windows_pid, 7);
    assert_eq!(s[0].start_ns, 100);
    assert_eq!(s[0].end_ns, Some(250));
    assert_eq!(s[0].user.as_deref(), Some("alice"));
    assert_eq!(s[0].duration_ns(), Some(150));
}

#[test]
fn stop_closes_only_its_own_process() {
    let s = build_sessions(&[
        ev(SessionEventKind::Start, 100, 7),
        ev(SessionEventKind::Start, 110, 8),
        ev(SessionEventKind::Stop, 300, 8),
    ]);
    assert_eq!(s.len(), 2);
    assert_eq!(s[0].end_ns, None);
    assert_eq!(s[0].duration_ns(), None);
    assert_eq!(s[1].end_ns, Some(300));
}

#[test]
fn stop_without_start_is_ignored() {
    let s = build_sessions(&[ev(SessionEventKind::Stop, 5, 1)]);
    assert!(s.is_empty());
}

#[test]
fn stop_closes_the_latest_open_session_of_the_process() {
    let s = build_sessions(&[
        ev(SessionEventKind::Start, 10, 4),
        ev(SessionEventKind::Start, 20, 4),
        ev(SessionEventKind::Stop, 30, 4),
        ev(SessionEventKind::Stop, 40, 4),
        ev(SessionEventKind::Stop, 50, 4),
    ]);
    assert_eq!(s.len(), 2);
    assert_eq!(s[1].end_ns, Some(30));
    assert_eq!(s[0].end_ns, Some(40));
}

#[test]
fn missing_distro_is_empty() {
    let mut e = ev(SessionEventKind::Start, 1, 2);
    e.distro = None;
    e.user = None;
    let s = build_sessions(&[e]);
    assert_eq!(s[0].distro, "");
    assert!(s[0].user.is_none());
}

#[test]
fn duration_of_a_handmade_session() {
    let s = WslSession {
        distro: "Debian".to_string(),
        windows_pid: 1,
        start_ns: -5,
        end_ns: Some(5),
        user: None,
    };
    assert_eq!(s.duration_ns(), Some(10));
}

#[test]
fn a_stop_stamped_before_the_start_does_not_close_it() {
    let s = build_sessions(&[
        ev(SessionEventKind::Start, 100, 7),
        ev(SessionEventKind::Stop, 50, 7),
    ]);
    assert_eq!(s.len(), 1);
    assert_eq!(s[0].end_ns, None);
    // The earlier session of the process is closed instead, when there is one.
    let s = build_sessions(&[
        ev(SessionEventKind::Start, 10, 7),
        ev(SessionEventKind::Start, 100, 7),
        ev(SessionEventKind::Stop, 50, 7),
    ]);
    assert_eq!(s[0].end_ns, Some(50));
    assert_eq!(s[1].end_ns, None);
}
