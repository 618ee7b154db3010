//! Scenarios for the logon-session summary.

use issen::session::{
    logon_id_text, orphaned_count, session_summary_text, LateralMovement, LogonSession, SessionSummary,
};

fn session(id: u64, user: &str, logon_type: u8, orphaned: bool) -> LogonSession {
    LogonSession {
        logon_id: id,
        username: user.to_string(),
        domain: "CORP".to_string(),
        logon_type,
        src_ip: None,
        logon_time_ns: 0,
        logoff_time_ns: None,
        duration_secs: None,
        process_count: 0,
        is_orphaned: orphaned,
    }
}

#[test]
fn summary_lists_counts_orphans_and_findings() {
    let s = SessionSummary {
        session_count: 3,
        lateral_movement_count: 1,
        sessions: vec![
            session(0x3e7, "SYSTEM", 5, false),
            session(0x1a2b, "alice", 10, true),
            session(255, "bob", 3, true),
        ],
        lateral_movements: vec![LateralMovement {
            src_ip: "10.0.0.9".to_string(),
            sessions: vec![0x1a2b, 255],
            reason: "two sessions from 10.0.0.9".to_string(),
        }],
    };
    assert_eq!(
        session_summary_text(&s),
        "Sessions: 3\n\
         Lateral movement indicators: 1\n\
         \n\
         Orphaned sessions (2):\n  \
         0x1a2b  CORP/alice  type:10(RemoteInteractive)\n  \
         0xff  CORP/bob  type:3(Network)\n\
         \n\
         Lateral movement findings:\n  \
         two sessions from 10.0.0.9\n"
    );
}

#[test]
fn empty_summary_has_only_the_counts() {
    let s = SessionSummary {
        session_count: 0,
        lateral_movement_count: 0,
        sessions: vec![session(1, "x", 42, false)],
        lateral_movements: vec![],
    };
    assert_eq!(
        session_summary_text(&s),
        "Sessions: 0\nLateral movement indicators: 0\n"
    );
}

#[test]
fn unknown_logon_types_are_named_unknown() {
    let s = SessionSummary {
        session_count: 1,
        lateral_movement_count: 0,
        sessions: vec![session(0, "x", 6, true)],
        lateral_movements: vec![],
    };
    assert!(session_summary_text(&s).contains("0x0  CORP/x  type:6(Unknown)"));
}

#[test]
fn logon_ids_render_as_lowercase_hex_and_orphans_are_counted() {
    assert_eq!(logon_id_text(0x3e7), "0x3e7");
    assert_eq!(logon_id_text(0), "0x0");
    let s = SessionSummary {
        session_count: 3,
        lateral_movement_count: 0,
        sessions: vec![session(1, "a", 2, true), session(2, "b", 2, false), session(3, "c", 2, true)],
        lateral_movements: vec![],
    };
    assert_eq!(orphaned_count(&s), 2);
}
