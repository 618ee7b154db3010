//! Scenarios for the memory leg of the timeline.

use issen::memory::{fmt_ns, memory_events, process_subject, MemMalfindRow, MemProcessRow, MemTcpRow};
use issen::timeline::{ArtifactType, EntityRef, EventType, MetaValue, TimelineEvent};

const ACQ_NS: i64 = 1_700_000_000_000_000_000; // 2023-11-14T22:13:20Z
const STEM: &str = "WIN-CASE001";

fn meta<'a>(e: &'a TimelineEvent, key: &str) -> Option<&'a MetaValue> {
    e.metadata.iter().find(|(k, _)| k == key).map(|(_, v)| v)
}

fn proc_row() -> MemProcessRow {
    MemProcessRow {
        pid: 3644,
        ppid: 4,
        image_name: "coreupdater.exe".to_string(),
        thread_count: 0,
    }
}

fn tcp_row() -> MemTcpRow {
    MemTcpRow {
        pid: 3644,
        process_name: "coreupdater.exe".to_string(),
        local_addr: "10.0.0.5".to_string(),
        local_port: 49001,
        remote_addr: "203.78.103.109".to_string(),
        remote_port: 443,
        state: "ESTABLISHED".to_string(),
    }
}

fn malfind_row() -> MemMalfindRow {
    MemMalfindRow {
        pid: 3724,
        image_name: "spoolsv.exe".to_string(),
        injection_class: "injected-PE".to_string(),
    }
}

#[test]
fn process_row_maps_to_process_exec_with_pid_ppid_threads() {
    let events = memory_events(STEM, ACQ_NS, &[proc_row()], &[], &[]);
    assert_eq!(events.len(), 1);
    let e = &events[0];
    assert_eq!(e.event_type, EventType::ProcessExec);
    assert_eq!(e.source, ArtifactType::ProcessList);
    assert_eq!(e.timestamp_ns, ACQ_NS);
    assert_eq!(e.hostname.as_deref(), Some(STEM));
    assert!(e
        .entity_refs
        .contains(&EntityRef::Process("coreupdater.exe".to_string())));
    assert_eq!(meta(e, "pid"), Some(&MetaValue::UInt(3644)));
    assert_eq!(meta(e, "ppid"), Some(&MetaValue::UInt(4)));
    assert_eq!(meta(e, "thread_count"), Some(&MetaValue::UInt(0)));
    assert!(e.tags.contains(&"memory-acquired".to_string()));
    assert!(e.tags.contains(&"point-in-time".to_string()));
}

#[test]
fn tcp_row_maps_to_network_connect_with_process_and_ip_refs() {
    let events = memory_events(STEM, ACQ_NS, &[], &[tcp_row()], &[]);
    assert_eq!(events.len(), 1);
    let e = &events[0];
    assert_eq!(e.event_type, EventType::NetworkConnect);
    assert_eq!(e.source, ArtifactType::NetworkState);
    assert!(e
        .entity_refs
        .contains(&EntityRef::Process("coreupdater.exe".to_string())));
    assert!(e
        .entity_refs
        .contains(&EntityRef::Ip("203.78.103.109".to_string())));
    assert_eq!(meta(e, "remote_port"), Some(&MetaValue::UInt(443)));
    assert_eq!(meta(e, "local_port"), Some(&MetaValue::UInt(49001)));
    assert_eq!(
        meta(e, "state"),
        Some(&MetaValue::Text("ESTABLISHED".to_string()))
    );
}

#[test]
fn malfind_row_maps_to_memory_injection_event() {
    let events = memory_events(STEM, ACQ_NS, &[], &[], &[malfind_row()]);
    assert_eq!(events.len(), 1);
    let e = &events[0];
    assert_eq!(e.event_type, EventType::Other("MemoryInjection".to_string()));
    assert_eq!(e.source, ArtifactType::RootkitScan);
    assert!(e
        .entity_refs
        .contains(&EntityRef::Process("spoolsv.exe".to_string())));
    assert_eq!(
        meta(e, "injection"),
        Some(&MetaValue::Text("injected-PE".to_string()))
    );
}

#[test]
fn process_subject_falls_back_to_pid_when_image_empty() {
    let row = MemProcessRow {
        pid: 99,
        ppid: 1,
        image_name: String::new(),
        thread_count: 1,
    };
    let events = memory_events(STEM, ACQ_NS, &[row], &[], &[]);
    assert!(events[0]
        .entity_refs
        .contains(&EntityRef::Process("pid:99".to_string())));
}

#[test]
fn events_come_in_row_order_and_carry_the_acquisition_time() {
    let events = memory_events(STEM, ACQ_NS, &[proc_row()], &[tcp_row()], &[malfind_row()]);
    assert_eq!(events.len(), 3);
    assert_eq!(events[0].event_type, EventType::ProcessExec);
    assert_eq!(events[1].event_type, EventType::NetworkConnect);
    assert_eq!(events[2].source, ArtifactType::RootkitScan);
    for e in &events {
        assert_eq!(e.timestamp_ns, ACQ_NS);
        assert_eq!(e.evidence_source_id, STEM);
        assert!(e.timestamp.starts_with("2023-11-14T22:13:20"), "{}", e.timestamp);
        assert_eq!(e.record_hash.len(), 64);
    }
    assert_eq!(
        events[1].description,
        "TCP 10.0.0.5:49001 -> 203.78.103.109:443 (ESTABLISHED) owned by coreupdater.exe"
    );
    assert_eq!(events[2].artifact_path, "WIN-CASE001:malfind");
}

#[test]
fn process_subject_prefers_the_image() {
    assert_eq!(process_subject("lsass.exe", 600), "lsass.exe");
    assert_eq!(process_subject("", 600), "pid:600");
}

#[test]
fn fmt_ns_renders_rfc3339() {
    assert!(fmt_ns(ACQ_NS).starts_with("2023-11-14T22:13:20"));
    assert_eq!(fmt_ns(0), "1970-01-01T00:00:00.000000000Z");
    assert_eq!(fmt_ns(-1), "1969-12-31T23:59:59.999999999Z");
}
