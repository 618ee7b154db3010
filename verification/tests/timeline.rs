//! Scenarios for the timeline vocabulary.

use issen::temporal_rule::{default_direction, default_window, entity_key_of, entity_role_matches};
use issen::timeline::{ArtifactType, EntityRef, EventType, TimelineEvent};

#[test]
fn entity_keys_are_prefixed_by_kind() {
    assert_eq!(entity_key_of(&EntityRef::FilePath("/tmp/x".to_string())), "path:/tmp/x");
    assert_eq!(entity_key_of(&EntityRef::Process("a.exe".to_string())), "proc:a.exe");
    assert_eq!(entity_key_of(&EntityRef::User("bob".to_string())), "user:bob");
    assert_eq!(entity_key_of(&EntityRef::Ip("10.0.0.1".to_string())), "ip:10.0.0.1");
    assert_eq!(entity_key_of(&EntityRef::Session(255)), "session:0xff");
    assert_eq!(EntityRef::Session(0).key(), "session:0x0");
}

#[test]
fn entity_roles() {
    assert!(entity_role_matches(&EntityRef::FilePath("p".to_string()), "path"));
    assert!(entity_role_matches(&EntityRef::Process("p".to_string()), "process"));
    assert!(!entity_role_matches(&EntityRef::Process("p".to_string()), "path"));
    assert!(entity_role_matches(&EntityRef::Session(1), "session"));
}

#[test]
fn defaults() {
    assert_eq!(default_direction(), "before");
    assert_eq!(default_window(), 300);
}

#[test]
fn event_type_names_follow_debug() {
    assert_eq!(EventType::ProcessExec.name(), "ProcessExec");
    assert_eq!(EventType::Other("x\"y".to_string()).name(), "Other(\"x\\\"y\")");
    assert_eq!(ArtifactType::SqliteCarved.display_name(), "SQLite (carved)");
    assert_eq!(ArtifactType::SqliteCarved.debug_name(), "SqliteCarved");
}

#[test]
fn record_hash_is_the_sha256_of_the_preimage() {
    let e = TimelineEvent::new(
        1,
        "t".to_string(),
        EventType::FileCreate,
        ArtifactType::Mft,
        "/a".to_string(),
        "d".to_string(),
        "ev".to_string(),
    );
    assert_eq!(e.record_hash.len(), 64);
    assert!(e.record_hash.chars().all(|c| c.is_ascii_hexdigit() && !c.is_ascii_uppercase()));
    let same = TimelineEvent::new(
        1,
        "other text".to_string(),
        EventType::FileCreate,
        ArtifactType::Mft,
        "/a".to_string(),
        "d".to_string(),
        "ev".to_string(),
    );
    assert_eq!(e.record_hash, same.record_hash, "the display time is not hashed");
    let other = TimelineEvent::new(
        2,
        "t".to_string(),
        EventType::FileCreate,
        ArtifactType::Mft,
        "/a".to_string(),
        "d".to_string(),
        "ev".to_string(),
    );
    assert_ne!(e.record_hash, other.record_hash);
}

#[test]
fn builders_append_in_order() {
    let e = TimelineEvent::new(
        0,
        String::new(),
        EventType::SystemBoot,
        ArtifactType::EventLog,
        String::new(),
        String::new(),
        String::new(),
    )
    .with_tag("a".to_string())
    .with_tag("b".to_string())
    .with_hostname("h".to_string())
    .with_entity_ref(EntityRef::User("u".to_string()));
    assert_eq!(e.tags, vec!["a".to_string(), "b".to_string()]);
    assert_eq!(e.hostname.as_deref(), Some("h"));
    assert_eq!(e.entity_refs, vec![EntityRef::User("u".to_string())]);
}
