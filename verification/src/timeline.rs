//! The timeline vocabulary: what happened (`EventType`), which artifact said
//! so (`ArtifactType`), the entities an event names (`EntityRef`), and the
//! event record itself (`TimelineEvent`).

use vstd::prelude::*;
use crate::digest::{hex_encode, hex_lower, sha256, sha256_digest};
use crate::text::{debug_escaped, debug_str, decimal, owned, push_i64, push_str, push_u64, digits};

verus! {

/// What an event records.
#[derive(Debug, Clone, PartialEq, Eq, Hash)]
pub enum EventType {
    ProcessExec,
    FileCreate,
    FileModify,
    FileDelete,
    FileAccess,
    SystemBoot,
    LogonSuccess,
    LogonFailure,
    ServiceInstall,
    ServiceStart,
    ScheduledTaskCreate,
    ScheduledTaskRun,
    UserAccountChange,
    PolicyChange,
    NetworkConnect,
    /// Any other kind, named by the producer.
    Other(String),
}

/// The `{:?}` name of an event type, e.g. `ProcessExec` or `Other("x")`.
pub open spec fn event_type_name(t: EventType) -> Seq<char> {
    match t {
        EventType::ProcessExec => "ProcessExec"@,
        EventType::FileCreate => "FileCreate"@,
        EventType::FileModify => "FileModify"@,
        EventType::FileDelete => "FileDelete"@,
        EventType::FileAccess => "FileAccess"@,
        EventType::SystemBoot => "SystemBoot"@,
        EventType::LogonSuccess => "LogonSuccess"@,
        EventType::LogonFailure => "LogonFailure"@,
        EventType::ServiceInstall => "ServiceInstall"@,
        EventType::ServiceStart => "ServiceStart"@,
        EventType::ScheduledTaskCreate => "ScheduledTaskCreate"@,
        EventType::ScheduledTaskRun => "ScheduledTaskRun"@,
        EventType::UserAccountChange => "UserAccountChange"@,
        EventType::PolicyChange => "PolicyChange"@,
        EventType::NetworkConnect => "NetworkConnect"@,
        EventType::Other(s) => "Other("@ + debug_escaped(s@) + ")"@,
    }
}

impl EventType {
    /// The `{:?}` name of this event type.
    pub fn name(&self) -> (r: String)
        ensures
            r@ == event_type_name(*self),
    {
        match self {
            EventType::ProcessExec => owned("ProcessExec"),
            EventType::FileCreate => owned("FileCreate"),
            EventType::FileModify => owned("FileModify"),
            EventType::FileDelete => owned("FileDelete"),
            EventType::FileAccess => owned("FileAccess"),
            EventType::SystemBoot => owned("SystemBoot"),
            EventType::LogonSuccess => owned("LogonSuccess"),
            EventType::LogonFailure => owned("LogonFailure"),
            EventType::ServiceInstall => owned("ServiceInstall"),
            EventType::ServiceStart => owned("ServiceStart"),
            EventType::ScheduledTaskCreate => owned("ScheduledTaskCreate"),
            EventType::ScheduledTaskRun => owned("ScheduledTaskRun"),
            EventType::UserAccountChange => owned("UserAccountChange"),
            EventType::PolicyChange => owned("PolicyChange"),
            EventType::NetworkConnect => owned("NetworkConnect"),
            EventType::Other(s) => {
                let mut r = owned("Other(");
                let d = debug_str(s.as_str());
                push_str(&mut r, d.as_str());
                push_str(&mut r, ")");
                r
            },
        }
    }
}

/// The artifact source an event was read from.
#[derive(Debug, Clone, Copy, PartialEq, Eq, Structural, Hash)]
pub enum ArtifactType {
    EventLog,
    Mft,
    Prefetch,
    UsnJournal,
    Amcache,
    Registry,
    CrontabConfig,
    Bodyfile,
    SqliteCarved,
    Assessment,
    ProcessList,
    NetworkState,
    RootkitScan,
    DeviceInstall,
}

/// The display name of an artifact source, e.g. `Event Log` or `MFT`.
pub open spec fn artifact_display(a: ArtifactType) -> Seq<char> {
    match a {
        ArtifactType::EventLog => "Event Log"@,
        ArtifactType::Mft => "MFT"@,
        ArtifactType::Prefetch => "Prefetch"@,
        ArtifactType::UsnJournal => "USN Journal"@,
        ArtifactType::Amcache => "Amcache"@,
        ArtifactType::Registry => "Registry"@,
        ArtifactType::CrontabConfig => "Crontab"@,
        ArtifactType::Bodyfile => "Bodyfile"@,
        ArtifactType::SqliteCarved => "SQLite (carved)"@,
        ArtifactType::Assessment => "Assessment"@,
        ArtifactType::ProcessList => "Process List"@,
        ArtifactType::NetworkState => "Network State"@,
        ArtifactType::RootkitScan => "Rootkit Scan"@,
        ArtifactType::DeviceInstall => "Device Install"@,
    }
}

/// The `{:?}` name of an artifact source, e.g. `EventLog`.
pub open spec fn artifact_debug(a: ArtifactType) -> Seq<char> {
    match a {
        ArtifactType::EventLog => "EventLog"@,
        ArtifactType::Mft => "Mft"@,
        ArtifactType::Prefetch => "Prefetch"@,
        ArtifactType::UsnJournal => "UsnJournal"@,
        ArtifactType::Amcache => "Amcache"@,
        ArtifactType::Registry => "Registry"@,
        ArtifactType::CrontabConfig => "CrontabConfig"@,
        ArtifactType::Bodyfile => "Bodyfile"@,
        ArtifactType::SqliteCarved => "SqliteCarved"@,
        ArtifactType::Assessment => "Assessment"@,
        ArtifactType::ProcessList => "ProcessList"@,
        ArtifactType::NetworkState => "NetworkState"@,
        ArtifactType::RootkitScan => "RootkitScan"@,
        ArtifactType::DeviceInstall => "DeviceInstall"@,
    }
}

impl ArtifactType {
    /// The display name of this source.
    pub fn display_name(self) -> (r: &'static str)
        ensures
            r@ == artifact_display(self),
    {
        match self {
            ArtifactType::EventLog => "Event Log",
            ArtifactType::Mft => "MFT",
            ArtifactType::Prefetch => "Prefetch",
            ArtifactType::UsnJournal => "USN Journal",
            ArtifactType::Amcache => "Amcache",
            ArtifactType::Registry => "Registry",
            ArtifactType::CrontabConfig => "Crontab",
            ArtifactType::Bodyfile => "Bodyfile",
            ArtifactType::SqliteCarved => "SQLite (carved)",
            ArtifactType::Assessment => "Assessment",
            ArtifactType::ProcessList => "Process List",
            ArtifactType::NetworkState => "Network State",
            ArtifactType::RootkitScan => "Rootkit Scan",
            ArtifactType::DeviceInstall => "Device Install",
        }
    }

    /// The `{:?}` name of this source.
    pub fn debug_name(self) -> (r: &'static str)
        ensures
            r@ == artifact_debug(self),
    {
        match self {
            ArtifactType::EventLog => "EventLog",
            ArtifactType::Mft => "Mft",
            ArtifactType::Prefetch => "Prefetch",
            ArtifactType::UsnJournal => "UsnJournal",
            ArtifactType::Amcache => "Amcache",
            ArtifactType::Registry => "Registry",
            ArtifactType::CrontabConfig => "CrontabConfig",
            ArtifactType::Bodyfile => "Bodyfile",
            ArtifactType::SqliteCarved => "SqliteCarved",
            ArtifactType::Assessment => "Assessment",
            ArtifactType::ProcessList => "ProcessList",
            ArtifactType::NetworkState => "NetworkState",
            ArtifactType::RootkitScan => "RootkitScan",
            ArtifactType::DeviceInstall => "DeviceInstall",
        }
    }
}

/// An entity an event names, used to join events across artifact sources.
#[derive(Debug, Clone, PartialEq, Eq, Hash)]
pub enum EntityRef {
    FilePath(String),
    Process(String),
    User(String),
    Ip(String),
    Session(u64),
}

/// The canonical key of an entity: `path:`, `proc:`, `user:`, `ip:` followed
/// by the name, or `session:0x` followed by the id in lowercase hex.
pub open spec fn entity_key(r: EntityRef) -> Seq<char> {
    match r {
        EntityRef::FilePath(p) => "path:"@ + p@,
        EntityRef::Process(n) => "proc:"@ + n@,
        EntityRef::User(u) => "user:"@ + u@,
        EntityRef::Ip(a) => "ip:"@ + a@,
        EntityRef::Session(id) => "session:0x"@ + digits(id as nat, 16),
    }
}

/// Whether an entity plays `role`: `path`, `process`, `user`, `ip` or `session`.
pub open spec fn role_matches(r: EntityRef, role: Seq<char>) -> bool {
    match r {
        EntityRef::FilePath(_) => role == "path"@,
        EntityRef::Process(_) => role == "process"@,
        EntityRef::User(_) => role == "user"@,
        EntityRef::Ip(_) => role == "ip"@,
        EntityRef::Session(_) => role == "session"@,
    }
}

impl EntityRef {
    /// The canonical key of this entity.
    pub fn key(&self) -> (k: String)
        ensures
            k@ == entity_key(*self),
    {
        match self {
            EntityRef::FilePath(p) => {
                let mut k = owned("path:");
                push_str(&mut k, p.as_str());
                k
            },
            EntityRef::Process(n) => {
                let mut k = owned("proc:");
                push_str(&mut k, n.as_str());
                k
            },
            EntityRef::User(u) => {
                let mut k = owned("user:");
                push_str(&mut k, u.as_str());
                k
            },
            EntityRef::Ip(a) => {
                let mut k = owned("ip:");
                push_str(&mut k, a.as_str());
                k
            },
            EntityRef::Session(id) => {
                let mut k = owned("session:0x");
                crate::text::push_digits(&mut k, *id, 16);
                k
            },
        }
    }

    /// Whether this entity plays `role`.
    pub fn plays_role(&self, role: &str) -> (b: bool)
        ensures
            b == role_matches(*self, role@),
    {
        match self {
            EntityRef::FilePath(_) => crate::text::str_equals(role, "path"),
            EntityRef::Process(_) => crate::text::str_equals(role, "process"),
            EntityRef::User(_) => crate::text::str_equals(role, "user"),
            EntityRef::Ip(_) => crate::text::str_equals(role, "ip"),
            EntityRef::Session(_) => crate::text::str_equals(role, "session"),
        }
    }
}

/// A metadata value attached to an event.
#[derive(Debug, Clone, PartialEq, Eq)]
pub enum MetaValue {
    UInt(u64),
    Text(String),
    /// A fractional number, kept as the decimal text of its value (it is
    /// written out as a JSON number).
    Number(String),
}

/// A metadata value as a plain value.
pub enum MetaView {
    UInt(u64),
    Text(Seq<char>),
    Number(Seq<char>),
}

/// The plain value of a metadata value.
pub open spec fn meta_view(v: MetaValue) -> MetaView {
    match v {
        MetaValue::UInt(n) => MetaView::UInt(n),
        MetaValue::Text(t) => MetaView::Text(t@),
        MetaValue::Number(t) => MetaView::Number(t@),
    }
}

/// An event's metadata as plain key/value pairs, in insertion order.
pub open spec fn metadata_view(e: TimelineEvent) -> Seq<(Seq<char>, MetaView)> {
    e.metadata@.map_values(|kv: (String, MetaValue)| (kv.0@, meta_view(kv.1)))
}

/// An event's tags as plain text, in order.
pub open spec fn tags_view(e: TimelineEvent) -> Seq<Seq<char>> {
    e.tags@.map_values(|t: String| t@)
}

/// An event's entities by their canonical keys (which tell the kinds apart).
pub open spec fn entity_keys(e: TimelineEvent) -> Seq<Seq<char>> {
    e.entity_refs@.map_values(|r: EntityRef| entity_key(r))
}

/// An event's host as plain text.
pub open spec fn hostname_view(e: TimelineEvent) -> Option<Seq<char>> {
    match e.hostname {
        Some(h) => Some(h@),
        None => None,
    }
}

/// The fields `TimelineEvent::new` sets: time, its text, source, artifact
/// path, description, evidence source, and the record hash over them and the
/// event's own type.
pub open spec fn event_core(
    e: TimelineEvent,
    ts: i64,
    ts_text: Seq<char>,
    source: ArtifactType,
    artifact_path: Seq<char>,
    description: Seq<char>,
    evidence_source_id: Seq<char>,
) -> bool {
    &&& e.timestamp_ns == ts
    &&& e.timestamp@ == ts_text
    &&& e.source == source
    &&& e.artifact_path@ == artifact_path
    &&& e.description@ == description
    &&& e.evidence_source_id@ == evidence_source_id
    &&& e.record_hash@ == record_hash_of(
        record_preimage(ts, e.event_type, source, artifact_path, description, evidence_source_id),
    )
}

/// The text an event's record hash is computed over: the timestamp, type,
/// source, artifact path, description and evidence-source id, joined by `|`.
pub open spec fn record_preimage(
    ts: i64,
    event_type: EventType,
    source: ArtifactType,
    artifact_path: Seq<char>,
    description: Seq<char>,
    evidence_source_id: Seq<char>,
) -> Seq<char> {
    decimal(ts as int) + "|"@ + event_type_name(event_type) + "|"@ + artifact_display(source) + "|"@
        + artifact_path + "|"@ + description + "|"@ + evidence_source_id
}

/// The record hash: lowercase hex of the SHA-256 of the UTF-8 preimage.
pub open spec fn record_hash_of(preimage: Seq<char>) -> Seq<char> {
    hex_lower(sha256_digest(vstd::utf8::encode_utf8(preimage)))
}

/// One timeline event.
#[derive(Debug, Clone, PartialEq, Eq)]
pub struct TimelineEvent {
    /// Event time, nanoseconds since the Unix epoch.
    pub timestamp_ns: i64,
    /// Human-readable rendering of the event time.
    pub timestamp: String,
    pub event_type: EventType,
    pub source: ArtifactType,
    /// Where in the evidence the event was read.
    pub artifact_path: String,
    pub description: String,
    /// The evidence source the event belongs to.
    pub evidence_source_id: String,
    /// Content hash identifying the record.
    pub record_hash: String,
    /// Host the event is attributed to, when known.
    pub hostname: Option<String>,
    pub tags: Vec<String>,
    pub entity_refs: Vec<EntityRef>,
    /// Key/value metadata, in insertion order.
    pub metadata: Vec<(String, MetaValue)>,
}

impl TimelineEvent {
    /// A new event with no host, tags, entities or metadata. Its record hash is
    /// the SHA-256 (hex) of `record_preimage` over the given fields.
    pub fn new(
        timestamp_ns: i64,
        timestamp: String,
        event_type: EventType,
        source: ArtifactType,
        artifact_path: String,
        description: String,
        evidence_source_id: String,
    ) -> (e: Self)
        ensures
            e.timestamp_ns == timestamp_ns,
            e.timestamp@ == timestamp@,
            e.event_type == event_type,
            e.source == source,
            e.artifact_path@ == artifact_path@,
            e.description@ == description@,
            e.evidence_source_id@ == evidence_source_id@,
            e.record_hash@ == record_hash_of(
                record_preimage(
                    timestamp_ns,
                    event_type,
                    source,
                    artifact_path@,
                    description@,
                    evidence_source_id@,
                ),
            ),
            e.hostname is None,
            e.tags@.len() == 0,
            e.entity_refs@.len() == 0,
            e.metadata@.len() == 0,
    {
        let mut pre = String::new();
        push_i64(&mut pre, timestamp_ns);
        push_str(&mut pre, "|");
        let name = event_type.name();
        push_str(&mut pre, name.as_str());
        push_str(&mut pre, "|");
        push_str(&mut pre, source.display_name());
        push_str(&mut pre, "|");
        push_str(&mut pre, artifact_path.as_str());
        push_str(&mut pre, "|");
        push_str(&mut pre, description.as_str());
        push_str(&mut pre, "|");
        push_str(&mut pre, evidence_source_id.as_str());
        assert(pre@ =~= record_preimage(
            timestamp_ns,
            event_type,
            source,
            artifact_path@,
            description@,
            evidence_source_id@,
        ));
        let digest = sha256(pre.as_str().as_bytes());
        let record_hash = hex_encode(digest.as_slice());
        TimelineEvent {
            timestamp_ns,
            timestamp,
            event_type,
            source,
            artifact_path,
            description,
            evidence_source_id,
            record_hash,
            hostname: None,
            tags: Vec::new(),
            entity_refs: Vec::new(),
            metadata: Vec::new(),
        }
    }

    /// Builder: add an entity reference.
    pub fn with_entity_ref(self, entity: EntityRef) -> (e: Self)
        ensures
            e.entity_refs@ == self.entity_refs@.push(entity),
            e == (TimelineEvent { entity_refs: e.entity_refs, ..self }),
    {
        let mut e = self;
        e.entity_refs.push(entity);
        e
    }

    /// Builder: add a tag.
    pub fn with_tag(self, tag: String) -> (e: Self)
        ensures
            e.tags@ == self.tags@.push(tag),
            e == (TimelineEvent { tags: e.tags, ..self }),
    {
        let mut e = self;
        e.tags.push(tag);
        e
    }

    /// Builder: attribute the event to a host.
    pub fn with_hostname(self, hostname: String) -> (e: Self)
        ensures
            e == (TimelineEvent { hostname: Some(hostname), ..self }),
    {
        let mut e = self;
        e.hostname = Some(hostname);
        e
    }

    /// Builder: add a metadata entry.
    pub fn with_metadata(self, key: String, value: MetaValue) -> (e: Self)
        ensures
            e.metadata@ == self.metadata@.push((key, value)),
            e == (TimelineEvent { metadata: e.metadata, ..self }),
    {
        let mut e = self;
        e.metadata.push((key, value));
        e
    }
}

/// The key names the entity's kind by its first characters.
proof fn lemma_key_kind_chars(r: EntityRef)
    ensures
        entity_key(r).len() >= 3,
        r is FilePath ==> entity_key(r)[0] == 'p' && entity_key(r)[1] == 'a',
        r is Process ==> entity_key(r)[0] == 'p' && entity_key(r)[1] == 'r',
        r is User ==> entity_key(r)[0] == 'u',
        r is Ip ==> entity_key(r)[0] == 'i',
        r is Session ==> entity_key(r)[0] == 's',
{
    reveal_strlit("path:");
    reveal_strlit("proc:");
    reveal_strlit("user:");
    reveal_strlit("ip:");
    reveal_strlit("session:0x");
}

/// Entity keys identify entities: entities of different kinds never share a
/// key, and two named entities of one kind share a key exactly when they
/// share the name.
pub proof fn law_entity_keys_identify(a: EntityRef, b: EntityRef)
    ensures
        entity_key(a) == entity_key(b) ==> match (a, b) {
            (EntityRef::FilePath(x), EntityRef::FilePath(y)) => x@ == y@,
            (EntityRef::Process(x), EntityRef::Process(y)) => x@ == y@,
            (EntityRef::User(x), EntityRef::User(y)) => x@ == y@,
            (EntityRef::Ip(x), EntityRef::Ip(y)) => x@ == y@,
            (EntityRef::Session(_), EntityRef::Session(_)) => true,
            _ => false,
        },
{
    lemma_key_kind_chars(a);
    lemma_key_kind_chars(b);
    reveal_strlit("path:");
    reveal_strlit("proc:");
    reveal_strlit("user:");
    reveal_strlit("ip:");
    if entity_key(a) == entity_key(b) {
        assert(entity_key(a)[0] == entity_key(b)[0]);
        assert(entity_key(a)[1] == entity_key(b)[1]);
        match (a, b) {
            (EntityRef::FilePath(x), EntityRef::FilePath(y)) => {
                assert(x@ =~= entity_key(a).subrange(5, entity_key(a).len() as int));
                assert(y@ =~= entity_key(b).subrange(5, entity_key(b).len() as int));
            },
            (EntityRef::Process(x), EntityRef::Process(y)) => {
                assert(x@ =~= entity_key(a).subrange(5, entity_key(a).len() as int));
                assert(y@ =~= entity_key(b).subrange(5, entity_key(b).len() as int));
            },
            (EntityRef::User(x), EntityRef::User(y)) => {
                assert(x@ =~= entity_key(a).subrange(5, entity_key(a).len() as int));
                assert(y@ =~= entity_key(b).subrange(5, entity_key(b).len() as int));
            },
            (EntityRef::Ip(x), EntityRef::Ip(y)) => {
                assert(x@ =~= entity_key(a).subrange(3, entity_key(a).len() as int));
                assert(y@ =~= entity_key(b).subrange(3, entity_key(b).len() as int));
            },
            _ => {},
        }
    }
}

/// Every entity plays exactly one of the roles `path`, `process`, `user`,
/// `ip` and `session`, the one of its kind.
pub proof fn law_entity_plays_one_role(r: EntityRef, role: Seq<char>)
    ensures
        role_matches(r, role) <==> role == match r {
            EntityRef::FilePath(_) => "path"@,
            EntityRef::Process(_) => "process"@,
            EntityRef::User(_) => "user"@,
            EntityRef::Ip(_) => "ip"@,
            EntityRef::Session(_) => "session"@,
        },
{
}

/// The names of each artifact source: its display name (`Event Log`, `MFT`,
/// ...) and its `{:?}` name, which is the variant's own name.
pub proof fn law_artifact_names_table(a: ArtifactType)
    ensures
        a == ArtifactType::EventLog ==> artifact_display(a) == "Event Log"@ && artifact_debug(a) == "EventLog"@,
        a == ArtifactType::Mft ==> artifact_display(a) == "MFT"@ && artifact_debug(a) == "Mft"@,
        a == ArtifactType::Prefetch ==> artifact_display(a) == "Prefetch"@ && artifact_debug(a) == "Prefetch"@,
        a == ArtifactType::UsnJournal ==> artifact_display(a) == "USN Journal"@ && artifact_debug(a) == "UsnJournal"@,
        a == ArtifactType::Amcache ==> artifact_display(a) == "Amcache"@ && artifact_debug(a) == "Amcache"@,
        a == ArtifactType::Registry ==> artifact_display(a) == "Registry"@ && artifact_debug(a) == "Registry"@,
        a == ArtifactType::CrontabConfig ==> artifact_display(a) == "Crontab"@ && artifact_debug(a) == "CrontabConfig"@,
        a == ArtifactType::Bodyfile ==> artifact_display(a) == "Bodyfile"@ && artifact_debug(a) == "Bodyfile"@,
        a == ArtifactType::SqliteCarved ==> artifact_display(a) == "SQLite (carved)"@ && artifact_debug(a) == "SqliteCarved"@,
        a == ArtifactType::Assessment ==> artifact_display(a) == "Assessment"@ && artifact_debug(a) == "Assessment"@,
        a == ArtifactType::ProcessList ==> artifact_display(a) == "Process List"@ && artifact_debug(a) == "ProcessList"@,
        a == ArtifactType::NetworkState ==> artifact_display(a) == "Network State"@ && artifact_debug(a) == "NetworkState"@,
        a == ArtifactType::RootkitScan ==> artifact_display(a) == "Rootkit Scan"@ && artifact_debug(a) == "RootkitScan"@,
        a == ArtifactType::DeviceInstall ==> artifact_display(a) == "Device Install"@ && artifact_debug(a) == "DeviceInstall"@,
{
}

} // verus!
