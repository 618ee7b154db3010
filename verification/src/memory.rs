//! The memory leg of the case timeline: processes, TCP endpoints and
//! suspicious regions observed in a memory dump, lifted into timeline events.
//!
//! A dump is a point-in-time snapshot, so every event is stamped at the
//! acquisition instant, tagged `memory-acquired` and `point-in-time`, and
//! attributed to the dump's host.

use vstd::prelude::*;
use crate::text::{decimal, owned, push_i64, push_str, push_u64};
use crate::timeline::{
    entity_keys, event_core, hostname_view, metadata_view, tags_view, ArtifactType, EntityRef,
    EventType, MetaValue, MetaView, TimelineEvent,
};
use chrono::TimeZone;

verus! {

/// A process observed by the process-list walker.
#[derive(Debug, Clone, PartialEq, Eq)]
pub struct MemProcessRow {
    pub pid: u32,
    pub ppid: u32,
    /// Image file name (e.g. `coreupdater.exe`); empty when unresolved.
    pub image_name: String,
    /// Number of threads (0: a dead process still in the table).
    pub thread_count: u32,
}

/// A TCP endpoint observed by the netstat walker.
#[derive(Debug, Clone, PartialEq, Eq)]
pub struct MemTcpRow {
    pub pid: u32,
    /// Owning process image name; empty when unresolved.
    pub process_name: String,
    pub local_addr: String,
    pub local_port: u16,
    pub remote_addr: String,
    pub remote_port: u16,
    /// Connection state, e.g. `ESTABLISHED` or `LISTEN`.
    pub state: String,
}

/// A suspicious memory region observed by the malfind / pool scanner.
#[derive(Debug, Clone, PartialEq, Eq)]
pub struct MemMalfindRow {
    pub pid: u32,
    pub image_name: String,
    /// Injection classification, e.g. `injected-code` or `injected-PE`.
    pub injection_class: String,
}

/// The owning process of a row: its image name, or `pid:<pid>` when the
/// image is unknown.
pub open spec fn subject_text(image_name: Seq<char>, pid: u32) -> Seq<char> {
    if image_name.len() == 0 {
        "pid:"@ + decimal(pid as int)
    } else {
        image_name
    }
}

/// The owning process subject of a row: prefer the image name, fall back to
/// the PID when the image is unknown.
pub fn process_subject(image_name: &str, pid: u32) -> (r: String)
    ensures
        r@ == subject_text(image_name@, pid),
{
    if image_name.is_empty() {
        let mut r = owned("pid:");
        push_u64(&mut r, pid as u64);
        r
    } else {
        owned(image_name)
    }
}

/// How chrono renders a UTC instant (seconds and nanoseconds since the Unix
/// epoch) as RFC 3339 with nine fractional digits and a `Z` suffix; `None`
/// for an instant chrono cannot represent.
pub uninterp spec fn rfc3339_utc_nanos(secs: i64, nanos: u32) -> Option<Seq<char>>;

/// RFC 3339 rendering of a UTC instant.
///
/// Calls `chrono::Utc.timestamp_opt(secs, nanos).single()` and, when that
/// gives an instant, `to_rfc3339_opts(SecondsFormat::Nanos, true)`. The
/// contract names the outcome `rfc3339_utc_nanos(secs, nanos)`, a function
/// of the two numbers alone (UTC, no locale); which instants chrono can
/// represent, and the calendar arithmetic, are not restated.
#[verifier::external_body]
fn rfc3339_utc(secs: i64, nanos: u32) -> (r: Option<String>)
    ensures
        match r {
            Some(s) => rfc3339_utc_nanos(secs, nanos) == Some(s@),
            None => rfc3339_utc_nanos(secs, nanos) is None,
        },
{
    match chrono::Utc.timestamp_opt(secs, nanos).single() {
        Some(dt) => Some(dt.to_rfc3339_opts(chrono::SecondsFormat::Nanos, true)),
        None => None,
    }
}

/// The display text of a nanosecond instant: RFC 3339 in UTC, or `<n>ns`
/// when the instant is out of chrono's range.
pub open spec fn instant_text(ns: i64) -> Seq<char> {
    match rfc3339_utc_nanos((ns as int / 1_000_000_000) as i64, (ns as int % 1_000_000_000) as u32) {
        Some(t) => t,
        None => decimal(ns as int) + "ns"@,
    }
}

/// Format a nanosecond Unix timestamp as an RFC 3339 UTC instant; an instant
/// out of range degrades to a raw `<n>ns` label rather than panicking.
pub fn fmt_ns(ns: i64) -> (r: String)
    ensures
        r@ == instant_text(ns),
{
    let secs = match ns.checked_div_euclid(1_000_000_000) {
        Some(q) => q,
        None => 0,
    };
    let nanos = match ns.checked_rem_euclid(1_000_000_000) {
        Some(m) => m as u32,
        None => 0,
    };
    match rfc3339_utc(secs, nanos) {
        Some(t) => t,
        None => {
            let mut r = String::new();
            push_i64(&mut r, ns);
            push_str(&mut r, "ns");
            r
        },
    }
}

/// The description of a process event.
pub open spec fn process_description(row: MemProcessRow) -> Seq<char> {
    "Process "@ + subject_text(row.image_name@, row.pid) + " (pid "@ + decimal(row.pid as int) + ", ppid "@
        + decimal(row.ppid as int) + ", "@ + decimal(row.thread_count as int)
        + " threads) present at memory acquisition"@
}

/// The description of a TCP endpoint event.
pub open spec fn tcp_description(row: MemTcpRow) -> Seq<char> {
    "TCP "@ + row.local_addr@ + ":"@ + decimal(row.local_port as int) + " -> "@ + row.remote_addr@ + ":"@
        + decimal(row.remote_port as int) + " ("@ + row.state@ + ") owned by "@ + subject_text(
        row.process_name@,
        row.pid,
    )
}

/// The description of a suspicious-region event.
pub open spec fn malfind_description(row: MemMalfindRow) -> Seq<char> {
    "Suspicious memory region ("@ + row.injection_class@ + ") in "@ + subject_text(row.image_name@, row.pid)
}

/// The provenance every memory event carries: the dump's host, and the
/// `memory-acquired` and `point-in-time` tags.
pub open spec fn memory_provenance(e: TimelineEvent, stem: Seq<char>) -> bool {
    &&& hostname_view(e) == Some(stem)
    &&& tags_view(e) == seq!["memory-acquired"@, "point-in-time"@]
}

/// The event a process row becomes: `ProcessExec` from the process list, the
/// process as its entity, and its pid, ppid and thread count as metadata.
pub open spec fn is_process_event(e: TimelineEvent, stem: Seq<char>, acquired_at_ns: i64, row: MemProcessRow) -> bool {
    &&& e.event_type == EventType::ProcessExec
    &&& event_core(
        e,
        acquired_at_ns,
        instant_text(acquired_at_ns),
        ArtifactType::ProcessList,
        stem + ":pslist"@,
        process_description(row),
        stem,
    )
    &&& memory_provenance(e, stem)
    &&& entity_keys(e) == seq!["proc:"@ + subject_text(row.image_name@, row.pid)]
    &&& metadata_view(e) == seq![
        ("pid"@, MetaView::UInt(row.pid as u64)),
        ("ppid"@, MetaView::UInt(row.ppid as u64)),
        ("thread_count"@, MetaView::UInt(row.thread_count as u64)),
    ]
}

/// The event a TCP row becomes: `NetworkConnect` from the network state, the
/// owning process and the remote address as entities, and the pid, ports and
/// state as metadata.
pub open spec fn is_tcp_event(e: TimelineEvent, stem: Seq<char>, acquired_at_ns: i64, row: MemTcpRow) -> bool {
    &&& e.event_type == EventType::NetworkConnect
    &&& event_core(
        e,
        acquired_at_ns,
        instant_text(acquired_at_ns),
        ArtifactType::NetworkState,
        stem + ":netscan"@,
        tcp_description(row),
        stem,
    )
    &&& memory_provenance(e, stem)
    &&& entity_keys(e) == seq!["proc:"@ + subject_text(row.process_name@, row.pid), "ip:"@ + row.remote_addr@]
    &&& metadata_view(e) == seq![
        ("pid"@, MetaView::UInt(row.pid as u64)),
        ("local_port"@, MetaView::UInt(row.local_port as u64)),
        ("remote_port"@, MetaView::UInt(row.remote_port as u64)),
        ("state"@, MetaView::Text(row.state@)),
    ]
}

/// The event a suspicious region becomes: `Other("MemoryInjection")` from the
/// rootkit scan, the owning process as its entity, and the pid and injection
/// class as metadata.
pub open spec fn is_malfind_event(e: TimelineEvent, stem: Seq<char>, acquired_at_ns: i64, row: MemMalfindRow) -> bool {
    &&& e.event_type matches EventType::Other(t) && t@ == "MemoryInjection"@
    &&& event_core(
        e,
        acquired_at_ns,
        instant_text(acquired_at_ns),
        ArtifactType::RootkitScan,
        stem + ":malfind"@,
        malfind_description(row),
        stem,
    )
    &&& memory_provenance(e, stem)
    &&& entity_keys(e) == seq!["proc:"@ + subject_text(row.image_name@, row.pid)]
    &&& metadata_view(e) == seq![
        ("pid"@, MetaView::UInt(row.pid as u64)),
        ("injection"@, MetaView::Text(row.injection_class@)),
    ]
}

fn stamp(e: TimelineEvent, stem: &str) -> (r: TimelineEvent)
    requires
        e.tags@.len() == 0,
    ensures
        memory_provenance(r, stem@),
        r.timestamp_ns == e.timestamp_ns,
        r.timestamp == e.timestamp,
        r.event_type == e.event_type,
        r.source == e.source,
        r.artifact_path == e.artifact_path,
        r.description == e.description,
        r.evidence_source_id == e.evidence_source_id,
        r.record_hash == e.record_hash,
        r.entity_refs == e.entity_refs,
        r.metadata == e.metadata,
{
    let r = e.with_hostname(owned(stem)).with_tag(owned("memory-acquired")).with_tag(owned("point-in-time"));
    assert(tags_view(r) =~= seq!["memory-acquired"@, "point-in-time"@]);
    r
}

fn artifact_path(stem: &str, suffix: &str) -> (r: String)
    ensures
        r@ == stem@ + suffix@,
{
    let mut r = owned(stem);
    push_str(&mut r, suffix);
    r
}

fn process_event(stem: &str, ts: &String, acquired_at_ns: i64, row: &MemProcessRow) -> (e: TimelineEvent)
    requires
        ts@ == instant_text(acquired_at_ns),
    ensures
        is_process_event(e, stem@, acquired_at_ns, *row),
{
    let subject = process_subject(row.image_name.as_str(), row.pid);
    let mut d = owned("Process ");
    push_str(&mut d, subject.as_str());
    push_str(&mut d, " (pid ");
    push_u64(&mut d, row.pid as u64);
    push_str(&mut d, ", ppid ");
    push_u64(&mut d, row.ppid as u64);
    push_str(&mut d, ", ");
    push_u64(&mut d, row.thread_count as u64);
    push_str(&mut d, " threads) present at memory acquisition");
    assert(d@ =~= process_description(*row));
    let mut key = owned("proc:");
    push_str(&mut key, subject.as_str());
    let e = TimelineEvent::new(
        acquired_at_ns,
        ts.clone(),
        EventType::ProcessExec,
        ArtifactType::ProcessList,
        artifact_path(stem, ":pslist"),
        d,
        owned(stem),
    ).with_entity_ref(EntityRef::Process(subject)).with_metadata(
        owned("pid"),
        MetaValue::UInt(row.pid as u64),
    ).with_metadata(owned("ppid"), MetaValue::UInt(row.ppid as u64)).with_metadata(
        owned("thread_count"),
        MetaValue::UInt(row.thread_count as u64),
    );
    let r = stamp(e, stem);
    assert(entity_keys(r) =~= seq!["proc:"@ + subject_text(row.image_name@, row.pid)]);
    assert(metadata_view(r) =~= seq![
        ("pid"@, MetaView::UInt(row.pid as u64)),
        ("ppid"@, MetaView::UInt(row.ppid as u64)),
        ("thread_count"@, MetaView::UInt(row.thread_count as u64)),
    ]);
    r
}

fn tcp_event(stem: &str, ts: &String, acquired_at_ns: i64, row: &MemTcpRow) -> (e: TimelineEvent)
    requires
        ts@ == instant_text(acquired_at_ns),
    ensures
        is_tcp_event(e, stem@, acquired_at_ns, *row),
{
    let subject = process_subject(row.process_name.as_str(), row.pid);
    let mut d = owned("TCP ");
    push_str(&mut d, row.local_addr.as_str());
    push_str(&mut d, ":");
    push_u64(&mut d, row.local_port as u64);
    push_str(&mut d, " -> ");
    push_str(&mut d, row.remote_addr.as_str());
    push_str(&mut d, ":");
    push_u64(&mut d, row.remote_port as u64);
    push_str(&mut d, " (");
    push_str(&mut d, row.state.as_str());
    push_str(&mut d, ") owned by ");
    push_str(&mut d, subject.as_str());
    assert(d@ =~= tcp_description(*row));
    let e = TimelineEvent::new(
        acquired_at_ns,
        ts.clone(),
        EventType::NetworkConnect,
        ArtifactType::NetworkState,
        artifact_path(stem, ":netscan"),
        d,
        owned(stem),
    ).with_entity_ref(EntityRef::Process(subject)).with_entity_ref(
        EntityRef::Ip(row.remote_addr.clone()),
    ).with_metadata(owned("pid"), MetaValue::UInt(row.pid as u64)).with_metadata(
        owned("local_port"),
        MetaValue::UInt(row.local_port as u64),
    ).with_metadata(owned("remote_port"), MetaValue::UInt(row.remote_port as u64)).with_metadata(
        owned("state"),
        MetaValue::Text(row.state.clone()),
    );
    let r = stamp(e, stem);
    assert(entity_keys(r) =~= seq![
        "proc:"@ + subject_text(row.process_name@, row.pid),
        "ip:"@ + row.remote_addr@,
    ]);
    assert(metadata_view(r) =~= seq![
        ("pid"@, MetaView::UInt(row.pid as u64)),
        ("local_port"@, MetaView::UInt(row.local_port as u64)),
        ("remote_port"@, MetaView::UInt(row.remote_port as u64)),
        ("state"@, MetaView::Text(row.state@)),
    ]);
    r
}

fn malfind_event(stem: &str, ts: &String, acquired_at_ns: i64, row: &MemMalfindRow) -> (e: TimelineEvent)
    requires
        ts@ == instant_text(acquired_at_ns),
    ensures
        is_malfind_event(e, stem@, acquired_at_ns, *row),
{
    let subject = process_subject(row.image_name.as_str(), row.pid);
    let mut d = owned("Suspicious memory region (");
    push_str(&mut d, row.injection_class.as_str());
    push_str(&mut d, ") in ");
    push_str(&mut d, subject.as_str());
    assert(d@ =~= malfind_description(*row));
    let e = TimelineEvent::new(
        acquired_at_ns,
        ts.clone(),
        EventType::Other(owned("MemoryInjection")),
        ArtifactType::RootkitScan,
        artifact_path(stem, ":malfind"),
        d,
        owned(stem),
    ).with_entity_ref(EntityRef::Process(subject)).with_metadata(
        owned("pid"),
        MetaValue::UInt(row.pid as u64),
    ).with_metadata(owned("injection"), MetaValue::Text(row.injection_class.clone()));
    let r = stamp(e, stem);
    assert(entity_keys(r) =~= seq!["proc:"@ + subject_text(row.image_name@, row.pid)]);
    assert(metadata_view(r) =~= seq![
        ("pid"@, MetaView::UInt(row.pid as u64)),
        ("injection"@, MetaView::Text(row.injection_class@)),
    ]);
    r
}

/// Convert memory-forensic walker output into timeline events: one event per
/// process row, then one per TCP row, then one per suspicious region, in the
/// order given. All are stamped at `acquired_at_ns` and attributed to
/// `dump_stem` (the host and evidence-source id).
pub fn memory_events(
    dump_stem: &str,
    acquired_at_ns: i64,
    processes: &[MemProcessRow],
    tcp: &[MemTcpRow],
    malfind: &[MemMalfindRow],
) -> (r: Vec<TimelineEvent>)
    requires
        processes@.len() + tcp@.len() + malfind@.len() <= usize::MAX,
    ensures
        r@.len() == processes@.len() + tcp@.len() + malfind@.len(),
        forall|i: int|
            0 <= i < processes@.len() ==> is_process_event(
                #[trigger] r@[i],
                dump_stem@,
                acquired_at_ns,
                processes@[i],
            ),
        forall|i: int|
            0 <= i < tcp@.len() ==> is_tcp_event(
                #[trigger] r@[processes@.len() + i],
                dump_stem@,
                acquired_at_ns,
                tcp@[i],
            ),
        forall|i: int|
            0 <= i < malfind@.len() ==> is_malfind_event(
                #[trigger] r@[processes@.len() + tcp@.len() + i],
                dump_stem@,
                acquired_at_ns,
                malfind@[i],
            ),
{
    let ts = fmt_ns(acquired_at_ns);
    let mut out: Vec<TimelineEvent> = Vec::new();
    let mut i: usize = 0;
    while i < processes.len()
        invariant
            i <= processes@.len(),
            ts@ == instant_text(acquired_at_ns),
            out@.len() == i,
            forall|j: int|
                0 <= j < i ==> is_process_event(#[trigger] out@[j], dump_stem@, acquired_at_ns, processes@[j]),
        decreases processes.len() - i,
    {
        let e = process_event(dump_stem, &ts, acquired_at_ns, &processes[i]);
        out.push(e);
        i = i + 1;
    }
    let p = processes.len();
    let mut k: usize = 0;
    while k < tcp.len()
        invariant
            k <= tcp@.len(),
            p == processes@.len(),
            p + tcp@.len() + malfind@.len() <= usize::MAX,
            ts@ == instant_text(acquired_at_ns),
            out@.len() == p + k,
            forall|j: int|
                0 <= j < p ==> is_process_event(#[trigger] out@[j], dump_stem@, acquired_at_ns, processes@[j]),
            forall|j: int|
                0 <= j < k ==> is_tcp_event(#[trigger] out@[p + j], dump_stem@, acquired_at_ns, tcp@[j]),
        decreases tcp.len() - k,
    {
        let e = tcp_event(dump_stem, &ts, acquired_at_ns, &tcp[k]);
        out.push(e);
        k = k + 1;
    }
    let q = p + tcp.len();
    let mut m: usize = 0;
    while m < malfind.len()
        invariant
            m <= malfind@.len(),
            p == processes@.len(),
            q == p + tcp@.len(),
            ts@ == instant_text(acquired_at_ns),
            out@.len() == q + m,
            forall|j: int|
                0 <= j < p ==> is_process_event(#[trigger] out@[j], dump_stem@, acquired_at_ns, processes@[j]),
            forall|j: int|
                0 <= j < tcp@.len() ==> is_tcp_event(#[trigger] out@[p + j], dump_stem@, acquired_at_ns, tcp@[j]),
            forall|j: int|
                0 <= j < m ==> is_malfind_event(#[trigger] out@[q + j], dump_stem@, acquired_at_ns, malfind@[j]),
        decreases malfind.len() - m,
    {
        let e = malfind_event(dump_stem, &ts, acquired_at_ns, &malfind[m]);
        out.push(e);
        m = m + 1;
    }
    out
}

/// An instant is rendered from its whole seconds and the nanoseconds past
/// them (`secs * 10^9 + nanos == ns`, `0 <= nanos < 10^9`, so an instant
/// before the epoch counts back from the second below it), and falls back to
/// `<ns>ns` only when chrono cannot represent that instant.
pub proof fn law_instant_splits_exactly(ns: i64, secs: i64, nanos: u32)
    requires
        secs * 1_000_000_000 + nanos == ns,
        nanos < 1_000_000_000,
    ensures
        instant_text(ns) == match rfc3339_utc_nanos(secs, nanos) {
            Some(t) => t,
            None => decimal(ns as int) + "ns"@,
        },
{
    vstd::arithmetic::div_mod::lemma_fundamental_div_mod_converse(ns as int, 1_000_000_000, secs as int, nanos as int);
}

/// Every memory event, of whichever kind, is stamped at the acquisition
/// instant, attributed to the dump's host and evidence source, and tagged
/// `memory-acquired` and `point-in-time`; its owning process is named by
/// image, or by `pid:<pid>` when the image is unknown.
pub proof fn law_memory_events_share_provenance(
    e: TimelineEvent,
    stem: Seq<char>,
    acquired_at_ns: i64,
    p: MemProcessRow,
    t: MemTcpRow,
    m: MemMalfindRow,
)
    requires
        is_process_event(e, stem, acquired_at_ns, p) || is_tcp_event(e, stem, acquired_at_ns, t) || is_malfind_event(
            e,
            stem,
            acquired_at_ns,
            m,
        ),
    ensures
        e.timestamp_ns == acquired_at_ns,
        e.timestamp@ == instant_text(acquired_at_ns),
        e.hostname matches Some(h) && h@ == stem,
        e.evidence_source_id@ == stem,
        tags_view(e) == seq!["memory-acquired"@, "point-in-time"@],
        is_process_event(e, stem, acquired_at_ns, p) ==> entity_keys(e)[0] == "proc:"@ + (if p.image_name@.len()
            == 0 {
            "pid:"@ + decimal(p.pid as int)
        } else {
            p.image_name@
        }),
{
    assert(hostname_view(e) == Some(stem));
}

} // verus!
