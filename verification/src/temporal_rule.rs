//! Temporal rules over timeline events.
//!
//! A [`TemporalRule`] anchors on events matching a filter and then asks three
//! kinds of question about the anchor's surroundings:
//!
//! - **sequence**: every listed event kind occurs within the time window;
//! - **absent**: no listed event kind occurs within the time window;
//! - **discrepancy**: another artifact source dates the same entity in a way
//!   that contradicts the anchor (it claims the entity was created after the
//!   anchor saw it, or before a later anchor claim).

use vstd::prelude::*;
use crate::text::{owned, seq_contains, str_contains, str_equals};
use crate::timeline::{
    artifact_debug, artifact_display, entity_key, event_type_name, role_matches, EntityRef,
    TimelineEvent,
};

verus! {

/// Matches an event by its type name, optionally its source's display name,
/// and optionally a substring of its description.
#[derive(Debug, Clone, PartialEq, Eq)]
pub struct EventTypeFilter {
    /// The `{:?}` name of the event type, e.g. `"ProcessExec"`.
    pub event_type: String,
    /// The display name of the artifact source, e.g. `"Prefetch"`, `"Event Log"`.
    pub source: Option<String>,
    /// A substring that must appear in the event description.
    pub description_contains: Option<String>,
}

impl EventTypeFilter {
    /// A filter on the event type only.
    pub fn new(event_type: &str) -> (f: Self)
        ensures
            f.event_type@ == event_type@,
            f.source is None,
            f.description_contains is None,
    {
        EventTypeFilter { event_type: owned(event_type), source: None, description_contains: None }
    }

    /// Builder: restrict to one artifact source.
    pub fn with_source(self, source: &str) -> (f: Self)
        ensures
            f.event_type == self.event_type,
            f.source matches Some(s) && s@ == source@,
            f.description_contains == self.description_contains,
    {
        let mut f = self;
        f.source = Some(owned(source));
        f
    }

    /// Builder: require a substring in the description.
    pub fn with_description(self, contains: &str) -> (f: Self)
        ensures
            f.event_type == self.event_type,
            f.source == self.source,
            f.description_contains matches Some(s) && s@ == contains@,
    {
        let mut f = self;
        f.description_contains = Some(owned(contains));
        f
    }
}

/// A timestamp contradiction between the anchor and another artifact source
/// that names the same entity.
///
/// Direction `"after"` fires when the anchor is later than the compared event
/// by more than `min_delta_seconds`; any other direction (`"before"`, the
/// default) fires when the anchor is earlier than the compared event by more
/// than `min_delta_seconds`.
#[derive(Debug, Clone, PartialEq, Eq)]
pub struct DiscrepancyClause {
    /// Entity role to join on: `"path"`, `"process"`, `"user"`, `"ip"`, `"session"`.
    pub entity_role: String,
    /// Event type name of the compared event.
    pub compare_event_type: String,
    /// Source display name of the compared event.
    pub compare_source: String,
    /// Minimum gap in seconds.
    pub min_delta_seconds: i64,
    /// `"before"` or `"after"`.
    pub direction: String,
}

/// The default discrepancy direction, `"before"`.
pub fn default_direction() -> (r: String)
    ensures
        r@ == "before"@,
{
    owned("before")
}

/// The default window, 300 seconds.
pub fn default_window() -> (r: i64)
    ensures
        r == 300,
{
    300
}

/// A temporal rule.
#[derive(Debug, Clone, PartialEq, Eq)]
pub struct TemporalRule {
    /// Unique rule identifier, e.g. `"temporal.hollow-process"`.
    pub id: String,
    /// Short human title.
    pub title: String,
    /// `"critical"`, `"high"`, `"medium"` or `"low"`.
    pub severity: String,
    pub description: Option<String>,
    /// Half-width of the time window around the anchor, in seconds.
    pub within_seconds: i64,
    /// The events the rule is evaluated at.
    pub anchor: EventTypeFilter,
    /// Event kinds that must all occur within the window.
    pub sequence: Vec<EventTypeFilter>,
    /// Event kinds that must all be absent from the window.
    pub absent: Vec<EventTypeFilter>,
    /// Contradictions of which at least one must be found (when any are given).
    pub discrepancy: Vec<DiscrepancyClause>,
}

/// Detail of a detected timestamp discrepancy.
#[derive(Debug, Clone, PartialEq, Eq)]
pub struct DiscrepancyDetail {
    /// Key of the shared entity, e.g. `"path:/lib/libymv.so.3"`.
    pub entity_key: String,
    /// `{:?}` name of the anchor's source.
    pub anchor_source: String,
    pub anchor_timestamp_ns: i64,
    pub compare_source: String,
    pub compare_timestamp_ns: i64,
    /// Distance between the two timestamps (saturated at `i64::MAX`).
    pub delta_ns: i64,
}

/// A finding produced by [`evaluate_temporal`].
#[derive(Debug, Clone, PartialEq, Eq)]
pub struct TemporalFinding {
    pub rule_id: String,
    pub title: String,
    pub severity: String,
    /// Record hash of the anchor event.
    pub anchor_record_hash: String,
    /// Record hashes of the matched sequence events, then of the compared event
    /// of a discrepancy.
    pub matched_record_hashes: Vec<String>,
    pub discrepancy: Option<DiscrepancyDetail>,
}

/// The mathematical content of a [`DiscrepancyDetail`].
pub struct SpecDetail {
    pub entity_key: Seq<char>,
    pub anchor_source: Seq<char>,
    pub anchor_ts: int,
    pub compare_source: Seq<char>,
    pub compare_ts: int,
    pub delta: int,
}

/// The mathematical content of a [`TemporalFinding`].
pub struct SpecFinding {
    pub rule_id: Seq<char>,
    pub title: Seq<char>,
    pub severity: Seq<char>,
    pub anchor_hash: Seq<char>,
    pub matched: Seq<Seq<char>>,
    pub discrepancy: Option<SpecDetail>,
}

impl View for DiscrepancyDetail {
    type V = SpecDetail;

    open spec fn view(&self) -> SpecDetail {
        SpecDetail {
            entity_key: self.entity_key@,
            anchor_source: self.anchor_source@,
            anchor_ts: self.anchor_timestamp_ns as int,
            compare_source: self.compare_source@,
            compare_ts: self.compare_timestamp_ns as int,
            delta: self.delta_ns as int,
        }
    }
}

/// The views of a sequence of strings.
pub open spec fn string_views(v: Seq<String>) -> Seq<Seq<char>> {
    v.map_values(|s: String| s@)
}

impl View for TemporalFinding {
    type V = SpecFinding;

    open spec fn view(&self) -> SpecFinding {
        SpecFinding {
            rule_id: self.rule_id@,
            title: self.title@,
            severity: self.severity@,
            anchor_hash: self.anchor_record_hash@,
            matched: string_views(self.matched_record_hashes@),
            discrepancy: match self.discrepancy {
                Some(d) => Some(d@),
                None => None,
            },
        }
    }
}

/// An event satisfies a filter: same type name, same source (when given), and
/// the description contains the substring (when given).
pub open spec fn filter_ok(e: TimelineEvent, f: EventTypeFilter) -> bool {
    &&& event_type_name(e.event_type) == f.event_type@
    &&& (f.source matches Some(s) ==> artifact_display(e.source) == s@)
    &&& (f.description_contains matches Some(n) ==> seq_contains(e.description@, n@))
}

/// `secs` seconds in nanoseconds, saturated to the range of `i64`.
pub open spec fn sat_ns(secs: i64) -> int {
    let v = secs * 1_000_000_000;
    if v > i64::MAX {
        i64::MAX as int
    } else if v < i64::MIN {
        i64::MIN as int
    } else {
        v
    }
}

/// The absolute value of an integer.
pub open spec fn abs_int(x: int) -> int {
    if x < 0 {
        -x
    } else {
        x
    }
}

/// Event `j` lies in the window of anchor `a`: a different record within
/// `within_seconds` of the anchor, either side.
pub open spec fn in_window(rule: TemporalRule, events: Seq<TimelineEvent>, a: int, j: int) -> bool {
    &&& events[j].record_hash@ != events[a].record_hash@
    &&& abs_int(events[j].timestamp_ns - events[a].timestamp_ns) <= sat_ns(rule.within_seconds)
}

/// The first event at or after `j` in the window of `a` that satisfies `f`.
pub open spec fn first_window_match(
    rule: TemporalRule,
    events: Seq<TimelineEvent>,
    a: int,
    f: EventTypeFilter,
    j: int,
) -> Option<int>
    decreases events.len() - j,
{
    if j < 0 || j >= events.len() {
        None
    } else if in_window(rule, events, a, j) && filter_ok(events[j], f) {
        Some(j)
    } else {
        first_window_match(rule, events, a, f, j + 1)
    }
}

/// The hashes matched by the first `k` sequence clauses, or `None` when one
/// of them has no match in the window.
pub open spec fn sequence_hashes(rule: TemporalRule, events: Seq<TimelineEvent>, a: int, k: nat) -> Option<
    Seq<Seq<char>>,
>
    decreases k,
{
    if k == 0 {
        Some(seq![])
    } else {
        match sequence_hashes(rule, events, a, (k - 1) as nat) {
            None => None,
            Some(h) => match first_window_match(rule, events, a, rule.sequence@[k - 1], 0) {
                None => None,
                Some(j) => Some(h.push(events[j].record_hash@)),
            },
        }
    }
}

/// No absent clause matches any event in the window of `a`.
pub open spec fn absent_ok(rule: TemporalRule, events: Seq<TimelineEvent>, a: int) -> bool {
    forall|k: int, j: int|
        0 <= k < rule.absent@.len() && 0 <= j < events.len() && in_window(rule, events, a, j)
            ==> !#[trigger] filter_ok(events[j], rule.absent@[k])
}

/// The timestamps contradict each other in the clause's direction.
pub open spec fn contradiction(clause: DiscrepancyClause, anchor_ts: i64, compare_ts: i64) -> bool {
    let d = sat_ns(clause.min_delta_seconds);
    if clause.direction@ == "after"@ {
        anchor_ts > compare_ts + d
    } else {
        anchor_ts + d < compare_ts
    }
}

/// Some entity of `e` has key `key`.
pub open spec fn shares_key(e: TimelineEvent, key: Seq<char>) -> bool {
    exists|q: int| 0 <= q < e.entity_refs@.len() && entity_key(#[trigger] e.entity_refs@[q]) == key
}

/// Clause `c`, anchor entity `r` and compared event `j` form a discrepancy.
pub open spec fn disc_candidate(
    rule: TemporalRule,
    events: Seq<TimelineEvent>,
    a: int,
    c: int,
    r: int,
    j: int,
) -> bool {
    let clause = rule.discrepancy@[c];
    let anchor = events[a];
    let aref = anchor.entity_refs@[r];
    let other = events[j];
    &&& role_matches(aref, clause.entity_role@)
    &&& other.record_hash@ != anchor.record_hash@
    &&& event_type_name(other.event_type) == clause.compare_event_type@
    &&& artifact_display(other.source) == clause.compare_source@
    &&& shares_key(other, entity_key(aref))
    &&& contradiction(clause, anchor.timestamp_ns, other.timestamp_ns)
}

/// The first compared event at or after `j` for clause `c` and anchor entity `r`.
pub open spec fn scan_events(rule: TemporalRule, events: Seq<TimelineEvent>, a: int, c: int, r: int, j: int) -> Option<int>
    decreases events.len() - j,
{
    if j < 0 || j >= events.len() {
        None
    } else if disc_candidate(rule, events, a, c, r, j) {
        Some(j)
    } else {
        scan_events(rule, events, a, c, r, j + 1)
    }
}

/// The first (anchor entity, compared event) at or after entity `r` for clause `c`.
pub open spec fn scan_refs(rule: TemporalRule, events: Seq<TimelineEvent>, a: int, c: int, r: int) -> Option<(int, int)>
    decreases events[a].entity_refs@.len() - r,
{
    if r < 0 || r >= events[a].entity_refs@.len() {
        None
    } else {
        match scan_events(rule, events, a, c, r, 0) {
            Some(j) => Some((r, j)),
            None => scan_refs(rule, events, a, c, r + 1),
        }
    }
}

/// The first (clause, anchor entity, compared event) at or after clause `c`.
pub open spec fn scan_clauses(rule: TemporalRule, events: Seq<TimelineEvent>, a: int, c: int) -> Option<(int, int, int)>
    decreases rule.discrepancy@.len() - c,
{
    if c < 0 || c >= rule.discrepancy@.len() {
        None
    } else {
        match scan_refs(rule, events, a, c, 0) {
            Some((r, j)) => Some((c, r, j)),
            None => scan_clauses(rule, events, a, c + 1),
        }
    }
}

/// `x` clamped to at most `i64::MAX`.
pub open spec fn clamp_max(x: int) -> int {
    if x > i64::MAX {
        i64::MAX as int
    } else {
        x
    }
}

/// The detail of the discrepancy (clause `c`, anchor entity `r`, event `j`).
pub open spec fn detail_of(rule: TemporalRule, events: Seq<TimelineEvent>, a: int, c: int, r: int, j: int) -> SpecDetail {
    SpecDetail {
        entity_key: entity_key(events[a].entity_refs@[r]),
        anchor_source: artifact_debug(events[a].source),
        anchor_ts: events[a].timestamp_ns as int,
        compare_source: rule.discrepancy@[c].compare_source@,
        compare_ts: events[j].timestamp_ns as int,
        delta: clamp_max(abs_int(events[j].timestamp_ns - events[a].timestamp_ns)),
    }
}

/// The finding the rule produces at anchor `a`, if any.
pub open spec fn finding_at(rule: TemporalRule, events: Seq<TimelineEvent>, a: int) -> Option<SpecFinding> {
    if !filter_ok(events[a], rule.anchor) {
        None
    } else {
        match sequence_hashes(rule, events, a, rule.sequence@.len()) {
            None => None,
            Some(h) => if !absent_ok(rule, events, a) {
                None
            } else if rule.discrepancy@.len() == 0 {
                Some(
                    SpecFinding {
                        rule_id: rule.id@,
                        title: rule.title@,
                        severity: rule.severity@,
                        anchor_hash: events[a].record_hash@,
                        matched: h,
                        discrepancy: None,
                    },
                )
            } else {
                match scan_clauses(rule, events, a, 0) {
                    None => None,
                    Some((c, r, j)) => Some(
                        SpecFinding {
                            rule_id: rule.id@,
                            title: rule.title@,
                            severity: rule.severity@,
                            anchor_hash: events[a].record_hash@,
                            matched: h.push(events[j].record_hash@),
                            discrepancy: Some(detail_of(rule, events, a, c, r, j)),
                        },
                    ),
                }
            },
        }
    }
}

/// The findings at the first `n` events, in event order.
pub open spec fn findings_upto(rule: TemporalRule, events: Seq<TimelineEvent>, n: int) -> Seq<SpecFinding>
    decreases n,
{
    if n <= 0 {
        seq![]
    } else {
        match finding_at(rule, events, n - 1) {
            Some(f) => findings_upto(rule, events, n - 1).push(f),
            None => findings_upto(rule, events, n - 1),
        }
    }
}


/// The views of findings.
pub open spec fn finding_views(v: Seq<TemporalFinding>) -> Seq<SpecFinding> {
    v.map_values(|f: TemporalFinding| f@)
}

/// Whether `event` satisfies every given part of `filter`.
pub fn filter_matches(event: &TimelineEvent, filter: &EventTypeFilter) -> (b: bool)
    ensures
        b == filter_ok(*event, *filter),
{
    if !event_type_str_matches(event, filter.event_type.as_str()) {
        return false;
    }
    match &filter.source {
        Some(src) => {
            if !source_str_matches(event, src.as_str()) {
                return false;
            }
        },
        None => {},
    }
    match &filter.description_contains {
        Some(needle) => {
            if !str_contains(event.description.as_str(), needle.as_str()) {
                return false;
            }
        },
        None => {},
    }
    true
}

/// Whether the event's type name is `type_str`.
pub fn event_type_str_matches(event: &TimelineEvent, type_str: &str) -> (b: bool)
    ensures
        b == (event_type_name(event.event_type) == type_str@),
{
    let name = event.event_type.name();
    str_equals(name.as_str(), type_str)
}

/// Whether the event's source display name is `source_str`.
pub fn source_str_matches(event: &TimelineEvent, source_str: &str) -> (b: bool)
    ensures
        b == (artifact_display(event.source) == source_str@),
{
    str_equals(event.source.display_name(), source_str)
}

/// Whether `entity` plays `role`.
pub fn entity_role_matches(entity: &EntityRef, role: &str) -> (b: bool)
    ensures
        b == role_matches(*entity, role@),
{
    entity.plays_role(role)
}

/// The canonical key of `entity`.
pub fn entity_key_of(entity: &EntityRef) -> (k: String)
    ensures
        k@ == entity_key(*entity),
{
    entity.key()
}

/// `secs` seconds in nanoseconds, saturated to the range of `i64`.
fn seconds_to_ns(secs: i64) -> (r: i64)
    ensures
        r == sat_ns(secs),
{
    match secs.checked_mul(1_000_000_000) {
        Some(v) => v,
        None => if secs > 0 {
            i64::MAX
        } else {
            i64::MIN
        },
    }
}

/// Whether event `j` lies in the window of anchor `a`.
fn in_window_of(rule: &TemporalRule, within: i64, events: &[TimelineEvent], a: usize, j: usize) -> (b: bool)
    requires
        within == sat_ns(rule.within_seconds),
        a < events@.len(),
        j < events@.len(),
    ensures
        b == in_window(*rule, events@, a as int, j as int),
{
    if events[j].record_hash == events[a].record_hash {
        return false;
    }
    let d: i128 = (events[j].timestamp_ns as i128) - (events[a].timestamp_ns as i128);
    let ad: i128 = if d < 0 {
        -d
    } else {
        d
    };
    ad <= within as i128
}

/// The first event in the window of `a` that satisfies `f`.
fn first_in_window(
    rule: &TemporalRule,
    within: i64,
    events: &[TimelineEvent],
    a: usize,
    f: &EventTypeFilter,
) -> (r: Option<usize>)
    requires
        within == sat_ns(rule.within_seconds),
        a < events@.len(),
    ensures
        match r {
            Some(j) => first_window_match(*rule, events@, a as int, *f, 0) == Some(j as int) && j < events@.len(),
            None => first_window_match(*rule, events@, a as int, *f, 0) is None,
        },
{
    let mut j: usize = 0;
    while j < events.len()
        invariant
            j <= events@.len(),
            a < events@.len(),
            within == sat_ns(rule.within_seconds),
            first_window_match(*rule, events@, a as int, *f, 0) == first_window_match(
                *rule,
                events@,
                a as int,
                *f,
                j as int,
            ),
        decreases events@.len() - j,
    {
        if in_window_of(rule, within, events, a, j) && filter_matches(&events[j], f) {
            return Some(j);
        }
        j = j + 1;
    }
    None
}

/// The hashes matched by the sequence clauses, or `None` when one has no match.
fn sequence_matches(rule: &TemporalRule, within: i64, events: &[TimelineEvent], a: usize) -> (r: Option<Vec<String>>)
    requires
        within == sat_ns(rule.within_seconds),
        a < events@.len(),
    ensures
        match r {
            Some(v) => sequence_hashes(*rule, events@, a as int, rule.sequence@.len()) == Some(string_views(v@)),
            None => sequence_hashes(*rule, events@, a as int, rule.sequence@.len()) is None,
        },
{
    let mut hashes: Vec<String> = Vec::new();
    let mut k: usize = 0;
    while k < rule.sequence.len()
        invariant
            k <= rule.sequence@.len(),
            a < events@.len(),
            within == sat_ns(rule.within_seconds),
            sequence_hashes(*rule, events@, a as int, k as nat) == Some(string_views(hashes@)),
        decreases rule.sequence@.len() - k,
    {
        match first_in_window(rule, within, events, a, &rule.sequence[k]) {
            Some(j) => {
                let h = events[j].record_hash.clone();
                let ghost before = hashes@;
                hashes.push(h);
                assert(string_views(hashes@) =~= string_views(before).push(events@[j as int].record_hash@));
            },
            None => {
                proof {
                    lemma_sequence_none_stays(*rule, events@, a as int, (k + 1) as nat, rule.sequence@.len());
                }
                return None;
            },
        }
        k = k + 1;
    }
    Some(hashes)
}

/// Once a sequence clause has no match, no longer prefix matches either.
proof fn lemma_sequence_none_stays(rule: TemporalRule, events: Seq<TimelineEvent>, a: int, k: nat, m: nat)
    requires
        k <= m,
        sequence_hashes(rule, events, a, k) is None,
    ensures
        sequence_hashes(rule, events, a, m) is None,
    decreases m - k,
{
    if k < m {
        lemma_sequence_none_stays(rule, events, a, k, (m - 1) as nat);
    }
}

/// Whether no absent clause matches any event in the window of `a`.
fn absent_holds(rule: &TemporalRule, within: i64, events: &[TimelineEvent], a: usize) -> (b: bool)
    requires
        within == sat_ns(rule.within_seconds),
        a < events@.len(),
    ensures
        b == absent_ok(*rule, events@, a as int),
{
    let mut k: usize = 0;
    while k < rule.absent.len()
        invariant
            k <= rule.absent@.len(),
            a < events@.len(),
            within == sat_ns(rule.within_seconds),
            forall|k2: int, j: int|
                0 <= k2 < k && 0 <= j < events@.len() && in_window(*rule, events@, a as int, j)
                    ==> !#[trigger] filter_ok(events@[j], rule.absent@[k2]),
        decreases rule.absent@.len() - k,
    {
        let mut j: usize = 0;
        while j < events.len()
            invariant
                j <= events@.len(),
                k < rule.absent@.len(),
                a < events@.len(),
                within == sat_ns(rule.within_seconds),
                forall|j2: int|
                    0 <= j2 < j && in_window(*rule, events@, a as int, j2) ==> !#[trigger] filter_ok(
                        events@[j2],
                        rule.absent@[k as int],
                    ),
            decreases events@.len() - j,
        {
            if in_window_of(rule, within, events, a, j) && filter_matches(&events[j], &rule.absent[k]) {
                assert(!absent_ok(*rule, events@, a as int));
                return false;
            }
            j = j + 1;
        }
        k = k + 1;
    }
    true
}

/// Whether some entity of `e` has key `key`.
fn has_key(e: &TimelineEvent, key: &String) -> (b: bool)
    ensures
        b == shares_key(*e, key@),
{
    let mut q: usize = 0;
    while q < e.entity_refs.len()
        invariant
            q <= e.entity_refs@.len(),
            forall|q2: int| 0 <= q2 < q ==> entity_key(#[trigger] e.entity_refs@[q2]) != key@,
        decreases e.entity_refs@.len() - q,
    {
        let k = e.entity_refs[q].key();
        if k == *key {
            return true;
        }
        q = q + 1;
    }
    false
}

/// Whether the two timestamps contradict each other in the clause's direction.
fn contradicts(clause: &DiscrepancyClause, anchor_ts: i64, compare_ts: i64) -> (b: bool)
    ensures
        b == contradiction(*clause, anchor_ts, compare_ts),
{
    let d = seconds_to_ns(clause.min_delta_seconds) as i128;
    if str_equals(clause.direction.as_str(), "after") {
        (anchor_ts as i128) > (compare_ts as i128) + d
    } else {
        (anchor_ts as i128) + d < (compare_ts as i128)
    }
}

/// The first compared event for clause `c` and anchor entity `r`.
fn scan_events_of(rule: &TemporalRule, events: &[TimelineEvent], a: usize, c: usize, r: usize) -> (res: Option<usize>)
    requires
        a < events@.len(),
        c < rule.discrepancy@.len(),
        r < events@[a as int].entity_refs@.len(),
    ensures
        match res {
            Some(j) => scan_events(*rule, events@, a as int, c as int, r as int, 0) == Some(j as int),
            None => scan_events(*rule, events@, a as int, c as int, r as int, 0) is None,
        },
{
    let clause = &rule.discrepancy[c];
    let anchor = &events[a];
    let aref = &anchor.entity_refs[r];
    if !aref.plays_role(clause.entity_role.as_str()) {
        assert forall|j: int| 0 <= j <= events@.len() implies scan_events(
            *rule,
            events@,
            a as int,
            c as int,
            r as int,
            j,
        ) is None by {
            lemma_scan_events_none_without_role(*rule, events@, a as int, c as int, r as int, j);
        }
        return None;
    }
    let key = aref.key();
    let mut j: usize = 0;
    while j < events.len()
        invariant
            j <= events@.len(),
            a < events@.len(),
            c < rule.discrepancy@.len(),
            r < events@[a as int].entity_refs@.len(),
            *clause == rule.discrepancy@[c as int],
            *anchor == events@[a as int],
            *aref == events@[a as int].entity_refs@[r as int],
            key@ == entity_key(*aref),
            role_matches(*aref, clause.entity_role@),
            scan_events(*rule, events@, a as int, c as int, r as int, 0) == scan_events(
                *rule,
                events@,
                a as int,
                c as int,
                r as int,
                j as int,
            ),
        decreases events@.len() - j,
    {
        let other = &events[j];
        if !(other.record_hash == anchor.record_hash) && event_type_str_matches(
            other,
            clause.compare_event_type.as_str(),
        ) && source_str_matches(other, clause.compare_source.as_str()) && has_key(other, &key)
            && contradicts(clause, anchor.timestamp_ns, other.timestamp_ns) {
            return Some(j);
        }
        j = j + 1;
    }
    None
}

/// Without the role no compared event qualifies.
proof fn lemma_scan_events_none_without_role(
    rule: TemporalRule,
    events: Seq<TimelineEvent>,
    a: int,
    c: int,
    r: int,
    j: int,
)
    requires
        0 <= j <= events.len(),
        !role_matches(events[a].entity_refs@[r], rule.discrepancy@[c].entity_role@),
    ensures
        scan_events(rule, events, a, c, r, j) is None,
    decreases events.len() - j,
{
    if j < events.len() {
        lemma_scan_events_none_without_role(rule, events, a, c, r, j + 1);
    }
}

/// The first (anchor entity, compared event) for clause `c`.
fn scan_refs_of(rule: &TemporalRule, events: &[TimelineEvent], a: usize, c: usize) -> (res: Option<(usize, usize)>)
    requires
        a < events@.len(),
        c < rule.discrepancy@.len(),
    ensures
        match res {
            Some((r, j)) => scan_refs(*rule, events@, a as int, c as int, 0) == Some((r as int, j as int)),
            None => scan_refs(*rule, events@, a as int, c as int, 0) is None,
        },
{
    let mut r: usize = 0;
    while r < events[a].entity_refs.len()
        invariant
            r <= events@[a as int].entity_refs@.len(),
            a < events@.len(),
            c < rule.discrepancy@.len(),
            scan_refs(*rule, events@, a as int, c as int, 0) == scan_refs(
                *rule,
                events@,
                a as int,
                c as int,
                r as int,
            ),
        decreases events@[a as int].entity_refs@.len() - r,
    {
        match scan_events_of(rule, events, a, c, r) {
            Some(j) => {
                return Some((r, j));
            },
            None => {},
        }
        r = r + 1;
    }
    None
}

/// The first (clause, anchor entity, compared event) of the rule at anchor `a`.
fn scan_clauses_of(rule: &TemporalRule, events: &[TimelineEvent], a: usize) -> (res: Option<(usize, usize, usize)>)
    requires
        a < events@.len(),
    ensures
        match res {
            Some((c, r, j)) => scan_clauses(*rule, events@, a as int, 0) == Some((c as int, r as int, j as int))
                && c < rule.discrepancy@.len() && r < events@[a as int].entity_refs@.len() && j
                < events@.len(),
            None => scan_clauses(*rule, events@, a as int, 0) is None,
        },
{
    let mut c: usize = 0;
    while c < rule.discrepancy.len()
        invariant
            c <= rule.discrepancy@.len(),
            a < events@.len(),
            scan_clauses(*rule, events@, a as int, 0) == scan_clauses(*rule, events@, a as int, c as int),
        decreases rule.discrepancy@.len() - c,
    {
        match scan_refs_of(rule, events, a, c) {
            Some((r, j)) => {
                proof {
                    lemma_scan_refs_bounds(*rule, events@, a as int, c as int, 0);
                }
                return Some((c, r, j));
            },
            None => {},
        }
        c = c + 1;
    }
    None
}

/// A found (entity, event) pair lies within bounds.
proof fn lemma_scan_refs_bounds(rule: TemporalRule, events: Seq<TimelineEvent>, a: int, c: int, r: int)
    requires
        0 <= r,
    ensures
        scan_refs(rule, events, a, c, r) matches Some((r2, j)) ==> 0 <= r2
            < events[a].entity_refs@.len() && 0 <= j < events.len(),
    decreases events[a].entity_refs@.len() - r,
{
    if r < events[a].entity_refs@.len() {
        lemma_scan_events_bounds(rule, events, a, c, r, 0);
        lemma_scan_refs_bounds(rule, events, a, c, r + 1);
    }
}

/// A found event lies within bounds.
proof fn lemma_scan_events_bounds(rule: TemporalRule, events: Seq<TimelineEvent>, a: int, c: int, r: int, j: int)
    requires
        0 <= j,
    ensures
        scan_events(rule, events, a, c, r, j) matches Some(j2) ==> j <= j2 < events.len(),
    decreases events.len() - j,
{
    if j < events.len() {
        lemma_scan_events_bounds(rule, events, a, c, r, j + 1);
    }
}


/// The finding at anchor `a`, if the rule fires there.
fn finding_at_anchor(rule: &TemporalRule, within: i64, events: &[TimelineEvent], a: usize) -> (r: Option<TemporalFinding>)
    requires
        within == sat_ns(rule.within_seconds),
        a < events@.len(),
    ensures
        match r {
            Some(f) => finding_at(*rule, events@, a as int) == Some(f@),
            None => finding_at(*rule, events@, a as int) is None,
        },
{
    let anchor = &events[a];
    if !filter_matches(anchor, &rule.anchor) {
        return None;
    }
    let mut matched = match sequence_matches(rule, within, events, a) {
        Some(v) => v,
        None => {
            return None;
        },
    };
    if !absent_holds(rule, within, events, a) {
        return None;
    }
    if rule.discrepancy.len() == 0 {
        let f = TemporalFinding {
            rule_id: rule.id.clone(),
            title: rule.title.clone(),
            severity: rule.severity.clone(),
            anchor_record_hash: anchor.record_hash.clone(),
            matched_record_hashes: matched,
            discrepancy: None,
        };
        return Some(f);
    }
    match scan_clauses_of(rule, events, a) {
        None => None,
        Some((c, r, j)) => {
            let other = &events[j];
            let d: i128 = (other.timestamp_ns as i128) - (anchor.timestamp_ns as i128);
            let ad: i128 = if d < 0 {
                -d
            } else {
                d
            };
            let delta: i64 = if ad > i64::MAX as i128 {
                i64::MAX
            } else {
                ad as i64
            };
            let detail = DiscrepancyDetail {
                entity_key: anchor.entity_refs[r].key(),
                anchor_source: owned(anchor.source.debug_name()),
                anchor_timestamp_ns: anchor.timestamp_ns,
                compare_source: rule.discrepancy[c].compare_source.clone(),
                compare_timestamp_ns: other.timestamp_ns,
                delta_ns: delta,
            };
            let ghost before = matched@;
            matched.push(other.record_hash.clone());
            assert(string_views(matched@) =~= string_views(before).push(other.record_hash@));
            let f = TemporalFinding {
                rule_id: rule.id.clone(),
                title: rule.title.clone(),
                severity: rule.severity.clone(),
                anchor_record_hash: anchor.record_hash.clone(),
                matched_record_hashes: matched,
                discrepancy: Some(detail),
            };
            Some(f)
        },
    }
}

/// Evaluate a rule against a slice of timeline events.
///
/// Returns one finding per anchor event (in event order) at which the rule
/// fires: the event satisfies the anchor filter; every sequence clause has a
/// match in the anchor's window (the first such event in slice order is
/// recorded); no absent clause has one; and, when discrepancy clauses are
/// given, one of them finds a contradiction (the first clause, then anchor
/// entity, then compared event in slice order). The window holds the other
/// records within `within_seconds` of the anchor on either side; a compared
/// event is searched for in the whole slice.
pub fn evaluate_temporal(rule: &TemporalRule, events: &[TimelineEvent]) -> (r: Vec<TemporalFinding>)
    ensures
        finding_views(r@) == findings_upto(*rule, events@, events@.len() as int),
{
    let within = seconds_to_ns(rule.within_seconds);
    let mut findings: Vec<TemporalFinding> = Vec::new();
    let mut i: usize = 0;
    while i < events.len()
        invariant
            i <= events@.len(),
            within == sat_ns(rule.within_seconds),
            finding_views(findings@) == findings_upto(*rule, events@, i as int),
        decreases events@.len() - i,
    {
        match finding_at_anchor(rule, within, events, i) {
            Some(f) => {
                let ghost before = findings@;
                findings.push(f);
                assert(finding_views(findings@) =~= finding_views(before).push(f@));
            },
            None => {},
        }
        i = i + 1;
    }
    findings
}


/// An event filter as plain values.
pub struct SpecFilter {
    pub event_type: Seq<char>,
    pub source: Option<Seq<char>>,
    pub description_contains: Option<Seq<char>>,
}

/// The plain value of an optional string.
pub open spec fn opt_view(o: Option<String>) -> Option<Seq<char>> {
    match o {
        Some(s) => Some(s@),
        None => None,
    }
}

impl View for EventTypeFilter {
    type V = SpecFilter;

    open spec fn view(&self) -> SpecFilter {
        SpecFilter {
            event_type: self.event_type@,
            source: opt_view(self.source),
            description_contains: opt_view(self.description_contains),
        }
    }
}

/// A discrepancy clause as plain values.
pub struct SpecClause {
    pub entity_role: Seq<char>,
    pub compare_event_type: Seq<char>,
    pub compare_source: Seq<char>,
    pub min_delta_seconds: i64,
    pub direction: Seq<char>,
}

impl View for DiscrepancyClause {
    type V = SpecClause;

    open spec fn view(&self) -> SpecClause {
        SpecClause {
            entity_role: self.entity_role@,
            compare_event_type: self.compare_event_type@,
            compare_source: self.compare_source@,
            min_delta_seconds: self.min_delta_seconds,
            direction: self.direction@,
        }
    }
}

/// A temporal rule as plain values.
#[verifier::ext_equal]
pub struct SpecRule {
    pub id: Seq<char>,
    pub title: Seq<char>,
    pub severity: Seq<char>,
    pub description: Option<Seq<char>>,
    pub within_seconds: i64,
    pub anchor: SpecFilter,
    pub sequence: Seq<SpecFilter>,
    pub absent: Seq<SpecFilter>,
    pub discrepancy: Seq<SpecClause>,
}

impl View for TemporalRule {
    type V = SpecRule;

    open spec fn view(&self) -> SpecRule {
        SpecRule {
            id: self.id@,
            title: self.title@,
            severity: self.severity@,
            description: opt_view(self.description),
            within_seconds: self.within_seconds,
            anchor: self.anchor@,
            sequence: self.sequence@.map_values(|f: EventTypeFilter| f@),
            absent: self.absent@.map_values(|f: EventTypeFilter| f@),
            discrepancy: self.discrepancy@.map_values(|c: DiscrepancyClause| c@),
        }
    }
}

/// A filter on an event type, optionally a source and a description
/// substring.
pub open spec fn spec_filter(
    event_type: Seq<char>,
    source: Option<Seq<char>>,
    description_contains: Option<Seq<char>>,
) -> SpecFilter {
    SpecFilter { event_type, source, description_contains }
}

/// A discrepancy clause from its parts.
pub open spec fn spec_clause(
    entity_role: Seq<char>,
    compare_event_type: Seq<char>,
    compare_source: Seq<char>,
    min_delta_seconds: i64,
    direction: Seq<char>,
) -> SpecClause {
    SpecClause { entity_role, compare_event_type, compare_source, min_delta_seconds, direction }
}

/// The bundled rule set, rule by rule: identifier, title, severity,
/// description, window, anchor filter, sequence and absence filters, and
/// discrepancy clauses.
pub open spec fn bundled_rules_table() -> Seq<SpecRule> {
    seq![
        SpecRule {
            id: "temporal.hollow-process"@,
            title: "Process created with no Prefetch update — possible hollow process"@,
            severity: "high"@,
            description: Some("A process-creation event with no corresponding Prefetch FileModify within 5 seconds may indicate process hollowing or injection."@),
            within_seconds: 5,
            anchor: spec_filter("ProcessExec"@, Some("Event Log"@), None),
            sequence: seq![],
            absent: seq![spec_filter("FileModify"@, Some("Prefetch"@), None)],
            discrepancy: seq![],
        },
        SpecRule {
            id: "temporal.boot-log-predates-mft"@,
            title: "Boot log references file before MFT creation timestamp"@,
            severity: "critical"@,
            description: Some("A system boot log entry references a file at a time before the file's $MFT born time. Consistent with a userspace rootkit that existed prior to its recorded filesystem creation timestamp."@),
            within_seconds: 3600,
            anchor: spec_filter("SystemBoot"@, Some("Event Log"@), None),
            sequence: seq![],
            absent: seq![],
            discrepancy: seq![spec_clause("path"@, "FileCreate"@, "MFT"@, 60, "before"@)],
        },
        SpecRule {
            id: "temporal.timestomping-born-after-modify"@,
            title: "File born time later than modify time — timestomping indicator"@,
            severity: "high"@,
            description: None,
            within_seconds: 86400,
            anchor: spec_filter("FileCreate"@, Some("MFT"@), None),
            sequence: seq![],
            absent: seq![],
            discrepancy: seq![spec_clause("path"@, "FileModify"@, "MFT"@, 1, "after"@)],
        },
        SpecRule {
            id: "temporal.ran-then-deleted"@,
            title: "Executable ran then deleted — anti-forensic or dropper"@,
            severity: "high"@,
            description: None,
            within_seconds: 3600,
            anchor: spec_filter("ProcessExec"@, Some("Prefetch"@), None),
            sequence: seq![spec_filter("FileDelete"@, Some("USN Journal"@), None)],
            absent: seq![],
            discrepancy: seq![],
        },
        SpecRule {
            id: "temporal.pam-hook-artifact"@,
            title: "/tmp/silly.txt created on logon — PAM hook indicator"@,
            severity: "critical"@,
            description: None,
            within_seconds: 10,
            anchor: spec_filter("LogonSuccess"@, None, None),
            sequence: seq![spec_filter("FileCreate"@, None, Some("/tmp/silly.txt"@))],
            absent: seq![],
            discrepancy: seq![],
        },
        SpecRule {
            id: "temporal.sam-security-hive-copy"@,
            title: "SAM hive opened then a file created — consistent with credential-hive copying"@,
            severity: "high"@,
            description: Some("A handle to the SAM registry hive followed within a minute by a file creation is consistent with the hive being copied out for offline credential extraction (T1003.002)."@),
            within_seconds: 60,
            anchor: spec_filter("FileAccess"@, Some("Event Log"@), Some("\\config\\SAM"@)),
            sequence: seq![spec_filter("FileCreate"@, Some("USN Journal"@), None)],
            absent: seq![],
            discrepancy: seq![],
        },
        SpecRule {
            id: "temporal.logon-failure-burst-then-success"@,
            title: "Failed logon followed by a successful logon"@,
            severity: "high"@,
            description: Some("A failed logon followed within five minutes by a successful logon is consistent with password guessing that succeeded (T1110)."@),
            within_seconds: 300,
            anchor: spec_filter("LogonFailure"@, None, None),
            sequence: seq![spec_filter("LogonSuccess"@, None, None)],
            absent: seq![],
            discrepancy: seq![],
        },
        SpecRule {
            id: "temporal.exec-residue-predates-image-mft-birth"@,
            title: "Prefetch execution predates the image's MFT birth"@,
            severity: "high"@,
            description: Some("Execution residue for an image is older than the image's $MFT born time by more than a minute, which is consistent with a backdated or replaced binary."@),
            within_seconds: 86400,
            anchor: spec_filter("ProcessExec"@, Some("Prefetch"@), None),
            sequence: seq![],
            absent: seq![],
            discrepancy: seq![spec_clause("path"@, "FileCreate"@, "MFT"@, 60, "before"@)],
        },
        SpecRule {
            id: "temporal.amcache-exec-predates-mft-born"@,
            title: "Amcache execution predates the image's MFT birth"@,
            severity: "high"@,
            description: Some("An Amcache first-execution time older than the image's $MFT born time by more than a minute is consistent with timestomping of the image."@),
            within_seconds: 86400,
            anchor: spec_filter("ProcessExec"@, Some("Amcache"@), None),
            sequence: seq![],
            absent: seq![],
            discrepancy: seq![spec_clause("path"@, "FileCreate"@, "MFT"@, 60, "before"@)],
        },
        SpecRule {
            id: "temporal.persistence-created-then-dropper-deleted"@,
            title: "Scheduled task created then a file deleted — persistence with dropper cleanup"@,
            severity: "high"@,
            description: Some("A scheduled task registered shortly before a file deletion is consistent with a dropper installing persistence and removing itself."@),
            within_seconds: 300,
            anchor: spec_filter("ScheduledTaskCreate"@, None, None),
            sequence: seq![spec_filter("FileDelete"@, Some("USN Journal"@), None)],
            absent: seq![],
            discrepancy: seq![],
        },
        SpecRule {
            id: "temporal.shadow-copy-deletion-near-mass-delete"@,
            title: "Shadow copies deleted near file deletions"@,
            severity: "critical"@,
            description: Some("Deletion of volume shadow copies followed by file deletions is consistent with ransomware inhibiting recovery (T1490)."@),
            within_seconds: 300,
            anchor: spec_filter("ProcessExec"@, None, Some("delete shadows"@)),
            sequence: seq![spec_filter("FileDelete"@, None, None)],
            absent: seq![],
            discrepancy: seq![],
        },
        SpecRule {
            id: "temporal.backup-catalog-deleted-near-archiver"@,
            title: "Backup catalog deleted near file deletions"@,
            severity: "critical"@,
            description: Some("Deletion of the Windows backup catalog followed by file deletions is consistent with an attempt to prevent restore (T1490)."@),
            within_seconds: 300,
            anchor: spec_filter("ProcessExec"@, None, Some("delete catalog"@)),
            sequence: seq![spec_filter("FileDelete"@, None, None)],
            absent: seq![],
            discrepancy: seq![],
        },
        SpecRule {
            id: "temporal.mass-file-modify-burst"@,
            title: "Burst of file overwrites, creations and deletions"@,
            severity: "high"@,
            description: Some("File overwrites followed within a minute by further overwrites, new files and deletions are consistent with mass encryption (T1486)."@),
            within_seconds: 60,
            anchor: spec_filter("FileModify"@, Some("USN Journal"@), None),
            sequence: seq![spec_filter("FileModify"@, None, None), spec_filter("FileCreate"@, None, None), spec_filter("FileDelete"@, None, None)],
            absent: seq![],
            discrepancy: seq![],
        },
        SpecRule {
            id: "temporal.service-install-then-start-exec"@,
            title: "Service installed, started and executed in quick succession"@,
            severity: "high"@,
            description: Some("A service installation followed within a minute by the service starting and a process execution is consistent with service-based execution (T1543.003)."@),
            within_seconds: 60,
            anchor: spec_filter("ServiceInstall"@, None, None),
            sequence: seq![spec_filter("ServiceStart"@, None, None), spec_filter("ProcessExec"@, None, None)],
            absent: seq![],
            discrepancy: seq![],
        },
        SpecRule {
            id: "temporal.scheduled-task-create-run-burst"@,
            title: "Scheduled task created then run with an execution"@,
            severity: "medium"@,
            description: Some("A scheduled task created, run and followed by a process execution within a minute is consistent with task-based execution (T1053.005)."@),
            within_seconds: 60,
            anchor: spec_filter("ScheduledTaskCreate"@, None, None),
            sequence: seq![spec_filter("ScheduledTaskRun"@, None, None), spec_filter("ProcessExec"@, None, None)],
            absent: seq![],
            discrepancy: seq![],
        },
        SpecRule {
            id: "temporal.crontab-modified-near-process-exec"@,
            title: "Crontab modified near a process execution"@,
            severity: "medium"@,
            description: Some("A crontab modification within a minute of a process execution is consistent with cron-based persistence (T1053.003)."@),
            within_seconds: 60,
            anchor: spec_filter("FileModify"@, Some("Crontab"@), None),
            sequence: seq![spec_filter("ProcessExec"@, None, None)],
            absent: seq![],
            discrepancy: seq![],
        },
        SpecRule {
            id: "temporal.scheduled-task-created-no-logon"@,
            title: "Scheduled task created with no nearby logon"@,
            severity: "medium"@,
            description: Some("A scheduled task registered with no logon within five minutes is consistent with creation by a resident process rather than an interactive user."@),
            within_seconds: 300,
            anchor: spec_filter("ScheduledTaskCreate"@, None, None),
            sequence: seq![],
            absent: seq![spec_filter("LogonSuccess"@, None, None)],
            discrepancy: seq![],
        },
        SpecRule {
            id: "temporal.new-admin-account-then-logon"@,
            title: "Account created, privileged, then used to log on"@,
            severity: "high"@,
            description: Some("A new account that gains a privilege change and then logs on within five minutes is consistent with attacker-created administrative access (T1136)."@),
            within_seconds: 300,
            anchor: spec_filter("UserAccountChange"@, None, None),
            sequence: seq![spec_filter("PolicyChange"@, None, None), spec_filter("LogonSuccess"@, None, None)],
            absent: seq![],
            discrepancy: seq![],
        },
        SpecRule {
            id: "temporal.exec-without-process-creation-log"@,
            title: "Prefetch execution without a process-creation log entry"@,
            severity: "medium"@,
            description: Some("A Prefetch execution with no process-creation event log entry within a minute is consistent with cleared or suppressed logging."@),
            within_seconds: 60,
            anchor: spec_filter("ProcessExec"@, Some("Prefetch"@), None),
            sequence: seq![],
            absent: seq![spec_filter("ProcessExec"@, Some("Event Log"@), None)],
            discrepancy: seq![],
        },
        SpecRule {
            id: "temporal.network-logon-then-service-install"@,
            title: "Network logon followed by a service installation"@,
            severity: "high"@,
            description: Some("A network logon (type 3) followed within five minutes by a service installation is consistent with remote service execution such as PsExec (T1021.002)."@),
            within_seconds: 300,
            anchor: spec_filter("LogonSuccess"@, None, Some("Logon Type 3"@)),
            sequence: seq![spec_filter("ServiceInstall"@, None, None)],
            absent: seq![],
            discrepancy: seq![],
        },
        SpecRule {
            id: "temporal.remote-scheduled-task-create-run"@,
            title: "Scheduled task created then run shortly after"@,
            severity: "medium"@,
            description: Some("A scheduled task that runs within five minutes of its creation is consistent with remote task-based execution (T1053.005)."@),
            within_seconds: 300,
            anchor: spec_filter("ScheduledTaskCreate"@, None, None),
            sequence: seq![spec_filter("ScheduledTaskRun"@, None, None)],
            absent: seq![],
            discrepancy: seq![],
        },
        SpecRule {
            id: "temporal.service-install-then-start"@,
            title: "Service installed then started within a minute"@,
            severity: "medium"@,
            description: Some("A service that starts within a minute of its installation is consistent with service creation for execution (T1543.003)."@),
            within_seconds: 60,
            anchor: spec_filter("ServiceInstall"@, None, None),
            sequence: seq![spec_filter("ServiceStart"@, None, None)],
            absent: seq![],
            discrepancy: seq![],
        },
    ]
}

/// A discrepancy clause.
fn clause(entity_role: &str, compare_event_type: &str, compare_source: &str, min_delta_seconds: i64, direction: &str) -> (c: DiscrepancyClause)
    ensures
        c.entity_role@ == entity_role@,
        c.compare_event_type@ == compare_event_type@,
        c.compare_source@ == compare_source@,
        c.min_delta_seconds == min_delta_seconds,
        c.direction@ == direction@,
        c@ == spec_clause(entity_role@, compare_event_type@, compare_source@, min_delta_seconds, direction@),
{
    DiscrepancyClause {
        entity_role: owned(entity_role),
        compare_event_type: owned(compare_event_type),
        compare_source: owned(compare_source),
        min_delta_seconds,
        direction: owned(direction),
    }
}

/// A rule from its parts.
fn rule(
    id: &str,
    title: &str,
    severity: &str,
    description: Option<&str>,
    within_seconds: i64,
    anchor: EventTypeFilter,
    sequence: Vec<EventTypeFilter>,
    absent: Vec<EventTypeFilter>,
    discrepancy: Vec<DiscrepancyClause>,
) -> (r: TemporalRule)
    ensures
        r.id@ == id@,
        r.title@ == title@,
        r.severity@ == severity@,
        r.within_seconds == within_seconds,
        r.anchor == anchor,
        r.sequence == sequence,
        r.absent == absent,
        r.discrepancy == discrepancy,
        r@ == (SpecRule {
            id: id@,
            title: title@,
            severity: severity@,
            description: match description {
                Some(d) => Some(d@),
                None => None,
            },
            within_seconds,
            anchor: anchor@,
            sequence: sequence@.map_values(|f: EventTypeFilter| f@),
            absent: absent@.map_values(|f: EventTypeFilter| f@),
            discrepancy: discrepancy@.map_values(|c: DiscrepancyClause| c@),
        }),
{
    TemporalRule {
        id: owned(id),
        title: owned(title),
        severity: owned(severity),
        description: match description {
            Some(d) => Some(owned(d)),
            None => None,
        },
        within_seconds,
        anchor,
        sequence,
        absent,
        discrepancy,
    }
}

/// The bundled rule set shared by every consumer that evaluates temporal rules.
pub fn bundled_temporal_rules() -> (rules: Vec<TemporalRule>)
    ensures
        rules@.len() == bundled_rules_table().len(),
        forall|k: int| 0 <= k < rules@.len() ==> (#[trigger] rules@[k])@ == bundled_rules_table()[k],
{
    let mut rules: Vec<TemporalRule> = Vec::new();
    rules.push(rule(
        "temporal.hollow-process",
        "Process created with no Prefetch update — possible hollow process",
        "high",
        Some("A process-creation event with no corresponding Prefetch FileModify within 5 seconds may indicate process hollowing or injection."),
        5,
        EventTypeFilter::new("ProcessExec").with_source("Event Log"),
        Vec::new(),
        vec![EventTypeFilter::new("FileModify").with_source("Prefetch")],
        Vec::new(),
    ));
    rules.push(rule(
        "temporal.boot-log-predates-mft",
        "Boot log references file before MFT creation timestamp",
        "critical",
        Some("A system boot log entry references a file at a time before the file's $MFT born time. Consistent with a userspace rootkit that existed prior to its recorded filesystem creation timestamp."),
        3600,
        EventTypeFilter::new("SystemBoot").with_source("Event Log"),
        Vec::new(),
        Vec::new(),
        vec![clause("path", "FileCreate", "MFT", 60, "before")],
    ));
    rules.push(rule(
        "temporal.timestomping-born-after-modify",
        "File born time later than modify time — timestomping indicator",
        "high",
        None,
        86400,
        EventTypeFilter::new("FileCreate").with_source("MFT"),
        Vec::new(),
        Vec::new(),
        vec![clause("path", "FileModify", "MFT", 1, "after")],
    ));
    rules.push(rule(
        "temporal.ran-then-deleted",
        "Executable ran then deleted — anti-forensic or dropper",
        "high",
        None,
        3600,
        EventTypeFilter::new("ProcessExec").with_source("Prefetch"),
        vec![EventTypeFilter::new("FileDelete").with_source("USN Journal")],
        Vec::new(),
        Vec::new(),
    ));
    rules.push(rule(
        "temporal.pam-hook-artifact",
        "/tmp/silly.txt created on logon — PAM hook indicator",
        "critical",
        None,
        10,
        EventTypeFilter::new("LogonSuccess"),
        vec![EventTypeFilter::new("FileCreate").with_description("/tmp/silly.txt")],
        Vec::new(),
        Vec::new(),
    ));
    rules.push(rule(
        "temporal.sam-security-hive-copy",
        "SAM hive opened then a file created — consistent with credential-hive copying",
        "high",
        Some("A handle to the SAM registry hive followed within a minute by a file creation is consistent with the hive being copied out for offline credential extraction (T1003.002)."),
        60,
        EventTypeFilter::new("FileAccess").with_source("Event Log").with_description("\\config\\SAM"),
        vec![EventTypeFilter::new("FileCreate").with_source("USN Journal")],
        Vec::new(),
        Vec::new(),
    ));
    rules.push(rule(
        "temporal.logon-failure-burst-then-success",
        "Failed logon followed by a successful logon",
        "high",
        Some("A failed logon followed within five minutes by a successful logon is consistent with password guessing that succeeded (T1110)."),
        300,
        EventTypeFilter::new("LogonFailure"),
        vec![EventTypeFilter::new("LogonSuccess")],
        Vec::new(),
        Vec::new(),
    ));
    rules.push(rule(
        "temporal.exec-residue-predates-image-mft-birth",
        "Prefetch execution predates the image's MFT birth",
        "high",
        Some("Execution residue for an image is older than the image's $MFT born time by more than a minute, which is consistent with a backdated or replaced binary."),
        86400,
        EventTypeFilter::new("ProcessExec").with_source("Prefetch"),
        Vec::new(),
        Vec::new(),
        vec![clause("path", "FileCreate", "MFT", 60, "before")],
    ));
    rules.push(rule(
        "temporal.amcache-exec-predates-mft-born",
        "Amcache execution predates the image's MFT birth",
        "high",
        Some("An Amcache first-execution time older than the image's $MFT born time by more than a minute is consistent with timestomping of the image."),
        86400,
        EventTypeFilter::new("ProcessExec").with_source("Amcache"),
        Vec::new(),
        Vec::new(),
        vec![clause("path", "FileCreate", "MFT", 60, "before")],
    ));
    rules.push(rule(
        "temporal.persistence-created-then-dropper-deleted",
        "Scheduled task created then a file deleted — persistence with dropper cleanup",
        "high",
        Some("A scheduled task registered shortly before a file deletion is consistent with a dropper installing persistence and removing itself."),
        300,
        EventTypeFilter::new("ScheduledTaskCreate"),
        vec![EventTypeFilter::new("FileDelete").with_source("USN Journal")],
        Vec::new(),
        Vec::new(),
    ));
    rules.push(rule(
        "temporal.shadow-copy-deletion-near-mass-delete",
        "Shadow copies deleted near file deletions",
        "critical",
        Some("Deletion of volume shadow copies followed by file deletions is consistent with ransomware inhibiting recovery (T1490)."),
        300,
        EventTypeFilter::new("ProcessExec").with_description("delete shadows"),
        vec![EventTypeFilter::new("FileDelete")],
        Vec::new(),
        Vec::new(),
    ));
    rules.push(rule(
        "temporal.backup-catalog-deleted-near-archiver",
        "Backup catalog deleted near file deletions",
        "critical",
        Some("Deletion of the Windows backup catalog followed by file deletions is consistent with an attempt to prevent restore (T1490)."),
        300,
        EventTypeFilter::new("ProcessExec").with_description("delete catalog"),
        vec![EventTypeFilter::new("FileDelete")],
        Vec::new(),
        Vec::new(),
    ));
    rules.push(rule(
        "temporal.mass-file-modify-burst",
        "Burst of file overwrites, creations and deletions",
        "high",
        Some("File overwrites followed within a minute by further overwrites, new files and deletions are consistent with mass encryption (T1486)."),
        60,
        EventTypeFilter::new("FileModify").with_source("USN Journal"),
        vec![EventTypeFilter::new("FileModify"), EventTypeFilter::new("FileCreate"), EventTypeFilter::new("FileDelete")],
        Vec::new(),
        Vec::new(),
    ));
    rules.push(rule(
        "temporal.service-install-then-start-exec",
        "Service installed, started and executed in quick succession",
        "high",
        Some("A service installation followed within a minute by the service starting and a process execution is consistent with service-based execution (T1543.003)."),
        60,
        EventTypeFilter::new("ServiceInstall"),
        vec![EventTypeFilter::new("ServiceStart"), EventTypeFilter::new("ProcessExec")],
        Vec::new(),
        Vec::new(),
    ));
    rules.push(rule(
        "temporal.scheduled-task-create-run-burst",
        "Scheduled task created then run with an execution",
        "medium",
        Some("A scheduled task created, run and followed by a process execution within a minute is consistent with task-based execution (T1053.005)."),
        60,
        EventTypeFilter::new("ScheduledTaskCreate"),
        vec![EventTypeFilter::new("ScheduledTaskRun"), EventTypeFilter::new("ProcessExec")],
        Vec::new(),
        Vec::new(),
    ));
    rules.push(rule(
        "temporal.crontab-modified-near-process-exec",
        "Crontab modified near a process execution",
        "medium",
        Some("A crontab modification within a minute of a process execution is consistent with cron-based persistence (T1053.003)."),
        60,
        EventTypeFilter::new("FileModify").with_source("Crontab"),
        vec![EventTypeFilter::new("ProcessExec")],
        Vec::new(),
        Vec::new(),
    ));
    rules.push(rule(
        "temporal.scheduled-task-created-no-logon",
        "Scheduled task created with no nearby logon",
        "medium",
        Some("A scheduled task registered with no logon within five minutes is consistent with creation by a resident process rather than an interactive user."),
        300,
        EventTypeFilter::new("ScheduledTaskCreate"),
        Vec::new(),
        vec![EventTypeFilter::new("LogonSuccess")],
        Vec::new(),
    ));
    rules.push(rule(
        "temporal.new-admin-account-then-logon",
        "Account created, privileged, then used to log on",
        "high",
        Some("A new account that gains a privilege change and then logs on within five minutes is consistent with attacker-created administrative access (T1136)."),
        300,
        EventTypeFilter::new("UserAccountChange"),
        vec![EventTypeFilter::new("PolicyChange"), EventTypeFilter::new("LogonSuccess")],
        Vec::new(),
        Vec::new(),
    ));
    rules.push(rule(
        "temporal.exec-without-process-creation-log",
        "Prefetch execution without a process-creation log entry",
        "medium",
        Some("A Prefetch execution with no process-creation event log entry within a minute is consistent with cleared or suppressed logging."),
        60,
        EventTypeFilter::new("ProcessExec").with_source("Prefetch"),
        Vec::new(),
        vec![EventTypeFilter::new("ProcessExec").with_source("Event Log")],
        Vec::new(),
    ));
    rules.push(rule(
        "temporal.network-logon-then-service-install",
        "Network logon followed by a service installation",
        "high",
        Some("A network logon (type 3) followed within five minutes by a service installation is consistent with remote service execution such as PsExec (T1021.002)."),
        300,
        EventTypeFilter::new("LogonSuccess").with_description("Logon Type 3"),
        vec![EventTypeFilter::new("ServiceInstall")],
        Vec::new(),
        Vec::new(),
    ));
    rules.push(rule(
        "temporal.remote-scheduled-task-create-run",
        "Scheduled task created then run shortly after",
        "medium",
        Some("A scheduled task that runs within five minutes of its creation is consistent with remote task-based execution (T1053.005)."),
        300,
        EventTypeFilter::new("ScheduledTaskCreate"),
        vec![EventTypeFilter::new("ScheduledTaskRun")],
        Vec::new(),
        Vec::new(),
    ));
    rules.push(rule(
        "temporal.service-install-then-start",
        "Service installed then started within a minute",
        "medium",
        Some("A service that starts within a minute of its installation is consistent with service creation for execution (T1543.003)."),
        60,
        EventTypeFilter::new("ServiceInstall"),
        vec![EventTypeFilter::new("ServiceStart")],
        Vec::new(),
        Vec::new(),
    ));
    assert(rules@.map_values(|r: TemporalRule| r@) =~~= bundled_rules_table());
    assert forall|k: int| 0 <= k < rules@.len() implies (#[trigger] rules@[k])@ == bundled_rules_table()[k] by {
        assert(rules@.map_values(|r: TemporalRule| r@)[k] == rules@[k]@);
    }
    rules
}


/// The bundled rule set is well formed: identifiers are pairwise distinct,
/// every severity is `critical`, `high`, `medium` or `low`, every window is
/// positive, and every discrepancy clause joins on a known entity role
/// (`path`, `process`, `user`, `ip`, `session`) in direction `before` or
/// `after`.
#[verifier::rlimit(50)]
pub proof fn law_bundled_rules_well_formed()
    ensures
        forall|i: int, j: int|
            0 <= i < j < bundled_rules_table().len() ==> bundled_rules_table()[i].id != bundled_rules_table()[j].id,
        forall|k: int|
            0 <= k < bundled_rules_table().len() ==> {
                let r = #[trigger] bundled_rules_table()[k];
                &&& (r.severity == "critical"@ || r.severity == "high"@ || r.severity == "medium"@
                    || r.severity == "low"@)
                &&& r.within_seconds > 0
                &&& forall|m: int|
                    0 <= m < r.discrepancy.len() ==> {
                        let c = #[trigger] r.discrepancy[m];
                        &&& (c.direction == "before"@ || c.direction == "after"@)
                        &&& (c.entity_role == "path"@ || c.entity_role == "process"@ || c.entity_role
                            == "user"@ || c.entity_role == "ip"@ || c.entity_role == "session"@)
                    }
            },
{
    reveal_strlit("temporal.hollow-process");
    reveal_strlit("temporal.boot-log-predates-mft");
    reveal_strlit("temporal.timestomping-born-after-modify");
    reveal_strlit("temporal.ran-then-deleted");
    reveal_strlit("temporal.pam-hook-artifact");
    reveal_strlit("temporal.sam-security-hive-copy");
    reveal_strlit("temporal.logon-failure-burst-then-success");
    reveal_strlit("temporal.exec-residue-predates-image-mft-birth");
    reveal_strlit("temporal.amcache-exec-predates-mft-born");
    reveal_strlit("temporal.persistence-created-then-dropper-deleted");
    reveal_strlit("temporal.shadow-copy-deletion-near-mass-delete");
    reveal_strlit("temporal.backup-catalog-deleted-near-archiver");
    reveal_strlit("temporal.mass-file-modify-burst");
    reveal_strlit("temporal.service-install-then-start-exec");
    reveal_strlit("temporal.scheduled-task-create-run-burst");
    reveal_strlit("temporal.crontab-modified-near-process-exec");
    reveal_strlit("temporal.scheduled-task-created-no-logon");
    reveal_strlit("temporal.new-admin-account-then-logon");
    reveal_strlit("temporal.exec-without-process-creation-log");
    reveal_strlit("temporal.network-logon-then-service-install");
    reveal_strlit("temporal.remote-scheduled-task-create-run");
    reveal_strlit("temporal.service-install-then-start");
    let t = bundled_rules_table();
    // Each pair of identifiers differs in length or at a named position.
    assert forall|i: int, j: int| 0 <= i < j < t.len() implies t[i].id != t[j].id by {
        if i == 0 && j == 1 {
            assert(t[0].id.len() != t[1].id.len());
        } else if i == 0 && j == 2 {
            assert(t[0].id.len() != t[2].id.len());
        } else if i == 0 && j == 3 {
            assert(t[0].id.len() != t[3].id.len());
        } else if i == 0 && j == 4 {
            assert(t[0].id.len() != t[4].id.len());
        } else if i == 0 && j == 5 {
            assert(t[0].id.len() != t[5].id.len());
        } else if i == 0 && j == 6 {
            assert(t[0].id.len() != t[6].id.len());
        } else if i == 0 && j == 7 {
            assert(t[0].id.len() != t[7].id.len());
        } else if i == 0 && j == 8 {
            assert(t[0].id.len() != t[8].id.len());
        } else if i == 0 && j == 9 {
            assert(t[0].id.len() != t[9].id.len());
        } else if i == 0 && j == 10 {
            assert(t[0].id.len() != t[10].id.len());
        } else if i == 0 && j == 11 {
            assert(t[0].id.len() != t[11].id.len());
        } else if i == 0 && j == 12 {
            assert(t[0].id.len() != t[12].id.len());
        } else if i == 0 && j == 13 {
            assert(t[0].id.len() != t[13].id.len());
        } else if i == 0 && j == 14 {
            assert(t[0].id.len() != t[14].id.len());
        } else if i == 0 && j == 15 {
            assert(t[0].id.len() != t[15].id.len());
        } else if i == 0 && j == 16 {
            assert(t[0].id.len() != t[16].id.len());
        } else if i == 0 && j == 17 {
            assert(t[0].id.len() != t[17].id.len());
        } else if i == 0 && j == 18 {
            assert(t[0].id.len() != t[18].id.len());
        } else if i == 0 && j == 19 {
            assert(t[0].id.len() != t[19].id.len());
        } else if i == 0 && j == 20 {
            assert(t[0].id.len() != t[20].id.len());
        } else if i == 0 && j == 21 {
            assert(t[0].id.len() != t[21].id.len());
        } else if i == 1 && j == 2 {
            assert(t[1].id.len() != t[2].id.len());
        } else if i == 1 && j == 3 {
            assert(t[1].id.len() != t[3].id.len());
        } else if i == 1 && j == 4 {
            assert(t[1].id.len() != t[4].id.len());
        } else if i == 1 && j == 5 {
            assert(t[1].id.len() != t[5].id.len());
        } else if i == 1 && j == 6 {
            assert(t[1].id.len() != t[6].id.len());
        } else if i == 1 && j == 7 {
            assert(t[1].id.len() != t[7].id.len());
        } else if i == 1 && j == 8 {
            assert(t[1].id.len() != t[8].id.len());
        } else if i == 1 && j == 9 {
            assert(t[1].id.len() != t[9].id.len());
        } else if i == 1 && j == 10 {
            assert(t[1].id.len() != t[10].id.len());
        } else if i == 1 && j == 11 {
            assert(t[1].id.len() != t[11].id.len());
        } else if i == 1 && j == 12 {
            assert(t[1].id.len() != t[12].id.len());
        } else if i == 1 && j == 13 {
            assert(t[1].id.len() != t[13].id.len());
        } else if i == 1 && j == 14 {
            assert(t[1].id.len() != t[14].id.len());
        } else if i == 1 && j == 15 {
            assert(t[1].id.len() != t[15].id.len());
        } else if i == 1 && j == 16 {
            assert(t[1].id.len() != t[16].id.len());
        } else if i == 1 && j == 17 {
            assert(t[1].id.len() != t[17].id.len());
        } else if i == 1 && j == 18 {
            assert(t[1].id.len() != t[18].id.len());
        } else if i == 1 && j == 19 {
            assert(t[1].id.len() != t[19].id.len());
        } else if i == 1 && j == 20 {
            assert(t[1].id.len() != t[20].id.len());
        } else if i == 1 && j == 21 {
            assert(t[1].id.len() != t[21].id.len());
        } else if i == 2 && j == 3 {
            assert(t[2].id.len() != t[3].id.len());
        } else if i == 2 && j == 4 {
            assert(t[2].id.len() != t[4].id.len());
        } else if i == 2 && j == 5 {
            assert(t[2].id.len() != t[5].id.len());
        } else if i == 2 && j == 6 {
            assert(t[2].id.len() != t[6].id.len());
        } else if i == 2 && j == 7 {
            assert(t[2].id.len() != t[7].id.len());
        } else if i == 2 && j == 8 {
            assert(t[2].id[9] != t[8].id[9]);
        } else if i == 2 && j == 9 {
            assert(t[2].id.len() != t[9].id.len());
        } else if i == 2 && j == 10 {
            assert(t[2].id.len() != t[10].id.len());
        } else if i == 2 && j == 11 {
            assert(t[2].id.len() != t[11].id.len());
        } else if i == 2 && j == 12 {
            assert(t[2].id.len() != t[12].id.len());
        } else if i == 2 && j == 13 {
            assert(t[2].id.len() != t[13].id.len());
        } else if i == 2 && j == 14 {
            assert(t[2].id.len() != t[14].id.len());
        } else if i == 2 && j == 15 {
            assert(t[2].id.len() != t[15].id.len());
        } else if i == 2 && j == 16 {
            assert(t[2].id.len() != t[16].id.len());
        } else if i == 2 && j == 17 {
            assert(t[2].id.len() != t[17].id.len());
        } else if i == 2 && j == 18 {
            assert(t[2].id.len() != t[18].id.len());
        } else if i == 2 && j == 19 {
            assert(t[2].id.len() != t[19].id.len());
        } else if i == 2 && j == 20 {
            assert(t[2].id.len() != t[20].id.len());
        } else if i == 2 && j == 21 {
            assert(t[2].id.len() != t[21].id.len());
        } else if i == 3 && j == 4 {
            assert(t[3].id.len() != t[4].id.len());
        } else if i == 3 && j == 5 {
            assert(t[3].id.len() != t[5].id.len());
        } else if i == 3 && j == 6 {
            assert(t[3].id.len() != t[6].id.len());
        } else if i == 3 && j == 7 {
            assert(t[3].id.len() != t[7].id.len());
        } else if i == 3 && j == 8 {
            assert(t[3].id.len() != t[8].id.len());
        } else if i == 3 && j == 9 {
            assert(t[3].id.len() != t[9].id.len());
        } else if i == 3 && j == 10 {
            assert(t[3].id.len() != t[10].id.len());
        } else if i == 3 && j == 11 {
            assert(t[3].id.len() != t[11].id.len());
        } else if i == 3 && j == 12 {
            assert(t[3].id.len() != t[12].id.len());
        } else if i == 3 && j == 13 {
            assert(t[3].id.len() != t[13].id.len());
        } else if i == 3 && j == 14 {
            assert(t[3].id.len() != t[14].id.len());
        } else if i == 3 && j == 15 {
            assert(t[3].id.len() != t[15].id.len());
        } else if i == 3 && j == 16 {
            assert(t[3].id.len() != t[16].id.len());
        } else if i == 3 && j == 17 {
            assert(t[3].id.len() != t[17].id.len());
        } else if i == 3 && j == 18 {
            assert(t[3].id.len() != t[18].id.len());
        } else if i == 3 && j == 19 {
            assert(t[3].id.len() != t[19].id.len());
        } else if i == 3 && j == 20 {
            assert(t[3].id.len() != t[20].id.len());
        } else if i == 3 && j == 21 {
            assert(t[3].id.len() != t[21].id.len());
        } else if i == 4 && j == 5 {
            assert(t[4].id.len() != t[5].id.len());
        } else if i == 4 && j == 6 {
            assert(t[4].id.len() != t[6].id.len());
        } else if i == 4 && j == 7 {
            assert(t[4].id.len() != t[7].id.len());
        } else if i == 4 && j == 8 {
            assert(t[4].id.len() != t[8].id.len());
        } else if i == 4 && j == 9 {
            assert(t[4].id.len() != t[9].id.len());
        } else if i == 4 && j == 10 {
            assert(t[4].id.len() != t[10].id.len());
        } else if i == 4 && j == 11 {
            assert(t[4].id.len() != t[11].id.len());
        } else if i == 4 && j == 12 {
            assert(t[4].id.len() != t[12].id.len());
        } else if i == 4 && j == 13 {
            assert(t[4].id.len() != t[13].id.len());
        } else if i == 4 && j == 14 {
            assert(t[4].id.len() != t[14].id.len());
        } else if i == 4 && j == 15 {
            assert(t[4].id.len() != t[15].id.len());
        } else if i == 4 && j == 16 {
            assert(t[4].id.len() != t[16].id.len());
        } else if i == 4 && j == 17 {
            assert(t[4].id.len() != t[17].id.len());
        } else if i == 4 && j == 18 {
            assert(t[4].id.len() != t[18].id.len());
        } else if i == 4 && j == 19 {
            assert(t[4].id.len() != t[19].id.len());
        } else if i == 4 && j == 20 {
            assert(t[4].id.len() != t[20].id.len());
        } else if i == 4 && j == 21 {
            assert(t[4].id.len() != t[21].id.len());
        } else if i == 5 && j == 6 {
            assert(t[5].id.len() != t[6].id.len());
        } else if i == 5 && j == 7 {
            assert(t[5].id.len() != t[7].id.len());
        } else if i == 5 && j == 8 {
            assert(t[5].id.len() != t[8].id.len());
        } else if i == 5 && j == 9 {
            assert(t[5].id.len() != t[9].id.len());
        } else if i == 5 && j == 10 {
            assert(t[5].id.len() != t[10].id.len());
        } else if i == 5 && j == 11 {
            assert(t[5].id.len() != t[11].id.len());
        } else if i == 5 && j == 12 {
            assert(t[5].id[9] != t[12].id[9]);
        } else if i == 5 && j == 13 {
            assert(t[5].id.len() != t[13].id.len());
        } else if i == 5 && j == 14 {
            assert(t[5].id.len() != t[14].id.len());
        } else if i == 5 && j == 15 {
            assert(t[5].id.len() != t[15].id.len());
        } else if i == 5 && j == 16 {
            assert(t[5].id.len() != t[16].id.len());
        } else if i == 5 && j == 17 {
            assert(t[5].id.len() != t[17].id.len());
        } else if i == 5 && j == 18 {
            assert(t[5].id.len() != t[18].id.len());
        } else if i == 5 && j == 19 {
            assert(t[5].id.len() != t[19].id.len());
        } else if i == 5 && j == 20 {
            assert(t[5].id.len() != t[20].id.len());
        } else if i == 5 && j == 21 {
            assert(t[5].id.len() != t[21].id.len());
        } else if i == 6 && j == 7 {
            assert(t[6].id.len() != t[7].id.len());
        } else if i == 6 && j == 8 {
            assert(t[6].id.len() != t[8].id.len());
        } else if i == 6 && j == 9 {
            assert(t[6].id.len() != t[9].id.len());
        } else if i == 6 && j == 10 {
            assert(t[6].id.len() != t[10].id.len());
        } else if i == 6 && j == 11 {
            assert(t[6].id.len() != t[11].id.len());
        } else if i == 6 && j == 12 {
            assert(t[6].id.len() != t[12].id.len());
        } else if i == 6 && j == 13 {
            assert(t[6].id.len() != t[13].id.len());
        } else if i == 6 && j == 14 {
            assert(t[6].id.len() != t[14].id.len());
        } else if i == 6 && j == 15 {
            assert(t[6].id.len() != t[15].id.len());
        } else if i == 6 && j == 16 {
            assert(t[6].id.len() != t[16].id.len());
        } else if i == 6 && j == 17 {
            assert(t[6].id.len() != t[17].id.len());
        } else if i == 6 && j == 18 {
            assert(t[6].id.len() != t[18].id.len());
        } else if i == 6 && j == 19 {
            assert(t[6].id.len() != t[19].id.len());
        } else if i == 6 && j == 20 {
            assert(t[6].id[9] != t[20].id[9]);
        } else if i == 6 && j == 21 {
            assert(t[6].id.len() != t[21].id.len());
        } else if i == 7 && j == 8 {
            assert(t[7].id.len() != t[8].id.len());
        } else if i == 7 && j == 9 {
            assert(t[7].id.len() != t[9].id.len());
        } else if i == 7 && j == 10 {
            assert(t[7].id[9] != t[10].id[9]);
        } else if i == 7 && j == 11 {
            assert(t[7].id.len() != t[11].id.len());
        } else if i == 7 && j == 12 {
            assert(t[7].id.len() != t[12].id.len());
        } else if i == 7 && j == 13 {
            assert(t[7].id.len() != t[13].id.len());
        } else if i == 7 && j == 14 {
            assert(t[7].id.len() != t[14].id.len());
        } else if i == 7 && j == 15 {
            assert(t[7].id.len() != t[15].id.len());
        } else if i == 7 && j == 16 {
            assert(t[7].id.len() != t[16].id.len());
        } else if i == 7 && j == 17 {
            assert(t[7].id.len() != t[17].id.len());
        } else if i == 7 && j == 18 {
            assert(t[7].id.len() != t[18].id.len());
        } else if i == 7 && j == 19 {
            assert(t[7].id.len() != t[19].id.len());
        } else if i == 7 && j == 20 {
            assert(t[7].id.len() != t[20].id.len());
        } else if i == 7 && j == 21 {
            assert(t[7].id.len() != t[21].id.len());
        } else if i == 8 && j == 9 {
            assert(t[8].id.len() != t[9].id.len());
        } else if i == 8 && j == 10 {
            assert(t[8].id.len() != t[10].id.len());
        } else if i == 8 && j == 11 {
            assert(t[8].id.len() != t[11].id.len());
        } else if i == 8 && j == 12 {
            assert(t[8].id.len() != t[12].id.len());
        } else if i == 8 && j == 13 {
            assert(t[8].id.len() != t[13].id.len());
        } else if i == 8 && j == 14 {
            assert(t[8].id.len() != t[14].id.len());
        } else if i == 8 && j == 15 {
            assert(t[8].id.len() != t[15].id.len());
        } else if i == 8 && j == 16 {
            assert(t[8].id.len() != t[16].id.len());
        } else if i == 8 && j == 17 {
            assert(t[8].id.len() != t[17].id.len());
        } else if i == 8 && j == 18 {
            assert(t[8].id.len() != t[18].id.len());
        } else if i == 8 && j == 19 {
            assert(t[8].id.len() != t[19].id.len());
        } else if i == 8 && j == 20 {
            assert(t[8].id.len() != t[20].id.len());
        } else if i == 8 && j == 21 {
            assert(t[8].id.len() != t[21].id.len());
        } else if i == 9 && j == 10 {
            assert(t[9].id.len() != t[10].id.len());
        } else if i == 9 && j == 11 {
            assert(t[9].id.len() != t[11].id.len());
        } else if i == 9 && j == 12 {
            assert(t[9].id.len() != t[12].id.len());
        } else if i == 9 && j == 13 {
            assert(t[9].id.len() != t[13].id.len());
        } else if i == 9 && j == 14 {
            assert(t[9].id.len() != t[14].id.len());
        } else if i == 9 && j == 15 {
            assert(t[9].id.len() != t[15].id.len());
        } else if i == 9 && j == 16 {
            assert(t[9].id.len() != t[16].id.len());
        } else if i == 9 && j == 17 {
            assert(t[9].id.len() != t[17].id.len());
        } else if i == 9 && j == 18 {
            assert(t[9].id.len() != t[18].id.len());
        } else if i == 9 && j == 19 {
            assert(t[9].id.len() != t[19].id.len());
        } else if i == 9 && j == 20 {
            assert(t[9].id.len() != t[20].id.len());
        } else if i == 9 && j == 21 {
            assert(t[9].id.len() != t[21].id.len());
        } else if i == 10 && j == 11 {
            assert(t[10].id.len() != t[11].id.len());
        } else if i == 10 && j == 12 {
            assert(t[10].id.len() != t[12].id.len());
        } else if i == 10 && j == 13 {
            assert(t[10].id.len() != t[13].id.len());
        } else if i == 10 && j == 14 {
            assert(t[10].id.len() != t[14].id.len());
        } else if i == 10 && j == 15 {
            assert(t[10].id.len() != t[15].id.len());
        } else if i == 10 && j == 16 {
            assert(t[10].id.len() != t[16].id.len());
        } else if i == 10 && j == 17 {
            assert(t[10].id.len() != t[17].id.len());
        } else if i == 10 && j == 18 {
            assert(t[10].id.len() != t[18].id.len());
        } else if i == 10 && j == 19 {
            assert(t[10].id.len() != t[19].id.len());
        } else if i == 10 && j == 20 {
            assert(t[10].id.len() != t[20].id.len());
        } else if i == 10 && j == 21 {
            assert(t[10].id.len() != t[21].id.len());
        } else if i == 11 && j == 12 {
            assert(t[11].id.len() != t[12].id.len());
        } else if i == 11 && j == 13 {
            assert(t[11].id.len() != t[13].id.len());
        } else if i == 11 && j == 14 {
            assert(t[11].id.len() != t[14].id.len());
        } else if i == 11 && j == 15 {
            assert(t[11].id.len() != t[15].id.len());
        } else if i == 11 && j == 16 {
            assert(t[11].id.len() != t[16].id.len());
        } else if i == 11 && j == 17 {
            assert(t[11].id.len() != t[17].id.len());
        } else if i == 11 && j == 18 {
            assert(t[11].id.len() != t[18].id.len());
        } else if i == 11 && j == 19 {
            assert(t[11].id.len() != t[19].id.len());
        } else if i == 11 && j == 20 {
            assert(t[11].id.len() != t[20].id.len());
        } else if i == 11 && j == 21 {
            assert(t[11].id.len() != t[21].id.len());
        } else if i == 12 && j == 13 {
            assert(t[12].id.len() != t[13].id.len());
        } else if i == 12 && j == 14 {
            assert(t[12].id.len() != t[14].id.len());
        } else if i == 12 && j == 15 {
            assert(t[12].id.len() != t[15].id.len());
        } else if i == 12 && j == 16 {
            assert(t[12].id.len() != t[16].id.len());
        } else if i == 12 && j == 17 {
            assert(t[12].id.len() != t[17].id.len());
        } else if i == 12 && j == 18 {
            assert(t[12].id.len() != t[18].id.len());
        } else if i == 12 && j == 19 {
            assert(t[12].id.len() != t[19].id.len());
        } else if i == 12 && j == 20 {
            assert(t[12].id.len() != t[20].id.len());
        } else if i == 12 && j == 21 {
            assert(t[12].id.len() != t[21].id.len());
        } else if i == 13 && j == 14 {
            assert(t[13].id[10] != t[14].id[10]);
        } else if i == 13 && j == 15 {
            assert(t[13].id.len() != t[15].id.len());
        } else if i == 13 && j == 16 {
            assert(t[13].id[10] != t[16].id[10]);
        } else if i == 13 && j == 17 {
            assert(t[13].id.len() != t[17].id.len());
        } else if i == 13 && j == 18 {
            assert(t[13].id.len() != t[18].id.len());
        } else if i == 13 && j == 19 {
            assert(t[13].id.len() != t[19].id.len());
        } else if i == 13 && j == 20 {
            assert(t[13].id.len() != t[20].id.len());
        } else if i == 13 && j == 21 {
            assert(t[13].id.len() != t[21].id.len());
        } else if i == 14 && j == 15 {
            assert(t[14].id.len() != t[15].id.len());
        } else if i == 14 && j == 16 {
            assert(t[14].id[30] != t[16].id[30]);
        } else if i == 14 && j == 17 {
            assert(t[14].id.len() != t[17].id.len());
        } else if i == 14 && j == 18 {
            assert(t[14].id.len() != t[18].id.len());
        } else if i == 14 && j == 19 {
            assert(t[14].id.len() != t[19].id.len());
        } else if i == 14 && j == 20 {
            assert(t[14].id.len() != t[20].id.len());
        } else if i == 14 && j == 21 {
            assert(t[14].id.len() != t[21].id.len());
        } else if i == 15 && j == 16 {
            assert(t[15].id.len() != t[16].id.len());
        } else if i == 15 && j == 17 {
            assert(t[15].id.len() != t[17].id.len());
        } else if i == 15 && j == 18 {
            assert(t[15].id.len() != t[18].id.len());
        } else if i == 15 && j == 19 {
            assert(t[15].id[9] != t[19].id[9]);
        } else if i == 15 && j == 20 {
            assert(t[15].id.len() != t[20].id.len());
        } else if i == 15 && j == 21 {
            assert(t[15].id.len() != t[21].id.len());
        } else if i == 16 && j == 17 {
            assert(t[16].id.len() != t[17].id.len());
        } else if i == 16 && j == 18 {
            assert(t[16].id.len() != t[18].id.len());
        } else if i == 16 && j == 19 {
            assert(t[16].id.len() != t[19].id.len());
        } else if i == 16 && j == 20 {
            assert(t[16].id.len() != t[20].id.len());
        } else if i == 16 && j == 21 {
            assert(t[16].id.len() != t[21].id.len());
        } else if i == 17 && j == 18 {
            assert(t[17].id.len() != t[18].id.len());
        } else if i == 17 && j == 19 {
            assert(t[17].id.len() != t[19].id.len());
        } else if i == 17 && j == 20 {
            assert(t[17].id.len() != t[20].id.len());
        } else if i == 17 && j == 21 {
            assert(t[17].id.len() != t[21].id.len());
        } else if i == 18 && j == 19 {
            assert(t[18].id.len() != t[19].id.len());
        } else if i == 18 && j == 20 {
            assert(t[18].id.len() != t[20].id.len());
        } else if i == 18 && j == 21 {
            assert(t[18].id.len() != t[21].id.len());
        } else if i == 19 && j == 20 {
            assert(t[19].id.len() != t[20].id.len());
        } else if i == 19 && j == 21 {
            assert(t[19].id.len() != t[21].id.len());
        } else if i == 20 && j == 21 {
            assert(t[20].id.len() != t[21].id.len());
        }
    }
}

/// Every finding among the first `n` comes from some anchor before `n`, and
/// there are at most `n` of them.
proof fn lemma_findings_come_from_anchors(rule: TemporalRule, events: Seq<TimelineEvent>, n: int)
    ensures
        findings_upto(rule, events, n).len() <= if n < 0 { 0 } else { n },
        forall|k: int|
            0 <= k < findings_upto(rule, events, n).len() ==> exists|a: int|
                0 <= a < n && finding_at(rule, events, a) == Some(
                    #[trigger] findings_upto(rule, events, n)[k],
                ),
    decreases n,
{
    if n > 0 {
        lemma_findings_come_from_anchors(rule, events, n - 1);
        let before = findings_upto(rule, events, n - 1);
        let now = findings_upto(rule, events, n);
        assert forall|k: int| 0 <= k < now.len() implies exists|a: int|
            0 <= a < n && finding_at(rule, events, a) == Some(#[trigger] now[k]) by {
            if k < before.len() {
                assert(now[k] == before[k]);
                let a = choose|a: int| 0 <= a < n - 1 && finding_at(rule, events, a) == Some(before[k]);
                assert(finding_at(rule, events, a) == Some(now[k]));
            } else {
                assert(finding_at(rule, events, n - 1) == Some(now[k]));
            }
        }
    }
}

/// What every finding of a rule satisfies: it names the rule, its anchor
/// satisfies the anchor filter, it records one hash per sequence clause plus
/// one for a discrepancy, and it carries a discrepancy exactly when the rule
/// has discrepancy clauses.
pub open spec fn well_formed_finding(rule: TemporalRule, events: Seq<TimelineEvent>, f: SpecFinding) -> bool {
    &&& f.rule_id == rule.id@
    &&& f.title == rule.title@
    &&& f.severity == rule.severity@
    &&& exists|a: int|
        0 <= a < events.len() && filter_ok(events[a], rule.anchor) && #[trigger] events[a].record_hash@
            == f.anchor_hash
    &&& (rule.discrepancy@.len() == 0 ==> f.discrepancy is None && f.matched.len() == rule.sequence@.len())
    &&& (rule.discrepancy@.len() > 0 ==> f.discrepancy is Some && f.matched.len() == rule.sequence@.len() + 1)
}

/// The sequence hashes, when present, hold one hash per clause.
proof fn lemma_sequence_hashes_len(rule: TemporalRule, events: Seq<TimelineEvent>, a: int, k: nat)
    ensures
        sequence_hashes(rule, events, a, k) matches Some(h) ==> h.len() == k,
    decreases k,
{
    if k > 0 {
        lemma_sequence_hashes_len(rule, events, a, (k - 1) as nat);
    }
}

/// Every finding of `evaluate_temporal` names its rule, is anchored at
/// an event satisfying the anchor filter, records one hash per sequence
/// clause (plus the compared event's for a discrepancy), and carries a
/// discrepancy detail exactly when the rule has discrepancy clauses; there
/// are never more findings than events.
pub proof fn law_findings_are_anchored(rule: TemporalRule, events: Seq<TimelineEvent>)
    ensures
        findings_upto(rule, events, events.len() as int).len() <= events.len(),
        forall|k: int|
            0 <= k < findings_upto(rule, events, events.len() as int).len() ==> well_formed_finding(
                rule,
                events,
                #[trigger] findings_upto(rule, events, events.len() as int)[k],
            ),
{
    let n = events.len() as int;
    lemma_findings_come_from_anchors(rule, events, n);
    assert forall|k: int| 0 <= k < findings_upto(rule, events, n).len() implies well_formed_finding(
        rule,
        events,
        #[trigger] findings_upto(rule, events, n)[k],
    ) by {
        let f = findings_upto(rule, events, n)[k];
        let a = choose|a: int| 0 <= a < n && finding_at(rule, events, a) == Some(f);
        lemma_sequence_hashes_len(rule, events, a, rule.sequence@.len());
        assert(events[a].record_hash@ == f.anchor_hash);
    }
}

/// With no event satisfying the anchor filter, a rule finds nothing.
pub proof fn law_no_anchor_no_findings(rule: TemporalRule, events: Seq<TimelineEvent>)
    requires
        forall|a: int| 0 <= a < events.len() ==> !#[trigger] filter_ok(events[a], rule.anchor),
    ensures
        findings_upto(rule, events, events.len() as int).len() == 0,
{
    let n = events.len() as int;
    lemma_findings_come_from_anchors(rule, events, n);
    if findings_upto(rule, events, n).len() > 0 {
        let f = findings_upto(rule, events, n)[0];
        let a = choose|a: int| 0 <= a < n && finding_at(rule, events, a) == Some(f);
        assert(filter_ok(events[a], rule.anchor));
    }
}

/// A sequence clause is only ever satisfied by an event of the window:
/// a different record within `within_seconds` of the anchor that satisfies
/// the clause's filter.
pub proof fn law_sequence_match_is_in_window(rule: TemporalRule, events: Seq<TimelineEvent>, a: int, f: EventTypeFilter, j: int)
    requires
        0 <= j,
        first_window_match(rule, events, a, f, j) is Some,
    ensures
        ({
            let m = first_window_match(rule, events, a, f, j)->0;
            &&& j <= m < events.len()
            &&& events[m].record_hash@ != events[a].record_hash@
            &&& abs_int(events[m].timestamp_ns - events[a].timestamp_ns) <= sat_ns(rule.within_seconds)
            &&& filter_ok(events[m], f)
        }),
    decreases events.len() - j,
{
    if j < events.len() && !(in_window(rule, events, a, j) && filter_ok(events[j], f)) {
        law_sequence_match_is_in_window(rule, events, a, f, j + 1);
    }
}

/// A reported discrepancy is a real contradiction: the compared event is
/// a different record of the clause's type and source that names the same
/// entity as the anchor, its timestamp contradicts the anchor's in the
/// clause's direction, and the reported delta is their distance.
pub proof fn law_discrepancy_is_contradiction(rule: TemporalRule, events: Seq<TimelineEvent>, a: int, c: int, r: int, j: int)
    requires
        0 <= j,
        scan_events(rule, events, a, c, r, j) is Some,
    ensures
        ({
            let m = scan_events(rule, events, a, c, r, j)->0;
            let clause = rule.discrepancy@[c];
            let d = detail_of(rule, events, a, c, r, m);
            &&& j <= m < events.len()
            &&& events[m].record_hash@ != events[a].record_hash@
            &&& event_type_name(events[m].event_type) == clause.compare_event_type@
            &&& artifact_display(events[m].source) == clause.compare_source@
            &&& role_matches(events[a].entity_refs@[r], clause.entity_role@)
            &&& shares_key(events[m], d.entity_key)
            &&& contradiction(clause, events[a].timestamp_ns, events[m].timestamp_ns)
            &&& d.delta == clamp_max(abs_int(d.compare_ts - d.anchor_ts))
        }),
    decreases events.len() - j,
{
    if j < events.len() && !disc_candidate(rule, events, a, c, r, j) {
        law_discrepancy_is_contradiction(rule, events, a, c, r, j + 1);
    }
}

} // verus!
