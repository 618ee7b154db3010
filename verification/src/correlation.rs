//! Correlation findings: a set of timeline events that together are
//! consistent with a named behavior. An observation, never a verdict.

use vstd::prelude::*;
use crate::severity::{ascii_lower, law_parse_round_trips, parse, severity_of_token, severity_token, Severity};
use crate::text::{owned, str_equals};

verus! {

/// Where the members of a correlation share their context.
#[derive(Debug, Clone, Copy, PartialEq, Eq, Structural, Hash)]
pub enum CorrelationScope {
    /// All members are attributed to the same host.
    SameHost,
    /// Members span two hosts (e.g. a lateral-move chain).
    CrossHost,
    /// Members come from a single point-in-time memory dump.
    SameDump,
}

/// The persisted token of a scope.
pub open spec fn scope_token(s: CorrelationScope) -> Seq<char> {
    match s {
        CorrelationScope::SameHost => "same_host"@,
        CorrelationScope::CrossHost => "cross_host"@,
        CorrelationScope::SameDump => "same_dump"@,
    }
}

/// The scope a token names, if any.
pub open spec fn scope_of_token(t: Seq<char>) -> Option<CorrelationScope> {
    if t == "same_host"@ {
        Some(CorrelationScope::SameHost)
    } else if t == "cross_host"@ {
        Some(CorrelationScope::CrossHost)
    } else if t == "same_dump"@ {
        Some(CorrelationScope::SameDump)
    } else {
        None
    }
}

impl CorrelationScope {
    /// The stable lowercase token persisted in the `scope` column.
    pub fn as_str(self) -> (r: &'static str)
        ensures
            r@ == scope_token(self),
    {
        match self {
            CorrelationScope::SameHost => "same_host",
            CorrelationScope::CrossHost => "cross_host",
            CorrelationScope::SameDump => "same_dump",
        }
    }

    /// Parse a persisted token back into a scope; `None` for an unknown token.
    pub fn from_str(s: &str) -> (r: Option<Self>)
        ensures
            r == scope_of_token(s@),
    {
        if str_equals(s, "same_host") {
            Some(CorrelationScope::SameHost)
        } else if str_equals(s, "cross_host") {
            Some(CorrelationScope::CrossHost)
        } else if str_equals(s, "same_dump") {
            Some(CorrelationScope::SameDump)
        } else {
            None
        }
    }
}

/// The part a member event plays in its correlation.
#[derive(Debug, Clone, Copy, PartialEq, Eq, Structural, Hash)]
pub enum CorrelationRole {
    /// The triggering event the rule anchored on.
    Anchor,
    /// An event that followed the anchor within the rule's window.
    Consequent,
    /// A corroborating event that is neither anchor nor strict consequent.
    Supporting,
}

/// The persisted token of a role.
pub open spec fn role_token(r: CorrelationRole) -> Seq<char> {
    match r {
        CorrelationRole::Anchor => "anchor"@,
        CorrelationRole::Consequent => "consequent"@,
        CorrelationRole::Supporting => "supporting"@,
    }
}

/// The role a token names, if any.
pub open spec fn role_of_token(t: Seq<char>) -> Option<CorrelationRole> {
    if t == "anchor"@ {
        Some(CorrelationRole::Anchor)
    } else if t == "consequent"@ {
        Some(CorrelationRole::Consequent)
    } else if t == "supporting"@ {
        Some(CorrelationRole::Supporting)
    } else {
        None
    }
}

impl CorrelationRole {
    /// The stable lowercase token persisted in the member `role` column.
    pub fn as_str(self) -> (r: &'static str)
        ensures
            r@ == role_token(self),
    {
        match self {
            CorrelationRole::Anchor => "anchor",
            CorrelationRole::Consequent => "consequent",
            CorrelationRole::Supporting => "supporting",
        }
    }

    /// Parse a persisted token back into a role; `None` for an unknown token.
    pub fn from_str(s: &str) -> (r: Option<Self>)
        ensures
            r == role_of_token(s@),
    {
        if str_equals(s, "anchor") {
            Some(CorrelationRole::Anchor)
        } else if str_equals(s, "consequent") {
            Some(CorrelationRole::Consequent)
        } else if str_equals(s, "supporting") {
            Some(CorrelationRole::Supporting)
        } else {
            None
        }
    }
}

/// One event participating in a correlation, identified by its timeline id.
#[derive(Debug, Clone, Copy, PartialEq, Eq, Structural, Hash)]
pub struct CorrelationMember {
    /// The timeline id of the participating event.
    pub timeline_id: u64,
    /// The part this event plays.
    pub role: CorrelationRole,
}

impl CorrelationMember {
    /// A member keyed on its timeline id with the given role.
    pub fn new(timeline_id: u64, role: CorrelationRole) -> (m: Self)
        ensures
            m.timeline_id == timeline_id,
            m.role == role,
    {
        CorrelationMember { timeline_id, role }
    }
}

/// A cross-artifact correlation finding.
#[derive(Debug, Clone, PartialEq, Eq)]
pub struct Correlation {
    /// Stable scheme-prefixed code (e.g. `CORR-BRUTEFORCE-LOGON`).
    pub code: String,
    /// ATT&CK technique id this pattern is consistent with, if any.
    pub attack_technique: Option<String>,
    pub severity: Severity,
    /// Earliest member timestamp (nanoseconds).
    pub first_ts: i64,
    /// Latest member timestamp (nanoseconds).
    pub last_ts: i64,
    pub scope: CorrelationScope,
    /// Examiner-facing narration.
    pub note: String,
    /// The participating events.
    pub members: Vec<CorrelationMember>,
}

impl Correlation {
    /// A correlation with the given code and severity; no technique, an empty
    /// note, `SameHost` scope, a zero window and no members.
    pub fn new(code: &str, severity: Severity) -> (c: Self)
        ensures
            c.code@ == code@,
            c.severity == severity,
            c.attack_technique is None,
            c.first_ts == 0,
            c.last_ts == 0,
            c.scope == CorrelationScope::SameHost,
            c.note@.len() == 0,
            c.members@.len() == 0,
    {
        Correlation {
            code: owned(code),
            attack_technique: None,
            severity,
            first_ts: 0,
            last_ts: 0,
            scope: CorrelationScope::SameHost,
            note: String::new(),
            members: Vec::new(),
        }
    }

    /// Builder: the ATT&CK technique the finding is consistent with.
    pub fn with_attack_technique(self, technique: &str) -> (c: Self)
        ensures
            c.attack_technique matches Some(t) && t@ == technique@,
            c == (Correlation { attack_technique: c.attack_technique, ..self }),
    {
        let mut c = self;
        c.attack_technique = Some(owned(technique));
        c
    }

    /// Builder: the scope.
    pub fn with_scope(self, scope: CorrelationScope) -> (c: Self)
        ensures
            c == (Correlation { scope, ..self }),
    {
        let mut c = self;
        c.scope = scope;
        c
    }

    /// Builder: the time window (earliest, latest) in nanoseconds.
    pub fn with_window(self, first_ts: i64, last_ts: i64) -> (c: Self)
        ensures
            c == (Correlation { first_ts, last_ts, ..self }),
    {
        let mut c = self;
        c.first_ts = first_ts;
        c.last_ts = last_ts;
        c
    }

    /// Builder: the examiner-facing note.
    pub fn with_note(self, note: &str) -> (c: Self)
        ensures
            c.note@ == note@,
            c == (Correlation { note: c.note, ..self }),
    {
        let mut c = self;
        c.note = owned(note);
        c
    }

    /// Builder: append a member event.
    pub fn with_member(self, member: CorrelationMember) -> (c: Self)
        ensures
            c.members@ == self.members@.push(member),
            c == (Correlation { members: c.members, ..self }),
    {
        let mut c = self;
        c.members.push(member);
        c
    }

    /// The lowercase severity token persisted in the `severity` column.
    pub fn severity_str(&self) -> (r: &'static str)
        ensures
            r@ == severity_token(self.severity),
    {
        self.severity.token()
    }

    /// Parse a severity token with the shared parser: case-insensitive, so
    /// the capitalised `High` some producers write reads back too, and the
    /// legacy `informational` is `Info`.
    pub fn severity_from_str(s: &str) -> (r: Option<Severity>)
        ensures
            r == severity_of_token(ascii_lower(s@)),
    {
        parse(s)
    }
}


/// Every scope's token parses back to that scope, and a token that
/// parses names the scope it came from.
pub proof fn law_scope_round_trips(s: CorrelationScope, t: Seq<char>)
    ensures
        scope_of_token(scope_token(s)) == Some(s),
        scope_of_token(t) matches Some(s2) ==> scope_token(s2) == t,
{
    reveal_strlit("same_host");
    reveal_strlit("cross_host");
    reveal_strlit("same_dump");
    assert("same_host"@ != "cross_host"@) by {
        assert("same_host"@.len() != "cross_host"@.len());
    }
    assert("same_host"@ != "same_dump"@) by {
        assert("same_host"@[5] != "same_dump"@[5]);
    }
    assert("cross_host"@ != "same_dump"@) by {
        assert("cross_host"@.len() != "same_dump"@.len());
    }
}

/// Every role's token parses back to that role, and a token that parses
/// names the role it came from.
pub proof fn law_role_round_trips(r: CorrelationRole, t: Seq<char>)
    ensures
        role_of_token(role_token(r)) == Some(r),
        role_of_token(t) matches Some(r2) ==> role_token(r2) == t,
{
    reveal_strlit("anchor");
    reveal_strlit("consequent");
    reveal_strlit("supporting");
    assert("anchor"@ != "consequent"@) by {
        assert("anchor"@.len() != "consequent"@.len());
    }
    assert("anchor"@ != "supporting"@) by {
        assert("anchor"@.len() != "supporting"@.len());
    }
    assert("consequent"@ != "supporting"@) by {
        assert("consequent"@[0] != "supporting"@[0]);
    }
}

/// A correlation's persisted severity token reads back as its severity.
pub proof fn law_severity_token_round_trips(s: Severity)
    ensures
        severity_of_token(ascii_lower(severity_token(s))) == Some(s),
{
    law_parse_round_trips(s);
}

/// The persisted tokens, variant by variant: scopes are `same_host`,
/// `cross_host` and `same_dump`; roles are `anchor`, `consequent` and
/// `supporting`.
pub proof fn law_token_tables(s: CorrelationScope, r: CorrelationRole)
    ensures
        s == CorrelationScope::SameHost ==> scope_token(s) == "same_host"@,
        s == CorrelationScope::CrossHost ==> scope_token(s) == "cross_host"@,
        s == CorrelationScope::SameDump ==> scope_token(s) == "same_dump"@,
        r == CorrelationRole::Anchor ==> role_token(r) == "anchor"@,
        r == CorrelationRole::Consequent ==> role_token(r) == "consequent"@,
        r == CorrelationRole::Supporting ==> role_token(r) == "supporting"@,
{
}

} // verus!
