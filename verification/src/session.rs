//! Windows logon sessions correlated from event logs: the plain-text summary
//! of sessions, orphaned sessions and lateral-movement findings.

use vstd::prelude::*;
use crate::text::{
    decimal, digits, lemma_contains_whole, lemma_contains_within, owned, push_digits, push_str, push_u64,
    seq_contains,
};

verus! {

/// The name of a logon type, as Windows documents the numbers.
pub open spec fn logon_type_text(t: u8) -> Seq<char> {
    if t == 0 {
        "System"@
    } else if t == 2 {
        "Interactive"@
    } else if t == 3 {
        "Network"@
    } else if t == 4 {
        "Batch"@
    } else if t == 5 {
        "Service"@
    } else if t == 7 {
        "Unlock"@
    } else if t == 8 {
        "NetworkCleartext"@
    } else if t == 9 {
        "NewCredentials"@
    } else if t == 10 {
        "RemoteInteractive"@
    } else if t == 11 {
        "CachedInteractive"@
    } else if t == 12 {
        "CachedRemoteInteractive"@
    } else if t == 13 {
        "CachedUnlock"@
    } else {
        "Unknown"@
    }
}

/// `winevt_core::logon_type_name` maps a logon type number to its name
/// (`2` is `Interactive`, `10` is `RemoteInteractive`, ...) and every number
/// it does not list to `Unknown`; the contract is that table.
pub assume_specification[winevt_core::logon_type_name](t: u8) -> (r: &'static str)
    ensures
        r@ == logon_type_text(t),
;

/// One logon session.
#[derive(Debug, Clone, PartialEq, Eq)]
pub struct LogonSession {
    pub logon_id: u64,
    pub username: String,
    pub domain: String,
    pub logon_type: u8,
    /// The source address of a network logon, when recorded.
    pub src_ip: Option<String>,
    pub logon_time_ns: i64,
    pub logoff_time_ns: Option<i64>,
    pub duration_secs: Option<i64>,
    /// How many processes ran in the session.
    pub process_count: u64,
    /// The session has no recorded logoff and no live activity tying it off.
    pub is_orphaned: bool,
}

/// A lateral-movement indicator: sessions from one source address.
#[derive(Debug, Clone, PartialEq, Eq)]
pub struct LateralMovement {
    pub src_ip: String,
    /// The logon ids of the sessions involved.
    pub sessions: Vec<u64>,
    pub reason: String,
}

/// The result of session correlation.
#[derive(Debug, Clone, PartialEq, Eq)]
pub struct SessionSummary {
    pub session_count: u64,
    pub lateral_movement_count: u64,
    pub sessions: Vec<LogonSession>,
    pub lateral_movements: Vec<LateralMovement>,
}

/// The summary line of one orphaned session:
/// `  0x<id>  <domain>/<user>  type:<n>(<name>)`.
pub open spec fn orphan_line(s: LogonSession) -> Seq<char> {
    "  0x"@ + digits(s.logon_id as nat, 16) + "  "@ + s.domain@ + "/"@ + s.username@ + "  type:"@ + decimal(
        s.logon_type as int,
    ) + "("@ + logon_type_text(s.logon_type) + ")\n"@
}

/// The orphaned sessions, in order.
pub open spec fn orphans(ss: Seq<LogonSession>) -> Seq<LogonSession> {
    ss.filter(|s: LogonSession| s.is_orphaned)
}

/// The lines of a list of sessions.
pub open spec fn orphan_lines(ss: Seq<LogonSession>) -> Seq<char>
    decreases ss.len(),
{
    if ss.len() == 0 {
        seq![]
    } else {
        orphan_lines(ss.drop_last()) + orphan_line(ss.last())
    }
}

/// The lines of the lateral-movement findings: each reason, indented.
pub open spec fn finding_lines(ls: Seq<LateralMovement>) -> Seq<char>
    decreases ls.len(),
{
    if ls.len() == 0 {
        seq![]
    } else {
        finding_lines(ls.drop_last()) + "  "@ + ls.last().reason@ + "\n"@
    }
}

/// The plain-text summary: the session and indicator counts; then, when
/// there are any, the orphaned sessions with their count; then, when there
/// are any, the lateral-movement findings.
pub open spec fn summary_text(s: SessionSummary) -> Seq<char> {
    let o = orphans(s.sessions@);
    "Sessions: "@ + decimal(s.session_count as int) + "\nLateral movement indicators: "@ + decimal(
        s.lateral_movement_count as int,
    ) + "\n"@ + (if o.len() == 0 {
        seq![]
    } else {
        "\nOrphaned sessions ("@ + decimal(o.len() as int) + "):\n"@ + orphan_lines(o)
    }) + (if s.lateral_movements@.len() == 0 {
        seq![]
    } else {
        "\nLateral movement findings:\n"@ + finding_lines(s.lateral_movements@)
    })
}

/// Render the session summary as printed text, one `\n`-terminated line per
/// line of output.
pub fn session_summary_text(s: &SessionSummary) -> (r: String)
    ensures
        r@ == summary_text(*s),
{
    let mut r = owned("Sessions: ");
    push_u64(&mut r, s.session_count);
    push_str(&mut r, "\nLateral movement indicators: ");
    push_u64(&mut r, s.lateral_movement_count);
    push_str(&mut r, "\n");
    let ghost head = r@;

    // The orphaned sessions, collected in order.
    let mut orphaned: Vec<&LogonSession> = Vec::new();
    let mut i: usize = 0;
    while i < s.sessions.len()
        invariant
            i <= s.sessions@.len(),
            orphaned@.map_values(|x: &LogonSession| *x) == orphans(s.sessions@.take(i as int)),
        decreases s.sessions.len() - i,
    {
        let x = &s.sessions[i];
        if x.is_orphaned {
            orphaned.push(x);
        }
        proof {
            let prev = s.sessions@.take(i as int);
            assert(s.sessions@.take(i + 1) =~= prev.push(*x));
            prev.lemma_filter_push(*x, |t: LogonSession| t.is_orphaned);
            assert(orphaned@.map_values(|x: &LogonSession| *x) =~= orphans(s.sessions@.take(i + 1)));
        }
        i = i + 1;
    }
    assert(s.sessions@.take(s.sessions@.len() as int) =~= s.sessions@);
    let ghost ov = orphaned@.map_values(|x: &LogonSession| *x);
    if orphaned.len() > 0 {
        push_str(&mut r, "\nOrphaned sessions (");
        push_u64(&mut r, orphaned.len() as u64);
        push_str(&mut r, "):\n");
        let ghost mid = r@;
        let mut k: usize = 0;
        while k < orphaned.len()
            invariant
                k <= orphaned@.len(),
                ov == orphaned@.map_values(|x: &LogonSession| *x),
                r@ == mid + orphan_lines(ov.take(k as int)),
            decreases orphaned.len() - k,
        {
            let x = orphaned[k];
            assert(ov.take(k + 1).drop_last() =~= ov.take(k as int));
            push_str(&mut r, "  0x");
            push_digits(&mut r, x.logon_id, 16);
            push_str(&mut r, "  ");
            push_str(&mut r, x.domain.as_str());
            push_str(&mut r, "/");
            push_str(&mut r, x.username.as_str());
            push_str(&mut r, "  type:");
            push_u64(&mut r, x.logon_type as u64);
            push_str(&mut r, "(");
            push_str(&mut r, winevt_core::logon_type_name(x.logon_type));
            push_str(&mut r, ")\n");
            assert(r@ =~= mid + orphan_lines(ov.take(k + 1)));
            k = k + 1;
        }
        assert(ov.take(ov.len() as int) =~= ov);
    }
    let ghost after_orphans = r@;
    if s.lateral_movements.len() > 0 {
        push_str(&mut r, "\nLateral movement findings:\n");
        let ghost mid = r@;
        let ghost lv = s.lateral_movements@;
        let mut k: usize = 0;
        while k < s.lateral_movements.len()
            invariant
                k <= lv.len(),
                lv == s.lateral_movements@,
                r@ == mid + finding_lines(lv.take(k as int)),
            decreases s.lateral_movements.len() - k,
        {
            assert(lv.take(k + 1).drop_last() =~= lv.take(k as int));
            push_str(&mut r, "  ");
            push_str(&mut r, s.lateral_movements[k].reason.as_str());
            push_str(&mut r, "\n");
            assert(r@ =~= mid + finding_lines(lv.take(k + 1)));
            k = k + 1;
        }
        assert(lv.take(lv.len() as int) =~= lv);
    }
    assert(r@ =~= summary_text(*s));
    r
}

/// The display form of a logon id: `0x` and its lowercase hex digits.
pub fn logon_id_text(logon_id: u64) -> (r: String)
    ensures
        r@ == "0x"@ + digits(logon_id as nat, 16),
{
    let mut r = owned("0x");
    push_digits(&mut r, logon_id, 16);
    r
}

/// How many sessions are orphaned.
pub fn orphaned_count(summary: &SessionSummary) -> (n: u64)
    ensures
        n == orphans(summary.sessions@).len(),
{
    let mut n: u64 = 0;
    let mut i: usize = 0;
    while i < summary.sessions.len()
        invariant
            i <= summary.sessions@.len(),
            n == orphans(summary.sessions@.take(i as int)).len(),
            n <= i,
        decreases summary.sessions.len() - i,
    {
        let x = &summary.sessions[i];
        proof {
            let prev = summary.sessions@.take(i as int);
            assert(summary.sessions@.take(i + 1) =~= prev.push(*x));
            prev.lemma_filter_push(*x, |t: LogonSession| t.is_orphaned);
        }
        if x.is_orphaned {
            n = n + 1;
        }
        i = i + 1;
    }
    assert(summary.sessions@.take(summary.sessions@.len() as int) =~= summary.sessions@);
    n
}

/// Every session's line is among the lines of a list of sessions.
proof fn lemma_orphan_lines_hold_each(ss: Seq<LogonSession>, i: int)
    requires
        0 <= i < ss.len(),
    ensures
        seq_contains(orphan_lines(ss), orphan_line(ss[i])),
    decreases ss.len(),
{
    let rest = orphan_lines(ss.drop_last());
    let line = orphan_line(ss.last());
    if i == ss.len() - 1 {
        lemma_contains_whole(line);
        lemma_contains_within(rest, line, seq![], line);
        assert(rest + line + seq![] =~= rest + line);
    } else {
        lemma_orphan_lines_hold_each(ss.drop_last(), i);
        lemma_contains_within(seq![], rest, line, orphan_line(ss[i]));
        assert(Seq::<char>::empty() + rest + line =~= rest + line);
    }
}

/// Every finding's reason has its indented line among the finding lines.
proof fn lemma_finding_lines_hold_each(ls: Seq<LateralMovement>, i: int)
    requires
        0 <= i < ls.len(),
    ensures
        seq_contains(finding_lines(ls), "  "@ + ls[i].reason@ + "\n"@),
    decreases ls.len(),
{
    let rest = finding_lines(ls.drop_last());
    let line = "  "@ + ls.last().reason@ + "\n"@;
    assert(finding_lines(ls) =~= rest + line);
    if i == ls.len() - 1 {
        lemma_contains_whole(line);
        lemma_contains_within(rest, line, seq![], line);
        assert(rest + line + seq![] =~= rest + line);
    } else {
        lemma_finding_lines_hold_each(ls.drop_last(), i);
        lemma_contains_within(seq![], rest, line, "  "@ + ls[i].reason@ + "\n"@);
        assert(Seq::<char>::empty() + rest + line =~= rest + line);
    }
}

/// The summary opens with the session count and then the count of
/// lateral-movement indicators, each on its own line.
pub proof fn law_summary_opens_with_counts(s: SessionSummary)
    ensures
        ({
            let head = "Sessions: "@ + decimal(s.session_count as int) + "\n"@ + "Lateral movement indicators: "@
                + decimal(s.lateral_movement_count as int) + "\n"@;
            &&& head.len() <= summary_text(s).len()
            &&& summary_text(s).take(head.len() as int) == head
        }),
{
    let head = "Sessions: "@ + decimal(s.session_count as int) + "\n"@ + "Lateral movement indicators: "@
        + decimal(s.lateral_movement_count as int) + "\n"@;
    let t = summary_text(s);
    let rest = t.subrange(head.len() as int, t.len() as int);
    reveal_strlit("\nLateral movement indicators: ");
    reveal_strlit("Lateral movement indicators: ");
    reveal_strlit("\n");
    assert("\n"@ + "Lateral movement indicators: "@ =~= "\nLateral movement indicators: "@);
    assert(t =~= head + rest);
    assert(t.take(head.len() as int) =~= head);
}

/// The parts of the summary: the counts, the orphaned sessions' section
/// and the findings' section.
proof fn lemma_summary_parts(s: SessionSummary)
    ensures
        summary_text(s) == summary_head(s) + orphan_section(s) + finding_section(s),
{
    assert(summary_text(s) =~= summary_head(s) + orphan_section(s) + finding_section(s));
}

/// The two count lines of a summary.
pub open spec fn summary_head(s: SessionSummary) -> Seq<char> {
    "Sessions: "@ + decimal(s.session_count as int) + "\nLateral movement indicators: "@ + decimal(
        s.lateral_movement_count as int,
    ) + "\n"@
}

/// The orphaned sessions' section of a summary, empty when there are none.
pub open spec fn orphan_section(s: SessionSummary) -> Seq<char> {
    let o = orphans(s.sessions@);
    if o.len() == 0 {
        seq![]
    } else {
        "\nOrphaned sessions ("@ + decimal(o.len() as int) + "):\n"@ + orphan_lines(o)
    }
}

/// The findings' section of a summary, empty when there are none.
pub open spec fn finding_section(s: SessionSummary) -> Seq<char> {
    if s.lateral_movements@.len() == 0 {
        seq![]
    } else {
        "\nLateral movement findings:\n"@ + finding_lines(s.lateral_movements@)
    }
}

/// Every orphaned session is listed in the summary, under a heading that
/// counts the orphaned sessions.
pub proof fn law_summary_lists_orphans(s: SessionSummary, i: int)
    ensures
        0 <= i < s.sessions@.len() && s.sessions@[i].is_orphaned ==> seq_contains(
            summary_text(s),
            orphan_line(s.sessions@[i]),
        ),
        orphans(s.sessions@).len() > 0 ==> seq_contains(
            summary_text(s),
            "Orphaned sessions ("@ + decimal(orphans(s.sessions@).len() as int) + "):\n"@,
        ),
{
    let o = orphans(s.sessions@);
    lemma_summary_parts(s);
    let head = summary_head(s);
    let op = orphan_section(s);
    let fp = finding_section(s);
    if 0 <= i < s.sessions@.len() && s.sessions@[i].is_orphaned {
        let x = s.sessions@[i];
        s.sessions@.lemma_filter_contains(|y: LogonSession| y.is_orphaned, i);
        assert(o.contains(x));
        let j = choose|j: int| 0 <= j < o.len() && o[j] == x;
        lemma_orphan_lines_hold_each(o, j);
        let ohead = "\nOrphaned sessions ("@ + decimal(o.len() as int) + "):\n"@;
        lemma_contains_within(ohead, orphan_lines(o), seq![], orphan_line(x));
        assert(ohead + orphan_lines(o) + seq![] =~= op);
        lemma_contains_within(head, op, fp, orphan_line(x));
    }
    if o.len() > 0 {
        let needle = "Orphaned sessions ("@ + decimal(o.len() as int) + "):\n"@;
        lemma_contains_whole(needle);
        reveal_strlit("\nOrphaned sessions (");
        reveal_strlit("Orphaned sessions (");
        let mid = seq!['\n'];
        assert("\nOrphaned sessions ("@ =~= mid + "Orphaned sessions ("@);
        lemma_contains_within(mid, needle, orphan_lines(o), needle);
        assert(mid + needle + orphan_lines(o) =~= op);
        lemma_contains_within(head, op, fp, needle);
    }
}

/// Every lateral-movement finding's reason is listed in the summary, one
/// indented line each.
pub proof fn law_summary_lists_findings(s: SessionSummary, k: int)
    ensures
        0 <= k < s.lateral_movements@.len() ==> seq_contains(
            summary_text(s),
            "  "@ + s.lateral_movements@[k].reason@ + "\n"@,
        ),
{
    lemma_summary_parts(s);
    let head = summary_head(s);
    let op = orphan_section(s);
    let fp = finding_section(s);
    if 0 <= k < s.lateral_movements@.len() {
        let needle = "  "@ + s.lateral_movements@[k].reason@ + "\n"@;
        lemma_finding_lines_hold_each(s.lateral_movements@, k);
        let fhead = "\nLateral movement findings:\n"@;
        lemma_contains_within(fhead, finding_lines(s.lateral_movements@), seq![], needle);
        assert(fhead + finding_lines(s.lateral_movements@) + seq![] =~= fp);
        lemma_contains_within(head + op, fp, seq![], needle);
        assert(head + op + fp + seq![] =~= summary_text(s));
    }
}

/// With no orphaned session and no finding the summary is the two count
/// lines alone.
pub proof fn law_quiet_summary_is_counts(s: SessionSummary)
    requires
        forall|i: int| 0 <= i < s.sessions@.len() ==> !s.sessions@[i].is_orphaned,
        s.lateral_movements@.len() == 0,
    ensures
        summary_text(s) == "Sessions: "@ + decimal(s.session_count as int) + "\nLateral movement indicators: "@
            + decimal(s.lateral_movement_count as int) + "\n"@,
{
    lemma_summary_parts(s);
    lemma_no_orphans(s.sessions@);
    assert(summary_text(s) =~= summary_head(s));
}

/// A list with no orphaned session has none to list.
proof fn lemma_no_orphans(ss: Seq<LogonSession>)
    requires
        forall|i: int| 0 <= i < ss.len() ==> !ss[i].is_orphaned,
    ensures
        orphans(ss).len() == 0,
    decreases ss.len(),
{
    reveal(Seq::filter);
    if ss.len() > 0 {
        lemma_no_orphans(ss.drop_last());
        assert(ss.drop_last().filter(|y: LogonSession| y.is_orphaned) == orphans(ss.drop_last()));
    }
}
} // verus!
