//! The supertimeline: every temporal rule applied to a collection's events,
//! and the CSV rendering of those events.
//!
//! Every CSV field but the timestamp and the fixed source name carries text
//! read from evidence, so each is neutralised before it reaches the file: a
//! leading formula character is guarded with an apostrophe, and a field that
//! holds a separator, quote or line break is quoted with its quotes doubled.

use vstd::prelude::*;
use crate::temporal_rule::{evaluate_temporal, findings_upto, finding_views, SpecFinding, TemporalFinding, TemporalRule};
use crate::text::{chars_of, decimal, owned, push_char, push_i64, push_str, push_u64, lemma_contains_whole, lemma_contains_within, seq_contains};
use crate::timeline::{artifact_display, event_type_name, tags_view, ArtifactType, TimelineEvent};

verus! {

/// The findings of every rule over the events, rule by rule in order.
pub open spec fn all_findings(rules: Seq<TemporalRule>, events: Seq<TimelineEvent>) -> Seq<SpecFinding>
    decreases rules.len(),
{
    if rules.len() == 0 {
        seq![]
    } else {
        all_findings(rules.drop_last(), events) + findings_upto(rules.last(), events, events.len() as int)
    }
}

/// Apply every rule to the events: the findings of the first rule, then of
/// the second, and so on.
pub fn temporal_findings(rules: &[TemporalRule], events: &[TimelineEvent]) -> (r: Vec<TemporalFinding>)
    ensures
        finding_views(r@) == all_findings(rules@, events@),
{
    let mut out: Vec<TemporalFinding> = Vec::new();
    let mut i: usize = 0;
    while i < rules.len()
        invariant
            i <= rules@.len(),
            finding_views(out@) == all_findings(rules@.take(i as int), events@),
        decreases rules.len() - i,
    {
        let mut found = evaluate_temporal(&rules[i], events);
        let ghost before = out@;
        let ghost added = found@;
        out.append(&mut found);
        proof {
            assert(rules@.take(i + 1).drop_last() =~= rules@.take(i as int));
            assert(finding_views(out@) =~= finding_views(before) + finding_views(added));
        }
        i = i + 1;
    }
    assert(rules@.take(rules@.len() as int) =~= rules@);
    out
}

/// The CSV header; one column per field of `csv_row`.
pub const CSV_HEADER: &'static str = "timestamp,event_type,source,description,tags";

/// A character that makes a spreadsheet read the cell as a formula when it
/// comes first.
pub open spec fn is_formula_char(c: char) -> bool {
    c == '=' || c == '+' || c == '-' || c == '@'
}

/// A field with a leading formula character guarded by an apostrophe.
pub open spec fn guarded(s: Seq<char>) -> Seq<char> {
    if s.len() > 0 && is_formula_char(s[0]) {
        seq!['\''] + s
    } else {
        s
    }
}

/// A character that cannot stand in a bare CSV field.
pub open spec fn is_special(c: char) -> bool {
    c == ',' || c == '"' || c == '\n' || c == '\r'
}

/// The field must be quoted.
pub open spec fn needs_quoting(s: Seq<char>) -> bool {
    exists|i: int| 0 <= i < s.len() && is_special(#[trigger] s[i])
}

/// The text with every `"` doubled.
pub open spec fn doubled_quotes(s: Seq<char>) -> Seq<char>
    decreases s.len(),
{
    if s.len() == 0 {
        seq![]
    } else {
        doubled_quotes(s.drop_last()) + if s.last() == '"' {
            seq!['"', '"']
        } else {
            seq![s.last()]
        }
    }
}

/// A quoted CSV field.
pub open spec fn quoted(s: Seq<char>) -> Seq<char> {
    seq!['"'] + doubled_quotes(s) + seq!['"']
}

/// A CSV field: guarded, then quoted when it must be.
pub open spec fn csv_field(s: Seq<char>) -> Seq<char> {
    if needs_quoting(guarded(s)) {
        quoted(guarded(s))
    } else {
        guarded(s)
    }
}

/// Tags joined by `|`.
pub open spec fn joined(tags: Seq<Seq<char>>) -> Seq<char>
    decreases tags.len(),
{
    if tags.len() == 0 {
        seq![]
    } else if tags.len() == 1 {
        tags[0]
    } else {
        joined(tags.drop_last()) + seq!['|'] + tags.last()
    }
}

/// The CSV record of one event: timestamp, event type, source, description
/// (always quoted, as a free-text column) and tags.
pub open spec fn csv_row_text(e: TimelineEvent) -> Seq<char> {
    decimal(e.timestamp_ns as int) + seq![','] + csv_field(event_type_name(e.event_type)) + seq![',']
        + artifact_display(e.source) + seq![','] + quoted(guarded(e.description@)) + seq![',']
        + csv_field(joined(tags_view(e)))
}

/// Appends `s` with every `"` doubled.
fn push_doubled(out: &mut String, s: &Vec<char>)
    ensures
        final(out)@ == old(out)@ + doubled_quotes(s@),
{
    let ghost start = out@;
    let mut i: usize = 0;
    while i < s.len()
        invariant
            i <= s@.len(),
            out@ == start + doubled_quotes(s@.take(i as int)),
        decreases s.len() - i,
    {
        assert(s@.take(i + 1).drop_last() =~= s@.take(i as int));
        let c = s[i];
        if c == '"' {
            push_char(out, '"');
            push_char(out, '"');
        } else {
            push_char(out, c);
        }
        proof {
            assert(out@ =~= start + doubled_quotes(s@.take(i + 1)));
        }
        i = i + 1;
    }
    assert(s@.take(s@.len() as int) =~= s@);
}

/// The characters of `s`, guarded.
fn guard_chars(s: &str) -> (r: Vec<char>)
    ensures
        r@ == guarded(s@),
{
    let cs = chars_of(s);
    if cs.len() > 0 && (cs[0] == '=' || cs[0] == '+' || cs[0] == '-' || cs[0] == '@') {
        let mut r: Vec<char> = Vec::new();
        r.push('\'');
        let mut i: usize = 0;
        while i < cs.len()
            invariant
                i <= cs@.len(),
                r@ == seq!['\''] + cs@.take(i as int),
            decreases cs.len() - i,
        {
            r.push(cs[i]);
            assert(cs@.take(i + 1) =~= cs@.take(i as int).push(cs@[i as int]));
            i = i + 1;
        }
        assert(cs@.take(cs@.len() as int) =~= cs@);
        r
    } else {
        cs
    }
}

/// Whether any character must be quoted.
fn any_special(s: &Vec<char>) -> (b: bool)
    ensures
        b == needs_quoting(s@),
{
    let mut i: usize = 0;
    while i < s.len()
        invariant
            i <= s@.len(),
            forall|j: int| 0 <= j < i ==> !is_special(#[trigger] s@[j]),
        decreases s.len() - i,
    {
        let c = s[i];
        if c == ',' || c == '"' || c == '\n' || c == '\r' {
            assert(is_special(s@[i as int]));
            return true;
        }
        i = i + 1;
    }
    false
}

/// Appends the quoted form of `s`.
fn push_quoted(out: &mut String, s: &Vec<char>)
    ensures
        final(out)@ == old(out)@ + quoted(s@),
{
    push_char(out, '"');
    push_doubled(out, s);
    push_char(out, '"');
    assert(final(out)@ =~= old(out)@ + quoted(s@));
}

/// Appends a CSV field for `s`.
fn push_field(out: &mut String, s: &str)
    ensures
        final(out)@ == old(out)@ + csv_field(s@),
{
    let g = guard_chars(s);
    if any_special(&g) {
        push_quoted(out, &g);
    } else {
        let ghost start = out@;
        let mut i: usize = 0;
        while i < g.len()
            invariant
                i <= g@.len(),
                out@ == start + g@.take(i as int),
            decreases g.len() - i,
        {
            push_char(out, g[i]);
            assert(g@.take(i + 1) =~= g@.take(i as int).push(g@[i as int]));
            i = i + 1;
        }
        assert(g@.take(g@.len() as int) =~= g@);
    }
}

/// The tags of an event joined by `|`.
fn join_tags(tags: &Vec<String>) -> (r: String)
    ensures
        r@ == joined(tags@.map_values(|t: String| t@)),
{
    let ghost tv = tags@.map_values(|t: String| t@);
    let mut r = String::new();
    let mut i: usize = 0;
    while i < tags.len()
        invariant
            i <= tags@.len(),
            tv == tags@.map_values(|t: String| t@),
            r@ == joined(tv.take(i as int)),
        decreases tags.len() - i,
    {
        assert(tv.take(i + 1).drop_last() =~= tv.take(i as int));
        if i > 0 {
            push_char(&mut r, '|');
        }
        push_str(&mut r, tags[i].as_str());
        proof {
            if i == 0 {
                assert(r@ =~= joined(tv.take(1)));
            } else {
                assert(r@ =~= joined(tv.take(i + 1)));
            }
        }
        i = i + 1;
    }
    assert(tv.take(tv.len() as int) =~= tv);
    r
}

/// Render one timeline event as a CSV record matching `CSV_HEADER`: the
/// timestamp in nanoseconds, the `{:?}` event type, the source's display
/// name, the description (always quoted) and the tags joined by `|`. Text
/// fields are guarded against formulas and quoted when they hold a comma,
/// quote or line break, so the record always has exactly five columns.
pub fn csv_row(e: &TimelineEvent) -> (r: String)
    ensures
        r@ == csv_row_text(*e),
{
    let mut r = String::new();
    push_i64(&mut r, e.timestamp_ns);
    push_char(&mut r, ',');
    let et = e.event_type.name();
    push_field(&mut r, et.as_str());
    push_char(&mut r, ',');
    push_str(&mut r, e.source.display_name());
    push_char(&mut r, ',');
    let d = guard_chars(e.description.as_str());
    push_quoted(&mut r, &d);
    push_char(&mut r, ',');
    let tags = join_tags(&e.tags);
    push_field(&mut r, tags.as_str());
    assert(r@ =~= csv_row_text(*e));
    r
}

/// How `str::to_uppercase` renders a string (Unicode upper case).
pub uninterp spec fn upper_text(s: Seq<char>) -> Seq<char>;

/// Upper-case copy of a string.
///
/// Calls `str::to_uppercase`; the contract names the result
/// `upper_text(s)`, a function of the text alone. Unicode's case tables are
/// not restated.
#[verifier::external_body]
fn to_uppercase(s: &str) -> (r: String)
    ensures
        r@ == upper_text(s@),
{
    s.to_uppercase()
}

/// The narrative line of one event: `│  [<time>] <type> — <description>`,
/// where the time is `unknown` for timestamp 0.
pub open spec fn narrative_event_line(e: TimelineEvent) -> Seq<char> {
    "│  ["@ + (if e.timestamp_ns == 0 {
        "unknown"@
    } else {
        decimal(e.timestamp_ns as int)
    }) + "] "@ + event_type_name(e.event_type) + " — "@ + e.description@ + "\n"@
}

/// The narrative lines of a list of events.
pub open spec fn narrative_event_lines(events: Seq<TimelineEvent>) -> Seq<char>
    decreases events.len(),
{
    if events.len() == 0 {
        seq![]
    } else {
        narrative_event_lines(events.drop_last()) + narrative_event_line(events.last())
    }
}

/// The narrative lines of one finding: `│  [<SEVERITY>] <rule id> — <title>`
/// and, for a discrepancy, `│    Discrepancy: <source> @ <ns> vs <source> @
/// <ns> (Δ <delta>s)` with the gap in seconds as given.
pub open spec fn narrative_finding_lines(f: SpecFinding, delta: Seq<char>) -> Seq<char> {
    "│  ["@ + upper_text(f.severity) + "] "@ + f.rule_id + " — "@ + f.title + "\n"@ + match f.discrepancy {
        Some(d) => "│    Discrepancy: "@ + d.anchor_source + " @ "@ + decimal(d.anchor_ts) + " vs "@
            + d.compare_source + " @ "@ + decimal(d.compare_ts) + " (Δ "@ + delta + "s)\n"@,
        None => seq![],
    }
}

/// The narrative lines of a list of findings, each with its gap text.
pub open spec fn narrative_findings(findings: Seq<SpecFinding>, deltas: Seq<Seq<char>>) -> Seq<char>
    decreases findings.len(),
{
    if findings.len() == 0 {
        seq![]
    } else {
        narrative_findings(findings.drop_last(), deltas.drop_last()) + narrative_finding_lines(
            findings.last(),
            deltas.last(),
        )
    }
}

/// The banner that opens the narrative.
pub open spec fn narrative_banner() -> Seq<char> {
    "╔══════════════════════════════════════════════════════════╗\n║  Issen — Supertimeline                              ║\n╚══════════════════════════════════════════════════════════╝\n\n"@
}

/// The supertimeline narrative: a banner; the collection and its event
/// count; the timeline events (or a note that none were parsed); the
/// temporal findings (or a note that none were detected); and a closing
/// line.
pub open spec fn narrative_text(
    events: Seq<TimelineEvent>,
    findings: Seq<SpecFinding>,
    collection: Seq<char>,
    deltas: Seq<Seq<char>>,
) -> Seq<char> {
    narrative_banner() + "  Collection : "@ + collection + "\n  Events     : "@ + decimal(events.len() as int)
        + "\n\n┌─ TIMELINE EVENTS ──────────────────────────────────────\n"@ + (if events.len() == 0 {
        "│  No events parsed from collection.\n"@
    } else {
        narrative_event_lines(events)
    }) + "\n┌─ TEMPORAL FINDINGS ────────────────────────────────────\n"@ + (if findings.len() == 0 {
        "│  No temporal anomalies detected.\n"@
    } else {
        narrative_findings(findings, deltas)
    }) + "\n  supertimeline complete.\n"@
}

/// Render the supertimeline narrative. `delta_texts[i]` is the gap of the
/// `i`-th finding's discrepancy in seconds, rendered by the caller (it is
/// not read for a finding without one).
pub fn supertimeline_narrative(
    events: &[TimelineEvent],
    findings: &[TemporalFinding],
    collection: &str,
    delta_texts: &[String],
) -> (r: String)
    requires
        delta_texts@.len() == findings@.len(),
    ensures
        r@ == narrative_text(
            events@,
            finding_views(findings@),
            collection@,
            delta_texts@.map_values(|s: String| s@),
        ),
{
    let ghost fv = finding_views(findings@);
    let ghost dv = delta_texts@.map_values(|s: String| s@);
    let mut r = owned(
        "╔══════════════════════════════════════════════════════════╗\n║  Issen — Supertimeline                              ║\n╚══════════════════════════════════════════════════════════╝\n\n",
    );
    push_str(&mut r, "  Collection : ");
    push_str(&mut r, collection);
    push_str(&mut r, "\n  Events     : ");
    push_u64(&mut r, events.len() as u64);
    push_str(&mut r, "\n\n┌─ TIMELINE EVENTS ──────────────────────────────────────\n");
    let ghost after_header = r@;
    if events.len() == 0 {
        push_str(&mut r, "│  No events parsed from collection.\n");
    } else {
        let mut i: usize = 0;
        while i < events.len()
            invariant
                i <= events@.len(),
                r@ == after_header + narrative_event_lines(events@.take(i as int)),
            decreases events.len() - i,
        {
            let e = &events[i];
            assert(events@.take(i + 1).drop_last() =~= events@.take(i as int));
            push_str(&mut r, "│  [");
            if e.timestamp_ns == 0 {
                push_str(&mut r, "unknown");
            } else {
                push_i64(&mut r, e.timestamp_ns);
            }
            push_str(&mut r, "] ");
            let name = e.event_type.name();
            push_str(&mut r, name.as_str());
            push_str(&mut r, " — ");
            push_str(&mut r, e.description.as_str());
            push_str(&mut r, "\n");
            assert(r@ =~= after_header + narrative_event_lines(events@.take(i + 1)));
            i = i + 1;
        }
        assert(events@.take(events@.len() as int) =~= events@);
    }
    let ghost after_events = r@;
    push_str(&mut r, "\n┌─ TEMPORAL FINDINGS ────────────────────────────────────\n");
    let ghost after_fheader = r@;
    if findings.len() == 0 {
        push_str(&mut r, "│  No temporal anomalies detected.\n");
    } else {
        let mut k: usize = 0;
        while k < findings.len()
            invariant
                k <= findings@.len(),
                delta_texts@.len() == findings@.len(),
                fv == finding_views(findings@),
                dv == delta_texts@.map_values(|s: String| s@),
                r@ == after_fheader + narrative_findings(fv.take(k as int), dv.take(k as int)),
            decreases findings.len() - k,
        {
            let f = &findings[k];
            assert(fv.take(k + 1).drop_last() =~= fv.take(k as int));
            assert(dv.take(k + 1).drop_last() =~= dv.take(k as int));
            assert(fv[k as int] == f@);
            assert(dv[k as int] == delta_texts@[k as int]@);
            let ghost before = r@;
            push_str(&mut r, "│  [");
            let upper = to_uppercase(f.severity.as_str());
            push_str(&mut r, upper.as_str());
            push_str(&mut r, "] ");
            push_str(&mut r, f.rule_id.as_str());
            push_str(&mut r, " — ");
            push_str(&mut r, f.title.as_str());
            push_str(&mut r, "\n");
            match &f.discrepancy {
                Some(d) => {
                    push_str(&mut r, "│    Discrepancy: ");
                    push_str(&mut r, d.anchor_source.as_str());
                    push_str(&mut r, " @ ");
                    push_i64(&mut r, d.anchor_timestamp_ns);
                    push_str(&mut r, " vs ");
                    push_str(&mut r, d.compare_source.as_str());
                    push_str(&mut r, " @ ");
                    push_i64(&mut r, d.compare_timestamp_ns);
                    push_str(&mut r, " (Δ ");
                    push_str(&mut r, delta_texts[k].as_str());
                    push_str(&mut r, "s)\n");
                },
                None => {},
            }
            assert(r@ =~= before + narrative_finding_lines(fv[k as int], dv[k as int]));
            assert(r@ =~= after_fheader + narrative_findings(fv.take(k + 1), dv.take(k + 1)));
            k = k + 1;
        }
        assert(fv.take(fv.len() as int) =~= fv);
        assert(dv.take(dv.len() as int) =~= dv);
    }
    push_str(&mut r, "\n  supertimeline complete.\n");
    assert(r@ =~= narrative_text(events@, fv, collection@, dv));
    r
}

/// Where an RFC 4180 reader stands within a record.
pub enum ReadState {
    /// At the start of a field.
    Start,
    /// Inside a field that did not open with a quote.
    Bare,
    /// Inside a quoted field.
    Quoted,
    /// Just after a quote inside a quoted field: either the first of a
    /// doubled quote or the field's closing quote.
    AfterQuote,
}

/// An RFC 4180 reader over one record: fields are separated by commas; a
/// field that opens with a quote runs to its closing quote, inside which a
/// doubled quote stands for one quote and commas are text. (A quote inside
/// a bare field is read as text.)
pub open spec fn read_from(s: Seq<char>, st: ReadState, cur: Seq<char>, acc: Seq<Seq<char>>) -> Seq<Seq<char>>
    decreases s.len(),
{
    if s.len() == 0 {
        acc.push(cur)
    } else {
        let c = s[0];
        let rest = s.subrange(1, s.len() as int);
        match st {
            ReadState::Start => if c == '"' {
                read_from(rest, ReadState::Quoted, cur, acc)
            } else if c == ',' {
                read_from(rest, ReadState::Start, seq![], acc.push(cur))
            } else {
                read_from(rest, ReadState::Bare, cur.push(c), acc)
            },
            ReadState::Bare => if c == ',' {
                read_from(rest, ReadState::Start, seq![], acc.push(cur))
            } else {
                read_from(rest, ReadState::Bare, cur.push(c), acc)
            },
            ReadState::Quoted => if c == '"' {
                read_from(rest, ReadState::AfterQuote, cur, acc)
            } else {
                read_from(rest, ReadState::Quoted, cur.push(c), acc)
            },
            ReadState::AfterQuote => if c == '"' {
                read_from(rest, ReadState::Quoted, cur.push('"'), acc)
            } else if c == ',' {
                read_from(rest, ReadState::Start, seq![], acc.push(cur))
            } else {
                read_from(rest, ReadState::Bare, cur.push(c), acc)
            },
        }
    }
}

/// The fields an RFC 4180 reader finds in one record.
pub open spec fn read_record(s: Seq<char>) -> Seq<Seq<char>> {
    read_from(s, ReadState::Start, seq![], seq![])
}

/// Text with neither a comma nor a quote.
pub open spec fn plain(f: Seq<char>) -> bool {
    forall|i: int| 0 <= i < f.len() ==> #[trigger] f[i] != ',' && f[i] != '"'
}

proof fn lemma_bare_run(f: Seq<char>, tail: Seq<char>, cur: Seq<char>, acc: Seq<Seq<char>>)
    requires
        plain(f),
    ensures
        read_from(f + tail, ReadState::Bare, cur, acc) == read_from(tail, ReadState::Bare, cur + f, acc),
    decreases f.len(),
{
    if f.len() == 0 {
        assert(f + tail =~= tail);
        assert(cur + f =~= cur);
    } else {
        let g = f.subrange(1, f.len() as int);
        assert((f + tail)[0] == f[0]);
        assert((f + tail).subrange(1, (f + tail).len() as int) =~= g + tail);
        assert(plain(g)) by {
            assert forall|i: int| 0 <= i < g.len() implies #[trigger] g[i] != ',' && g[i] != '"' by {
                assert(g[i] == f[i + 1]);
            }
        }
        lemma_bare_run(g, tail, cur.push(f[0]), acc);
        assert(cur.push(f[0]) + g =~= cur + f);
    }
}

/// A plain field followed by a comma reads as itself, and so does a plain
/// last field.
proof fn lemma_bare_field(f: Seq<char>, rest: Seq<char>, acc: Seq<Seq<char>>)
    requires
        plain(f),
    ensures
        read_from(f + seq![','] + rest, ReadState::Start, seq![], acc) == read_from(
            rest,
            ReadState::Start,
            seq![],
            acc.push(f),
        ),
        read_from(f, ReadState::Start, seq![], acc) == acc.push(f),
{
    let t = seq![','] + rest;
    assert(f + seq![','] + rest =~= f + t);
    assert(t[0] == ',');
    assert(t.subrange(1, t.len() as int) =~= rest);
    if f.len() == 0 {
        assert(f + t =~= t);
        assert(f =~= Seq::<char>::empty());
    } else {
        let g = f.subrange(1, f.len() as int);
        assert(f[0] != ',' && f[0] != '"');
        assert(plain(g)) by {
            assert forall|i: int| 0 <= i < g.len() implies #[trigger] g[i] != ',' && g[i] != '"' by {
                assert(g[i] == f[i + 1]);
            }
        }
        assert((f + t)[0] == f[0]);
        assert((f + t).subrange(1, (f + t).len() as int) =~= g + t);
        lemma_bare_run(g, t, seq![f[0]], acc);
        assert(seq![f[0]] + g =~= f);
        assert(seq![].push(f[0]) =~= seq![f[0]]);
        assert(f.subrange(1, f.len() as int) =~= g);
        lemma_bare_run(g, seq![], seq![f[0]], acc);
        assert(g + Seq::<char>::empty() =~= g);
    }
}

proof fn lemma_doubled_concat(a: Seq<char>, b: Seq<char>)
    ensures
        doubled_quotes(a + b) == doubled_quotes(a) + doubled_quotes(b),
    decreases b.len(),
{
    if b.len() == 0 {
        assert(a + b =~= a);
        assert(doubled_quotes(a) + doubled_quotes(b) =~= doubled_quotes(a));
    } else {
        lemma_doubled_concat(a, b.drop_last());
        assert((a + b).drop_last() =~= a + b.drop_last());
        assert((a + b).last() == b.last());
    }
}

proof fn lemma_quoted_run(g: Seq<char>, tail: Seq<char>, cur: Seq<char>, acc: Seq<Seq<char>>)
    ensures
        read_from(doubled_quotes(g) + tail, ReadState::Quoted, cur, acc) == read_from(
            tail,
            ReadState::Quoted,
            cur + g,
            acc,
        ),
    decreases g.len(),
{
    if g.len() == 0 {
        assert(doubled_quotes(g) + tail =~= tail);
        assert(cur + g =~= cur);
    } else {
        let h = g.subrange(1, g.len() as int);
        assert(g =~= seq![g[0]] + h);
        lemma_doubled_concat(seq![g[0]], h);
        assert(seq![g[0]].drop_last() =~= Seq::<char>::empty());
        let one = seq![g[0]];
        assert(one.drop_last() =~= Seq::<char>::empty());
        assert(one.last() == g[0]);
        assert(doubled_quotes(one.drop_last()) =~= Seq::<char>::empty());
        let d0 = doubled_quotes(one);
        lemma_quoted_run(h, tail, cur.push(g[0]), acc);
        assert(cur.push(g[0]) + h =~= cur + g);
        let s = doubled_quotes(g) + tail;
        assert(s =~= d0 + (doubled_quotes(h) + tail));
        if g[0] == '"' {
            assert(d0 =~= seq!['"', '"']);
            assert(s[0] == '"');
            let s1 = s.subrange(1, s.len() as int);
            assert(s1[0] == '"');
            assert(s1.subrange(1, s1.len() as int) =~= doubled_quotes(h) + tail);
            assert(read_from(s, ReadState::Quoted, cur, acc) == read_from(s1, ReadState::AfterQuote, cur, acc));
            assert(read_from(s1, ReadState::AfterQuote, cur, acc) == read_from(
                doubled_quotes(h) + tail,
                ReadState::Quoted,
                cur.push(g[0]),
                acc,
            ));
        } else {
            assert(d0 =~= seq![g[0]]);
            assert(s[0] == g[0]);
            assert(s.subrange(1, s.len() as int) =~= doubled_quotes(h) + tail);
            assert(read_from(s, ReadState::Quoted, cur, acc) == read_from(
                doubled_quotes(h) + tail,
                ReadState::Quoted,
                cur.push(g[0]),
                acc,
            ));
        }
    }
}

/// A quoted field followed by a comma reads as its text, and so does a
/// quoted last field.
proof fn lemma_quoted_field(g: Seq<char>, rest: Seq<char>, acc: Seq<Seq<char>>)
    ensures
        read_from(quoted(g) + seq![','] + rest, ReadState::Start, seq![], acc) == read_from(
            rest,
            ReadState::Start,
            seq![],
            acc.push(g),
        ),
        read_from(quoted(g), ReadState::Start, seq![], acc) == acc.push(g),
{
    let t1 = seq!['"', ','] + rest;
    let s1 = quoted(g) + seq![','] + rest;
    assert(s1 =~= seq!['"'] + (doubled_quotes(g) + t1));
    assert(s1[0] == '"');
    assert(s1.subrange(1, s1.len() as int) =~= doubled_quotes(g) + t1);
    lemma_quoted_run(g, t1, seq![], acc);
    assert(Seq::<char>::empty() + g =~= g);
    assert(t1[0] == '"');
    let t2 = t1.subrange(1, t1.len() as int);
    assert(t2 =~= seq![','] + rest);
    assert(t2[0] == ',');
    assert(t2.subrange(1, t2.len() as int) =~= rest);
    assert(read_from(s1, ReadState::Start, seq![], acc) == read_from(doubled_quotes(g) + t1, ReadState::Quoted, seq![], acc));
    assert(read_from(t1, ReadState::Quoted, g, acc) == read_from(t2, ReadState::AfterQuote, g, acc));
    assert(read_from(t2, ReadState::AfterQuote, g, acc) == read_from(rest, ReadState::Start, seq![], acc.push(g)));

    let t3 = seq!['"'];
    let s2 = quoted(g);
    assert(s2 =~= seq!['"'] + (doubled_quotes(g) + t3));
    assert(s2[0] == '"');
    assert(s2.subrange(1, s2.len() as int) =~= doubled_quotes(g) + t3);
    lemma_quoted_run(g, t3, seq![], acc);
    assert(t3[0] == '"');
    assert(t3.subrange(1, 1) =~= Seq::<char>::empty());
    assert(read_from(s2, ReadState::Start, seq![], acc) == read_from(doubled_quotes(g) + t3, ReadState::Quoted, seq![], acc));
    assert(read_from(t3, ReadState::Quoted, g, acc) == read_from(Seq::<char>::empty(), ReadState::AfterQuote, g, acc));
}

/// A CSV field reads as its guarded text, whether it was quoted or not.
proof fn lemma_field(x: Seq<char>, rest: Seq<char>, acc: Seq<Seq<char>>)
    ensures
        read_from(csv_field(x) + seq![','] + rest, ReadState::Start, seq![], acc) == read_from(
            rest,
            ReadState::Start,
            seq![],
            acc.push(guarded(x)),
        ),
        read_from(csv_field(x), ReadState::Start, seq![], acc) == acc.push(guarded(x)),
{
    let g = guarded(x);
    if needs_quoting(g) {
        lemma_quoted_field(g, rest, acc);
    } else {
        assert(plain(g)) by {
            assert forall|i: int| 0 <= i < g.len() implies #[trigger] g[i] != ',' && g[i] != '"' by {
                assert(!is_special(g[i]));
            }
        }
        lemma_bare_field(g, rest, acc);
    }
}

proof fn lemma_digits_plain(n: nat)
    ensures
        plain(crate::text::digits(n, 10)),
        forall|i: int| 0 <= i < crate::text::digits(n, 10).len() ==> '0' <= #[trigger] crate::text::digits(n, 10)[i] <= '9',
    decreases n,
{
    if n >= 10 {
        lemma_digits_plain(n / 10);
    }
}

proof fn lemma_decimal_plain(n: int)
    ensures
        plain(decimal(n)),
{
    if n < 0 {
        lemma_digits_plain((-n) as nat);
        let d = crate::text::digits((-n) as nat, 10);
        assert forall|i: int| 0 <= i < decimal(n).len() implies #[trigger] decimal(n)[i] != ',' && decimal(n)[i] != '"' by {
            if i > 0 {
                assert(decimal(n)[i] == d[i - 1]);
            }
        }
    } else {
        lemma_digits_plain(n as nat);
    }
}

proof fn lemma_display_plain(a: ArtifactType)
    ensures
        plain(artifact_display(a)),
{
    reveal_strlit("Event Log");
    reveal_strlit("MFT");
    reveal_strlit("Prefetch");
    reveal_strlit("USN Journal");
    reveal_strlit("Amcache");
    reveal_strlit("Registry");
    reveal_strlit("Crontab");
    reveal_strlit("Bodyfile");
    reveal_strlit("SQLite (carved)");
    reveal_strlit("Assessment");
    reveal_strlit("Process List");
    reveal_strlit("Network State");
    reveal_strlit("Rootkit Scan");
    reveal_strlit("Device Install");
}

/// A CSV record always reads back as exactly five columns: the timestamp,
/// the guarded event type, the source's name, the guarded description and
/// the guarded `|`-joined tags, whatever commas, quotes or line breaks the
/// evidence put into them.
pub proof fn law_csv_row_reads_back(e: TimelineEvent)
    ensures
        read_record(csv_row_text(e)) == seq![
            decimal(e.timestamp_ns as int),
            guarded(event_type_name(e.event_type)),
            artifact_display(e.source),
            guarded(e.description@),
            guarded(joined(tags_view(e))),
        ],
{
    let f1 = decimal(e.timestamp_ns as int);
    let f2 = csv_field(event_type_name(e.event_type));
    let f3 = artifact_display(e.source);
    let f4 = quoted(guarded(e.description@));
    let f5 = csv_field(joined(tags_view(e)));
    let c = seq![','];
    let r4 = f5;
    let r3 = f4 + c + r4;
    let r2 = f3 + c + r3;
    let r1 = f2 + c + r2;
    assert(csv_row_text(e) =~= f1 + c + r1);
    lemma_decimal_plain(e.timestamp_ns as int);
    lemma_display_plain(e.source);
    let a0: Seq<Seq<char>> = seq![];
    lemma_bare_field(f1, r1, a0);
    let a1 = a0.push(f1);
    lemma_field(event_type_name(e.event_type), r2, a1);
    let a2 = a1.push(guarded(event_type_name(e.event_type)));
    lemma_bare_field(f3, r3, a2);
    let a3 = a2.push(f3);
    lemma_quoted_field(guarded(e.description@), r4, a3);
    let a4 = a3.push(guarded(e.description@));
    lemma_field(joined(tags_view(e)), seq![], a4);
    assert(a4.push(guarded(joined(tags_view(e)))) =~= seq![
        f1,
        guarded(event_type_name(e.event_type)),
        f3,
        guarded(e.description@),
        guarded(joined(tags_view(e))),
    ]);
}

/// Every event's line is among the narrative lines of the events.
proof fn lemma_event_lines_hold_each(events: Seq<TimelineEvent>, i: int)
    requires
        0 <= i < events.len(),
    ensures
        seq_contains(narrative_event_lines(events), narrative_event_line(events[i])),
    decreases events.len(),
{
    let rest = narrative_event_lines(events.drop_last());
    let line = narrative_event_line(events.last());
    if i == events.len() - 1 {
        lemma_contains_whole(line);
        lemma_contains_within(rest, line, seq![], line);
        assert(rest + line + seq![] =~= rest + line);
    } else {
        lemma_event_lines_hold_each(events.drop_last(), i);
        lemma_contains_within(seq![], rest, line, narrative_event_line(events[i]));
        assert(Seq::<char>::empty() + rest + line =~= rest + line);
    }
}

/// Every finding's lines, with its gap text, are among the narrative lines of
/// the findings.
proof fn lemma_finding_lines_hold_each(findings: Seq<SpecFinding>, deltas: Seq<Seq<char>>, k: int)
    requires
        0 <= k < findings.len(),
        deltas.len() == findings.len(),
    ensures
        seq_contains(narrative_findings(findings, deltas), narrative_finding_lines(findings[k], deltas[k])),
    decreases findings.len(),
{
    let rest = narrative_findings(findings.drop_last(), deltas.drop_last());
    let lines = narrative_finding_lines(findings.last(), deltas.last());
    if k == findings.len() - 1 {
        lemma_contains_whole(lines);
        lemma_contains_within(rest, lines, seq![], lines);
        assert(rest + lines + seq![] =~= rest + lines);
    } else {
        lemma_finding_lines_hold_each(findings.drop_last(), deltas.drop_last(), k);
        lemma_contains_within(seq![], rest, lines, narrative_finding_lines(findings[k], deltas[k]));
        assert(Seq::<char>::empty() + rest + lines =~= rest + lines);
    }
}

/// The narrative opens with the banner, the collection and the number of
/// timeline events handed in, whatever the findings are.
pub proof fn law_narrative_header_counts_events(
    events: Seq<TimelineEvent>,
    findings: Seq<SpecFinding>,
    collection: Seq<char>,
    deltas: Seq<Seq<char>>,
)
    ensures
        ({
            let count: int = events.len() as int;
            let head = narrative_banner() + "  Collection : "@ + collection + "\n  Events     : "@ + decimal(count) + "\n\n"@;
            let text = narrative_text(events, findings, collection, deltas);
            &&& head.len() <= text.len()
            &&& text.take(head.len() as int) == head
        }),
{
    let count: int = events.len() as int;
    let head = narrative_banner() + "  Collection : "@ + collection + "\n  Events     : "@ + decimal(count) + "\n\n"@;
    let text = narrative_text(events, findings, collection, deltas);
    let nl2 = "\n\n┌─ TIMELINE EVENTS ──────────────────────────────────────\n"@;
    reveal_strlit("\n\n");
    reveal_strlit("\n\n┌─ TIMELINE EVENTS ──────────────────────────────────────\n");
    let pre = narrative_banner() + "  Collection : "@ + collection + "\n  Events     : "@ + decimal(count);
    let rest = text.subrange((pre.len() + nl2.len()) as int, text.len() as int);
    assert(text =~= pre + nl2 + rest);
    assert(nl2.take(2) =~= "\n\n"@);
    assert(text.take(head.len() as int) =~= head);
}

/// Every timeline event handed in has its line in the narrative, and with
/// none the narrative says that no events were parsed.
pub proof fn law_narrative_lists_every_event(
    events: Seq<TimelineEvent>,
    findings: Seq<SpecFinding>,
    collection: Seq<char>,
    deltas: Seq<Seq<char>>,
    i: int,
)
    ensures
        0 <= i < events.len() ==> seq_contains(
            narrative_text(events, findings, collection, deltas),
            narrative_event_line(events[i]),
        ),
        events.len() == 0 ==> seq_contains(
            narrative_text(events, findings, collection, deltas),
            "│  No events parsed from collection.\n"@,
        ),
{
    let text = narrative_text(events, findings, collection, deltas);
    let count: int = events.len() as int;
    let pre = narrative_banner() + "  Collection : "@ + collection + "\n  Events     : "@ + decimal(count)
        + "\n\n┌─ TIMELINE EVENTS ──────────────────────────────────────\n"@;
    let part = if events.len() == 0 {
        "│  No events parsed from collection.\n"@
    } else {
        narrative_event_lines(events)
    };
    let post = text.subrange((pre.len() + part.len()) as int, text.len() as int);
    assert(text =~= pre + part + post);
    if 0 <= i < events.len() {
        lemma_event_lines_hold_each(events, i);
        lemma_contains_within(pre, part, post, narrative_event_line(events[i]));
    }
    if events.len() == 0 {
        lemma_contains_whole(part);
        lemma_contains_within(pre, part, post, part);
    }
}

/// Every temporal finding has its lines, with its gap text, in the
/// narrative, and with none the narrative says that no anomalies were
/// detected.
pub proof fn law_narrative_lists_every_finding(
    events: Seq<TimelineEvent>,
    findings: Seq<SpecFinding>,
    collection: Seq<char>,
    deltas: Seq<Seq<char>>,
    k: int,
)
    requires
        deltas.len() == findings.len(),
    ensures
        0 <= k < findings.len() ==> seq_contains(
            narrative_text(events, findings, collection, deltas),
            narrative_finding_lines(findings[k], deltas[k]),
        ),
        findings.len() == 0 ==> seq_contains(
            narrative_text(events, findings, collection, deltas),
            "│  No temporal anomalies detected.\n"@,
        ),
{
    let text = narrative_text(events, findings, collection, deltas);
    let ev_part = if events.len() == 0 {
        "│  No events parsed from collection.\n"@
    } else {
        narrative_event_lines(events)
    };
    let count: int = events.len() as int;
    let pre = narrative_banner() + "  Collection : "@ + collection + "\n  Events     : "@ + decimal(count)
        + "\n\n┌─ TIMELINE EVENTS ──────────────────────────────────────\n"@ + ev_part
        + "\n┌─ TEMPORAL FINDINGS ────────────────────────────────────\n"@;
    let part = if findings.len() == 0 {
        "│  No temporal anomalies detected.\n"@
    } else {
        narrative_findings(findings, deltas)
    };
    let post = "\n  supertimeline complete.\n"@;
    assert(text =~= pre + part + post);
    if 0 <= k < findings.len() {
        lemma_finding_lines_hold_each(findings, deltas, k);
        lemma_contains_within(pre, part, post, narrative_finding_lines(findings[k], deltas[k]));
    }
    if findings.len() == 0 {
        lemma_contains_whole(part);
        lemma_contains_within(pre, part, post, part);
    }
}

} // verus!
