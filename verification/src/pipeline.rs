//! Resumable pipeline planning: given the stage states recorded by an earlier
//! run and the current input fingerprints, decide which stages run and why.

use vstd::prelude::*;

verus! {

/// A pipeline stage. `Ingest`, `Correlate` and `Scan` form the disk chain;
/// `Memory` is independent of it.
#[derive(Debug, Clone, Copy, PartialEq, Eq, Structural, Hash)]
pub enum Stage {
    Ingest,
    Correlate,
    Scan,
    Memory,
}

/// The canonical evaluation order as a sequence.
pub open spec fn stage_order() -> Seq<Stage> {
    seq![Stage::Ingest, Stage::Correlate, Stage::Scan, Stage::Memory]
}

/// The upstream stages whose re-run forces a stage to re-run.
pub open spec fn spec_deps(s: Stage) -> Seq<Stage> {
    match s {
        Stage::Ingest | Stage::Memory => seq![],
        Stage::Correlate | Stage::Scan => seq![Stage::Ingest],
    }
}

impl Stage {
    /// Canonical evaluation order: the disk chain first, then the memory leg.
    pub const ORDER: [Stage; 4] = [Stage::Ingest, Stage::Correlate, Stage::Scan, Stage::Memory];

    /// Upstream stages whose re-run forces this stage to re-run.
    pub fn deps(self) -> (r: &'static [Stage])
        ensures
            r@ == spec_deps(self),
    {
        match self {
            Stage::Ingest | Stage::Memory => &[],
            Stage::Correlate | Stage::Scan => &[Stage::Ingest],
        }
    }
}


/// Persisted completion status of a stage from a prior run.
#[derive(Debug, Clone, Copy, PartialEq, Eq, Structural)]
pub enum Status {
    /// The stage finished cleanly.
    Done,
    /// The stage started but did not finish.
    Incomplete,
}

/// A stage-state row recovered from the case database.
#[derive(Debug, Clone)]
pub struct StageRecord {
    pub stage: Stage,
    pub status: Status,
    /// Fingerprint of the stage's inputs at the time it last ran.
    pub fingerprint: String,
}

/// Why a stage needs to run.
#[derive(Debug, Clone, Copy, PartialEq, Eq, Structural)]
pub enum Reason {
    /// No prior record: never run for this case.
    Missing,
    /// The prior run did not finish.
    Incomplete,
    /// Inputs changed since the last successful run.
    Stale,
    /// An upstream dependency is re-running, so this stage's input will change.
    UpstreamRerun,
}

/// What to do with a stage this run.
#[derive(Debug, Clone, Copy, PartialEq, Eq, Structural)]
pub enum Action {
    Run(Reason),
    Skip,
}

impl Action {
    /// True for every `Run`, false for `Skip`.
    pub fn is_run(self) -> (r: bool)
        ensures
            r == (self is Run),
    {
        match self {
            Action::Run(_) => true,
            Action::Skip => false,
        }
    }
}

/// The current fingerprint of `s`: the value paired with it in `cur`, if any.
/// `cur` pairs each stage with at most one fingerprint (see `unique_stages`).
pub open spec fn current_fp(cur: Seq<(Stage, String)>, s: Stage) -> Option<Seq<char>>
    decreases cur.len(),
{
    if cur.len() == 0 {
        None
    } else if cur.last().0 == s {
        Some(cur.last().1@)
    } else {
        current_fp(cur.drop_last(), s)
    }
}

/// No stage is paired with two fingerprints (the keys of a map).
pub open spec fn unique_stages(cur: Seq<(Stage, String)>) -> bool {
    forall|i: int, j: int| 0 <= i < j < cur.len() ==> cur[i].0 != cur[j].0
}

/// A stage is applicable when it has a current fingerprint.
pub open spec fn applicable(cur: Seq<(Stage, String)>, s: Stage) -> bool {
    current_fp(cur, s) is Some
}

/// The most recent prior record of `s` (later rows supersede earlier ones).
pub open spec fn prior_record(prior: Seq<StageRecord>, s: Stage) -> Option<StageRecord>
    decreases prior.len(),
{
    if prior.len() == 0 {
        None
    } else if prior.last().stage == s {
        Some(prior.last())
    } else {
        prior_record(prior.drop_last(), s)
    }
}

/// What a stage's own record and fingerprint ask for, before dependencies.
pub open spec fn own_action(prior: Seq<StageRecord>, cur: Seq<(Stage, String)>, s: Stage) -> Action {
    match prior_record(prior, s) {
        None => Action::Run(Reason::Missing),
        Some(r) => if r.status == Status::Incomplete {
            Action::Run(Reason::Incomplete)
        } else if current_fp(cur, s) != Some(r.fingerprint@) {
            Action::Run(Reason::Stale)
        } else {
            Action::Skip
        },
    }
}

/// Some applicable upstream dependency of `s` runs this time.
pub open spec fn upstream_runs(prior: Seq<StageRecord>, cur: Seq<(Stage, String)>, s: Stage) -> bool {
    exists|k: int|
        0 <= k < spec_deps(s).len() && applicable(cur, #[trigger] spec_deps(s)[k])
            && own_action(prior, cur, spec_deps(s)[k]) is Run
}

/// The planned action of a stage.
pub open spec fn stage_action(prior: Seq<StageRecord>, cur: Seq<(Stage, String)>, s: Stage) -> Action {
    if own_action(prior, cur, s) is Run {
        own_action(prior, cur, s)
    } else if upstream_runs(prior, cur, s) {
        Action::Run(Reason::UpstreamRerun)
    } else {
        Action::Skip
    }
}

/// The plan restricted to the first `n` stages of the canonical order.
pub open spec fn plan_prefix(prior: Seq<StageRecord>, cur: Seq<(Stage, String)>, n: nat) -> Seq<(Stage, Action)>
    decreases n,
{
    if n == 0 {
        seq![]
    } else {
        let s = stage_order()[n - 1];
        let before = plan_prefix(prior, cur, (n - 1) as nat);
        if applicable(cur, s) {
            before.push((s, stage_action(prior, cur, s)))
        } else {
            before
        }
    }
}

/// The plan: every applicable stage, in canonical order, with its action.
pub open spec fn spec_plan(prior: Seq<StageRecord>, cur: Seq<(Stage, String)>) -> Seq<(Stage, Action)> {
    plan_prefix(prior, cur, 4)
}

/// The current fingerprint of `s`, searching from the end like `current_fp`.
fn lookup_fp<'a>(cur: &'a [(Stage, String)], s: Stage) -> (r: Option<&'a String>)
    ensures
        match r {
            Some(f) => current_fp(cur@, s) == Some(f@),
            None => current_fp(cur@, s) is None,
        },
{
    let mut i = cur.len();
    assert(cur@.subrange(0, i as int) =~= cur@);
    while i > 0
        invariant
            i <= cur@.len(),
            current_fp(cur@, s) == current_fp(cur@.subrange(0, i as int), s),
        decreases i,
    {
        let ghost prefix = cur@.subrange(0, i as int);
        assert(prefix.drop_last() =~= cur@.subrange(0, i - 1));
        if cur[i - 1].0 == s {
            return Some(&cur[i - 1].1);
        }
        i = i - 1;
    }
    assert(cur@.subrange(0, 0) =~= Seq::<(Stage, String)>::empty());
    None
}

/// The most recent prior record of `s`.
fn lookup_record<'a>(prior: &'a [StageRecord], s: Stage) -> (r: Option<&'a StageRecord>)
    ensures
        match r {
            Some(rec) => prior_record(prior@, s) == Some(*rec),
            None => prior_record(prior@, s) is None,
        },
{
    let mut i = prior.len();
    assert(prior@.subrange(0, i as int) =~= prior@);
    while i > 0
        invariant
            i <= prior@.len(),
            prior_record(prior@, s) == prior_record(prior@.subrange(0, i as int), s),
        decreases i,
    {
        let ghost prefix = prior@.subrange(0, i as int);
        assert(prefix.drop_last() =~= prior@.subrange(0, i - 1));
        if prior[i - 1].stage == s {
            return Some(&prior[i - 1]);
        }
        i = i - 1;
    }
    assert(prior@.subrange(0, 0) =~= Seq::<StageRecord>::empty());
    None
}

/// The action a stage's own record and fingerprint ask for.
fn own_action_of(prior: &[StageRecord], cur: &[(Stage, String)], s: Stage) -> (a: Action)
    ensures
        a == own_action(prior@, cur@, s),
{
    match lookup_record(prior, s) {
        None => Action::Run(Reason::Missing),
        Some(rec) => {
            if rec.status == Status::Incomplete {
                Action::Run(Reason::Incomplete)
            } else {
                match lookup_fp(cur, s) {
                    Some(f) => {
                        if rec.fingerprint == *f {
                            Action::Skip
                        } else {
                            Action::Run(Reason::Stale)
                        }
                    },
                    None => Action::Run(Reason::Stale),
                }
            }
        },
    }
}

/// Whether some applicable upstream dependency of `s` runs this time.
fn upstream_runs_of(prior: &[StageRecord], cur: &[(Stage, String)], s: Stage) -> (b: bool)
    ensures
        b == upstream_runs(prior@, cur@, s),
{
    let deps = s.deps();
    let mut k: usize = 0;
    while k < deps.len()
        invariant
            k <= deps@.len(),
            deps@ == spec_deps(s),
            forall|j: int|
                0 <= j < k ==> !(applicable(cur@, #[trigger] spec_deps(s)[j]) && own_action(
                    prior@,
                    cur@,
                    spec_deps(s)[j],
                ) is Run),
        decreases deps@.len() - k,
    {
        let d = deps[k];
        if lookup_fp(cur, d).is_some() && own_action_of(prior, cur, d).is_run() {
            return true;
        }
        k = k + 1;
    }
    false
}

/// Decide, for each applicable stage (one with a current fingerprint), whether
/// to run it and why, or to skip it. Stages come back in [`Stage::ORDER`].
///
/// Per stage: no prior record runs as `Missing`; a prior `Incomplete` runs as
/// `Incomplete`; a prior `Done` with another fingerprint runs as `Stale`; a prior
/// `Done` with the same fingerprint is skipped, unless an upstream dependency
/// runs, which makes it run as `UpstreamRerun`. Where `prior` holds several rows
/// for one stage the last one counts; where `current_fp` pairs a stage with
/// several fingerprints the last one counts.
pub fn plan(prior: &[StageRecord], current_fp: &[(Stage, String)]) -> (r: Vec<(Stage, Action)>)
    ensures
        r@ == spec_plan(prior@, current_fp@),
{
    let order = Stage::ORDER;
    let mut out: Vec<(Stage, Action)> = Vec::new();
    let mut n: usize = 0;
    assert(order@ == stage_order());
    while n < 4
        invariant
            n <= 4,
            order@ == stage_order(),
            out@ == plan_prefix(prior@, current_fp@, n as nat),
        decreases 4 - n,
    {
        let s = order[n];
        if lookup_fp(current_fp, s).is_some() {
            let own = own_action_of(prior, current_fp, s);
            let a = if own.is_run() {
                own
            } else if upstream_runs_of(prior, current_fp, s) {
                Action::Run(Reason::UpstreamRerun)
            } else {
                Action::Skip
            };
            out.push((s, a));
        }
        n = n + 1;
    }
    out
}


/// The position of a stage in the canonical order.
pub open spec fn stage_index(s: Stage) -> int {
    match s {
        Stage::Ingest => 0,
        Stage::Correlate => 1,
        Stage::Scan => 2,
        Stage::Memory => 3,
    }
}

/// Each entry of a plan prefix is an applicable stage among the first `n`
/// paired with its action.
proof fn lemma_prefix_entries(prior: Seq<StageRecord>, cur: Seq<(Stage, String)>, n: nat)
    requires
        n <= 4,
    ensures
        forall|k: int|
            #![trigger plan_prefix(prior, cur, n)[k]]
            0 <= k < plan_prefix(prior, cur, n).len() ==> applicable(cur, plan_prefix(prior, cur, n)[k].0)
                && plan_prefix(prior, cur, n)[k].1 == stage_action(
                prior,
                cur,
                plan_prefix(prior, cur, n)[k].0,
            ) && stage_index(plan_prefix(prior, cur, n)[k].0) < n,
    decreases n,
{
    if n > 0 {
        lemma_prefix_entries(prior, cur, (n - 1) as nat);
        assert(stage_index(stage_order()[n - 1]) == n - 1);
    }
}

/// A plan prefix lists its stages in strictly increasing canonical position.
proof fn lemma_prefix_sorted(prior: Seq<StageRecord>, cur: Seq<(Stage, String)>, n: nat)
    requires
        n <= 4,
    ensures
        forall|k1: int, k2: int|
            0 <= k1 < k2 < plan_prefix(prior, cur, n).len() ==> stage_index(
                #[trigger] plan_prefix(prior, cur, n)[k1].0,
            ) < stage_index(#[trigger] plan_prefix(prior, cur, n)[k2].0),
    decreases n,
{
    if n > 0 {
        lemma_prefix_sorted(prior, cur, (n - 1) as nat);
        lemma_prefix_entries(prior, cur, (n - 1) as nat);
        assert(stage_index(stage_order()[n - 1]) == n - 1);
    }
}

/// Every applicable stage among the first `n` appears in the plan prefix.
proof fn lemma_prefix_complete(prior: Seq<StageRecord>, cur: Seq<(Stage, String)>, n: nat, s: Stage)
    requires
        n <= 4,
        applicable(cur, s),
        stage_index(s) < n,
    ensures
        exists|k: int| 0 <= k < plan_prefix(prior, cur, n).len() && (#[trigger] plan_prefix(prior, cur, n)[k]).0 == s,
    decreases n,
{
    let now = plan_prefix(prior, cur, n);
    assert(stage_order()[stage_index(s)] == s);
    if stage_index(s) == n - 1 {
        assert(now[now.len() - 1].0 == s);
    } else {
        lemma_prefix_complete(prior, cur, (n - 1) as nat, s);
        let before = plan_prefix(prior, cur, (n - 1) as nat);
        let k = choose|k: int| 0 <= k < before.len() && (#[trigger] before[k]).0 == s;
        assert(now[k] == before[k]);
    }
}

/// The plan lists exactly the applicable stages, each once, in canonical
/// order, each with its planned action.
pub proof fn law_plan_covers_applicable_in_order(prior: Seq<StageRecord>, cur: Seq<(Stage, String)>)
    ensures
        forall|k: int|
            0 <= k < spec_plan(prior, cur).len() ==> applicable(cur, (#[trigger] spec_plan(prior, cur)[k]).0)
                && spec_plan(prior, cur)[k].1 == stage_action(prior, cur, spec_plan(prior, cur)[k].0),
        forall|s: Stage|
            applicable(cur, s) ==> exists|k: int|
                0 <= k < spec_plan(prior, cur).len() && (#[trigger] spec_plan(prior, cur)[k]).0 == s,
        forall|k1: int, k2: int|
            0 <= k1 < k2 < spec_plan(prior, cur).len() ==> stage_index(
                (#[trigger] spec_plan(prior, cur)[k1]).0,
            ) < stage_index((#[trigger] spec_plan(prior, cur)[k2]).0),
{
    lemma_prefix_entries(prior, cur, 4);
    lemma_prefix_sorted(prior, cur, 4);
    assert forall|s: Stage| applicable(cur, s) implies exists|k: int|
        0 <= k < spec_plan(prior, cur).len() && (#[trigger] spec_plan(prior, cur)[k]).0 == s by {
        lemma_prefix_complete(prior, cur, 4, s);
    }
}

/// A stage is up to date when its latest record is `Done` with its current
/// fingerprint.
pub open spec fn up_to_date(prior: Seq<StageRecord>, cur: Seq<(Stage, String)>, s: Stage) -> bool {
    match prior_record(prior, s) {
        Some(r) => r.status == Status::Done && current_fp(cur, s) == Some(r.fingerprint@),
        None => false,
    }
}

/// Re-running after every applicable stage completed with its current
/// fingerprint skips everything.
pub proof fn law_all_up_to_date_skips_all(prior: Seq<StageRecord>, cur: Seq<(Stage, String)>)
    requires
        forall|s: Stage| applicable(cur, s) ==> up_to_date(prior, cur, s),
    ensures
        forall|k: int|
            0 <= k < spec_plan(prior, cur).len() ==> (#[trigger] spec_plan(prior, cur)[k]).1
                == Action::Skip,
{
    law_plan_covers_applicable_in_order(prior, cur);
    assert forall|k: int| 0 <= k < spec_plan(prior, cur).len() implies (#[trigger] spec_plan(
        prior,
        cur,
    )[k]).1 == Action::Skip by {
        let s = spec_plan(prior, cur)[k].0;
        assert(own_action(prior, cur, s) == Action::Skip);
        if upstream_runs(prior, cur, s) {
            let j = choose|j: int|
                0 <= j < spec_deps(s).len() && applicable(cur, #[trigger] spec_deps(s)[j])
                    && own_action(prior, cur, spec_deps(s)[j]) is Run;
            assert(up_to_date(prior, cur, spec_deps(s)[j]));
        }
    }
}

/// A skipped stage is up to date, and none of its applicable upstream
/// dependencies runs.
pub proof fn law_skip_only_when_up_to_date(prior: Seq<StageRecord>, cur: Seq<(Stage, String)>, s: Stage)
    requires
        applicable(cur, s),
        stage_action(prior, cur, s) == Action::Skip,
    ensures
        up_to_date(prior, cur, s),
        forall|k: int|
            0 <= k < spec_deps(s).len() && applicable(cur, #[trigger] spec_deps(s)[k]) ==> stage_action(
                prior,
                cur,
                spec_deps(s)[k],
            ) == Action::Skip,
{
    assert forall|k: int|
        0 <= k < spec_deps(s).len() && applicable(cur, #[trigger] spec_deps(s)[k]) implies stage_action(
        prior,
        cur,
        spec_deps(s)[k],
    ) == Action::Skip by {
        assert(spec_deps(s)[k] == Stage::Ingest);
        assert(spec_deps(Stage::Ingest).len() == 0);
    }
}

/// Re-ingesting the disk timeline re-runs every applicable stage of the
/// disk chain.
pub proof fn law_ingest_rerun_cascades(prior: Seq<StageRecord>, cur: Seq<(Stage, String)>, s: Stage)
    requires
        applicable(cur, Stage::Ingest),
        stage_action(prior, cur, Stage::Ingest) is Run,
        s == Stage::Correlate || s == Stage::Scan,
    ensures
        stage_action(prior, cur, s) is Run,
{
    assert(spec_deps(s)[0] == Stage::Ingest);
    assert(spec_deps(Stage::Ingest).len() == 0);
}

/// The memory leg depends only on its own record and fingerprint; it is
/// never re-run because of another stage.
pub proof fn law_memory_is_independent(prior: Seq<StageRecord>, cur: Seq<(Stage, String)>)
    ensures
        stage_action(prior, cur, Stage::Memory) == own_action(prior, cur, Stage::Memory),
{
}

} // verus!
