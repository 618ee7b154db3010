//! Scenarios for resumable pipeline planning.

use std::collections::HashSet;

use issen::pipeline::{plan, Action, Reason, Stage, StageRecord, Status};


fn fp(pairs: &[(Stage, &str)]) -> Vec<(Stage, String)> {
    pairs.iter().map(|(s, f)| (*s, (*f).to_string())).collect()
}

fn rec(stage: Stage, status: Status, f: &str) -> StageRecord {
    StageRecord {
        stage,
        status,
        fingerprint: f.to_string(),
    }
}

fn action_for(plan: &[(Stage, Action)], stage: Stage) -> Option<Action> {
    plan.iter().find(|(s, _)| *s == stage).map(|(_, a)| *a)
}

#[test]
fn cold_run_runs_every_applicable_stage_as_missing() {
    let cur = fp(&[
        (Stage::Ingest, "e1"),
        (Stage::Correlate, "r1"),
        (Stage::Scan, "f1"),
        (Stage::Memory, "m1"),
    ]);
    let p = plan(&[], &cur);
    for s in Stage::ORDER {
        assert_eq!(
            action_for(&p, s),
            Some(Action::Run(Reason::Missing)),
            "{s:?}"
        );
    }
}

#[test]
fn all_done_and_unchanged_skips_everything() {
    let cur = fp(&[
        (Stage::Ingest, "e1"),
        (Stage::Correlate, "r1"),
        (Stage::Scan, "f1"),
    ]);
    let prior = vec![
        rec(Stage::Ingest, Status::Done, "e1"),
        rec(Stage::Correlate, Status::Done, "r1"),
        rec(Stage::Scan, Status::Done, "f1"),
    ];
    let p = plan(&prior, &cur);
    for s in [Stage::Ingest, Stage::Correlate, Stage::Scan] {
        assert_eq!(action_for(&p, s), Some(Action::Skip), "{s:?}");
    }
}

#[test]
fn changed_evidence_reingests_and_cascades_to_disk_chain_only() {
    // Ingest fingerprint changed (new evidence); correlate/scan rule+feed
    // fingerprints unchanged; memory dump unchanged.
    let cur = fp(&[
        (Stage::Ingest, "e2"),
        (Stage::Correlate, "r1"),
        (Stage::Scan, "f1"),
        (Stage::Memory, "m1"),
    ]);
    let prior = vec![
        rec(Stage::Ingest, Status::Done, "e1"),
        rec(Stage::Correlate, Status::Done, "r1"),
        rec(Stage::Scan, Status::Done, "f1"),
        rec(Stage::Memory, Status::Done, "m1"),
    ];
    let p = plan(&prior, &cur);
    assert_eq!(
        action_for(&p, Stage::Ingest),
        Some(Action::Run(Reason::Stale))
    );
    assert_eq!(
        action_for(&p, Stage::Correlate),
        Some(Action::Run(Reason::UpstreamRerun))
    );
    assert_eq!(
        action_for(&p, Stage::Scan),
        Some(Action::Run(Reason::UpstreamRerun))
    );
    // Memory is independent of the disk chain — unchanged, so it skips.
    assert_eq!(action_for(&p, Stage::Memory), Some(Action::Skip));
}

#[test]
fn updated_feeds_rerun_scan_only() {
    let cur = fp(&[
        (Stage::Ingest, "e1"),
        (Stage::Correlate, "r1"),
        (Stage::Scan, "f2"),
    ]);
    let prior = vec![
        rec(Stage::Ingest, Status::Done, "e1"),
        rec(Stage::Correlate, Status::Done, "r1"),
        rec(Stage::Scan, Status::Done, "f1"),
    ];
    let p = plan(&prior, &cur);
    assert_eq!(action_for(&p, Stage::Ingest), Some(Action::Skip));
    assert_eq!(action_for(&p, Stage::Correlate), Some(Action::Skip));
    assert_eq!(
        action_for(&p, Stage::Scan),
        Some(Action::Run(Reason::Stale))
    );
}

#[test]
fn edited_rule_reruns_correlate_only() {
    let cur = fp(&[
        (Stage::Ingest, "e1"),
        (Stage::Correlate, "r2"),
        (Stage::Scan, "f1"),
    ]);
    let prior = vec![
        rec(Stage::Ingest, Status::Done, "e1"),
        rec(Stage::Correlate, Status::Done, "r1"),
        rec(Stage::Scan, Status::Done, "f1"),
    ];
    let p = plan(&prior, &cur);
    assert_eq!(action_for(&p, Stage::Ingest), Some(Action::Skip));
    assert_eq!(
        action_for(&p, Stage::Correlate),
        Some(Action::Run(Reason::Stale))
    );
    // Scan does not depend on correlate's output, so it is unaffected.
    assert_eq!(action_for(&p, Stage::Scan), Some(Action::Skip));
}

#[test]
fn incomplete_stage_resumes_without_rerunning_completed_upstream() {
    // Killed mid-correlate: ingest done, correlate incomplete.
    let cur = fp(&[
        (Stage::Ingest, "e1"),
        (Stage::Correlate, "r1"),
        (Stage::Scan, "f1"),
    ]);
    let prior = vec![
        rec(Stage::Ingest, Status::Done, "e1"),
        rec(Stage::Correlate, Status::Incomplete, "r1"),
    ];
    let p = plan(&prior, &cur);
    assert_eq!(action_for(&p, Stage::Ingest), Some(Action::Skip));
    assert_eq!(
        action_for(&p, Stage::Correlate),
        Some(Action::Run(Reason::Incomplete))
    );
    // Scan was never run (no record) → Missing; ingest (its dep) is not running.
    assert_eq!(
        action_for(&p, Stage::Scan),
        Some(Action::Run(Reason::Missing))
    );
}

#[test]
fn stage_with_no_current_fingerprint_is_not_planned() {
    // No memory dumps in this case → no Memory fingerprint → Memory absent.
    let cur = fp(&[(Stage::Ingest, "e1")]);
    let p = plan(&[], &cur);
    assert_eq!(action_for(&p, Stage::Memory), None);
    assert_eq!(
        action_for(&p, Stage::Ingest),
        Some(Action::Run(Reason::Missing))
    );
}

#[test]
fn plan_is_returned_in_canonical_order() {
    let cur = fp(&[
        (Stage::Memory, "m1"),
        (Stage::Scan, "f1"),
        (Stage::Ingest, "e1"),
        (Stage::Correlate, "r1"),
    ]);
    let p = plan(&[], &cur);
    let order: Vec<Stage> = p.iter().map(|(s, _)| *s).collect();
    assert_eq!(order, Stage::ORDER.to_vec());
}

#[test]
fn types_compile() {
    let _: HashSet<Stage> = HashSet::new();
    assert!(Action::Run(Reason::Missing).is_run());
    assert!(!Action::Skip.is_run());
}
