use action_label_rust_incompatible::git::ResolveError;
use action_label_rust_incompatible::labels::{LabelConfig, LabelOp};
use action_label_rust_incompatible::pipeline::{Pipeline, PipelineError, Stage};
use action_label_rust_incompatible::prepare::{PrepareAction, PrepareError, PrepareStep, Side};
use action_label_rust_incompatible::report::{ReportError, SemverResult, SemverResultChanges};
use action_label_rust_incompatible::severity::ChangeTypes;

fn config(patch: Option<&str>, breaking: Option<&str>) -> LabelConfig {
    LabelConfig {
        patch: patch.map(|s| s.to_string()),
        non_breaking: None,
        technically_breaking: None,
        breaking: breaking.map(|s| s.to_string()),
    }
}

fn verdict_report(category: &str) -> SemverResult {
    SemverResult {
        old_version: "1.0.0".to_string(),
        new_version: "1.0.1".to_string(),
        changes: SemverResultChanges {
            max_category: Some(category.to_string()),
            path_changes: serde_json::Value::Null,
            changes: serde_json::Value::Null,
        },
    }
}

fn pipeline(base_ref: &str, head_ref: &str, cfg: LabelConfig, request: Option<u64>) -> Pipeline {
    Pipeline::new("/ws", base_ref, head_ref, "h2", "/tmp/w", cfg, request)
}

/// Resolves to `b1` and prepares both trees.
fn up_to_analysis(p: &mut Pipeline) {
    if p.stage() == Stage::Fetch {
        p.fetched(true);
    }
    assert_eq!(p.stage(), Stage::ResolveRef);
    p.resolved(b"b1\n".to_vec(), true);
    for _ in 0..4 {
        assert_eq!(p.stage(), Stage::Prepare);
        p.prepared(true);
    }
    assert_eq!(p.stage(), Stage::Analyze);
}

#[test]
fn same_base_and_head_ref_skips_fetch() {
    let p = pipeline("refs/heads/main", "refs/heads/main", config(None, None), None);
    assert_eq!(p.stage(), Stage::ResolveRef);
    let p = pipeline("refs/heads/main", "refs/pull/3/merge", config(None, None), Some(3));
    assert_eq!(p.stage(), Stage::Fetch);
    assert_eq!(
        p.fetch_args(),
        vec!["-C", "/ws", "fetch", "--depth", "1", "origin", "refs/heads/main:refs/heads/main"]
    );
}

#[test]
fn resolved_commit_is_checked_out_in_base_tree() {
    let mut p = pipeline("refs/heads/main", "refs/heads/main", config(None, None), None);
    assert_eq!(p.show_ref_args(), vec!["-C", "/ws", "show-ref", "--verify", "--hash", "refs/heads/main"]);
    p.resolved(b" b1 \n".to_vec(), true);
    p.prepared(true);
    match p.preparation_step() {
        PrepareStep::Checkout { side, args } => {
            assert_eq!(*side, Side::Base);
            assert_eq!(*args, vec!["-C", "/tmp/w/base", "checkout", "--detach", "--force", "b1"]);
        }
        other => panic!("unexpected step {:?}", other),
    }
}

#[test]
fn breaking_run_sets_breaking_and_removes_patch() {
    let mut p = pipeline("refs/heads/main", "refs/pull/7/merge", config(Some("patch"), Some("breaking")), Some(7));
    up_to_analysis(&mut p);
    assert_eq!(
        p.analysis_args("stable\n"),
        vec![
            "+stable",
            "semver",
            "--json",
            "--all-features",
            "--stable-path",
            "/tmp/w/base/Cargo.toml",
            "--current-path",
            "/tmp/w/head/Cargo.toml",
        ]
    );
    p.analyzed(Some(verdict_report("Breaking")));
    assert_eq!(p.stage(), Stage::Label);
    let call = p.label_call().clone();
    assert_eq!((call.op, call.label.as_str()), (LabelOp::Add, "breaking"));
    p.labelled(true);
    let call = p.label_call().clone();
    assert_eq!((call.op, call.label.as_str()), (LabelOp::Remove, "patch"));
    p.labelled(true);
    assert_eq!(p.stage(), Stage::Finished);
    assert_eq!(p.category(), Some(ChangeTypes::Breaking));
    assert!(p.error().is_none());
}

#[test]
fn patch_run_only_sets_patch() {
    let mut p = pipeline("refs/heads/main", "refs/pull/8/merge", config(Some("patch"), None), Some(8));
    up_to_analysis(&mut p);
    p.analyzed(Some(verdict_report("Patch")));
    let call = p.label_call().clone();
    assert_eq!((call.op, call.label.as_str()), (LabelOp::Add, "patch"));
    p.labelled(true);
    assert_eq!(p.stage(), Stage::Finished);
    assert_eq!(p.category(), Some(ChangeTypes::Patch));
}

#[test]
fn run_without_request_makes_no_label_call() {
    let mut p = pipeline("refs/heads/main", "refs/heads/feature", config(Some("patch"), Some("breaking")), None);
    up_to_analysis(&mut p);
    p.analyzed(Some(verdict_report("NonBreaking")));
    assert_eq!(p.stage(), Stage::Finished);
    assert_eq!(p.category(), Some(ChangeTypes::NonBreaking));
}

#[test]
fn failed_fetch_ends_run() {
    let mut p = pipeline("refs/heads/main", "refs/pull/1/merge", config(None, None), Some(1));
    p.fetched(false);
    assert_eq!(p.stage(), Stage::Failed);
    assert!(matches!(p.error(), Some(PipelineError::FetchFailed)));
}

#[test]
fn unreadable_ref_output_ends_run() {
    let mut p = pipeline("a", "a", config(None, None), None);
    p.resolved(vec![0xc3], true);
    assert_eq!(p.stage(), Stage::Failed);
    assert!(matches!(p.error(), Some(PipelineError::Resolve(ResolveError::NotUtf8))));
}

#[test]
fn failed_preparation_ends_run() {
    let mut p = pipeline("a", "a", config(None, None), None);
    p.resolved(b"b1".to_vec(), true);
    p.prepared(true);
    p.prepared(true);
    p.prepared(true);
    p.prepared(false);
    assert_eq!(p.stage(), Stage::Failed);
    assert!(matches!(
        p.error(),
        Some(PipelineError::Prepare(PrepareError { side: Side::Head, action: PrepareAction::Checkout }))
    ));
}

#[test]
fn bad_reports_end_run() {
    let mut p = pipeline("a", "a", config(None, None), None);
    up_to_analysis(&mut p);
    p.analyzed(None);
    assert!(matches!(p.error(), Some(PipelineError::UnreadableReport)));

    let mut p = pipeline("a", "a", config(None, None), None);
    up_to_analysis(&mut p);
    p.analyzed(Some(verdict_report("Major")));
    assert!(matches!(p.error(), Some(PipelineError::Report(ReportError::UnknownCategory))));
    assert_eq!(p.category(), None);

    let mut p = pipeline("a", "a", config(None, None), None);
    up_to_analysis(&mut p);
    let mut report = verdict_report("Patch");
    report.changes.max_category = None;
    p.analyzed(Some(report));
    assert!(matches!(p.error(), Some(PipelineError::Report(ReportError::MissingCategory))));
}

#[test]
fn failed_label_call_names_operation_and_label() {
    let mut p = pipeline("a", "refs/pull/2/merge", config(Some("patch"), Some("breaking")), Some(2));
    up_to_analysis(&mut p);
    p.analyzed(Some(verdict_report("Patch")));
    p.labelled(true);
    p.labelled(false);
    assert_eq!(p.stage(), Stage::Failed);
    match p.error() {
        Some(PipelineError::Label { op, label }) => {
            assert_eq!(*op, LabelOp::Remove);
            assert_eq!(label, "breaking");
        }
        other => panic!("unexpected error {:?}", other),
    }
}

#[test]
fn failed_lookup_ends_run() {
    let mut p = pipeline("refs/heads/gone", "refs/heads/gone", config(None, None), None);
    p.resolved(Vec::new(), false);
    assert_eq!(p.stage(), Stage::Failed);
    assert!(matches!(p.error(), Some(PipelineError::Resolve(ResolveError::NotFound))));

    let mut p = pipeline("refs/heads/gone", "refs/heads/gone", config(None, None), None);
    p.resolved(b"\n".to_vec(), true);
    assert_eq!(p.stage(), Stage::Failed);
    assert!(matches!(p.error(), Some(PipelineError::Resolve(ResolveError::NotFound))));
}

#[test]
fn removing_absent_label_goes_on() {
    let mut p = pipeline("a", "refs/pull/2/merge", config(Some("patch"), Some("breaking")), Some(2));
    up_to_analysis(&mut p);
    p.analyzed(Some(verdict_report("Patch")));
    p.labelled(true);
    let call = p.label_call().clone();
    assert_eq!((call.op, call.label.as_str()), (LabelOp::Remove, "breaking"));
    p.label_absent();
    assert_eq!(p.stage(), Stage::Finished);
    assert_eq!(p.category(), Some(ChangeTypes::Patch));
    assert!(p.error().is_none());
}
