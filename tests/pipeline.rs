use action_label_rust_incompatible::git::{
    analysis_args, analysis_args_from_file, base_sha_from_output, checkout_args, fetch_args, needs_fetch, show_ref_args,
    ResolveError,
};
use action_label_rust_incompatible::prepare::{
    prepare_directories, tree_dir_of, PrepareAction, PrepareError, PrepareStep, Side,
};
use action_label_rust_incompatible::report::{classify, ReportError, SemverResult, SemverResultChanges};
use action_label_rust_incompatible::severity::ChangeTypes;
use action_label_rust_incompatible::steps::StepRun;

fn strings(v: &[&str]) -> Vec<String> {
    v.iter().map(|s| s.to_string()).collect()
}

#[test]
fn same_ref_needs_no_fetch() {
    assert!(!needs_fetch("refs/heads/main", "refs/heads/main"));
    assert!(needs_fetch("refs/heads/main", "refs/pull/4/merge"));
    assert!(needs_fetch("", "x"));
}

#[test]
fn fetch_is_shallow_and_exact() {
    assert_eq!(
        fetch_args("/ws", "refs/heads/main"),
        strings(&["-C", "/ws", "fetch", "--depth", "1", "origin", "refs/heads/main:refs/heads/main"])
    );
}

#[test]
fn show_ref_prints_the_exact_hash() {
    assert_eq!(
        show_ref_args("/ws", "refs/heads/dev"),
        strings(&["-C", "/ws", "show-ref", "--verify", "--hash", "refs/heads/dev"])
    );
}

#[test]
fn checkout_is_forced_and_detached() {
    assert_eq!(
        checkout_args("/t/base", "abc123"),
        strings(&["-C", "/t/base", "checkout", "--detach", "--force", "abc123"])
    );
}

#[test]
fn base_sha_is_trimmed() {
    assert_eq!(base_sha_from_output(b"  0123abcd\n".to_vec(), true), Ok("0123abcd".to_string()));
    assert_eq!(
        base_sha_from_output("\u{3000}0123abcd\u{85}\t".as_bytes().to_vec(), true),
        Ok("0123abcd".to_string())
    );
    assert_eq!(base_sha_from_output(vec![0xff, 0xfe], true), Err(ResolveError::NotUtf8));
}

#[test]
fn missing_base_ref_is_an_error() {
    assert_eq!(base_sha_from_output(b"".to_vec(), false), Err(ResolveError::NotFound));
    assert_eq!(base_sha_from_output(b"0123abcd\n".to_vec(), false), Err(ResolveError::NotFound));
    assert_eq!(base_sha_from_output(b"".to_vec(), true), Err(ResolveError::NotFound));
    assert_eq!(base_sha_from_output(b" \n\r\n".to_vec(), true), Err(ResolveError::NotFound));
}

#[test]
fn several_commits_are_an_error() {
    assert_eq!(
        base_sha_from_output(b"0123abcd\n4567ef01\n".to_vec(), true),
        Err(ResolveError::NotOneCommit)
    );
}

#[test]
fn analysis_compares_base_with_head() {
    assert_eq!(
        analysis_args("nightly-2021-05-01", "/t/base", "/t/head"),
        strings(&[
            "+nightly-2021-05-01",
            "semver",
            "--json",
            "--all-features",
            "--stable-path",
            "/t/base/Cargo.toml",
            "--current-path",
            "/t/head/Cargo.toml",
        ])
    );
}

#[test]
fn toolchain_file_is_trimmed() {
    assert_eq!(
        analysis_args_from_file(" stable\n", "b", "h"),
        strings(&[
            "+stable",
            "semver",
            "--json",
            "--all-features",
            "--stable-path",
            "b/Cargo.toml",
            "--current-path",
            "h/Cargo.toml",
        ])
    );
}

#[test]
fn trees_lie_apart_in_scratch() {
    assert_eq!(tree_dir_of("/tmp/w", Side::Base), "/tmp/w/base");
    assert_eq!(tree_dir_of("/tmp/w", Side::Head), "/tmp/w/head");
    assert_ne!(tree_dir_of("/tmp/w", Side::Base), tree_dir_of("/tmp/w", Side::Head));
}

#[test]
fn preparation_copies_then_checks_out_each_side() {
    let steps = prepare_directories("/tmp/w", "b1", "h2");
    assert_eq!(steps.len(), 4);
    match &steps[0] {
        PrepareStep::CopyTree { side, dest } => {
            assert_eq!(*side, Side::Base);
            assert_eq!(dest, "/tmp/w/base");
        }
        other => panic!("unexpected step {:?}", other),
    }
    match &steps[1] {
        PrepareStep::Checkout { side, args } => {
            assert_eq!(*side, Side::Base);
            assert_eq!(*args, strings(&["-C", "/tmp/w/base", "checkout", "--detach", "--force", "b1"]));
        }
        other => panic!("unexpected step {:?}", other),
    }
    match &steps[2] {
        PrepareStep::CopyTree { side, dest } => {
            assert_eq!(*side, Side::Head);
            assert_eq!(dest, "/tmp/w/head");
        }
        other => panic!("unexpected step {:?}", other),
    }
    match &steps[3] {
        PrepareStep::Checkout { side, args } => {
            assert_eq!(*side, Side::Head);
            assert_eq!(*args, strings(&["-C", "/tmp/w/head", "checkout", "--detach", "--force", "h2"]));
        }
        other => panic!("unexpected step {:?}", other),
    }
}

#[test]
fn failed_preparation_names_side_and_step() {
    let mut run = StepRun::new(prepare_directories("/tmp/w", "b1", "h2"));
    run.record(true);
    run.record(true);
    run.record(false);
    let err = run.failed_step().unwrap().error();
    assert_eq!(err, PrepareError { side: Side::Head, action: PrepareAction::Copy });
    let mut run = StepRun::new(prepare_directories("/tmp/w", "b1", "h2"));
    run.record(true);
    run.record(false);
    let err = run.failed_step().unwrap().error();
    assert_eq!(err, PrepareError { side: Side::Base, action: PrepareAction::Checkout });
}

fn report(category: &str) -> SemverResult {
    report_with(Some(category.to_string()))
}

fn report_with(category: Option<String>) -> SemverResult {
    SemverResult {
        old_version: "0.1.0".to_string(),
        new_version: "0.1.1".to_string(),
        changes: SemverResultChanges {
            max_category: category,
            path_changes: serde_json::Value::Array(vec![]),
            changes: serde_json::Value::Array(vec![]),
        },
    }
}

#[test]
fn report_gives_its_category() {
    assert_eq!(classify(&report("Patch")), Ok(ChangeTypes::Patch));
    assert_eq!(classify(&report("NonBreaking")), Ok(ChangeTypes::NonBreaking));
    assert_eq!(classify(&report("TechnicallyBreaking")), Ok(ChangeTypes::TechnicallyBreaking));
    assert_eq!(classify(&report("Breaking")), Ok(ChangeTypes::Breaking));
}

#[test]
fn unknown_category_is_an_error() {
    assert_eq!(classify(&report("")), Err(ReportError::UnknownCategory));
    assert_eq!(classify(&report("breaking")), Err(ReportError::UnknownCategory));
    assert_eq!(classify(&report("Breaking ")), Err(ReportError::UnknownCategory));
}

#[test]
fn missing_category_is_an_error() {
    assert_eq!(classify(&report_with(None)), Err(ReportError::MissingCategory));
}
