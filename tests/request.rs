use action_label_rust_incompatible::request::{
    base_ref_or_default, parse_number, pull_request_number, split_repository, RequestError,
};
use action_label_rust_incompatible::severity::ChangeTypes;

#[test]
fn merge_ref_gives_pull_request_number() {
    assert_eq!(pull_request_number("refs/pull/42/merge"), Some(42));
    assert_eq!(pull_request_number("refs/pull/+7/merge"), Some(7));
}

#[test]
fn other_refs_give_no_request() {
    assert_eq!(pull_request_number("refs/heads/main"), None);
    assert_eq!(pull_request_number("refs/pull/42/head"), None);
    assert_eq!(pull_request_number("refs/pull/4/2/merge"), None);
    assert_eq!(pull_request_number("refs/pull/42/merge/"), None);
    assert_eq!(pull_request_number(""), None);
}

#[test]
fn bad_pull_request_number_means_no_request() {
    assert_eq!(pull_request_number("refs/pull/abc/merge"), None);
    assert_eq!(pull_request_number("refs/pull//merge"), None);
    assert_eq!(pull_request_number("refs/pull/18446744073709551616/merge"), None);
}

#[test]
fn numbers_read_as_std_reads_them() {
    for s in ["0", "+0", "18446744073709551615", "18446744073709551616", "", "+", "-1", "1a", "007"] {
        assert_eq!(parse_number(s), s.parse::<u64>().ok(), "{}", s);
    }
}

#[test]
fn repository_splits_into_owner_and_name() {
    assert_eq!(split_repository("rust-lang/rust"), Ok(("rust-lang".to_string(), "rust".to_string())));
    assert_eq!(split_repository("/x"), Ok((String::new(), "x".to_string())));
    assert_eq!(split_repository("rust"), Err(RequestError::BadRepository));
    assert_eq!(split_repository("a/b/c"), Err(RequestError::BadRepository));
}

#[test]
fn empty_base_ref_means_main() {
    assert_eq!(base_ref_or_default(""), "refs/heads/main");
    assert_eq!(base_ref_or_default("refs/heads/dev"), "refs/heads/dev");
}

#[test]
fn severity_order_is_fixed() {
    let all = [
        ChangeTypes::Patch,
        ChangeTypes::NonBreaking,
        ChangeTypes::TechnicallyBreaking,
        ChangeTypes::Breaking,
    ];
    for (i, a) in all.iter().enumerate() {
        assert_eq!(a.rank() as usize, i);
        for (j, b) in all.iter().enumerate() {
            assert_eq!(a.is_less_severe(b), i < j);
        }
        assert_eq!(ChangeTypes::from_name(a.name()), Some(*a));
    }
    assert_eq!(ChangeTypes::from_name("Minor"), None);
}
