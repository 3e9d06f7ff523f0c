//! Tests for `uses:` reference parsing and commit-identifier detection.

use workflow_audit::models::Uses;

#[test]
fn parse_owner_repo_with_ref() {
    let u = Uses::from_step("actions/checkout@v3").unwrap();
    assert_eq!(u.owner, "actions");
    assert_eq!(u.repo, "checkout");
    assert_eq!(u.git_ref.as_deref(), Some("v3"));
}

#[test]
fn parse_owner_repo_without_ref() {
    let u = Uses::from_step("actions/checkout").unwrap();
    assert_eq!(u.owner, "actions");
    assert_eq!(u.repo, "checkout");
    assert!(u.git_ref.is_none());
}

#[test]
fn parse_with_path_qualifier() {
    let u = Uses::from_step("github/codeql-action/init@v2").unwrap();
    assert_eq!(u.owner, "github");
    assert_eq!(u.repo, "codeql-action");
    assert_eq!(u.git_ref.as_deref(), Some("v2"));
}

#[test]
fn parse_ref_with_slash() {
    let u = Uses::from_step("pypa/gh-action-pypi-publish@release/v1").unwrap();
    assert_eq!(u.owner, "pypa");
    assert_eq!(u.repo, "gh-action-pypi-publish");
    assert_eq!(u.git_ref.as_deref(), Some("release/v1"));
}

#[test]
fn parse_malformed_references() {
    assert!(Uses::from_step("").is_none());
    assert!(Uses::from_step("actions").is_none());
    assert!(Uses::from_step("actions/checkout@").is_none());
    assert!(Uses::from_step("/checkout@v1").is_none());
    assert!(Uses::from_step("actions/@v1").is_none());
    assert!(Uses::from_step("@v1").is_none());
}

#[test]
fn ref_is_commit_on_full_sha() {
    let sha = "8f4b7f84864484a7bf31766abe9204da3cbe65b3";
    assert_eq!(sha.len(), 40);
    let u = Uses::from_step(&format!("actions/checkout@{}", sha)).unwrap();
    assert!(u.ref_is_commit());
}

#[test]
fn ref_is_commit_rejects_symbolic_and_short_refs() {
    let v2 = Uses::from_step("actions/checkout@v2").unwrap();
    assert!(!v2.ref_is_commit());

    let short = Uses::from_step("actions/checkout@8f4b7f84864484a7bf31766abe9204da3cbe65b").unwrap();
    assert!(!short.ref_is_commit());

    let nonhex = Uses::from_step("actions/checkout@8f4b7f84864484a7bf31766abe9204da3cbe65bg").unwrap();
    assert!(!nonhex.ref_is_commit());

    let none = Uses::from_step("actions/checkout").unwrap();
    assert!(!none.ref_is_commit());
}

#[test]
fn ref_is_commit_accepts_uppercase_hex() {
    let u = Uses::from_step("actions/checkout@8F4B7F84864484A7BF31766ABE9204DA3CBE65B3").unwrap();
    assert!(u.ref_is_commit());
}
