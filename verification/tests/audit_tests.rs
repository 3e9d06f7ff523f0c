//! Tests for the version-resolution chain, the severity table, the audit
//! pass over the structural model, and finding construction.

use workflow_audit::audit::{
    Advisory, AuditConfig, AuditConfigError, KnownVulnerableActions, ResolveAction, ResolvedVuln,
    Tag, UsesCandidate,
};
use workflow_audit::finding::{Confidence, Severity, WorkflowLocation};
use workflow_audit::models::{Job, JobKind, Step, StepBody, Uses, Workflow};

fn audit() -> KnownVulnerableActions {
    KnownVulnerableActions::new(AuditConfig {
        offline: false,
        gh_token: Some("SECRET-REDACTED".to_string()),
    })
    .unwrap()
}

#[test]
fn construction_refuses_offline_mode() {
    let r = KnownVulnerableActions::new(AuditConfig {
        offline: true,
        gh_token: Some("SECRET-REDACTED".to_string()),
    });
    assert!(matches!(r, Err(AuditConfigError::Offline)));
}

#[test]
fn construction_refuses_missing_token() {
    let r = KnownVulnerableActions::new(AuditConfig { offline: false, gh_token: None });
    assert!(matches!(r, Err(AuditConfigError::MissingToken)));
}

#[test]
fn no_ref_resolves_empty_without_queries() {
    let a = audit();
    let uses = Uses::from_step("actions/checkout").unwrap();
    match a.action_known_vulnerabilities(&uses) {
        ResolveAction::Finished(v) => assert!(v.is_empty()),
        _ => panic!("a use with no ref must settle at once, with no query"),
    }
}

#[test]
fn commit_pin_without_tag_resolves_empty() {
    let a = audit();
    let sha = "8f4b7f84864484a7bf31766abe9204da3cbe65b3";
    let uses = Uses::from_step(&format!("actions/checkout@{}", sha)).unwrap();
    let commit = match a.action_known_vulnerabilities(&uses) {
        ResolveAction::QueryTagsForCommit { commit } => commit,
        _ => panic!("a commit pin must ask for the commit's tags"),
    };
    assert_eq!(commit, sha);
    let tags = vec![Tag { name: "v9".to_string(), commit: "f".repeat(40) }];
    match a.resolve_after_tags(&uses, &commit, &tags) {
        ResolveAction::Finished(v) => assert!(v.is_empty()),
        _ => panic!("a commit pin with no matching tag must settle empty"),
    }
}

#[test]
fn symbolic_ref_prefers_longest_tag() {
    let a = audit();
    let uses = Uses::from_step("actions/checkout@v2").unwrap();
    let git_ref = match a.action_known_vulnerabilities(&uses) {
        ResolveAction::QueryCommitForRef { git_ref } => git_ref,
        _ => panic!("a symbolic ref must ask for its commit"),
    };
    assert_eq!(git_ref, "v2");
    let sha = "1a2b3c4d5e6f7a8b9c0d1e2f3a4b5c6d7e8f9a0b".to_string();
    let commit = match a.resolve_after_commit(Some(sha.clone())) {
        ResolveAction::QueryTagsForCommit { commit } => commit,
        _ => panic!("a resolved commit must ask for its tags"),
    };
    assert_eq!(commit, sha);
    let tags = vec![
        Tag { name: "v2".to_string(), commit: sha.clone() },
        Tag { name: "v2.0.1".to_string(), commit: sha.clone() },
    ];
    match a.resolve_after_tags(&uses, &commit, &tags) {
        ResolveAction::QueryAdvisories { version } => assert_eq!(version, "v2.0.1"),
        _ => panic!("a matching tag must become the version"),
    }
}

#[test]
fn symbolic_ref_without_commit_resolves_empty() {
    let a = audit();
    match a.resolve_after_commit(None) {
        ResolveAction::Finished(v) => assert!(v.is_empty()),
        _ => panic!("an unresolvable ref must settle empty"),
    }
}

#[test]
fn symbolic_ref_without_tag_falls_back_to_ref() {
    let a = audit();
    let uses = Uses::from_step("actions/checkout@v2").unwrap();
    let sha = "1a2b3c4d5e6f7a8b9c0d1e2f3a4b5c6d7e8f9a0b".to_string();
    let tags: Vec<Tag> = Vec::new();
    match a.resolve_after_tags(&uses, &sha, &tags) {
        ResolveAction::QueryAdvisories { version } => assert_eq!(version, "v2"),
        _ => panic!("with no tag, the symbolic ref itself is the version"),
    }
}

#[test]
fn severity_mapping_is_total_and_fixed() {
    let a = audit();
    let advisories = vec![
        Advisory { severity: "low".to_string(), ghsa_id: "GHSA-aaaa".to_string() },
        Advisory { severity: "medium".to_string(), ghsa_id: "GHSA-bbbb".to_string() },
        Advisory { severity: "high".to_string(), ghsa_id: "GHSA-cccc".to_string() },
        Advisory { severity: "critical".to_string(), ghsa_id: "GHSA-dddd".to_string() },
        Advisory { severity: "mysterious".to_string(), ghsa_id: "GHSA-eeee".to_string() },
    ];
    let vulns = match a.resolve_after_advisories(&advisories) {
        ResolveAction::Finished(v) => v,
        _ => panic!("advisories settle the chain"),
    };
    let got: Vec<(Severity, &str)> = vulns.iter().map(|v| (v.severity, v.id.as_str())).collect();
    assert_eq!(
        got,
        vec![
            (Severity::Unknown, "GHSA-aaaa"),
            (Severity::Medium, "GHSA-bbbb"),
            (Severity::High, "GHSA-cccc"),
            (Severity::High, "GHSA-dddd"),
            (Severity::Unknown, "GHSA-eeee"),
        ]
    );
}

fn two_step_workflow(second_step: StepBody) -> Workflow {
    let jobs = vec![Job {
        id: "test".to_string(),
        kind: JobKind::Normal,
        steps: vec![
            Step { body: StepBody::Run { run: "make".to_string() } },
            Step { body: second_step },
        ],
    }];
    Workflow::new(b"jobs: {}\n".to_vec(), jobs)
}

#[test]
fn audit_skips_reusable_jobs_and_non_uses_steps() {
    let jobs = vec![
        Job {
            id: "called".to_string(),
            kind: JobKind::ReusableWorkflowCall,
            steps: vec![Step {
                body: StepBody::Uses { uses: "actions/checkout@v3".to_string() },
            }],
        },
        Job {
            id: "build".to_string(),
            kind: JobKind::Normal,
            steps: vec![
                Step { body: StepBody::Run { run: "make".to_string() } },
                Step { body: StepBody::Uses { uses: "not a reference".to_string() } },
                Step { body: StepBody::Uses { uses: "actions/cache@v4".to_string() } },
            ],
        },
    ];
    let wf = Workflow::new(b"jobs: {}\n".to_vec(), jobs);
    let a = audit();
    let candidates = a.audit_candidates(&wf);
    assert_eq!(candidates.len(), 1);
    assert_eq!(candidates[0].job_id, "build");
    assert_eq!(candidates[0].step_index, 2);
    assert_eq!(candidates[0].uses.owner, "actions");
    assert_eq!(candidates[0].uses.repo, "cache");
}

#[test]
fn end_to_end_one_finding_for_vulnerable_action() {
    let wf = two_step_workflow(StepBody::Uses { uses: "actions/checkout@v3".to_string() });
    let a = audit();

    let candidates = a.audit_candidates(&wf);
    assert_eq!(candidates.len(), 1);
    let cand: &UsesCandidate = &candidates[0];
    assert_eq!(cand.job_id, "test");
    assert_eq!(cand.step_index, 1);

    let git_ref = match a.action_known_vulnerabilities(&cand.uses) {
        ResolveAction::QueryCommitForRef { git_ref } => git_ref,
        _ => panic!("v3 is symbolic and must ask for its commit"),
    };
    assert_eq!(git_ref, "v3");
    let sha = "0123456789abcdef0123456789abcdef01234567".to_string();
    let commit = match a.resolve_after_commit(Some(sha.clone())) {
        ResolveAction::QueryTagsForCommit { commit } => commit,
        _ => panic!("the commit must ask for its tags"),
    };
    let tags = vec![Tag { name: "v3".to_string(), commit: sha.clone() }];
    let version = match a.resolve_after_tags(&cand.uses, &commit, &tags) {
        ResolveAction::QueryAdvisories { version } => version,
        _ => panic!("the tag must become the version"),
    };
    assert_eq!(version, "v3");
    let advisories =
        vec![Advisory { severity: "high".to_string(), ghsa_id: "GHSA-xxxx".to_string() }];
    let vulns: Vec<ResolvedVuln> = match a.resolve_after_advisories(&advisories) {
        ResolveAction::Finished(v) => v,
        _ => panic!("advisories settle the chain"),
    };

    let findings = a.findings_for_candidate(cand, &vulns);
    assert_eq!(findings.len(), 1);
    let f = &findings[0];
    assert_eq!(f.ident, "known-vulnerable-actions");
    assert_eq!(f.severity, Severity::High);
    assert_eq!(f.confidence, Confidence::High);
    assert_eq!(f.locations.len(), 1);
    match &f.locations[0].location {
        WorkflowLocation::Step { job_id, index } => {
            assert_eq!(job_id, "test");
            assert_eq!(*index, 1);
        },
        _ => panic!("the finding must point at the step"),
    }
    assert_eq!(f.locations[0].keys, vec!["uses".to_string()]);
    assert_eq!(f.locations[0].annotation.as_deref(), Some("GHSA-xxxx"));
}

#[test]
fn end_to_end_no_findings_for_unpinned_action() {
    let wf = two_step_workflow(StepBody::Uses { uses: "actions/checkout".to_string() });
    let a = audit();

    let candidates = a.audit_candidates(&wf);
    assert_eq!(candidates.len(), 1);
    let vulns = match a.action_known_vulnerabilities(&candidates[0].uses) {
        ResolveAction::Finished(v) => v,
        _ => panic!("an unpinned use must settle at once, with no query"),
    };
    assert!(vulns.is_empty());
    let findings = a.findings_for_candidate(&candidates[0], &vulns);
    assert!(findings.is_empty());
}

#[test]
fn audit_identity() {
    assert_eq!(KnownVulnerableActions::ident(), "known-vulnerable-actions");
    assert_eq!(KnownVulnerableActions::desc(), "action has a known vulnerability");
}
