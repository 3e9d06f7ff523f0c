//! Tests for the locator: resolving structural locations into literal text
//! and byte spans of the original document.

use workflow_audit::finding::WorkflowLocation;
use workflow_audit::locate::{Feature, LocateError, Locator};
use workflow_audit::models::{Job, JobKind, Step, StepBody, Workflow};

const DOC: &str = "name: ci\non: push\njobs:\n  build:\n    runs-on: ubuntu-latest\n    steps:\n      - run: make one\n      - uses: actions/checkout@v3\n      - run: make three\n  other:\n    runs-on: ubuntu-latest\n    steps:\n      - run: echo hi\n";

fn doc_workflow() -> Workflow {
    let jobs = vec![
        Job {
            id: "build".to_string(),
            kind: JobKind::Normal,
            steps: vec![
                Step { body: StepBody::Run { run: "make one".to_string() } },
                Step { body: StepBody::Uses { uses: "actions/checkout@v3".to_string() } },
                Step { body: StepBody::Run { run: "make three".to_string() } },
            ],
        },
        Job {
            id: "other".to_string(),
            kind: JobKind::Normal,
            steps: vec![Step { body: StepBody::Run { run: "echo hi".to_string() } }],
        },
    ];
    Workflow::new(DOC.as_bytes().to_vec(), jobs)
}

fn feature_text(f: &Feature) -> String {
    String::from_utf8(f.text.to_vec()).unwrap()
}

#[test]
fn whole_workflow_is_the_entire_document() {
    let wf = doc_workflow();
    let locator = Locator::new();
    let f = locator.concretize(&wf, &WorkflowLocation::WholeWorkflow).unwrap();
    assert_eq!(f.start, 0);
    assert_eq!(f.end, DOC.len());
    assert_eq!(feature_text(&f), DOC);
}

#[test]
fn step_location_returns_the_indexed_step_node() {
    let wf = doc_workflow();
    let locator = Locator::new();
    let f = locator
        .concretize(
            &wf,
            &WorkflowLocation::Step { job_id: "build".to_string(), index: 2 },
        )
        .unwrap();
    assert_eq!(feature_text(&f), "- run: make three");
    // The span is a contiguous substring of the raw document.
    assert!(f.end <= DOC.len());
    assert_eq!(&DOC.as_bytes()[f.start..f.end], f.text);
}

#[test]
fn step_index_counts_every_step_node() {
    let wf = doc_workflow();
    let locator = Locator::new();
    let f0 = locator
        .concretize(&wf, &WorkflowLocation::Step { job_id: "build".to_string(), index: 0 })
        .unwrap();
    assert_eq!(feature_text(&f0), "- run: make one");
    let f1 = locator
        .concretize(&wf, &WorkflowLocation::Step { job_id: "build".to_string(), index: 1 })
        .unwrap();
    assert_eq!(feature_text(&f1), "- uses: actions/checkout@v3");
}

#[test]
fn job_location_round_trips_to_an_equal_mapping() {
    let wf = doc_workflow();
    let locator = Locator::new();
    let f = locator
        .concretize(&wf, &WorkflowLocation::Job { id: "build".to_string() })
        .unwrap();
    assert_eq!(&DOC.as_bytes()[f.start..f.end], f.text);

    // The concretized text re-parses into a mapping structurally equal to
    // the job's definition.
    let reparsed: serde_yaml::Value = serde_yaml::from_str(&feature_text(&f)).unwrap();
    let expected: serde_yaml::Value = serde_yaml::from_str(
        "build:\n  runs-on: ubuntu-latest\n  steps:\n    - run: make one\n    - uses: actions/checkout@v3\n    - run: make three\n",
    )
    .unwrap();
    assert_eq!(reparsed, expected);
}

#[test]
fn unknown_job_is_not_found() {
    let wf = doc_workflow();
    let locator = Locator::new();
    let r = locator.concretize(&wf, &WorkflowLocation::Job { id: "missing".to_string() });
    assert_eq!(r.err(), Some(LocateError::NotFound));
    let r = locator
        .concretize(&wf, &WorkflowLocation::Step { job_id: "missing".to_string(), index: 0 });
    assert_eq!(r.err(), Some(LocateError::NotFound));
}

#[test]
fn duplicate_job_names_are_ambiguous() {
    let doc = "jobs:\n  build:\n    steps:\n      - run: one\n  build:\n    steps:\n      - run: two\n";
    let wf = Workflow::new(doc.as_bytes().to_vec(), Vec::new());
    let locator = Locator::new();
    let r = locator.concretize(&wf, &WorkflowLocation::Job { id: "build".to_string() });
    assert_eq!(r.err(), Some(LocateError::Ambiguous));
}

#[test]
fn step_index_out_of_range_is_reported() {
    let wf = doc_workflow();
    let locator = Locator::new();
    let r = locator
        .concretize(&wf, &WorkflowLocation::Step { job_id: "other".to_string(), index: 1 });
    assert_eq!(r.err(), Some(LocateError::StepIndexOutOfRange));
}

#[test]
fn non_ascii_job_id_is_refused() {
    let wf = doc_workflow();
    let locator = Locator::new();
    let r = locator.concretize(&wf, &WorkflowLocation::Job { id: "b\u{00fc}ild".to_string() });
    assert_eq!(r.err(), Some(LocateError::UnsupportedJobId));
}
