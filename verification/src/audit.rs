//! The vulnerability audit: configuration preconditions, the
//! version-resolution chain for an action reference, and the mapping from
//! advisory records to findings.
//!
//! The chain needs a remote version-control API (ref to commit, commit to
//! tags, version to advisories). Those calls are a collaborator's concern:
//! each decision of the chain is a function here from the reference and the
//! reply so far to the next action, and the caller performs the queries that
//! the actions name.

use vstd::prelude::*;

use crate::finding::{AnnotatedLocation, Confidence, Finding, FindingBuilder, Severity,
    WorkflowLocation};
use crate::models::{is_commit_ident, parse_uses, view_jobs, JobKind, JobV, StepBody, StepBodyV, Uses, UsesV,
    Workflow};

verus! {

/// A tag and the commit it points at.
pub struct Tag {
    pub name: String,
    pub commit: String,
}

/// Mathematical image of a [`Tag`].
pub struct TagV {
    pub name: Seq<char>,
    pub commit: Seq<char>,
}

impl View for Tag {
    type V = TagV;

    open spec fn view(&self) -> TagV {
        TagV { name: self.name@, commit: self.commit@ }
    }
}

/// An advisory record: the source's severity word and the advisory id.
pub struct Advisory {
    pub severity: String,
    pub ghsa_id: String,
}

/// Mathematical image of an [`Advisory`].
pub struct AdvisoryV {
    pub severity: Seq<char>,
    pub ghsa_id: Seq<char>,
}

impl View for Advisory {
    type V = AdvisoryV;

    open spec fn view(&self) -> AdvisoryV {
        AdvisoryV { severity: self.severity@, ghsa_id: self.ghsa_id@ }
    }
}

/// One resolved vulnerability: mapped severity plus advisory id.
pub struct ResolvedVuln {
    pub severity: Severity,
    pub id: String,
}

/// Mathematical image of a [`ResolvedVuln`].
pub struct ResolvedVulnV {
    pub severity: Severity,
    pub id: Seq<char>,
}

impl View for ResolvedVuln {
    type V = ResolvedVulnV;

    open spec fn view(&self) -> ResolvedVulnV {
        ResolvedVulnV { severity: self.severity, id: self.id@ }
    }
}

pub open spec fn view_tags(s: Seq<Tag>) -> Seq<TagV> {
    s.map_values(|t: Tag| t@)
}

pub open spec fn view_advisories(s: Seq<Advisory>) -> Seq<AdvisoryV> {
    s.map_values(|a: Advisory| a@)
}

pub open spec fn view_vulns(s: Seq<ResolvedVuln>) -> Seq<ResolvedVulnV> {
    s.map_values(|v: ResolvedVuln| v@)
}

/// The next move of the version-resolution chain: either the result is
/// settled, or one named remote query is owed and its reply decides the rest.
pub enum ResolveAction {
    /// The chain is done; these are the resolved vulnerabilities.
    Finished(Vec<ResolvedVuln>),
    /// Resolve this symbolic ref to a commit, then hand the reply to
    /// [`KnownVulnerableActions::resolve_after_commit`].
    QueryCommitForRef { git_ref: String },
    /// Fetch the tags of the repository, then hand them together with this
    /// commit to [`KnownVulnerableActions::resolve_after_tags`].
    QueryTagsForCommit { commit: String },
    /// Query the advisory source for this version, then hand the reply to
    /// [`KnownVulnerableActions::resolve_after_advisories`].
    QueryAdvisories { version: String },
}

/// Mathematical image of a [`ResolveAction`].
pub enum ResolveActionV {
    Finished(Seq<ResolvedVulnV>),
    QueryCommitForRef(Seq<char>),
    QueryTagsForCommit(Seq<char>),
    QueryAdvisories(Seq<char>),
}

impl View for ResolveAction {
    type V = ResolveActionV;

    open spec fn view(&self) -> ResolveActionV {
        match self {
            ResolveAction::Finished(v) => ResolveActionV::Finished(view_vulns(v@)),
            ResolveAction::QueryCommitForRef { git_ref } => ResolveActionV::QueryCommitForRef(
                git_ref@,
            ),
            ResolveAction::QueryTagsForCommit { commit } => ResolveActionV::QueryTagsForCommit(
                commit@,
            ),
            ResolveAction::QueryAdvisories { version } => ResolveActionV::QueryAdvisories(
                version@,
            ),
        }
    }
}

/// The fixed severity table: low and anything unrecognized map to `Unknown`,
/// medium to `Medium`, high and critical to `High`.
pub open spec fn severity_of(s: Seq<char>) -> Severity {
    if s == "low"@ {
        Severity::Unknown
    } else if s == "medium"@ {
        Severity::Medium
    } else if s == "high"@ {
        Severity::High
    } else if s == "critical"@ {
        Severity::High
    } else {
        Severity::Unknown
    }
}

/// Law: the severity mapping is total and fixed. Every source word maps to
/// exactly one severity, and every word outside the source vocabulary maps
/// to `Unknown`.
pub proof fn lemma_severity_mapping_total(s: Seq<char>)
    ensures
        severity_of("low"@) == Severity::Unknown,
        severity_of("medium"@) == Severity::Medium,
        severity_of("high"@) == Severity::High,
        severity_of("critical"@) == Severity::High,
        s != "low"@ && s != "medium"@ && s != "high"@ && s != "critical"@ ==> severity_of(s)
            == Severity::Unknown,
{
    reveal_strlit("low");
    reveal_strlit("medium");
    reveal_strlit("high");
    reveal_strlit("critical");
    assert("low"@.len() == 3);
    assert("medium"@.len() == 6);
    assert("high"@.len() == 4);
    assert("critical"@.len() == 8);
}

/// Map one source severity word through the fixed table.
pub fn map_severity(s: &String) -> (r: Severity)
    ensures
        r == severity_of(s@),
{
    if *s == "low".to_owned() {
        Severity::Unknown
    } else if *s == "medium".to_owned() {
        Severity::Medium
    } else if *s == "high".to_owned() {
        Severity::High
    } else if *s == "critical".to_owned() {
        Severity::High
    } else {
        Severity::Unknown
    }
}

/// What a list of advisory records resolves to: one vulnerability per record,
/// order preserved, severity mapped through the fixed table.
pub open spec fn vulns_of(advisories: Seq<AdvisoryV>) -> Seq<ResolvedVulnV> {
    advisories.map_values(
        |a: AdvisoryV| ResolvedVulnV { severity: severity_of(a.severity), id: a.ghsa_id },
    )
}

/// The longest-named tag pointing at `commit`, earlier tags winning ties.
pub open spec fn longest_matching_tag(tags: Seq<TagV>, commit: Seq<char>) -> Option<Seq<char>>
    decreases tags.len(),
{
    if tags.len() == 0 {
        None
    } else {
        let last = tags.last();
        match longest_matching_tag(tags.drop_last(), commit) {
            None => if last.commit == commit {
                Some(last.name)
            } else {
                None
            },
            Some(best) => if last.commit == commit && last.name.len() > best.len() {
                Some(last.name)
            } else {
                Some(best)
            },
        }
    }
}

/// What the start of the chain decides, from the reference alone: no ref
/// settles the result as empty with no query; a symbolic ref asks for its
/// commit; an exact commit identifier asks for its tags directly.
pub open spec fn start_action(u: UsesV) -> ResolveActionV {
    match u.git_ref {
        None => ResolveActionV::Finished(Seq::empty()),
        Some(r) => if is_commit_ident(r) {
            ResolveActionV::QueryTagsForCommit(r)
        } else {
            ResolveActionV::QueryCommitForRef(r)
        },
    }
}

/// What the ref-to-commit reply decides: no such ref settles the result as
/// empty; a commit asks for its tags.
pub open spec fn commit_reply_action(reply: Option<Seq<char>>) -> ResolveActionV {
    match reply {
        None => ResolveActionV::Finished(Seq::empty()),
        Some(c) => ResolveActionV::QueryTagsForCommit(c),
    }
}

/// What the tag reply decides: the longest tag name of the commit becomes
/// the version; with no matching tag, a symbolic ref falls back to itself
/// verbatim, while an exact commit pin settles the result as empty.
pub open spec fn tags_reply_action(u: UsesV, commit: Seq<char>, tags: Seq<TagV>) -> ResolveActionV {
    match longest_matching_tag(tags, commit) {
        Some(name) => ResolveActionV::QueryAdvisories(name),
        None => match u.git_ref {
            Some(r) => if is_commit_ident(r) {
                ResolveActionV::Finished(Seq::empty())
            } else {
                ResolveActionV::QueryAdvisories(r)
            },
            None => ResolveActionV::Finished(Seq::empty()),
        },
    }
}

/// Law: a reference with no ref resolves to an empty result at once; the
/// chain asks no query for it.
pub proof fn lemma_no_ref_resolves_empty(u: UsesV)
    requires
        u.git_ref is None,
    ensures
        start_action(u) == ResolveActionV::Finished(Seq::<ResolvedVulnV>::empty()),
{
}

proof fn lemma_no_matching_tag_none(tags: Seq<TagV>, commit: Seq<char>)
    requires
        forall|i: int| 0 <= i < tags.len() ==> (#[trigger] tags[i]).commit != commit,
    ensures
        longest_matching_tag(tags, commit) is None,
    decreases tags.len(),
{
    if tags.len() > 0 {
        assert(forall|i: int|
            0 <= i < tags.drop_last().len() ==> (#[trigger] tags.drop_last()[i]).commit
                != commit);
        lemma_no_matching_tag_none(tags.drop_last(), commit);
    }
}

/// Law: a reference pinned to an exact commit identifier with no tag
/// pointing at that commit resolves to an empty result: the start of the
/// chain asks for the commit's tags, and the tag reply settles it as empty.
pub proof fn lemma_commit_pin_without_tag_resolves_empty(u: UsesV, c: Seq<char>, tags: Seq<TagV>)
    requires
        u.git_ref == Some(c),
        is_commit_ident(c),
        forall|i: int| 0 <= i < tags.len() ==> (#[trigger] tags[i]).commit != c,
    ensures
        start_action(u) == ResolveActionV::QueryTagsForCommit(c),
        tags_reply_action(u, c, tags) == ResolveActionV::Finished(Seq::<ResolvedVulnV>::empty()),
{
    lemma_no_matching_tag_none(tags, c);
}

/// Law: when a tag is chosen for a commit, it is one of the tags pointing at
/// that commit and no tag of that commit has a longer name; when none is
/// chosen, no tag points at the commit.
pub proof fn lemma_longest_tag_is_longest(tags: Seq<TagV>, commit: Seq<char>)
    ensures
        match longest_matching_tag(tags, commit) {
            Some(n) => (exists|i: int|
                0 <= i < tags.len() && (#[trigger] tags[i]).commit == commit && tags[i].name == n)
                && (forall|i: int|
                0 <= i < tags.len() && (#[trigger] tags[i]).commit == commit ==> tags[i].name.len()
                    <= n.len()),
            None => forall|i: int| 0 <= i < tags.len() ==> (#[trigger] tags[i]).commit != commit,
        },
    decreases tags.len(),
{
    if tags.len() > 0 {
        lemma_longest_tag_is_longest(tags.drop_last(), commit);
        assert(forall|i: int|
            0 <= i < tags.len() - 1 ==> (#[trigger] tags[i]) == tags.drop_last()[i]);
        let last = tags.last();
        assert(tags[tags.len() - 1] == last);
        match longest_matching_tag(tags.drop_last(), commit) {
            None => {
                if last.commit == commit {
                    assert(longest_matching_tag(tags, commit) == Some(last.name));
                }
            },
            Some(best) => {
                let j = choose|j: int|
                    0 <= j < tags.drop_last().len() && (#[trigger] tags.drop_last()[j]).commit
                        == commit && tags.drop_last()[j].name == best;
                assert(tags[j].commit == commit && tags[j].name == best);
                if last.commit == commit && last.name.len() > best.len() {
                    assert(longest_matching_tag(tags, commit) == Some(last.name));
                } else {
                    assert(longest_matching_tag(tags, commit) == Some(best));
                }
            },
        }
    }
}

/// The longest-named tag pointing at `commit`, earlier tags winning ties.
pub fn longest_tag_for_commit(tags: &Vec<Tag>, commit: &String) -> (r: Option<String>)
    ensures
        match r {
            Some(n) => longest_matching_tag(view_tags(tags@), commit@) == Some(n@),
            None => longest_matching_tag(view_tags(tags@), commit@) is None,
        },
{
    let mut best: Option<String> = None;
    let mut i: usize = 0;
    while i < tags.len()
        invariant
            0 <= i <= tags@.len(),
            match best {
                Some(b) => longest_matching_tag(view_tags(tags@.take(i as int)), commit@) == Some(
                    b@,
                ),
                None => longest_matching_tag(view_tags(tags@.take(i as int)), commit@) is None,
            },
        decreases tags@.len() - i,
    {
        let t = &tags[i];
        proof {
            assert(view_tags(tags@.take(i + 1)).drop_last() =~= view_tags(tags@.take(i as int)));
            assert(view_tags(tags@.take(i + 1)).last() == tags@[i as int]@);
        }
        let matches_commit = t.commit == *commit;
        let replace = match &best {
            None => matches_commit,
            Some(b) => matches_commit && t.name.as_str().unicode_len()
                > b.as_str().unicode_len(),
        };
        if replace {
            best = Some(t.name.clone());
        }
        i = i + 1;
    }
    proof {
        assert(tags@.take(tags@.len() as int) =~= tags@);
    }
    best
}

/// One action use found by the audit pass: the job it stands in, its step
/// index in document order (counting every step node, filtered or not), and
/// the parsed reference.
pub struct UsesCandidate {
    pub job_id: String,
    pub step_index: usize,
    pub uses: Uses,
}

/// Mathematical image of a [`UsesCandidate`].
pub struct UsesCandidateV {
    pub job_id: Seq<char>,
    pub step_index: usize,
    pub uses: UsesV,
}

impl View for UsesCandidate {
    type V = UsesCandidateV;

    open spec fn view(&self) -> UsesCandidateV {
        UsesCandidateV { job_id: self.job_id@, step_index: self.step_index, uses: self.uses@ }
    }
}

pub open spec fn view_candidates(s: Seq<UsesCandidate>) -> Seq<UsesCandidateV> {
    s.map_values(|c: UsesCandidate| c@)
}

/// The candidates among the first `n` steps of one job: each step whose body
/// is an action invocation that parses, under its original document index.
pub open spec fn job_candidates_upto(job: JobV, n: int) -> Seq<UsesCandidateV>
    decreases n,
{
    if n <= 0 {
        Seq::empty()
    } else {
        let prefix = job_candidates_upto(job, n - 1);
        match job.steps[n - 1] {
            StepBodyV::Uses(u) => match parse_uses(u) {
                Some(p) => prefix.push(
                    UsesCandidateV { job_id: job.id, step_index: (n - 1) as usize, uses: p },
                ),
                None => prefix,
            },
            StepBodyV::Run(_) => prefix,
        }
    }
}

/// The candidates of one job: none for a reusable-workflow call, else each
/// parsing action invocation among its steps, in document order.
pub open spec fn job_candidates(job: JobV) -> Seq<UsesCandidateV> {
    if job.kind == JobKind::Normal {
        job_candidates_upto(job, job.steps.len() as int)
    } else {
        Seq::empty()
    }
}

/// The candidates of the first `n` jobs, concatenated in document order.
pub open spec fn candidates_upto(jobs: Seq<JobV>, n: int) -> Seq<UsesCandidateV>
    decreases n,
{
    if n <= 0 {
        Seq::empty()
    } else {
        candidates_upto(jobs, n - 1) + job_candidates(jobs[n - 1])
    }
}

/// All candidates of a workflow's job list, in document order.
pub open spec fn workflow_candidates(jobs: Seq<JobV>) -> Seq<UsesCandidateV> {
    candidates_upto(jobs, jobs.len() as int)
}

/// A candidate is sound for a job when it carries the job's own id and an
/// index below `n` at which the job's step list holds an action invocation
/// whose reference parses to the candidate's.
pub open spec fn candidate_sound(job: JobV, c: UsesCandidateV, n: int) -> bool {
    &&& c.job_id == job.id
    &&& 0 <= c.step_index < n
    &&& job.steps[c.step_index as int] matches StepBodyV::Uses(u) && parse_uses(u) == Some(c.uses)
}

/// Law: every candidate of a job carries the job's own id and an index that
/// is its step's position among all the job's steps in document order — the
/// step at that index is an action invocation whose reference parses to the
/// candidate's. The locator indexes the unfiltered step list with the same
/// index.
pub proof fn lemma_job_candidates_sound(job: JobV, n: int)
    requires
        0 <= n <= job.steps.len(),
        job.steps.len() <= usize::MAX,
    ensures
        forall|k: int|
            0 <= k < job_candidates_upto(job, n).len() ==> candidate_sound(
                job,
                #[trigger] job_candidates_upto(job, n)[k],
                n,
            ),
    decreases n,
{
    if n > 0 {
        lemma_job_candidates_sound(job, n - 1);
        let cur = job_candidates_upto(job, n);
        let prefix = job_candidates_upto(job, n - 1);
        assert forall|k: int| 0 <= k < cur.len() implies candidate_sound(job, cur[k], n) by {
            if k < prefix.len() {
                assert(cur[k] == prefix[k]);
                assert(candidate_sound(job, prefix[k], n - 1));
            } else {
                assert(cur[k] == cur.last());
            }
        }
    }
}

/// Configuration handed to an audit: whether only offline audits were asked
/// for, and the access credential for the remote API, if any.
pub struct AuditConfig {
    pub offline: bool,
    pub gh_token: Option<String>,
}

/// Why the audit refused to be constructed.
#[derive(Clone, Copy, Debug, PartialEq, Eq, Structural)]
pub enum AuditConfigError {
    /// Only offline audits were requested; this audit needs the network.
    Offline,
    /// No access credential for the remote API was given.
    MissingToken,
}

/// The known-vulnerable-actions audit. Construction enforces its
/// preconditions: the audit needs network access and a credential.
pub struct KnownVulnerableActions {
    pub gh_token: String,
}

impl KnownVulnerableActions {
    pub fn ident() -> (r: &'static str)
        ensures
            r@ == "known-vulnerable-actions"@,
    {
        "known-vulnerable-actions"
    }

    pub fn desc() -> (r: &'static str)
        ensures
            r@ == "action has a known vulnerability"@,
    {
        "action has a known vulnerability"
    }

    /// Refuses an offline configuration and one without a credential;
    /// otherwise the audit is ready and carries the credential.
    pub fn new(config: AuditConfig) -> (r: Result<Self, AuditConfigError>)
        ensures
            config.offline ==> r == Err::<Self, _>(AuditConfigError::Offline),
            !config.offline ==> match config.gh_token {
                None => r == Err::<Self, _>(AuditConfigError::MissingToken),
                Some(t) => r matches Ok(a) && a.gh_token == t,
            },
    {
        if config.offline {
            return Err(AuditConfigError::Offline);
        }
        match config.gh_token {
            None => Err(AuditConfigError::MissingToken),
            Some(t) => Ok(KnownVulnerableActions { gh_token: t }),
        }
    }

    /// Start of the version-resolution chain for one action reference: the
    /// returned action is the first remote query the chain owes, or the
    /// settled (empty) result where no version can ever be determined.
    pub fn action_known_vulnerabilities(&self, uses: &Uses) -> (r: ResolveAction)
        ensures
            r@ == start_action(uses@),
    {
        match &uses.git_ref {
            None => {
                let empty: Vec<ResolvedVuln> = Vec::new();
                proof {
                    assert(view_vulns(empty@) =~= Seq::<ResolvedVulnV>::empty());
                }
                ResolveAction::Finished(empty)
            },
            Some(r) => {
                if uses.ref_is_commit() {
                    ResolveAction::QueryTagsForCommit { commit: r.clone() }
                } else {
                    ResolveAction::QueryCommitForRef { git_ref: r.clone() }
                }
            },
        }
    }

    /// Continue after the ref-to-commit query.
    pub fn resolve_after_commit(&self, reply: Option<String>) -> (r: ResolveAction)
        ensures
            r@ == commit_reply_action(
                match reply {
                    Some(c) => Some(c@),
                    None => None,
                },
            ),
    {
        match reply {
            None => {
                let empty: Vec<ResolvedVuln> = Vec::new();
                proof {
                    assert(view_vulns(empty@) =~= Seq::<ResolvedVulnV>::empty());
                }
                ResolveAction::Finished(empty)
            },
            Some(c) => ResolveAction::QueryTagsForCommit { commit: c },
        }
    }

    /// Continue after the tag query: `tags` is the repository's tag list and
    /// `commit` the commit under resolution.
    pub fn resolve_after_tags(&self, uses: &Uses, commit: &String, tags: &Vec<Tag>) -> (r:
        ResolveAction)
        ensures
            r@ == tags_reply_action(uses@, commit@, view_tags(tags@)),
    {
        match longest_tag_for_commit(tags, commit) {
            Some(name) => ResolveAction::QueryAdvisories { version: name },
            None => {
                match &uses.git_ref {
                    Some(r) => {
                        if uses.ref_is_commit() {
                            let empty: Vec<ResolvedVuln> = Vec::new();
                            proof {
                                assert(view_vulns(empty@) =~= Seq::<ResolvedVulnV>::empty());
                            }
                            ResolveAction::Finished(empty)
                        } else {
                            ResolveAction::QueryAdvisories { version: r.clone() }
                        }
                    },
                    None => {
                        let empty: Vec<ResolvedVuln> = Vec::new();
                        proof {
                            assert(view_vulns(empty@) =~= Seq::<ResolvedVulnV>::empty());
                        }
                        ResolveAction::Finished(empty)
                    },
                }
            },
        }
    }

    /// Settle the chain after the advisory query: one resolved vulnerability
    /// per advisory record, order preserved, severity mapped through the
    /// fixed table.
    pub fn resolve_after_advisories(&self, advisories: &Vec<Advisory>) -> (r: ResolveAction)
        ensures
            r@ == ResolveActionV::Finished(vulns_of(view_advisories(advisories@))),
    {
        let mut out: Vec<ResolvedVuln> = Vec::new();
        let mut i: usize = 0;
        while i < advisories.len()
            invariant
                0 <= i <= advisories@.len(),
                out@.len() == i,
                forall|k: int|
                    0 <= k < i ==> (#[trigger] out@[k])@ == (ResolvedVulnV {
                        severity: severity_of(advisories@[k]@.severity),
                        id: advisories@[k]@.ghsa_id,
                    }),
            decreases advisories@.len() - i,
        {
            let a = &advisories[i];
            let severity = map_severity(&a.severity);
            out.push(ResolvedVuln { severity, id: a.ghsa_id.clone() });
            i = i + 1;
        }
        proof {
            let target = vulns_of(view_advisories(advisories@));
            assert forall|k: int| 0 <= k < out@.len() implies view_vulns(out@)[k] == target[k] by {
                assert(view_vulns(out@)[k] == out@[k]@);
                assert(target[k] == (ResolvedVulnV {
                    severity: severity_of(advisories@[k]@.severity),
                    id: advisories@[k]@.ghsa_id,
                }));
            }
            assert(view_vulns(out@) =~= target);
        }
        ResolveAction::Finished(out)
    }

    /// The audit pass over a workflow's structural model: walk the jobs,
    /// skip any that is not a normal job, walk each job's steps in document
    /// order, and collect every action invocation whose reference parses —
    /// each under the index its step has among all steps of the job.
    pub fn audit_candidates(&self, workflow: &Workflow) -> (r: Vec<UsesCandidate>)
        ensures
            view_candidates(r@) == workflow_candidates(workflow@.jobs),
    {
        let jobs = workflow.jobs();
        let ghost jobs_v = workflow@.jobs;
        let mut out: Vec<UsesCandidate> = Vec::new();
        let mut i: usize = 0;
        while i < jobs.len()
            invariant
                0 <= i <= jobs@.len(),
                jobs_v == view_jobs(jobs@),
                view_candidates(out@) =~= candidates_upto(jobs_v, i as int),
            decreases jobs@.len() - i,
        {
            let job = &jobs[i];
            let ghost job_v = jobs_v[i as int];
            proof {
                assert(job_v == job@);
            }
            match job.kind {
                JobKind::ReusableWorkflowCall => {
                    proof {
                        assert(candidates_upto(jobs_v, i + 1) =~= candidates_upto(
                            jobs_v,
                            i as int,
                        ) + job_candidates(job_v));
                        assert(job_candidates(job_v) =~= Seq::<UsesCandidateV>::empty());
                    }
                },
                JobKind::Normal => {
                    let mut j: usize = 0;
                    while j < job.steps.len()
                        invariant
                            0 <= j <= job.steps@.len(),
                            job_v == job@,
                            job_v.steps.len() == job.steps@.len(),
                            view_candidates(out@) =~= candidates_upto(jobs_v, i as int)
                                + job_candidates_upto(job_v, j as int),
                        decreases job.steps@.len() - j,
                    {
                        proof {
                            assert(job_v.steps[j as int] == job.steps@[j as int]@);
                        }
                        let ghost target = candidates_upto(jobs_v, i as int)
                            + job_candidates_upto(job_v, j + 1);
                        match &job.steps[j].body {
                            StepBody::Uses { uses } => {
                                proof {
                                    assert(job_v.steps[j as int] == StepBodyV::Uses(uses@));
                                }
                                match Uses::from_step(uses.as_str()) {
                                    Some(u) => {
                                        let ghost before = out@;
                                        let ghost uv = u@;
                                        out.push(
                                            UsesCandidate {
                                                job_id: job.id.clone(),
                                                step_index: j,
                                                uses: u,
                                            },
                                        );
                                        proof {
                                            let cv = UsesCandidateV {
                                                job_id: job_v.id,
                                                step_index: j,
                                                uses: uv,
                                            };
                                            assert(job_candidates_upto(job_v, j + 1)
                                                == job_candidates_upto(job_v, j as int).push(cv));
                                            assert(view_candidates(out@) =~= view_candidates(
                                                before,
                                            ).push(cv));
                                            assert(view_candidates(out@) =~= target);
                                        }
                                    },
                                    None => {
                                        proof {
                                            assert(view_candidates(out@) =~= target);
                                        }
                                    },
                                }
                            },
                            StepBody::Run { .. } => {
                                proof {
                                    assert(view_candidates(out@) =~= target);
                                }
                            },
                        }
                        j = j + 1;
                    }
                    proof {
                        assert(job_candidates(job_v) == job_candidates_upto(
                            job_v,
                            job_v.steps.len() as int,
                        ));
                        assert(view_candidates(out@) =~= candidates_upto(jobs_v, i + 1));
                    }
                },
            }
            i = i + 1;
        }
        proof {
            assert(view_candidates(out@) =~= workflow_candidates(jobs_v));
        }
        out
    }

    /// One finding per resolved vulnerability of one candidate: confidence
    /// `High`, the mapped severity, located at the candidate's job and step
    /// index, attached to the step's `uses` key, annotated with the advisory
    /// id.
    pub fn findings_for_candidate(&self, cand: &UsesCandidate, vulns: &Vec<ResolvedVuln>) -> (r:
        Vec<Finding>)
        ensures
            r@.len() == vulns@.len(),
            forall|i: int|
                0 <= i < r@.len() ==> {
                    let f = #[trigger] r@[i];
                    &&& f.ident@ == "known-vulnerable-actions"@
                    &&& f.severity == vulns@[i].severity
                    &&& f.confidence == Confidence::High
                    &&& f.locations@.len() == 1
                    &&& (f.locations@[0].location matches WorkflowLocation::Step {
                        job_id,
                        index,
                    } && job_id@ == cand@.job_id && index == cand.step_index)
                    &&& f.locations@[0].keys@.len() == 1
                    &&& f.locations@[0].keys@[0]@ == "uses"@
                    &&& (f.locations@[0].annotation matches Some(n) && n@ == vulns@[i].id@)
                },
    {
        let mut out: Vec<Finding> = Vec::new();
        let mut i: usize = 0;
        while i < vulns.len()
            invariant
                0 <= i <= vulns@.len(),
                out@.len() == i,
                forall|k: int|
                    0 <= k < i ==> {
                        let f = #[trigger] out@[k];
                        &&& f.ident@ == "known-vulnerable-actions"@
                        &&& f.severity == vulns@[k].severity
                        &&& f.confidence == Confidence::High
                        &&& f.locations@.len() == 1
                        &&& (f.locations@[0].location matches WorkflowLocation::Step {
                            job_id,
                            index,
                        } && job_id@ == cand@.job_id && index == cand.step_index)
                        &&& f.locations@[0].keys@.len() == 1
                        &&& f.locations@[0].keys@[0]@ == "uses"@
                        &&& (f.locations@[0].annotation matches Some(n) && n@ == vulns@[k].id@)
                    },
            decreases vulns@.len() - i,
        {
            let v = &vulns[i];
            let location = AnnotatedLocation::of(
                WorkflowLocation::Step { job_id: cand.job_id.clone(), index: cand.step_index },
            ).with_key("uses".to_owned()).annotated(v.id.clone());
            let built = FindingBuilder::new(Self::ident().to_owned()).confidence(
                Confidence::High,
            ).severity(v.severity).add_location(location).build();
            match built {
                Ok(f) => out.push(f),
                Err(_) => unreached(),
            }
            i = i + 1;
        }
        out
    }
}

} // verus!
