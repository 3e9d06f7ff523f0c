//! Structural model of a workflow document: action references, steps and
//! jobs, and the workflow itself (raw text plus parsed tree plus job list).

use vstd::prelude::*;

verus! {

/// A parsed `owner/repo[@ref]` action reference. The optional ref is either
/// an exact commit identifier (40 hex digits) or a symbolic name.
pub struct Uses {
    pub owner: String,
    pub repo: String,
    pub git_ref: Option<String>,
}

/// Mathematical image of a [`Uses`] value.
pub struct UsesV {
    pub owner: Seq<char>,
    pub repo: Seq<char>,
    pub git_ref: Option<Seq<char>>,
}

impl View for Uses {
    type V = UsesV;

    open spec fn view(&self) -> UsesV {
        UsesV {
            owner: self.owner@,
            repo: self.repo@,
            git_ref: match self.git_ref {
                Option::Some(r) => Option::Some(r@),
                Option::None => Option::None,
            },
        }
    }
}

/// Index of the first occurrence of `c` in `s`, if any.
pub open spec fn find_first(s: Seq<char>, c: char) -> Option<int>
    decreases s.len(),
{
    if s.len() == 0 {
        None
    } else if s[0] == c {
        Some(0int)
    } else {
        match find_first(s.skip(1), c) {
            Some(i) => Some(i + 1),
            None => None,
        }
    }
}

proof fn lemma_find_first_some(s: Seq<char>, c: char, i: int)
    requires
        0 <= i < s.len(),
        s[i] == c,
        forall|j: int| 0 <= j < i ==> s[j] != c,
    ensures
        find_first(s, c) == Some(i),
    decreases i,
{
    if i == 0 {
    } else {
        assert(s[0] != c);
        assert(s.skip(1)[i - 1] == c);
        assert(forall|j: int| 0 <= j < i - 1 ==> s.skip(1)[j] == s[j + 1]);
        lemma_find_first_some(s.skip(1), c, i - 1);
    }
}

proof fn lemma_find_first_none(s: Seq<char>, c: char)
    requires
        forall|j: int| 0 <= j < s.len() ==> s[j] != c,
    ensures
        find_first(s, c) is None,
    decreases s.len(),
{
    if s.len() > 0 {
        assert(forall|j: int| 0 <= j < s.skip(1).len() ==> s.skip(1)[j] == s[j + 1]);
        lemma_find_first_none(s.skip(1), c);
    }
}

/// Index of the first occurrence of `c` in `s`, scanning left to right.
pub fn find_char(s: &str, c: char) -> (r: Option<usize>)
    ensures
        match r {
            Some(i) => {
                &&& find_first(s@, c) == Some(i as int)
                &&& 0 <= i < s@.len()
                &&& s@[i as int] == c
                &&& forall|j: int| 0 <= j < i ==> s@[j] != c
            },
            None => find_first(s@, c) is None && forall|j: int| 0 <= j < s@.len() ==> s@[j] != c,
        },
{
    let n = s.unicode_len();
    let mut i: usize = 0;
    while i < n
        invariant
            n == s@.len(),
            0 <= i <= n,
            forall|j: int| 0 <= j < i ==> s@[j] != c,
        decreases n - i,
    {
        if s.get_char(i) == c {
            proof {
                lemma_find_first_some(s@, c, i as int);
            }
            return Some(i);
        }
        i = i + 1;
    }
    proof {
        lemma_find_first_none(s@, c);
    }
    None
}

/// The base part of a reference (before the first `@`) and the git ref
/// (after it), if an `@` is present.
pub open spec fn split_ref(s: Seq<char>) -> (Seq<char>, Option<Seq<char>>) {
    match find_first(s, '@') {
        Some(i) => (s.take(i), Some(s.skip(i + 1))),
        None => (s, None),
    }
}

/// What a `uses:` string denotes: `owner/repo[@ref]`, where anything after a
/// second `/` in the base part is a path qualifier and is ignored. A string
/// with an empty owner, an empty repo, no `/` in its base part, or a trailing
/// empty `@` ref is malformed and denotes nothing.
pub open spec fn parse_uses(s: Seq<char>) -> Option<UsesV> {
    let (base, git_ref) = split_ref(s);
    if git_ref matches Some(r) && r.len() == 0 {
        None
    } else {
        match find_first(base, '/') {
            None => None,
            Some(j) => {
                let owner = base.take(j);
                let rest = base.skip(j + 1);
                let repo = match find_first(rest, '/') {
                    Some(k) => rest.take(k),
                    None => rest,
                };
                if owner.len() == 0 || repo.len() == 0 {
                    None
                } else {
                    Some(UsesV { owner, repo, git_ref })
                }
            },
        }
    }
}

/// A hexadecimal digit, either case.
pub open spec fn is_hex_digit(c: char) -> bool {
    ('0' <= c && c <= '9') || ('a' <= c && c <= 'f') || ('A' <= c && c <= 'F')
}

/// An exact commit identifier: exactly 40 hex digits.
pub open spec fn is_commit_ident(s: Seq<char>) -> bool {
    s.len() == 40 && forall|i: int| 0 <= i < s.len() ==> is_hex_digit(#[trigger] s[i])
}

impl Uses {
    /// Parse a `uses:` string into its owner, repo and optional git ref;
    /// `None` on a malformed reference.
    pub fn from_step(s: &str) -> (r: Option<Uses>)
        ensures
            match r {
                Some(u) => parse_uses(s@) == Some(u@),
                None => parse_uses(s@) is None,
            },
    {
        let n = s.unicode_len();
        let (base, git_ref) = match find_char(s, '@') {
            Some(i) => {
                let r = s.substring_char(i + 1, n);
                if r.unicode_len() == 0 {
                    return None;
                }
                (s.substring_char(0, i), Some(r.to_owned()))
            },
            None => (s, None),
        };
        let bn = base.unicode_len();
        match find_char(base, '/') {
            None => None,
            Some(j) => {
                let owner = base.substring_char(0, j);
                let rest = base.substring_char(j + 1, bn);
                let rn = rest.unicode_len();
                let repo = match find_char(rest, '/') {
                    Some(k) => rest.substring_char(0, k),
                    None => rest,
                };
                if owner.unicode_len() == 0 || repo.unicode_len() == 0 {
                    None
                } else {
                    Some(Uses { owner: owner.to_owned(), repo: repo.to_owned(), git_ref })
                }
            },
        }
    }

    /// Whether the reference is pinned to an exact commit identifier.
    pub fn ref_is_commit(&self) -> (r: bool)
        ensures
            r == match self@.git_ref {
                Some(g) => is_commit_ident(g),
                None => false,
            },
    {
        match &self.git_ref {
            None => false,
            Some(g) => {
                proof {
                    assert(self@.git_ref == Some(g@));
                }
                let n = g.as_str().unicode_len();
                if n != 40 {
                    return false;
                }
                let mut i: usize = 0;
                while i < n
                    invariant
                        self@.git_ref == Some(g@),
                        n == g@.len(),
                        0 <= i <= n,
                        forall|j: int| 0 <= j < i ==> is_hex_digit(#[trigger] g@[j]),
                    decreases n - i,
                {
                    let c = g.as_str().get_char(i);
                    if !((c >= '0' && c <= '9') || (c >= 'a' && c <= 'f') || (c >= 'A'
                        && c <= 'F')) {
                        proof {
                            assert(!is_hex_digit(g@[i as int]));
                        }
                        return false;
                    }
                    i = i + 1;
                }
                true
            },
        }
    }
}

/// Body of one step of a job.
pub enum StepBody {
    /// An action invocation carrying a `uses:` reference string.
    Uses { uses: String },
    /// A run block (or any other body this analysis does not inspect).
    Run { run: String },
}

/// Mathematical image of a [`StepBody`].
pub enum StepBodyV {
    Uses(Seq<char>),
    Run(Seq<char>),
}

/// One step of a job, in document order.
pub struct Step {
    pub body: StepBody,
}

impl View for Step {
    type V = StepBodyV;

    open spec fn view(&self) -> StepBodyV {
        match &self.body {
            StepBody::Uses { uses } => StepBodyV::Uses(uses@),
            StepBody::Run { run } => StepBodyV::Run(run@),
        }
    }
}

/// Kind of a job: a normal job has directly inspectable steps, a
/// reusable-workflow call does not.
#[derive(Clone, Copy, Debug, PartialEq, Eq, Structural)]
pub enum JobKind {
    Normal,
    ReusableWorkflowCall,
}

/// A job: an identifier unique within its workflow, its kind, and its steps
/// in document order.
pub struct Job {
    pub id: String,
    pub kind: JobKind,
    pub steps: Vec<Step>,
}

/// Mathematical image of a [`Job`].
pub struct JobV {
    pub id: Seq<char>,
    pub kind: JobKind,
    pub steps: Seq<StepBodyV>,
}

impl View for Job {
    type V = JobV;

    open spec fn view(&self) -> JobV {
        JobV { id: self.id@, kind: self.kind, steps: self.steps@.map_values(|s: Step| s@) }
    }
}

pub open spec fn view_jobs(s: Seq<Job>) -> Seq<JobV> {
    s.map_values(|j: Job| j@)
}

#[verifier::external_type_specification]
#[verifier::external_body]
pub struct ExTree(tree_sitter::Tree);

/// A workflow: the raw document bytes, a syntax tree parsed from exactly
/// those bytes, and the structural job list in document order. The tree is
/// built by the constructor and never replaced, so every span the locator
/// reads from it refers to `raw`.
pub struct Workflow {
    pub(crate) raw: Vec<u8>,
    pub(crate) tree: tree_sitter::Tree,
    pub(crate) jobs: Vec<Job>,
}

/// Mathematical image of a [`Workflow`]: the document bytes and the job list.
pub struct WorkflowV {
    pub raw: Seq<u8>,
    pub jobs: Seq<JobV>,
}

impl View for Workflow {
    type V = WorkflowV;

    closed spec fn view(&self) -> WorkflowV {
        WorkflowV { raw: self.raw@, jobs: view_jobs(self.jobs@) }
    }
}

/// Relies on tree_sitter::Parser and the tree_sitter_yaml grammar: parses the
/// document bytes into a syntax tree over exactly those bytes. The result is
/// always `Some`: `Parser::parse` returns `None` only when no language is
/// set or a cancellation flag or timeout is configured, and here the
/// language is set and neither exists. Nothing is assumed of the tree
/// itself; the locator's query wrappers speak of the document bytes it was
/// parsed from.
#[verifier::external_body]
fn parse_document(raw: &Vec<u8>) -> (r: Option<tree_sitter::Tree>)
    ensures
        r is Some,
{
    let mut parser = tree_sitter::Parser::new();
    if parser.set_language(&tree_sitter_yaml::LANGUAGE.into()).is_err() {
        return None;
    }
    parser.parse(raw.as_slice(), None)
}

impl Workflow {
    /// Build a workflow from its document bytes and its structural job list.
    /// The job list is the caller's structural model of the same document;
    /// step order must be document order.
    pub fn new(raw: Vec<u8>, jobs: Vec<Job>) -> (w: Workflow)
        ensures
            w@.raw == raw@ && w@.jobs == view_jobs(jobs@),
    {
        match parse_document(&raw) {
            Some(tree) => Workflow { raw, tree, jobs },
            None => unreached(),
        }
    }

    /// The raw document bytes.
    pub fn raw(&self) -> (r: &Vec<u8>)
        ensures
            r@ == self@.raw,
    {
        &self.raw
    }

    /// The jobs, in document order.
    pub fn jobs(&self) -> (r: &Vec<Job>)
        ensures
            view_jobs(r@) == self@.jobs,
    {
        &self.jobs
    }
}

} // verus!
