//! The locator: resolves a structural location (whole workflow, a job, or a
//! job plus step index) into the exact byte span and text of the original
//! document, by running fixed pattern queries against the workflow's syntax
//! tree and selecting among the matches in verified code.
//!
//! The queries capture, for every job entry of the top-level `jobs` mapping,
//! the span of the job-name scalar and the span of the job entry (or of the
//! direct children of its `steps` sequence). Which match belongs to the
//! requested job id is decided here, by comparing the name span's bytes
//! against the id; a job id must name exactly one match, and a step index
//! must index the unfiltered child list — the same document-order list the
//! audit pass walked.

use vstd::prelude::*;
use vstd::slice::{slice_index_get, slice_subrange};

use tree_sitter::{Query, QueryCursor, StreamingIterator};

use crate::finding::WorkflowLocation;
use crate::models::Workflow;

verus! {

/// Query for every job entry: captures the job-name scalar (`job_name`) and
/// the whole `id: {...}` entry (`full_job`) under the top-level `jobs` key.
pub open spec fn jobs_query_spec() -> Seq<char> {
    "(\n  (block_mapping_pair\n    key: (flow_node (plain_scalar (string_scalar) @jobs_key))\n    value: (block_node\n      (block_mapping\n        (block_mapping_pair\n          key: (flow_node (plain_scalar (string_scalar) @job_name))\n          value: (block_node (block_mapping) @job_value)\n        ) @full_job\n      )\n    )\n  )\n  (#eq? @jobs_key \"jobs\")\n)\n"@
}

/// The jobs query as executable text.
pub fn jobs_query() -> (r: &'static str)
    ensures
        r@ == jobs_query_spec(),
{
    "(\n  (block_mapping_pair\n    key: (flow_node (plain_scalar (string_scalar) @jobs_key))\n    value: (block_node\n      (block_mapping\n        (block_mapping_pair\n          key: (flow_node (plain_scalar (string_scalar) @job_name))\n          value: (block_node (block_mapping) @job_value)\n        ) @full_job\n      )\n    )\n  )\n  (#eq? @jobs_key \"jobs\")\n)\n"
}

/// Query for every job's step list: captures the job-name scalar
/// (`job_name`) and the `steps` block sequence (`steps`) of each job under
/// the top-level `jobs` key.
pub open spec fn steps_query_spec() -> Seq<char> {
    "(\n  (block_mapping_pair\n    key: (flow_node (plain_scalar (string_scalar) @jobs_key))\n    value: (block_node (block_mapping\n      (block_mapping_pair\n        key: (flow_node (plain_scalar (string_scalar) @job_name))\n        value: (block_node (block_mapping\n          (block_mapping_pair\n            key: (flow_node (plain_scalar (string_scalar) @steps_key))\n            value: (block_node (block_sequence\n              . (block_sequence_item\n                (block_node (block_mapping))\n              )\n            ) @steps)\n          )\n        ))\n      )\n    ))\n  )\n  (#eq? @jobs_key \"jobs\")\n  (#eq? @steps_key \"steps\")\n)\n"@
}

/// The steps query as executable text.
pub fn steps_query() -> (r: &'static str)
    ensures
        r@ == steps_query_spec(),
{
    "(\n  (block_mapping_pair\n    key: (flow_node (plain_scalar (string_scalar) @jobs_key))\n    value: (block_node (block_mapping\n      (block_mapping_pair\n        key: (flow_node (plain_scalar (string_scalar) @job_name))\n        value: (block_node (block_mapping\n          (block_mapping_pair\n            key: (flow_node (plain_scalar (string_scalar) @steps_key))\n            value: (block_node (block_sequence\n              . (block_sequence_item\n                (block_node (block_mapping))\n              )\n            ) @steps)\n          )\n        ))\n      )\n    ))\n  )\n  (#eq? @jobs_key \"jobs\")\n  (#eq? @steps_key \"steps\")\n)\n"
}

/// What the jobs query yields on a document, in match order: per match, the
/// byte span of the job-name scalar and the byte span of the whole job
/// entry. A function of the document bytes alone: the tree is parsed from
/// them and the query text is fixed.
pub uninterp spec fn job_matches_of(doc: Seq<u8>) -> Seq<((usize, usize), (usize, usize))>;

/// What the steps query yields on a document, in match order: per match, the
/// byte span of the job-name scalar and the byte spans of the direct
/// children of the job's `steps` sequence, in document order, unfiltered. A
/// function of the document bytes alone.
pub uninterp spec fn steps_matches_of(doc: Seq<u8>) -> Seq<((usize, usize), Seq<(usize, usize)>)>;

/// One match of the jobs query: job-name span and job-entry span.
pub struct JobMatch {
    pub name_start: usize,
    pub name_end: usize,
    pub job_start: usize,
    pub job_end: usize,
}

/// One match of the steps query: job-name span and the spans of the step
/// nodes, in document order.
pub struct StepsMatch {
    pub name_start: usize,
    pub name_end: usize,
    pub items: Vec<(usize, usize)>,
}

/// Relies on tree_sitter::Query and tree_sitter::QueryCursor::matches with
/// the tree_sitter_yaml grammar: runs the fixed jobs query over the
/// workflow's tree and hands out, per match and in match order, the byte
/// spans of the `job_name` and `full_job` captures. The result is always
/// `Some`: the query text is fixed and compiles under the grammar, its
/// captures are not optional, so every match the cursor yields carries both
/// nodes. Every span lies within the document: the nodes belong to the tree
/// parsed from exactly these bytes, and node byte ranges lie within the
/// parsed text.
#[verifier::external_body]
fn query_job_matches(wf: &Workflow, q: &str) -> (r: Option<Vec<JobMatch>>)
    requires
        q@ == jobs_query_spec(),
    ensures
        r is Some,
        r matches Some(v) ==> ({
            &&& v@.len() == job_matches_of(wf@.raw).len()
            &&& forall|i: int|
                0 <= i < v@.len() ==> {
                    let m = #[trigger] v@[i];
                    let s = job_matches_of(wf@.raw)[i];
                    &&& (m.name_start, m.name_end) == s.0
                    &&& (m.job_start, m.job_end) == s.1
                    &&& m.name_start <= m.name_end <= wf@.raw.len()
                    &&& m.job_start <= m.job_end <= wf@.raw.len()
                }
        }),
{
    let query = Query::new(&tree_sitter_yaml::LANGUAGE.into(), q).ok()?;
    let ni = query.capture_index_for_name("job_name")?;
    let ji = query.capture_index_for_name("full_job")?;
    let mut cursor = QueryCursor::new();
    let mut it = cursor.matches(&query, wf.tree.root_node(), wf.raw.as_slice());
    let mut out = Vec::new();
    while let Some(m) = it.next() {
        let n = m.nodes_for_capture_index(ni).next()?;
        let j = m.nodes_for_capture_index(ji).next()?;
        out.push(JobMatch { name_start: n.start_byte(), name_end: n.end_byte(), job_start: j.start_byte(), job_end: j.end_byte() });
    }
    Some(out)
}

/// Relies on tree_sitter::Query, tree_sitter::QueryCursor::matches and
/// tree_sitter::Node::children with the tree_sitter_yaml grammar: runs the
/// fixed steps query over the workflow's tree and hands out, per match and
/// in match order, the byte span of the `job_name` capture and the byte
/// spans of the direct children of the `steps` capture, in document order
/// and unfiltered. The result is always `Some`: the query text is fixed and
/// compiles under the grammar, its captures are not optional, so every match
/// the cursor yields carries both nodes. Every span lies within the
/// document: the nodes belong to the tree parsed from exactly these bytes,
/// and node byte ranges lie within the parsed text. Capture ids follow their
/// order of appearance in the query source: `jobs_key` 0, `job_name` 1,
/// `steps_key` 2, `steps` 3.
#[verifier::external_body]
fn query_steps_matches(wf: &Workflow, q: &str) -> (r: Option<Vec<StepsMatch>>)
    requires
        q@ == steps_query_spec(),
    ensures
        r is Some,
        r matches Some(v) ==> ({
            &&& v@.len() == steps_matches_of(wf@.raw).len()
            &&& forall|i: int|
                0 <= i < v@.len() ==> {
                    let m = #[trigger] v@[i];
                    let s = steps_matches_of(wf@.raw)[i];
                    &&& (m.name_start, m.name_end) == s.0
                    &&& m.items@ == s.1
                    &&& m.name_start <= m.name_end <= wf@.raw.len()
                    &&& forall|j: int|
                        0 <= j < m.items@.len() ==> (#[trigger] m.items@[j]).0 <= m.items@[j].1
                            <= wf@.raw.len()
                }
        }),
{
    let query = Query::new(&tree_sitter_yaml::LANGUAGE.into(), q).ok()?;
    let mut cursor = QueryCursor::new();
    let mut it = cursor.matches(&query, wf.tree.root_node(), wf.raw.as_slice());
    let mut out = Vec::new();
    while let Some(m) = it.next() {
        let n = m.nodes_for_capture_index(1).next()?;
        let s = m.nodes_for_capture_index(3).next()?;
        let items = s.children(&mut s.walk()).map(|c| (c.start_byte(), c.end_byte())).collect();
        out.push(StepsMatch { name_start: n.start_byte(), name_end: n.end_byte(), items });
    }
    Some(out)
}

/// Why a location could not be concretized.
#[derive(Clone, Copy, Debug, PartialEq, Eq, Structural)]
pub enum LocateError {
    /// No structure of the requested job id was found.
    NotFound,
    /// More than one structure matched the requested job id.
    Ambiguous,
    /// The job has no step node at the requested index.
    StepIndexOutOfRange,
    /// Job ids are compared byte-for-byte against the document; an id that
    /// is not ASCII is not supported.
    UnsupportedJobId,
}

/// The resolved form of a location: its literal text, borrowed from the
/// workflow's raw document, and the byte span it was taken from.
pub struct Feature<'w> {
    pub text: &'w [u8],
    pub start: usize,
    pub end: usize,
}

/// The bytes of an ASCII string, one byte per character.
pub open spec fn ascii_bytes(s: Seq<char>) -> Seq<u8> {
    Seq::new(s.len(), |i: int| s[i] as u8)
}

/// Whether a span lies within the document and its bytes spell `idb`.
pub open spec fn span_names_bytes(doc: Seq<u8>, sp: (usize, usize), idb: Seq<u8>) -> bool {
    sp.0 <= sp.1 <= doc.len() && doc.subrange(sp.0 as int, sp.1 as int) == idb
}

/// The job-entry spans among the first `n` matches whose name span spells
/// `idb`.
pub open spec fn job_hits_upto(
    ms: Seq<((usize, usize), (usize, usize))>,
    doc: Seq<u8>,
    idb: Seq<u8>,
    n: int,
) -> Seq<(usize, usize)>
    decreases n,
{
    if n <= 0 {
        Seq::empty()
    } else {
        let prefix = job_hits_upto(ms, doc, idb, n - 1);
        if span_names_bytes(doc, ms[n - 1].0, idb) {
            prefix.push(ms[n - 1].1)
        } else {
            prefix
        }
    }
}

/// The step-span lists among the first `n` matches whose name span spells
/// `idb`.
pub open spec fn steps_hits_upto(
    ms: Seq<((usize, usize), Seq<(usize, usize)>)>,
    doc: Seq<u8>,
    idb: Seq<u8>,
    n: int,
) -> Seq<Seq<(usize, usize)>>
    decreases n,
{
    if n <= 0 {
        Seq::empty()
    } else {
        let prefix = steps_hits_upto(ms, doc, idb, n - 1);
        if span_names_bytes(doc, ms[n - 1].0, idb) {
            prefix.push(ms[n - 1].1)
        } else {
            prefix
        }
    }
}

/// The job-entry spans the jobs query yields for a job id on a document.
pub open spec fn job_hits(doc: Seq<u8>, id: Seq<char>) -> Seq<(usize, usize)> {
    job_hits_upto(job_matches_of(doc), doc, ascii_bytes(id), job_matches_of(doc).len() as int)
}

/// The step-span lists the steps query yields for a job id on a document.
pub open spec fn steps_hits(doc: Seq<u8>, id: Seq<char>) -> Seq<Seq<(usize, usize)>> {
    steps_hits_upto(
        steps_matches_of(doc),
        doc,
        ascii_bytes(id),
        steps_matches_of(doc).len() as int,
    )
}

/// What a job-only location resolves to, given the hits for its id: the id
/// must select exactly one span.
pub open spec fn locate_job_outcome(hits: Seq<(usize, usize)>) -> Result<
    (usize, usize),
    LocateError,
> {
    if hits.len() == 0 {
        Err(LocateError::NotFound)
    } else if hits.len() > 1 {
        Err(LocateError::Ambiguous)
    } else {
        Ok(hits[0])
    }
}

/// What a job-plus-step location resolves to, given the hits for its id: the
/// id must select exactly one step list, and the index must fall within it —
/// it counts every step node, exactly as the audit pass did.
pub open spec fn locate_step_outcome(hits: Seq<Seq<(usize, usize)>>, index: usize) -> Result<
    (usize, usize),
    LocateError,
> {
    if hits.len() == 0 {
        Err(LocateError::NotFound)
    } else if hits.len() > 1 {
        Err(LocateError::Ambiguous)
    } else if index >= hits[0].len() {
        Err(LocateError::StepIndexOutOfRange)
    } else {
        Ok(hits[0][index as int])
    }
}

/// Byte-for-byte equality of two slices.
fn bytes_eq(a: &[u8], b: &[u8]) -> (r: bool)
    ensures
        r == (a@ == b@),
{
    if a.len() != b.len() {
        proof {
            assert(a@.len() != b@.len());
        }
        return false;
    }
    let mut i: usize = 0;
    while i < a.len()
        invariant
            a@.len() == b@.len(),
            0 <= i <= a@.len(),
            forall|j: int| 0 <= j < i ==> a@[j] == b@[j],
        decreases a@.len() - i,
    {
        if *slice_index_get(a, i) != *slice_index_get(b, i) {
            proof {
                assert(a@[i as int] != b@[i as int]);
            }
            return false;
        }
        i = i + 1;
    }
    proof {
        assert(a@ =~= b@);
    }
    true
}

/// Whether `sp` lies within the document and spells `idb` there.
fn span_matches(raw: &Vec<u8>, start: usize, end: usize, idb: &[u8]) -> (r: bool)
    ensures
        r == span_names_bytes(raw@, (start, end), idb@),
{
    if start > end || end > raw.len() {
        return false;
    }
    let piece = slice_subrange(raw.as_slice(), start, end);
    bytes_eq(piece, idb)
}

/// The concretizer: resolves structural locations against a workflow.
pub struct Locator {}

impl Locator {
    pub fn new() -> (r: Locator) {
        Locator {  }
    }

    /// Resolve a structural location into its literal text and byte span.
    ///
    /// A whole-workflow location resolves to the entire document. A job or
    /// step location resolves through the fixed queries: its job id must be
    /// ASCII and must select exactly one match, and a step index must fall
    /// within the job's unfiltered step-node list, in document order — the
    /// same indexing the audit pass used. Every failure is a typed error,
    /// and success is owed: an ASCII id that selects exactly one match (and,
    /// for a step, an index within its step-node list) yields `Ok`.
    pub fn concretize<'w>(&self, workflow: &'w Workflow, location: &WorkflowLocation) -> (r:
        Result<Feature<'w>, LocateError>)
        ensures
            match location {
                WorkflowLocation::WholeWorkflow => r matches Ok(f) && f.start == 0 && f.end
                    == workflow@.raw.len() && f.text@ == workflow@.raw,
                WorkflowLocation::Job { id } => {
                    if !vstd::utf8::is_ascii_chars(id@) {
                        r == Err::<Feature<'w>, _>(LocateError::UnsupportedJobId)
                    } else {
                        match locate_job_outcome(job_hits(workflow@.raw, id@)) {
                            Ok(sp) => r matches Ok(f) && (f.start, f.end) == sp && f.start
                                <= f.end <= workflow@.raw.len() && f.text@
                                == workflow@.raw.subrange(f.start as int, f.end as int),
                            Err(e) => r == Err::<Feature<'w>, _>(e),
                        }
                    }
                },
                WorkflowLocation::Step { job_id, index } => {
                    if !vstd::utf8::is_ascii_chars(job_id@) {
                        r == Err::<Feature<'w>, _>(LocateError::UnsupportedJobId)
                    } else {
                        match locate_step_outcome(steps_hits(workflow@.raw, job_id@), *index) {
                            Ok(sp) => r matches Ok(f) && (f.start, f.end) == sp && f.start
                                <= f.end <= workflow@.raw.len() && f.text@
                                == workflow@.raw.subrange(f.start as int, f.end as int),
                            Err(e) => r == Err::<Feature<'w>, _>(e),
                        }
                    }
                },
            },
    {
        let raw = workflow.raw();
        match location {
            WorkflowLocation::WholeWorkflow => {
                let text = slice_subrange(raw.as_slice(), 0, raw.len());
                proof {
                    assert(text@ =~= workflow@.raw);
                }
                Ok(Feature { text, start: 0, end: raw.len() })
            },
            WorkflowLocation::Job { id } => {
                let id_str = id.as_str();
                if !id_str.is_ascii() {
                    return Err(LocateError::UnsupportedJobId);
                }
                let idb = id_str.as_bytes();
                proof {
                    vstd::string::is_ascii_spec_bytes(id_str);
                    assert(idb@ =~= ascii_bytes(id@));
                }
                let ms = match query_job_matches(workflow, jobs_query()) {
                    Some(ms) => ms,
                    None => unreached(),
                };
                let ghost doc = workflow@.raw;
                let ghost msv = job_matches_of(doc);
                let mut hits: Vec<(usize, usize)> = Vec::new();
                let mut i: usize = 0;
                while i < ms.len()
                    invariant
                        0 <= i <= ms@.len(),
                        ms@.len() == msv.len(),
                        raw@ == doc,
                        idb@ == ascii_bytes(id@),
                        forall|k: int|
                            0 <= k < ms@.len() ==> {
                                let m = #[trigger] ms@[k];
                                &&& (m.name_start, m.name_end) == msv[k].0
                                &&& (m.job_start, m.job_end) == msv[k].1
                                &&& m.job_start <= m.job_end <= doc.len()
                            },
                        hits@ == job_hits_upto(msv, doc, idb@, i as int),
                        forall|k: int|
                            0 <= k < hits@.len() ==> (#[trigger] hits@[k]).0 <= hits@[k].1
                                <= doc.len(),
                    decreases ms@.len() - i,
                {
                    let m = &ms[i];
                    if span_matches(raw, m.name_start, m.name_end, idb) {
                        hits.push((m.job_start, m.job_end));
                    }
                    proof {
                        assert(hits@ =~= job_hits_upto(msv, doc, idb@, i + 1));
                    }
                    i = i + 1;
                }
                proof {
                    assert(hits@ == job_hits(doc, id@));
                }
                if hits.len() == 0 {
                    Err(LocateError::NotFound)
                } else if hits.len() > 1 {
                    Err(LocateError::Ambiguous)
                } else {
                    let (start, end) = hits[0];
                    let text = slice_subrange(raw.as_slice(), start, end);
                    Ok(Feature { text, start, end })
                }
            },
            WorkflowLocation::Step { job_id, index } => {
                let id_str = job_id.as_str();
                if !id_str.is_ascii() {
                    return Err(LocateError::UnsupportedJobId);
                }
                let idb = id_str.as_bytes();
                proof {
                    vstd::string::is_ascii_spec_bytes(id_str);
                    assert(idb@ =~= ascii_bytes(job_id@));
                }
                let ms = match query_steps_matches(workflow, steps_query()) {
                    Some(ms) => ms,
                    None => unreached(),
                };
                let ghost doc = workflow@.raw;
                let ghost msv = steps_matches_of(doc);
                let mut count: usize = 0;
                let mut first: usize = 0;
                let mut i: usize = 0;
                while i < ms.len()
                    invariant
                        0 <= i <= ms@.len(),
                        ms@.len() == msv.len(),
                        raw@ == doc,
                        idb@ == ascii_bytes(job_id@),
                        forall|k: int|
                            0 <= k < ms@.len() ==> {
                                let m = #[trigger] ms@[k];
                                &&& (m.name_start, m.name_end) == msv[k].0
                                &&& m.items@ == msv[k].1
                                &&& forall|j: int|
                                    0 <= j < m.items@.len() ==> (#[trigger] m.items@[j]).0
                                        <= m.items@[j].1 <= doc.len()
                            },
                        count <= i,
                        count as int == steps_hits_upto(msv, doc, idb@, i as int).len(),
                        count > 0 ==> 0 <= first < i && steps_hits_upto(msv, doc, idb@, i as int)[0]
                            == msv[first as int].1,
                    decreases ms@.len() - i,
                {
                    let m = &ms[i];
                    if span_matches(raw, m.name_start, m.name_end, idb) {
                        if count == 0 {
                            first = i;
                        }
                        count = count + 1;
                    }
                    i = i + 1;
                }
                proof {
                    assert(count as int == steps_hits(doc, job_id@).len());
                    assert(count > 0 ==> steps_hits(doc, job_id@)[0] == msv[first as int].1);
                }
                if count == 0 {
                    Err(LocateError::NotFound)
                } else if count > 1 {
                    Err(LocateError::Ambiguous)
                } else {
                    let items = &ms[first].items;
                    proof {
                        assert(items@ == steps_hits(doc, job_id@)[0]);
                    }
                    if *index >= items.len() {
                        Err(LocateError::StepIndexOutOfRange)
                    } else {
                        let sp = items[*index];
                        let (start, end) = sp;
                        proof {
                            assert(ms@[first as int].items@[*index as int].0
                                <= ms@[first as int].items@[*index as int].1 <= doc.len());
                        }
                        let text = slice_subrange(raw.as_slice(), start, end);
                        Ok(Feature { text, start, end })
                    }
                }
            },
        }
    }
}

} // verus!
