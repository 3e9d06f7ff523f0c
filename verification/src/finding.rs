//! The finding model: severity and confidence vocabularies, structural
//! locations, and the builder that assembles an immutable finding.

use vstd::prelude::*;

verus! {

/// Mapped severity of a finding.
#[derive(Clone, Copy, Debug, PartialEq, Eq, Structural)]
pub enum Severity {
    Unknown,
    Low,
    Medium,
    High,
}

/// Confidence of a finding.
#[derive(Clone, Copy, Debug, PartialEq, Eq, Structural)]
pub enum Confidence {
    Low,
    Medium,
    High,
}

/// A structural reference into a workflow: the whole document, one job, or
/// one step of one job. The step index counts step nodes in document order,
/// with no filtering.
pub enum WorkflowLocation {
    WholeWorkflow,
    Job { id: String },
    Step { job_id: String, index: usize },
}

/// A structural location together with the keys it points at inside the
/// located mapping and an optional free-text annotation.
pub struct AnnotatedLocation {
    pub location: WorkflowLocation,
    pub keys: Vec<String>,
    pub annotation: Option<String>,
}

impl AnnotatedLocation {
    /// A bare location with no keys and no annotation.
    pub fn of(location: WorkflowLocation) -> (r: Self)
        ensures
            r.location == location,
            r.keys@ == Seq::<String>::empty(),
            r.annotation is None,
    {
        AnnotatedLocation { location, keys: Vec::new(), annotation: None }
    }

    /// The same location, pointing at one more key of the located mapping.
    pub fn with_key(self, key: String) -> (r: Self)
        ensures
            r.location == self.location,
            r.keys@ == self.keys@.push(key),
            r.annotation == self.annotation,
    {
        let mut keys = self.keys;
        keys.push(key);
        AnnotatedLocation { location: self.location, keys, annotation: self.annotation }
    }

    /// The same location, carrying an annotation.
    pub fn annotated(self, note: String) -> (r: Self)
        ensures
            r.location == self.location,
            r.keys == self.keys,
            r.annotation == Some(note),
    {
        AnnotatedLocation { location: self.location, keys: self.keys, annotation: Some(note) }
    }
}

/// Why a finding could not be built.
#[derive(Clone, Copy, Debug, PartialEq, Eq, Structural)]
pub enum FindingError {
    NoLocations,
}

/// An audit finding: audit identity, severity, confidence, and one or more
/// annotated structural locations. Immutable once built.
pub struct Finding {
    pub ident: String,
    pub severity: Severity,
    pub confidence: Confidence,
    pub locations: Vec<AnnotatedLocation>,
}

/// Assembles a [`Finding`]. Severity defaults to `Unknown` and confidence to
/// `Low` until set.
pub struct FindingBuilder {
    pub ident: String,
    pub severity: Severity,
    pub confidence: Confidence,
    pub locations: Vec<AnnotatedLocation>,
}

impl FindingBuilder {
    pub fn new(ident: String) -> (r: Self)
        ensures
            r.ident == ident,
            r.severity == Severity::Unknown,
            r.confidence == Confidence::Low,
            r.locations@ == Seq::<AnnotatedLocation>::empty(),
    {
        FindingBuilder {
            ident,
            severity: Severity::Unknown,
            confidence: Confidence::Low,
            locations: Vec::new(),
        }
    }

    pub fn severity(self, severity: Severity) -> (r: Self)
        ensures
            r.ident == self.ident,
            r.severity == severity,
            r.confidence == self.confidence,
            r.locations == self.locations,
    {
        FindingBuilder { severity, ..self }
    }

    pub fn confidence(self, confidence: Confidence) -> (r: Self)
        ensures
            r.ident == self.ident,
            r.severity == self.severity,
            r.confidence == confidence,
            r.locations == self.locations,
    {
        FindingBuilder { confidence, ..self }
    }

    pub fn add_location(self, location: AnnotatedLocation) -> (r: Self)
        ensures
            r.ident == self.ident,
            r.severity == self.severity,
            r.confidence == self.confidence,
            r.locations@ == self.locations@.push(location),
    {
        let mut locations = self.locations;
        locations.push(location);
        FindingBuilder { locations, ..self }
    }

    /// A finding must carry at least one location.
    pub fn build(self) -> (r: Result<Finding, FindingError>)
        ensures
            match r {
                Ok(f) => {
                    &&& self.locations@.len() > 0
                    &&& f.ident == self.ident
                    &&& f.severity == self.severity
                    &&& f.confidence == self.confidence
                    &&& f.locations == self.locations
                },
                Err(e) => self.locations@.len() == 0 && e == FindingError::NoLocations,
            },
    {
        if self.locations.len() == 0 {
            Err(FindingError::NoLocations)
        } else {
            Ok(Finding {
                ident: self.ident,
                severity: self.severity,
                confidence: self.confidence,
                locations: self.locations,
            })
        }
    }
}

} // verus!
