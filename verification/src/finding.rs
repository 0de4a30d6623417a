//! The finding record: the immutable output of an audit rule.
//!
//! A finding carries a confidence level, a severity level, the identity of
//! the rule that produced it, and one or more source locations, each holding
//! a structural key-path and a human-readable annotation. Findings are never
//! mutated after construction.

use vstd::prelude::*;

verus! {

/// How confident the rule is in a finding. Levels are ordered:
/// `Low < Medium < High`.
#[derive(Clone, Copy, Debug, PartialEq, Eq, Structural)]
pub enum Confidence {
    Low,
    Medium,
    High,
}

/// How severe a finding is. `Unknown` means the severity cannot be
/// determined without context that the rule does not have.
#[derive(Clone, Copy, Debug, PartialEq, Eq, Structural)]
pub enum Severity {
    Unknown,
    Low,
    Medium,
    High,
}

impl Confidence {
    /// The position of a confidence level in the order
    /// `Low < Medium < High`.
    pub open spec fn spec_rank(self) -> int {
        match self {
            Confidence::Low => 0,
            Confidence::Medium => 1,
            Confidence::High => 2,
        }
    }

    /// The rank of this level: `Low` is 0, `Medium` is 1, `High` is 2.
    pub fn rank(self) -> (r: u8)
        ensures
            r as int == self.spec_rank(),
    {
        match self {
            Confidence::Low => 0,
            Confidence::Medium => 1,
            Confidence::High => 2,
        }
    }

    /// Compare two confidence levels by the order `Low < Medium < High`.
    pub fn lt(self, other: Confidence) -> (r: bool)
        ensures
            r == (self.spec_rank() < other.spec_rank()),
    {
        self.rank() < other.rank()
    }
}

/// The mathematical value of a [`Location`]: its key-path and annotation as
/// sequences of characters.
#[verifier::ext_equal]
pub struct LocationModel {
    pub keys: Seq<Seq<char>>,
    pub annotation: Seq<char>,
}

/// A source location of a finding: a structural key-path into the workflow
/// document, plus a human-readable annotation.
#[derive(Clone, Debug, PartialEq, Eq)]
pub struct Location {
    pub keys: Vec<String>,
    pub annotation: String,
}

impl View for Location {
    type V = LocationModel;

    open spec fn view(&self) -> LocationModel {
        LocationModel { keys: self.keys.deep_view(), annotation: self.annotation@ }
    }
}

impl DeepView for Location {
    type V = LocationModel;

    open spec fn deep_view(&self) -> LocationModel {
        self@
    }
}

/// The mathematical value of a [`Finding`].
#[verifier::ext_equal]
pub struct FindingModel {
    pub ident: Seq<char>,
    pub confidence: Confidence,
    pub severity: Severity,
    pub locations: Seq<LocationModel>,
}

/// A diagnostic emitted by an audit rule. Immutable once built; `build` is
/// the only constructor.
#[derive(Clone, Debug, PartialEq, Eq)]
pub struct Finding {
    pub ident: String,
    pub confidence: Confidence,
    pub severity: Severity,
    pub locations: Vec<Location>,
}

impl View for Finding {
    type V = FindingModel;

    open spec fn view(&self) -> FindingModel {
        FindingModel {
            ident: self.ident@,
            confidence: self.confidence,
            severity: self.severity,
            locations: self.locations.deep_view(),
        }
    }
}

impl DeepView for Finding {
    type V = FindingModel;

    open spec fn deep_view(&self) -> FindingModel {
        self@
    }
}

/// Why a finding could not be constructed.
#[derive(Clone, Copy, Debug, PartialEq, Eq, Structural)]
pub enum FindingError {
    /// A finding must point at one or more source locations.
    NoLocations,
}

impl Finding {
    /// Construct a finding from a rule identity, a confidence, a severity,
    /// and its source locations. Fails exactly when no location is supplied:
    /// a finding must point somewhere.
    pub fn build(ident: String, confidence: Confidence, severity: Severity, locations: Vec<
        Location,
    >) -> (r: Result<Finding, FindingError>)
        ensures
            locations@.len() > 0 ==> (r matches Ok(f) && f@ == (FindingModel {
                ident: ident@,
                confidence,
                severity,
                locations: locations.deep_view(),
            })),
            locations@.len() == 0 ==> (r matches Err(e) && e == FindingError::NoLocations),
    {
        if locations.len() == 0 {
            Err(FindingError::NoLocations)
        } else {
            Ok(Finding { ident, confidence, severity, locations })
        }
    }
}

} // verus!
