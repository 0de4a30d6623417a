//! The runner target model: how a job declares where it runs.
//!
//! A job either names an ordered list of labels (`runs-on: [self-hosted,
//! linux, x64]`) or targets a named runner group, optionally alongside
//! labels. By platform convention the `self-hosted` marker, when present, is
//! always the first label, so only the first label is load-bearing for this
//! rule.

use vstd::prelude::*;

verus! {

/// The mathematical value of a [`RunsOn`] declaration.
#[verifier::ext_equal]
pub enum RunsOnModel {
    Labeled(Seq<Seq<char>>),
    Grouped { group: Option<Seq<char>>, labels: Seq<Seq<char>> },
}

/// A job's declared execution target.
#[derive(Clone, Debug, PartialEq, Eq)]
pub enum RunsOn {
    /// An ordered sequence of runner labels, e.g. `["ubuntu-latest"]` or
    /// `["self-hosted", "linux", "x64"]`.
    Labeled(Vec<String>),
    /// A named runner group, with an optional accompanying label list. The
    /// rule inspects neither the group name nor the labels: the mere
    /// presence of a group is the signal.
    Grouped { group: Option<String>, labels: Vec<String> },
}

impl View for RunsOn {
    type V = RunsOnModel;

    open spec fn view(&self) -> RunsOnModel {
        match self {
            RunsOn::Labeled(labels) => RunsOnModel::Labeled(labels.deep_view()),
            RunsOn::Grouped { group, labels } => RunsOnModel::Grouped {
                group: group.deep_view(),
                labels: labels.deep_view(),
            },
        }
    }
}

impl DeepView for RunsOn {
    type V = RunsOnModel;

    open spec fn deep_view(&self) -> RunsOnModel {
        self@
    }
}

/// The mathematical value of a [`JobDecl`].
#[verifier::ext_equal]
pub struct JobDeclModel {
    pub key: Seq<char>,
    pub runs_on: RunsOnModel,
}

/// What the rule sees of one job: the job's stable structural key (used to
/// locate diagnostics) and its runner declaration.
#[derive(Clone, Debug, PartialEq, Eq)]
pub struct JobDecl {
    pub key: String,
    pub runs_on: RunsOn,
}

impl View for JobDecl {
    type V = JobDeclModel;

    open spec fn view(&self) -> JobDeclModel {
        JobDeclModel { key: self.key@, runs_on: self.runs_on@ }
    }
}

impl DeepView for JobDecl {
    type V = JobDeclModel;

    open spec fn deep_view(&self) -> JobDeclModel {
        self@
    }
}

} // verus!
