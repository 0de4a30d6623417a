//! The classification rule: from a job's runner declaration and the policy
//! flag to a sequence of findings.
//!
//! The decision procedure, per job:
//! - If the policy flag ("pedantic" mode) is off, emit nothing: this check
//!   is opt-in, because the platform gives no reliable way to tell whether a
//!   self-hosted runner is ephemeral.
//! - For a labeled declaration, only the first label is inspected. The
//!   literal `self-hosted` marker yields one High-confidence finding; a
//!   dynamic interpolation yields one Low-confidence finding (its runtime
//!   value might name a self-hosted runner); any other literal yields
//!   nothing. An empty label list yields nothing.
//! - A runner group always yields one Low-confidence finding: platform
//!   documentation is unclear on whether groups always imply self-hosted
//!   pools, so the rule flags them conservatively rather than staying
//!   silent.
//!
//! Severity is always `Unknown`: the real risk depends on repository
//! visibility and workflow triggers, which are outside this rule's input.

use vstd::prelude::*;

use crate::expr::is_expression;
use crate::expr::spec_is_expression;
use crate::finding::Confidence;
use crate::finding::Finding;
use crate::finding::FindingError;
use crate::finding::FindingModel;
use crate::finding::Location;
use crate::finding::LocationModel;
use crate::finding::Severity;
use crate::runner::JobDecl;
use crate::runner::JobDeclModel;
use crate::runner::RunsOn;
use crate::runner::RunsOnModel;

verus! {

/// The rule's stable machine-readable name.
pub open spec fn spec_ident() -> Seq<char> {
    "self-hosted-runner"@
}

/// The rule's one-line human description.
pub open spec fn spec_desc() -> Seq<char> {
    "runs on a self-hosted runner"@
}

/// The literal label that marks a self-hosted runner. By platform
/// convention it is always the first label of a self-hosted label list.
pub open spec fn self_hosted_marker() -> Seq<char> {
    "self-hosted"@
}

/// The structural key under which a job declares its runner target.
pub open spec fn runs_on_key() -> Seq<char> {
    "runs-on"@
}

/// Annotation attached to a High-confidence literal match.
pub open spec fn self_hosted_annotation() -> Seq<char> {
    "self-hosted runner used here"@
}

/// Annotation attached to a Low-confidence expression match.
pub open spec fn expression_annotation() -> Seq<char> {
    "expression may expand into a self-hosted runner"@
}

/// Annotation attached to a Low-confidence runner-group match.
pub open spec fn group_annotation() -> Seq<char> {
    "runner group implies self-hosted runner"@
}

/// The one finding shape this rule emits: its identity, the given
/// confidence, Unknown severity, and a single location at the job's
/// `runs-on` key with the given annotation.
pub open spec fn spec_finding_at(job_key: Seq<char>, confidence: Confidence, annotation: Seq<
    char,
>) -> FindingModel {
    FindingModel {
        ident: spec_ident(),
        confidence,
        severity: Severity::Unknown,
        locations: seq![LocationModel { keys: seq![job_key, runs_on_key()], annotation }],
    }
}

/// The findings for a single job: the rule's whole decision procedure as a
/// mathematical function of the job and the policy flag.
pub open spec fn spec_job_findings(job: JobDeclModel, pedantic: bool) -> Seq<FindingModel> {
    if !pedantic {
        Seq::empty()
    } else {
        match job.runs_on {
            RunsOnModel::Labeled(labels) => {
                if labels.len() == 0 {
                    Seq::empty()
                } else if labels[0] == self_hosted_marker() {
                    seq![spec_finding_at(job.key, Confidence::High, self_hosted_annotation())]
                } else if spec_is_expression(labels[0]) {
                    seq![spec_finding_at(job.key, Confidence::Low, expression_annotation())]
                } else {
                    Seq::empty()
                }
            },
            RunsOnModel::Grouped { group: _, labels: _ } => {
                seq![spec_finding_at(job.key, Confidence::Low, group_annotation())]
            },
        }
    }
}

/// The findings for a whole job set: each job's findings in job order.
pub open spec fn spec_workflow_findings(jobs: Seq<JobDeclModel>, pedantic: bool) -> Seq<
    FindingModel,
>
    decreases jobs.len(),
{
    if jobs.len() == 0 {
        Seq::empty()
    } else {
        spec_workflow_findings(jobs.drop_last(), pedantic) + spec_job_findings(
            jobs.last(),
            pedantic,
        )
    }
}

/// The audit configuration the rule reads: the single "pedantic" flag, set
/// once at engine startup and read-only thereafter.
#[derive(Clone, Copy, Debug, PartialEq, Eq, Structural)]
pub struct AuditConfig {
    pub pedantic: bool,
}

/// The self-hosted-runner audit rule.
pub struct SelfHostedRunner {
    pub config: AuditConfig,
}

impl SelfHostedRunner {
    /// The rule's stable machine-readable name, used for registration,
    /// filtering and reporting.
    pub fn ident() -> (r: &'static str)
        ensures
            r@ == spec_ident(),
    {
        "self-hosted-runner"
    }

    /// The rule's one-line human description.
    pub fn desc() -> (r: &'static str)
        ensures
            r@ == spec_desc(),
    {
        "runs on a self-hosted runner"
    }

    /// Construct the rule from the audit configuration.
    pub fn new(config: AuditConfig) -> (r: Self)
        ensures
            r.config == config,
    {
        SelfHostedRunner { config }
    }

    /// Build the one finding shape this rule emits, located at the job's
    /// `runs-on` key.
    fn emit(job_key: &String, confidence: Confidence, annotation: &str) -> (r: Result<
        Finding,
        FindingError,
    >)
        ensures
            r matches Ok(f) && f@ == spec_finding_at(job_key@, confidence, annotation@),
    {
        let mut keys: Vec<String> = Vec::new();
        keys.push(job_key.clone());
        keys.push("runs-on".to_owned());
        let location = Location { keys, annotation: annotation.to_owned() };
        let mut locations: Vec<Location> = Vec::new();
        locations.push(location);
        proof {
            assert(locations.deep_view() =~~= seq![
                LocationModel { keys: seq![job_key@, runs_on_key()], annotation: annotation@ },
            ]);
        }
        let r = Finding::build(
            Self::ident().to_owned(),
            confidence,
            Severity::Unknown,
            locations,
        );
        proof {
            assert(r->Ok_0@ =~~= spec_finding_at(job_key@, confidence, annotation@));
        }
        r
    }

    /// Classify a single job's runner declaration. Returns the job's
    /// findings in emission order; the error case propagates a
    /// finding-construction failure, which this rule never triggers since
    /// it always supplies a location.
    pub fn audit_job(&self, job: &JobDecl) -> (r: Result<Vec<Finding>, FindingError>)
        ensures
            r matches Ok(fs) && fs.deep_view() == spec_job_findings(job@, self.config.pedantic),
    {
        let mut results: Vec<Finding> = Vec::new();
        if !self.config.pedantic {
            return Ok(results);
        }
        match &job.runs_on {
            RunsOn::Labeled(labels) => {
                if labels.len() == 0 {
                    return Ok(results);
                }
                let label = &labels[0];
                let marker: String = "self-hosted".to_owned();
                if *label == marker {
                    match Self::emit(
                        &job.key,
                        Confidence::High,
                        "self-hosted runner used here",
                    ) {
                        Ok(f) => {
                            results.push(f);
                            proof {
                                assert(results.deep_view() =~~= spec_job_findings(
                                    job@,
                                    self.config.pedantic,
                                ));
                            }
                            Ok(results)
                        },
                        Err(e) => Err(e),
                    }
                } else if is_expression(label.as_str()) {
                    match Self::emit(
                        &job.key,
                        Confidence::Low,
                        "expression may expand into a self-hosted runner",
                    ) {
                        Ok(f) => {
                            results.push(f);
                            proof {
                                assert(results.deep_view() =~~= spec_job_findings(
                                    job@,
                                    self.config.pedantic,
                                ));
                            }
                            Ok(results)
                        },
                        Err(e) => Err(e),
                    }
                } else {
                    Ok(results)
                }
            },
            RunsOn::Grouped { group: _, labels: _ } => {
                match Self::emit(
                    &job.key,
                    Confidence::Low,
                    "runner group implies self-hosted runner",
                ) {
                    Ok(f) => {
                        results.push(f);
                        proof {
                            assert(results.deep_view() =~~= spec_job_findings(
                                job@,
                                self.config.pedantic,
                            ));
                        }
                        Ok(results)
                    },
                    Err(e) => Err(e),
                }
            },
        }
    }

    /// Evaluate the rule over one workflow's full job set. Returns every
    /// job's findings, in job order; when the policy flag is off the result
    /// is always empty.
    pub fn audit(&self, jobs: &Vec<JobDecl>) -> (r: Result<Vec<Finding>, FindingError>)
        ensures
            r matches Ok(fs) && fs.deep_view() == spec_workflow_findings(
                jobs.deep_view(),
                self.config.pedantic,
            ),
            !self.config.pedantic ==> (r matches Ok(fs) && fs@.len() == 0),
    {
        let mut results: Vec<Finding> = Vec::new();
        if !self.config.pedantic {
            proof {
                lemma_policy_gate(jobs.deep_view());
                assert(results.deep_view() =~= spec_workflow_findings(jobs.deep_view(), false));
            }
            return Ok(results);
        }
        let mut i: usize = 0;
        while i < jobs.len()
            invariant
                i <= jobs.len(),
                results.deep_view() == spec_workflow_findings(
                    jobs.deep_view().take(i as int),
                    self.config.pedantic,
                ),
            decreases jobs.len() - i,
        {
            let job = &jobs[i];
            let ghost pre = results.deep_view();
            match self.audit_job(job) {
                Ok(mut fs) => {
                    let ghost fs_model = fs.deep_view();
                    results.append(&mut fs);
                    proof {
                        let jdv = jobs.deep_view();
                        assert(results.deep_view() =~~= pre + fs_model);
                        assert(jdv.take(i + 1).drop_last() =~= jdv.take(i as int));
                        assert(jdv.take(i + 1).last() == jdv[i as int]);
                        assert(results.deep_view() =~~= spec_workflow_findings(
                            jdv.take(i + 1),
                            self.config.pedantic,
                        ));
                    }
                },
                Err(e) => {
                    return Err(e);
                },
            }
            i = i + 1;
        }
        proof {
            assert(jobs.deep_view().take(jobs.len() as int) =~= jobs.deep_view());
        }
        Ok(results)
    }
}

/// When the policy flag is off, the rule emits nothing, for any job set.
pub proof fn lemma_policy_gate(jobs: Seq<JobDeclModel>)
    ensures
        spec_workflow_findings(jobs, false) == Seq::<FindingModel>::empty(),
    decreases jobs.len(),
{
    if jobs.len() > 0 {
        lemma_policy_gate(jobs.drop_last());
        assert(spec_workflow_findings(jobs, false) =~= Seq::<FindingModel>::empty());
    }
}

/// A labeled declaration whose first label is exactly the `self-hosted`
/// marker yields exactly one finding, with High confidence and Unknown
/// severity, whatever the remaining labels say.
pub proof fn lemma_self_hosted_first_label(job: JobDeclModel, labels: Seq<Seq<char>>)
    requires
        job.runs_on == RunsOnModel::Labeled(labels),
        labels.len() > 0,
        labels[0] == self_hosted_marker(),
    ensures
        spec_job_findings(job, true).len() == 1,
        spec_job_findings(job, true)[0].confidence == Confidence::High,
        spec_job_findings(job, true)[0].severity == Severity::Unknown,
{
}

/// A labeled declaration whose first label is a literal other than the
/// `self-hosted` marker, and not a dynamic interpolation, yields no
/// finding.
pub proof fn lemma_other_literal_first_label(job: JobDeclModel, labels: Seq<Seq<char>>)
    requires
        job.runs_on == RunsOnModel::Labeled(labels),
        labels.len() > 0,
        labels[0] != self_hosted_marker(),
        !spec_is_expression(labels[0]),
    ensures
        spec_job_findings(job, true) == Seq::<FindingModel>::empty(),
{
    assert(spec_job_findings(job, true) =~= Seq::<FindingModel>::empty());
}

/// A labeled declaration whose first label is a dynamic interpolation
/// yields exactly one finding, with Low confidence and Unknown severity.
/// (An interpolation opens with `$`, so it can never be the `self-hosted`
/// marker itself.)
pub proof fn lemma_expression_first_label(job: JobDeclModel, labels: Seq<Seq<char>>)
    requires
        job.runs_on == RunsOnModel::Labeled(labels),
        labels.len() > 0,
        spec_is_expression(labels[0]),
    ensures
        spec_job_findings(job, true).len() == 1,
        spec_job_findings(job, true)[0].confidence == Confidence::Low,
        spec_job_findings(job, true)[0].severity == Severity::Unknown,
{
    reveal_strlit("self-hosted");
    assert(self_hosted_marker()[0] != '$');
    assert(labels[0] != self_hosted_marker());
}

/// A grouped declaration yields exactly one finding, with Low confidence
/// and Unknown severity, whatever the group name or accompanying labels.
pub proof fn lemma_group_always_flagged(
    job: JobDeclModel,
    group: Option<Seq<char>>,
    labels: Seq<Seq<char>>,
)
    requires
        job.runs_on == (RunsOnModel::Grouped { group, labels }),
    ensures
        spec_job_findings(job, true).len() == 1,
        spec_job_findings(job, true)[0].confidence == Confidence::Low,
        spec_job_findings(job, true)[0].severity == Severity::Unknown,
{
}

/// An empty label sequence yields no finding.
pub proof fn lemma_empty_labels(job: JobDeclModel)
    requires
        job.runs_on == RunsOnModel::Labeled(Seq::empty()),
    ensures
        spec_job_findings(job, true) == Seq::<FindingModel>::empty(),
{
}

/// The rule is a pure function of the job set and the policy flag: any two
/// evaluations of the same inputs yield the same finding sequence, in the
/// same order. There is no hidden state.
pub proof fn lemma_deterministic(
    jobs: Seq<JobDeclModel>,
    pedantic: bool,
    first: Seq<FindingModel>,
    second: Seq<FindingModel>,
)
    requires
        first == spec_workflow_findings(jobs, pedantic),
        second == spec_workflow_findings(jobs, pedantic),
    ensures
        first == second,
{
}

/// Jobs are classified independently: the findings for a concatenation of
/// two job sets are the findings of the first followed by the findings of
/// the second, never interleaved. No job's classification can affect
/// another's, so job sets may be evaluated in any split or in parallel.
pub proof fn lemma_jobs_independent(
    left: Seq<JobDeclModel>,
    right: Seq<JobDeclModel>,
    pedantic: bool,
)
    ensures
        spec_workflow_findings(left + right, pedantic) == spec_workflow_findings(left, pedantic)
            + spec_workflow_findings(right, pedantic),
    decreases right.len(),
{
    if right.len() == 0 {
        assert(left + right =~= left);
        assert(spec_workflow_findings(left, pedantic) + spec_workflow_findings(right, pedantic)
            =~= spec_workflow_findings(left, pedantic));
    } else {
        lemma_jobs_independent(left, right.drop_last(), pedantic);
        assert((left + right).drop_last() =~= left + right.drop_last());
        assert((left + right).last() == right.last());
        assert(spec_workflow_findings(left + right, pedantic) =~= spec_workflow_findings(
            left,
            pedantic,
        ) + spec_workflow_findings(right, pedantic));
    }
}

} // verus!
