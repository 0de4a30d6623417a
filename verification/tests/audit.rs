use runner_audit::expr::is_expression;
use runner_audit::finding::Confidence;
use runner_audit::finding::Finding;
use runner_audit::finding::FindingError;
use runner_audit::finding::Location;
use runner_audit::finding::Severity;
use runner_audit::rule::AuditConfig;
use runner_audit::rule::SelfHostedRunner;
use runner_audit::runner::JobDecl;
use runner_audit::runner::RunsOn;

fn labeled_job(key: &str, labels: &[&str]) -> JobDecl {
    JobDecl {
        key: key.to_owned(),
        runs_on: RunsOn::Labeled(labels.iter().map(|l| (*l).to_owned()).collect()),
    }
}

fn grouped_job(key: &str, group: Option<&str>, labels: &[&str]) -> JobDecl {
    JobDecl {
        key: key.to_owned(),
        runs_on: RunsOn::Grouped {
            group: group.map(|g| g.to_owned()),
            labels: labels.iter().map(|l| (*l).to_owned()).collect(),
        },
    }
}

fn pedantic_rule() -> SelfHostedRunner {
    SelfHostedRunner::new(AuditConfig { pedantic: true })
}

#[test]
fn rule_identity() {
    assert_eq!(SelfHostedRunner::ident(), "self-hosted-runner");
    assert_eq!(SelfHostedRunner::desc(), "runs on a self-hosted runner");
}

#[test]
fn policy_gate_off_emits_nothing() {
    let rule = SelfHostedRunner::new(AuditConfig { pedantic: false });
    let jobs = vec![
        labeled_job("one", &["self-hosted"]),
        grouped_job("two", Some("pool"), &[]),
        labeled_job("three", &["${{ matrix.os }}"]),
    ];
    let findings = rule.audit(&jobs).unwrap();
    assert!(findings.is_empty());
}

#[test]
fn self_hosted_single_label() {
    let rule = pedantic_rule();
    let findings = rule.audit_job(&labeled_job("build", &["self-hosted"])).unwrap();
    assert_eq!(findings.len(), 1);
    let f = &findings[0];
    assert_eq!(f.ident, "self-hosted-runner");
    assert_eq!(f.confidence, Confidence::High);
    assert_eq!(f.severity, Severity::Unknown);
    assert_eq!(f.locations.len(), 1);
    assert_eq!(f.locations[0].keys, vec!["build".to_owned(), "runs-on".to_owned()]);
    assert_eq!(f.locations[0].annotation, "self-hosted runner used here");
}

#[test]
fn self_hosted_with_specifiers() {
    let rule = pedantic_rule();
    let findings = rule
        .audit_job(&labeled_job("build", &["self-hosted", "linux", "x64"]))
        .unwrap();
    assert_eq!(findings.len(), 1);
    assert_eq!(findings[0].confidence, Confidence::High);
}

#[test]
fn managed_literal_label_is_silent() {
    let rule = pedantic_rule();
    let findings = rule.audit_job(&labeled_job("build", &["ubuntu-latest"])).unwrap();
    assert!(findings.is_empty());
}

#[test]
fn self_hosted_not_first_is_silent() {
    // Only the first label is load-bearing: by platform convention the
    // marker always comes first, so it is not searched for elsewhere.
    let rule = pedantic_rule();
    let findings = rule
        .audit_job(&labeled_job("build", &["linux", "self-hosted"]))
        .unwrap();
    assert!(findings.is_empty());
}

#[test]
fn expression_label_flags_low() {
    let rule = pedantic_rule();
    let findings = rule
        .audit_job(&labeled_job("build", &["${{ matrix.os }}"]))
        .unwrap();
    assert_eq!(findings.len(), 1);
    let f = &findings[0];
    assert_eq!(f.confidence, Confidence::Low);
    assert_eq!(f.severity, Severity::Unknown);
    assert_eq!(f.locations[0].annotation, "expression may expand into a self-hosted runner");
}

#[test]
fn delimiter_containing_literal_is_silent() {
    // A literal that merely contains delimiter characters is not an
    // expression.
    let rule = pedantic_rule();
    let findings = rule
        .audit_job(&labeled_job("build", &["runner-${{ a }}-pool"]))
        .unwrap();
    assert!(findings.is_empty());
}

#[test]
fn group_flags_low() {
    let rule = pedantic_rule();
    let findings = rule
        .audit_job(&grouped_job("deploy", Some("larger-runners"), &[]))
        .unwrap();
    assert_eq!(findings.len(), 1);
    let f = &findings[0];
    assert_eq!(f.confidence, Confidence::Low);
    assert_eq!(f.severity, Severity::Unknown);
    assert_eq!(f.locations[0].keys, vec!["deploy".to_owned(), "runs-on".to_owned()]);
    assert_eq!(f.locations[0].annotation, "runner group implies self-hosted runner");
}

#[test]
fn group_without_name_still_flags() {
    let rule = pedantic_rule();
    let findings = rule
        .audit_job(&grouped_job("deploy", None, &["ubuntu-latest"]))
        .unwrap();
    assert_eq!(findings.len(), 1);
    assert_eq!(findings[0].confidence, Confidence::Low);
}

#[test]
fn empty_label_list_is_silent() {
    let rule = pedantic_rule();
    let findings = rule.audit_job(&labeled_job("build", &[])).unwrap();
    assert!(findings.is_empty());
}

#[test]
fn audit_walks_jobs_in_order() {
    let rule = pedantic_rule();
    let jobs = vec![
        labeled_job("first", &["self-hosted"]),
        labeled_job("second", &["ubuntu-latest"]),
        grouped_job("third", Some("pool"), &[]),
    ];
    let findings = rule.audit(&jobs).unwrap();
    assert_eq!(findings.len(), 2);
    assert_eq!(findings[0].confidence, Confidence::High);
    assert_eq!(findings[0].locations[0].keys[0], "first");
    assert_eq!(findings[1].confidence, Confidence::Low);
    assert_eq!(findings[1].locations[0].keys[0], "third");
}

#[test]
fn audit_is_idempotent() {
    let rule = pedantic_rule();
    let jobs = vec![
        labeled_job("one", &["self-hosted", "linux"]),
        labeled_job("two", &["${{ needs.pick.outputs.runner }}"]),
        grouped_job("three", Some("pool"), &["x64"]),
    ];
    let first = rule.audit(&jobs).unwrap();
    let second = rule.audit(&jobs).unwrap();
    assert_eq!(first, second);
}

#[test]
fn jobs_are_classified_independently() {
    let rule = pedantic_rule();
    let one = labeled_job("one", &["self-hosted"]);
    let two = grouped_job("two", Some("pool"), &[]);
    let together = rule.audit(&vec![one.clone(), two.clone()]).unwrap();
    let mut split = rule.audit(&vec![one]).unwrap();
    split.extend(rule.audit(&vec![two]).unwrap());
    assert_eq!(together, split);
}

#[test]
fn expression_detector_accepts_whole_string_expressions() {
    assert!(is_expression("${{ matrix.os }}"));
    assert!(is_expression("${{matrix.os}}"));
    assert!(is_expression("${{}}"));
    assert!(is_expression("${{ needs.pick.outputs.runner }}"));
}

#[test]
fn expression_detector_rejects_literals_and_partial_matches() {
    assert!(!is_expression("self-hosted"));
    assert!(!is_expression("ubuntu-latest"));
    assert!(!is_expression(""));
    assert!(!is_expression("${{"));
    assert!(!is_expression("}}"));
    assert!(!is_expression("${{}"));
    assert!(!is_expression("${{ unclosed"));
    assert!(!is_expression("unopened }}"));
    assert!(!is_expression("a${{ x }}"));
    assert!(!is_expression("${{ x }}b"));
    assert!(!is_expression(" ${{ x }} "));
}

#[test]
fn confidence_levels_are_ordered() {
    assert_eq!(Confidence::Low.rank(), 0);
    assert_eq!(Confidence::Medium.rank(), 1);
    assert_eq!(Confidence::High.rank(), 2);
    assert!(Confidence::Low.lt(Confidence::Medium));
    assert!(Confidence::Medium.lt(Confidence::High));
    assert!(Confidence::Low.lt(Confidence::High));
    assert!(!Confidence::High.lt(Confidence::Low));
    assert!(!Confidence::Medium.lt(Confidence::Medium));
}

#[test]
fn finding_build_requires_a_location() {
    let err = Finding::build(
        "self-hosted-runner".to_owned(),
        Confidence::High,
        Severity::Unknown,
        Vec::new(),
    )
    .unwrap_err();
    assert_eq!(err, FindingError::NoLocations);
}

#[test]
fn finding_build_keeps_its_parts() {
    let loc = Location {
        keys: vec!["job".to_owned(), "runs-on".to_owned()],
        annotation: "self-hosted runner used here".to_owned(),
    };
    let finding = Finding::build(
        "self-hosted-runner".to_owned(),
        Confidence::High,
        Severity::Unknown,
        vec![loc.clone()],
    )
    .unwrap();
    assert_eq!(finding.ident, "self-hosted-runner");
    assert_eq!(finding.confidence, Confidence::High);
    assert_eq!(finding.severity, Severity::Unknown);
    assert_eq!(finding.locations, vec![loc]);
}
