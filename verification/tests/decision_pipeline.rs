use assess::bundle::{ArtifactRefusal, ArtifactReport, ArtifactSource, Signal};
use assess::cli::AssessExit;
use assess::output::human::{render_output, render_summary};
use assess::output::{AssessResult, RenderContext, WitnessStatus};
use assess::pipeline::assess;
use assess::policy::loader::PolicySource;
use assess::policy::{
    DecisionBand, LoadedPolicy, PolicyFile, Rule, ThenClause, ToolCondition, ToolMatcher,
};

fn matcher() -> ToolMatcher {
    ToolMatcher {
        outcome: None,
        outcome_in: None,
        refusal: None,
        signals: Vec::new(),
    }
}

fn outcome(tool: &str, value: &str) -> ToolCondition {
    ToolCondition {
        tool: tool.to_owned(),
        matcher: ToolMatcher {
            outcome: Some(value.to_owned()),
            ..matcher()
        },
    }
}

fn signal(name: &str, value: &str) -> Signal {
    Signal {
        name: name.to_owned(),
        value: format!("\"{value}\""),
    }
}

fn rule(name: &str, when: Vec<ToolCondition>, band: DecisionBand, risk: Option<&str>) -> Rule {
    Rule {
        name: name.to_owned(),
        default: false,
        when: Some(when),
        then_clause: ThenClause {
            decision_band: band,
            risk_code: risk.map(str::to_owned),
        },
    }
}

fn default_block() -> Rule {
    Rule {
        name: "default_block".to_owned(),
        default: true,
        when: None,
        then_clause: ThenClause {
            decision_band: DecisionBand::Block,
            risk_code: Some("UNHANDLED_CONDITION".to_owned()),
        },
    }
}

/// The monthly loan tape reconciliation policy.
fn loan_tape() -> LoadedPolicy {
    let rvl_changed = ToolCondition {
        tool: "rvl".to_owned(),
        matcher: ToolMatcher {
            outcome_in: Some(vec!["REAL_CHANGE".to_owned(), "NO_REAL_CHANGE".to_owned()]),
            ..matcher()
        },
    };
    let shape_partial = ToolCondition {
        tool: "shape".to_owned(),
        matcher: ToolMatcher {
            outcome: Some("INCOMPATIBLE".to_owned()),
            signals: vec![signal("compatibility_band", "PARTIAL")],
            ..matcher()
        },
    };
    let rvl_diffuse = ToolCondition {
        tool: "rvl".to_owned(),
        matcher: ToolMatcher {
            refusal: Some("E_DIFFUSE".to_owned()),
            ..matcher()
        },
    };
    LoadedPolicy {
        policy: PolicyFile {
            schema_version: 1,
            policy_id: "loan_tape.monthly.v1".to_owned(),
            policy_version: 1,
            description: Some("Monthly loan tape reconciliation policy".to_owned()),
            requires: vec!["shape".to_owned(), "rvl".to_owned(), "verify".to_owned()],
            rules: vec![
                rule(
                    "clean_reconciliation",
                    vec![
                        outcome("shape", "COMPATIBLE"),
                        rvl_changed.clone(),
                        outcome("verify", "PASS"),
                    ],
                    DecisionBand::Proceed,
                    None,
                ),
                rule(
                    "partial_overlap_acceptable",
                    vec![shape_partial, rvl_changed, outcome("verify", "PASS")],
                    DecisionBand::ProceedWithRisk,
                    Some("PARTIAL_SCHEMA_OVERLAP"),
                ),
                rule(
                    "diffuse_requires_review",
                    vec![
                        outcome("shape", "COMPATIBLE"),
                        rvl_diffuse,
                        outcome("verify", "PASS"),
                    ],
                    DecisionBand::Escalate,
                    Some("DIFFUSE_CHANGE"),
                ),
                rule(
                    "verify_fail_requires_review",
                    vec![outcome("verify", "FAIL")],
                    DecisionBand::Escalate,
                    Some("VERIFY_FAIL"),
                ),
                default_block(),
            ],
        },
        sha256: "sha256:0123".to_owned(),
        source: PolicySource::Builtin("test".to_owned()),
    }
}

fn default_policy() -> LoadedPolicy {
    LoadedPolicy {
        policy: PolicyFile {
            schema_version: 1,
            policy_id: "default.v0".to_owned(),
            policy_version: 1,
            description: None,
            requires: Vec::new(),
            rules: vec![default_block()],
        },
        sha256: "sha256:4567".to_owned(),
        source: PolicySource::Builtin("test".to_owned()),
    }
}

fn artifact(path: &str, tool: &str, outcome: Option<&str>) -> ArtifactSource {
    ArtifactSource {
        artifact: path.to_owned(),
        report: Ok(ArtifactReport {
            tool: Some(tool.to_owned()),
            version: format!("{tool}.report.v1"),
            outcome: outcome.map(str::to_owned),
            refusal: None,
            policy_signals: Vec::new(),
        }),
    }
}

fn clean_bundle() -> Vec<ArtifactSource> {
    vec![
        artifact("shape.json", "shape", Some("COMPATIBLE")),
        artifact("rvl.json", "rvl", Some("REAL_CHANGE")),
        artifact("verify.json", "verify", Some("PASS")),
    ]
}

fn decision(result: &AssessResult) -> &assess::output::AssessOutput {
    match result {
        AssessResult::Decision(output) => output,
        AssessResult::Refusal(envelope) => panic!("expected a decision, got {envelope:?}"),
    }
}

fn refusal_code(result: &AssessResult) -> &str {
    match result {
        AssessResult::Refusal(envelope) => {
            assert_eq!(envelope.decision_band, None);
            envelope.refusal.code.as_str()
        }
        AssessResult::Decision(output) => panic!("expected a refusal, got {output:?}"),
    }
}

#[test]
fn full_pipeline_proceed_human() {
    let (result, exit) = assess(clean_bundle(), &loan_tape());
    assert_eq!(exit.code(), 0);
    let text = render_output(decision(&result));
    assert!(text.contains("PROCEED"));
    assert!(text.contains("clean_reconciliation"));
}

#[test]
fn pipeline_full_pipeline_proceed_summary() {
    let (result, exit) = assess(clean_bundle(), &loan_tape());
    assert_eq!(exit, AssessExit::Proceed);
    assert_eq!(
        render_summary(
            &result,
            RenderContext::with_witness_status(WitnessStatus::Disabled)
        ),
        "tool=assess version=assess.v0 outcome=DECISION decision=PROCEED matched_rule=clean_reconciliation risk_code=- required_tools=shape,rvl,verify observed_tools=shape,rvl,verify witness=disabled refusal_code=-"
    );
}

#[test]
fn pipeline_default_block_exit_code_2() {
    let (result, exit) = assess(
        vec![artifact("verify.json", "verify", Some("PASS"))],
        &default_policy(),
    );
    assert_eq!(exit.code(), 2);
    let output = decision(&result);
    assert_eq!(output.decision_band, "BLOCK");
    assert_eq!(output.matched_rule, "default_block");
}

#[test]
fn pipeline_proceed_with_risk_exit_code_1() {
    let mut sources = clean_bundle();
    sources[0] = ArtifactSource {
        artifact: "shape.json".to_owned(),
        report: Ok(ArtifactReport {
            tool: Some("shape".to_owned()),
            version: "shape.report.v1".to_owned(),
            outcome: Some("INCOMPATIBLE".to_owned()),
            refusal: None,
            policy_signals: vec![signal("compatibility_band", "PARTIAL")],
        }),
    };
    let (result, exit) = assess(sources, &loan_tape());
    assert_eq!(exit.code(), 1);
    let output = decision(&result);
    assert_eq!(output.decision_band, "PROCEED_WITH_RISK");
    assert_eq!(output.matched_rule, "partial_overlap_acceptable");
    assert_eq!(output.risk_factors[0].code, "PARTIAL_SCHEMA_OVERLAP");
}

#[test]
fn pipeline_escalate_exit_code_1() {
    let mut sources = clean_bundle();
    sources[1] = ArtifactSource {
        artifact: "rvl.json".to_owned(),
        report: Ok(ArtifactReport {
            tool: Some("rvl".to_owned()),
            version: "rvl.report.v1".to_owned(),
            outcome: None,
            refusal: Some(ArtifactRefusal {
                code: "E_DIFFUSE".to_owned(),
                message: Some("diffuse change detected".to_owned()),
            }),
            policy_signals: Vec::new(),
        }),
    };
    let (result, exit) = assess(sources, &loan_tape());
    assert_eq!(exit.code(), 1);
    let output = decision(&result);
    assert_eq!(output.decision_band, "ESCALATE");
    assert_eq!(output.matched_rule, "diffuse_requires_review");
}

#[test]
fn incomplete_basis_refusal() {
    let (result, exit) = assess(
        vec![artifact("verify.json", "verify", Some("PASS"))],
        &loan_tape(),
    );
    assert_eq!(exit.code(), 2);
    assert_eq!(refusal_code(&result), "E_INCOMPLETE_BASIS");
    match &result {
        AssessResult::Refusal(envelope) => assert_eq!(
            envelope.refusal.message,
            "incomplete basis: missing tools [\"shape\", \"rvl\"]"
        ),
        _ => unreachable!(),
    }
}

#[test]
fn pipeline_bad_artifact_refusal() {
    let garbage = ArtifactSource {
        artifact: "garbage.json".to_owned(),
        report: Err("failed to parse artifact JSON: expected value at line 1 column 1".to_owned()),
    };
    let (result, exit) = assess(vec![garbage], &default_policy());
    assert_eq!(exit.code(), 2);
    assert_eq!(refusal_code(&result), "E_BAD_ARTIFACT");
    match &result {
        AssessResult::Refusal(envelope) => assert_eq!(
            envelope.refusal.message,
            "invalid artifact garbage.json: failed to parse artifact JSON: expected value at line 1 column 1"
        ),
        _ => unreachable!(),
    }
}

#[test]
fn duplicate_tools_are_refused() {
    let mut sources = clean_bundle();
    sources.push(artifact("verify-again.json", "verify", Some("FAIL")));
    let (result, exit) = assess(sources, &loan_tape());
    assert_eq!(exit, AssessExit::Stop);
    assert_eq!(refusal_code(&result), "E_DUPLICATE_TOOL");
    match &result {
        AssessResult::Refusal(envelope) => assert_eq!(
            envelope.refusal.message,
            "duplicate canonical tool `verify` for artifacts verify.json and verify-again.json"
        ),
        _ => unreachable!(),
    }
}

#[test]
fn compiled_constraints_are_refused_with_guidance() {
    let constraints = ArtifactSource {
        artifact: "constraints.verify.json".to_owned(),
        report: Ok(ArtifactReport {
            tool: None,
            version: "verify.constraint.v1".to_owned(),
            outcome: None,
            refusal: None,
            policy_signals: Vec::new(),
        }),
    };
    let (result, _) = assess(vec![constraints], &default_policy());
    match result {
        AssessResult::Refusal(envelope) => {
            assert_eq!(envelope.refusal.code, "E_BAD_ARTIFACT");
            assert_eq!(envelope.refusal.detail.len(), 3);
            assert!(
                envelope
                    .refusal
                    .next_command
                    .unwrap()
                    .starts_with("verify run constraints.verify.json ")
            );
        }
        AssessResult::Decision(_) => panic!("expected a refusal"),
    }
}

#[test]
fn unmatched_bundle_without_default_is_missing_rule() {
    let mut policy = loan_tape();
    policy.policy.rules.pop();
    let mut sources = clean_bundle();
    sources[2] = artifact("verify.json", "verify", Some("WARN"));
    let (result, exit) = assess(sources, &policy);
    assert_eq!(exit.code(), 2);
    assert_eq!(refusal_code(&result), "E_MISSING_RULE");
}

#[test]
fn invalid_policies_are_refused_before_artifacts_are_read() {
    let mut policy = loan_tape();
    policy.policy.rules.reverse();
    let garbage = ArtifactSource {
        artifact: "garbage.json".to_owned(),
        report: Err("unreadable".to_owned()),
    };
    let (result, exit) = assess(vec![garbage], &policy);
    assert_eq!(exit.code(), 2);
    assert_eq!(refusal_code(&result), "E_BAD_POLICY");
    match &result {
        AssessResult::Refusal(envelope) => {
            assert_eq!(envelope.refusal.message, "policy default rule must be last")
        }
        _ => unreachable!(),
    }
}

#[test]
fn epistemic_basis_includes_all_artifacts() {
    let (result, _) = assess(clean_bundle(), &loan_tape());
    let output = decision(&result);
    assert_eq!(output.epistemic_basis.len(), 3);
    let tools: Vec<&str> = output
        .epistemic_basis
        .iter()
        .map(|entry| entry.tool.as_str())
        .collect();
    assert_eq!(tools, vec!["shape", "rvl", "verify"]);
    assert_eq!(output.policy.id, "loan_tape.monthly.v1");
    assert_eq!(output.policy.sha256, "sha256:0123");
}

#[test]
fn assessment_is_deterministic() {
    let (first, _) = assess(clean_bundle(), &loan_tape());
    let (second, _) = assess(clean_bundle(), &loan_tape());
    assert_eq!(first, second);
}
