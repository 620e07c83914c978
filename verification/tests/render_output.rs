use assess::bundle::{ArtifactRefusal, ArtifactReport, ArtifactSource, load};
use assess::evaluate::Decision;
use assess::output::human::{render_output, render_refusal, render_summary, render_summary_tsv};
use assess::output::{
    AssessResult, RenderContext, RenderMode, WitnessStatus, build_output, render,
    render_with_context,
};
use assess::policy::loader::PolicySource;
use assess::policy::{DecisionBand, LoadedPolicy, PolicyFile};
use assess::refusal::{RefusalCode, RefusalEnvelope};

fn report(tool: &str, outcome: Option<&str>) -> ArtifactReport {
    ArtifactReport {
        tool: Some(tool.to_owned()),
        version: format!("{tool}.report.v1"),
        outcome: outcome.map(str::to_owned),
        refusal: None,
        policy_signals: Vec::new(),
    }
}

fn loaded(requires: &[&str]) -> LoadedPolicy {
    LoadedPolicy {
        policy: PolicyFile {
            schema_version: 1,
            policy_id: "loan_tape.monthly.v1".to_owned(),
            policy_version: 1,
            description: None,
            requires: requires.iter().map(|t| (*t).to_owned()).collect(),
            rules: Vec::new(),
        },
        sha256: "sha256:abc".to_owned(),
        source: PolicySource::Builtin("test".to_owned()),
    }
}

fn escalate_output() -> assess::output::AssessOutput {
    let rvl = ArtifactReport {
        refusal: Some(ArtifactRefusal {
            code: "E_DIFFUSE".to_owned(),
            message: None,
        }),
        ..report("rvl", None)
    };
    let bundle = load(vec![
        ArtifactSource {
            artifact: "verify.json".to_owned(),
            report: Ok(report("verify", Some("PASS"))),
        },
        ArtifactSource {
            artifact: "benchmark.json".to_owned(),
            report: Ok(report("benchmark", Some("HIGH"))),
        },
        ArtifactSource {
            artifact: "rvl.json".to_owned(),
            report: Ok(rvl),
        },
        ArtifactSource {
            artifact: "shape.json".to_owned(),
            report: Ok(report("shape", Some("COMPATIBLE"))),
        },
    ])
    .unwrap();
    let decision = Decision {
        decision_band: DecisionBand::Escalate,
        matched_rule: "diffuse_requires_review".to_owned(),
        risk_code: Some("DIFFUSE_CHANGE".to_owned()),
    };
    build_output(&decision, &bundle, &loaded(&["shape", "rvl", "verify"]))
}

#[test]
fn output_lists_required_tools_first_then_the_rest() {
    let output = escalate_output();
    assert_eq!(output.tool, "assess");
    assert_eq!(output.version, "assess.v0");
    assert_eq!(output.decision_band, "ESCALATE");
    assert_eq!(output.policy.id, "loan_tape.monthly.v1");
    assert_eq!(output.policy.sha256, "sha256:abc");
    assert_eq!(output.required_tools, vec!["shape", "rvl", "verify"]);
    assert_eq!(
        output.observed_tools,
        vec!["shape", "rvl", "verify", "benchmark"]
    );
    let basis_tools: Vec<&str> = output
        .epistemic_basis
        .iter()
        .map(|entry| entry.tool.as_str())
        .collect();
    assert_eq!(basis_tools, vec!["shape", "rvl", "verify", "benchmark"]);
    assert_eq!(output.risk_factors.len(), 1);
    assert_eq!(output.risk_factors[0].code, "DIFFUSE_CHANGE");
    assert_eq!(output.risk_factors[0].source_tool, None);
}

#[test]
fn human_output_lists_policy_rule_risks_and_basis() {
    let text = render_output(&escalate_output());
    assert_eq!(
        text,
        "ASSESS ESCALATE\n\
         policy: loan_tape.monthly.v1 v1 [sha256:abc]\n\
         matched_rule: diffuse_requires_review\n\
         risk: DIFFUSE_CHANGE\n\
         required_tools: shape, rvl, verify\n\
         observed_tools: shape, rvl, verify, benchmark\n\
         basis: shape (shape.json) -> COMPATIBLE\n\
         basis: rvl (rvl.json) -> refusal E_DIFFUSE\n\
         basis: verify (verify.json) -> PASS\n\
         basis: benchmark (benchmark.json) -> HIGH\n"
    );
}

#[test]
fn summary_renders_one_line_and_tsv_two() {
    let result = AssessResult::Decision(escalate_output());
    let context = RenderContext::with_witness_status(WitnessStatus::Written);
    assert_eq!(
        render_summary(&result, context),
        "tool=assess version=assess.v0 outcome=DECISION decision=ESCALATE \
         matched_rule=diffuse_requires_review risk_code=DIFFUSE_CHANGE \
         required_tools=shape,rvl,verify observed_tools=shape,rvl,verify,benchmark \
         witness=written refusal_code=-"
    );
    assert_eq!(
        render_summary_tsv(&result, context),
        "tool\tversion\toutcome\tdecision\tmatched_rule\trisk_code\trequired_tools\tobserved_tools\twitness\trefusal_code\n\
         assess\tassess.v0\tDECISION\tESCALATE\tdiffuse_requires_review\tDIFFUSE_CHANGE\tshape,rvl,verify\tshape,rvl,verify,benchmark\twritten\t-"
    );
}

#[test]
fn tsv_cells_have_tabs_and_line_breaks_replaced() {
    let envelope = RefusalEnvelope::new(RefusalCode::BadPolicy, "bad");
    let mut envelope = envelope;
    envelope.tool = "as\tse\nss".to_owned();
    let text = render_summary_tsv(&AssessResult::Refusal(envelope), RenderContext::default());
    let rows: Vec<&str> = text.split('\n').collect();
    assert_eq!(rows.len(), 2);
    assert!(rows[1].starts_with("as se ss\tassess.v0\tREFUSAL\t-"));
    assert!(rows[1].ends_with("\tnot_written\tE_BAD_POLICY"));
}

#[test]
fn refusals_render_code_message_and_next_command() {
    let envelope = RefusalEnvelope::new(RefusalCode::IncompleteBasis, "missing shape")
        .with_next_command("assess shape.json --policy p.yaml".to_owned());
    assert_eq!(
        render_refusal(&envelope),
        "ASSESS REFUSAL\ncode: E_INCOMPLETE_BASIS\nmessage: missing shape\nnext: assess shape.json --policy p.yaml\n"
    );
    let plain = RefusalEnvelope::new(RefusalCode::UnknownPolicy, "no such policy");
    assert_eq!(
        render_refusal(&plain),
        "ASSESS REFUSAL\ncode: E_UNKNOWN_POLICY\nmessage: no such policy\n"
    );
    assert_eq!(plain.decision_band, None);
    assert_eq!(plain.tool, "assess");
    assert_eq!(plain.version, "assess.v0");
    assert!(plain.refusal.detail.is_empty());
}

#[test]
fn render_modes_dispatch_and_json_is_left_to_the_caller() {
    let result = AssessResult::Refusal(RefusalEnvelope::new(RefusalCode::MissingRule, "none"));
    assert_eq!(render(&result, RenderMode::Json), None);
    assert_eq!(
        render(&result, RenderMode::Human).as_deref(),
        Some("ASSESS REFUSAL\ncode: E_MISSING_RULE\nmessage: none\n")
    );
    assert_eq!(
        render(&result, RenderMode::Summary).as_deref(),
        Some(
            "tool=assess version=assess.v0 outcome=REFUSAL decision=- matched_rule=- risk_code=- \
             required_tools=- observed_tools=- witness=not_written refusal_code=E_MISSING_RULE"
        )
    );
    assert_eq!(
        render_with_context(
            &result,
            RenderMode::Summary,
            RenderContext::with_witness_status(WitnessStatus::Disabled)
        )
        .unwrap()
        .contains("witness=disabled"),
        true
    );
    assert_eq!(RenderContext::default().witness_status, WitnessStatus::NotWritten);
    assert_eq!(WitnessStatus::Written.as_str(), "written");
}

#[test]
fn empty_lists_render_as_placeholders_in_summaries() {
    let bundle = load(Vec::new()).unwrap();
    let decision = Decision {
        decision_band: DecisionBand::Proceed,
        matched_rule: "clean".to_owned(),
        risk_code: None,
    };
    let output = build_output(&decision, &bundle, &loaded(&[]));
    let line = render_summary(&AssessResult::Decision(output), RenderContext::default());
    assert_eq!(
        line,
        "tool=assess version=assess.v0 outcome=DECISION decision=PROCEED matched_rule=clean \
         risk_code=- required_tools=- observed_tools=- witness=not_written refusal_code=-"
    );
}
