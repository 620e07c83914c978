use std::collections::BTreeSet;

use assess::cli::AssessExit;
use assess::policy::DecisionBand;
use assess::refusal::RefusalCode;
use assess::{ASSESS_SCHEMA_JSON, OPERATOR_JSON, POLICY_SCHEMA_JSON};
use serde_json::Value;

fn strings(value: &Value) -> Vec<String> {
    value
        .as_array()
        .expect("expected an array")
        .iter()
        .map(|entry| entry.as_str().expect("expected a string").to_owned())
        .collect()
}

#[test]
fn operator_manifest_describes_assess_contract() {
    let operator: Value = serde_json::from_str(OPERATOR_JSON).unwrap();

    assert_eq!(operator["schema_version"], "operator.v0");
    assert_eq!(operator["name"], "assess");
    assert_eq!(operator["version"], assess::PACKAGE_VERSION);
    assert_eq!(
        strings(&operator["pipeline"]["upstream"]),
        vec!["shape", "rvl", "verify", "benchmark"]
    );
    assert_eq!(strings(&operator["pipeline"]["downstream"]), vec!["pack"]);

    let usage = strings(&operator["invocation"]["usage"]);
    assert!(usage.contains(&"assess <ARTIFACT>... --policy <POLICY> [OPTIONS]".to_owned()));
    assert!(usage.contains(&"assess <ARTIFACT>... --policy-id <ID> [OPTIONS]".to_owned()));
    assert!(usage.contains(&"assess witness <query|last|count> [OPTIONS]".to_owned()));

    assert_eq!(operator["exit_codes"]["0"]["meaning"], "PROCEED");
    assert_eq!(
        operator["exit_codes"]["1"]["meaning"],
        "PROCEED_WITH_RISK or ESCALATE"
    );
    assert_eq!(
        operator["exit_codes"]["2"]["meaning"],
        "BLOCK / REFUSAL / CLI error"
    );

    assert_eq!(
        AssessExit::from_decision_band(DecisionBand::Proceed).code(),
        0
    );
    assert_eq!(
        AssessExit::from_decision_band(DecisionBand::ProceedWithRisk).code(),
        1
    );
    assert_eq!(
        AssessExit::from_decision_band(DecisionBand::Escalate).code(),
        1
    );
    assert_eq!(
        AssessExit::from_decision_band(DecisionBand::Block).code(),
        2
    );

    let refusal_codes = operator["refusals"]
        .as_array()
        .expect("operator refusals should be an array")
        .iter()
        .map(|entry| {
            entry["code"]
                .as_str()
                .expect("refusal code should be a string")
                .to_owned()
        })
        .collect::<BTreeSet<_>>();
    let expected_refusal_codes = RefusalCode::ALL
        .iter()
        .map(|code| code.as_str().to_owned())
        .collect::<BTreeSet<_>>();
    assert_eq!(refusal_codes, expected_refusal_codes);

    assert_eq!(
        strings(&operator["capabilities"]["formats"]),
        vec!["human", "json", "summary", "summary-tsv"]
    );
    assert_eq!(operator["options"][3]["flag"], "--render");
    assert_eq!(
        strings(&operator["options"][3]["values"]),
        vec!["summary", "summary-tsv"]
    );
    assert_eq!(operator["subcommands"][0]["name"], "witness");
    assert_eq!(operator["subcommands"][0]["status"], "implemented");
    assert_eq!(
        operator["subcommands"][0]["current_runtime_behavior"]["status"],
        "implemented"
    );
    assert_eq!(
        strings(&operator["notes"]),
        vec![
            "Metadata surfaces (--describe, --schema, --version) are implemented.",
            "Decision execution and witness execution are implemented.",
            "Run mode supports compact summary and TSV summary render surfaces via --render."
        ]
    );
}

#[test]
fn embedded_schemas_are_present() {
    assert!(ASSESS_SCHEMA_JSON.contains("\"title\": \"assess.v0\""));
    assert!(POLICY_SCHEMA_JSON.contains("\"title\": \"policy.v0\""));
}

#[test]
fn embedded_documents_parse_and_declare_the_doctor() {
    let operator: Value = serde_json::from_str(OPERATOR_JSON).unwrap();
    assert_eq!(operator["invocation"]["output_schema"], "assess.v0");
    assert!(
        operator["subcommands"]
            .as_array()
            .unwrap()
            .iter()
            .any(|entry| entry["name"] == "doctor"
                && entry["status"] == "implemented"
                && entry["read_only"] == true)
    );
    let _: Value = serde_json::from_str(ASSESS_SCHEMA_JSON).unwrap();
    let _: Value = serde_json::from_str(POLICY_SCHEMA_JSON).unwrap();
}

#[test]
fn refusal_code_set_matches_plan_count() {
    let labels: Vec<&str> = RefusalCode::ALL
        .into_iter()
        .map(RefusalCode::as_str)
        .collect();
    assert_eq!(labels.len(), 7);
    assert!(labels.contains(&"E_BAD_POLICY"));
    assert!(labels.contains(&"E_MISSING_RULE"));
}

#[test]
fn decision_band_strings_match_plan_contract() {
    assert_eq!(DecisionBand::Proceed.as_str(), "PROCEED");
    assert_eq!(DecisionBand::ProceedWithRisk.as_str(), "PROCEED_WITH_RISK");
    assert_eq!(DecisionBand::Escalate.as_str(), "ESCALATE");
    assert_eq!(DecisionBand::Block.as_str(), "BLOCK");
}
