use assess::bundle::{ArtifactRefusal, ArtifactReport, ArtifactSource, Signal};
use assess::cli::{Cli, Command, PolicySelector, RunRenderMode, WitnessArgs, WitnessCommand};
use assess::cli::{WitnessCount, WitnessLast, WitnessQuery};
use assess::doctor::{DoctorReports, HealthFacts};
use assess::output::AssessResult;
use assess::policy::loader::{
    PolicyDocument, PolicySource, PolicyText, builtin_policies, content_hash, load_document,
    resolve_policy_id, search_documents,
};
use assess::policy::{
    DecisionBand, LoadedPolicy, PolicyError, PolicyFile, Rule, ThenClause, ToolCondition,
    ToolMatcher,
};
use assess::refusal::RefusalCode;
use assess::run::{Host, JsonDocument};
use assess::witness::WitnessRecord;
use assess::witness::query::{parse_filter, render_record};
use assess::{AssessError, Execution, Surface, execute};
use serde_json::Value;
use sha2::{Digest, Sha256};

fn bare() -> Cli {
    Cli {
        artifacts: Vec::new(),
        policy: None,
        policy_id: None,
        json: false,
        render: None,
        no_witness: false,
        describe: false,
        schema: false,
        version: false,
        robot_triage: false,
        command: None,
    }
}

fn surface() -> Surface {
    Surface {
        help: String::new(),
        doctor: DoctorReports {
            facts: HealthFacts {
                manifest_embedded: true,
                manifest_version: assess::PACKAGE_VERSION.to_owned(),
                output_schema: "assess.v0".to_owned(),
                doctor_declared: true,
                assess_schema_embedded: true,
                policy_schema_embedded: true,
            },
            health_json: String::new(),
            capabilities_json: String::new(),
            triage_json: String::new(),
        },
    }
}

fn record_json(record: WitnessRecord) -> Value {
    let mut map = serde_json::Map::new();
    map.insert("tool".to_owned(), Value::String(record.tool));
    map.insert(
        "decision_band".to_owned(),
        record.decision_band.map(Value::String).unwrap_or(Value::Null),
    );
    map.insert(
        "inputs".to_owned(),
        Value::Array(record.inputs.into_iter().map(Value::String).collect()),
    );
    Value::Object(map)
}

/// A small JSON encoding of the documents, enough for these tests.
fn to_json(document: JsonDocument) -> String {
    let value = match document {
        JsonDocument::Result(AssessResult::Decision(output)) => {
            let mut map = serde_json::Map::new();
            map.insert("tool".to_owned(), Value::String(output.tool));
            map.insert("decision_band".to_owned(), Value::String(output.decision_band));
            map.insert("matched_rule".to_owned(), Value::String(output.matched_rule));
            map.insert("policy_sha256".to_owned(), Value::String(output.policy.sha256));
            map.insert("refusal".to_owned(), Value::Null);
            Value::Object(map)
        }
        JsonDocument::Result(AssessResult::Refusal(envelope)) => {
            let mut refusal = serde_json::Map::new();
            refusal.insert("code".to_owned(), Value::String(envelope.refusal.code));
            let mut map = serde_json::Map::new();
            map.insert("decision_band".to_owned(), Value::Null);
            map.insert("refusal".to_owned(), Value::Object(refusal));
            Value::Object(map)
        }
        JsonDocument::Records(records) => {
            Value::Array(records.into_iter().map(record_json).collect())
        }
        JsonDocument::Record(record) => record.map(record_json).unwrap_or(Value::Null),
        JsonDocument::Count(count) => {
            let mut map = serde_json::Map::new();
            map.insert("count".to_owned(), Value::from(count));
            Value::Object(map)
        }
    };
    value.to_string()
}

fn report(tool: &str, outcome: Option<&str>) -> ArtifactReport {
    ArtifactReport {
        tool: Some(tool.to_owned()),
        version: format!("{tool}.report.v1"),
        outcome: outcome.map(str::to_owned),
        refusal: None,
        policy_signals: Vec::new(),
    }
}

/// The artifacts these tests know, by file name.
fn read_artifacts(names: Vec<String>) -> Vec<ArtifactSource> {
    names
        .into_iter()
        .map(|name| {
            let report = match name.as_str() {
                "shape.json" => Ok(report("shape", Some("COMPATIBLE"))),
                "shape_partial.json" => Ok(ArtifactReport {
                    policy_signals: vec![Signal {
                        name: "compatibility_band".to_owned(),
                        value: "\"PARTIAL\"".to_owned(),
                    }],
                    ..report("shape", Some("INCOMPATIBLE"))
                }),
                "rvl.json" => Ok(report("rvl", Some("REAL_CHANGE"))),
                "rvl_no_real_change.json" => Ok(report("rvl", Some("NO_REAL_CHANGE"))),
                "rvl_missingness_tolerable.json" => Ok(ArtifactReport {
                    refusal: Some(ArtifactRefusal {
                        code: "E_MISSINGNESS".to_owned(),
                        message: None,
                    }),
                    policy_signals: vec![Signal {
                        name: "missingness_band".to_owned(),
                        value: "\"TOLERABLE\"".to_owned(),
                    }],
                    ..report("rvl", None)
                }),
                "rvl_diffuse.json" => Ok(ArtifactReport {
                    refusal: Some(ArtifactRefusal {
                        code: "E_DIFFUSE".to_owned(),
                        message: None,
                    }),
                    ..report("rvl", None)
                }),
                "verify.json" => Ok(report("verify", Some("PASS"))),
                _ => Err("failed to parse artifact JSON: expected value".to_owned()),
            };
            ArtifactSource {
                artifact: name,
                report,
            }
        })
        .collect()
}

fn outcome(tool: &str, value: &str) -> ToolCondition {
    ToolCondition {
        tool: tool.to_owned(),
        matcher: ToolMatcher {
            outcome: Some(value.to_owned()),
            outcome_in: None,
            refusal: None,
            signals: Vec::new(),
        },
    }
}

fn rule(name: &str, when: Vec<ToolCondition>, band: DecisionBand, risk: Option<&str>) -> Rule {
    Rule {
        name: name.to_owned(),
        default: false,
        when: Some(when),
        then_clause: ThenClause {
            decision_band: band,
            risk_code: risk.map(str::to_owned),
        },
    }
}

fn default_block() -> Rule {
    Rule {
        name: "default_block".to_owned(),
        default: true,
        when: None,
        then_clause: ThenClause {
            decision_band: DecisionBand::Block,
            risk_code: Some("UNHANDLED_CONDITION".to_owned()),
        },
    }
}

fn loan_tape() -> PolicyFile {
    let shape_partial = ToolCondition {
        tool: "shape".to_owned(),
        matcher: ToolMatcher {
            outcome: Some("INCOMPATIBLE".to_owned()),
            outcome_in: None,
            refusal: None,
            signals: vec![Signal {
                name: "compatibility_band".to_owned(),
                value: "\"PARTIAL\"".to_owned(),
            }],
        },
    };
    let rvl_changed = ToolCondition {
        tool: "rvl".to_owned(),
        matcher: ToolMatcher {
            outcome: None,
            outcome_in: Some(vec!["REAL_CHANGE".to_owned(), "NO_REAL_CHANGE".to_owned()]),
            refusal: None,
            signals: Vec::new(),
        },
    };
    let rvl_diffuse = ToolCondition {
        tool: "rvl".to_owned(),
        matcher: ToolMatcher {
            outcome: None,
            outcome_in: None,
            refusal: Some("E_DIFFUSE".to_owned()),
            signals: Vec::new(),
        },
    };
    PolicyFile {
        schema_version: 1,
        policy_id: "loan_tape.monthly.v1".to_owned(),
        policy_version: 1,
        description: None,
        requires: vec!["shape".to_owned(), "rvl".to_owned(), "verify".to_owned()],
        rules: vec![
            rule(
                "clean_reconciliation",
                vec![outcome("shape", "COMPATIBLE"), rvl_changed.clone(), outcome("verify", "PASS")],
                DecisionBand::Proceed,
                None,
            ),
            rule(
                "partial_overlap_acceptable",
                vec![shape_partial, rvl_changed, outcome("verify", "PASS")],
                DecisionBand::ProceedWithRisk,
                Some("PARTIAL_SCHEMA_OVERLAP"),
            ),
            rule(
                "diffuse_requires_review",
                vec![outcome("shape", "COMPATIBLE"), rvl_diffuse, outcome("verify", "PASS")],
                DecisionBand::Escalate,
                Some("DIFFUSE_CHANGE"),
            ),
            default_block(),
        ],
    }
}

fn default_v0() -> PolicyFile {
    PolicyFile {
        schema_version: 1,
        policy_id: "default.v0".to_owned(),
        policy_version: 1,
        description: None,
        requires: Vec::new(),
        rules: vec![default_block()],
    }
}

fn document(source: PolicySource, bytes: &[u8], parsed: Result<PolicyFile, String>) -> PolicyDocument {
    PolicyDocument {
        source,
        content: Ok(PolicyText {
            bytes: bytes.to_vec(),
            parsed,
        }),
    }
}

/// The builtins as already-parsed documents.
fn builtin_documents() -> Vec<PolicyDocument> {
    builtin_policies()
        .into_iter()
        .map(|builtin| {
            let parsed = if builtin.id == "default.v0" {
                default_v0()
            } else {
                loan_tape()
            };
            document(
                PolicySource::Builtin(builtin.id.to_owned()),
                builtin.text.as_bytes(),
                Ok(parsed),
            )
        })
        .collect()
}

fn load_policy(selector: PolicySelector) -> Result<LoadedPolicy, PolicyError> {
    match selector {
        PolicySelector::Id(id) => resolve_policy_id(&id, builtin_documents()),
        PolicySelector::Path(path) => load_document(PolicyDocument {
            source: PolicySource::Path(path),
            content: Err("No such file or directory".to_owned()),
        }),
    }
}

fn ledger() -> Vec<Option<WitnessRecord>> {
    vec![
        Some(
            WitnessRecord::scaffold(vec!["shape.json".to_owned(), "verify.json".to_owned()])
                .with_policy_id("loan_tape.monthly.v1")
                .with_decision_band("ESCALATE")
                .with_timestamp("1"),
        ),
        None,
        Some(
            WitnessRecord::scaffold(vec!["benchmark.json".to_owned()])
                .with_policy_id("other.policy.v1")
                .with_decision_band("BLOCK")
                .with_duration_ms(7)
                .with_timestamp("2"),
        ),
        Some(WitnessRecord {
            tool: "verify".to_owned(),
            ..WitnessRecord::scaffold(Vec::new())
        }),
    ]
}

fn run(cli: Cli) -> Result<Execution, AssessError> {
    let host = Host {
        to_json,
        read_artifacts,
        load_policy,
        append_witness: |record: WitnessRecord| record.tool == "assess",
        read_ledger: || -> Result<Vec<Option<WitnessRecord>>, String> { Ok(ledger()) },
    };
    execute(cli, &surface(), &host)
}

fn decision_cli(artifacts: &[&str], json: bool) -> Cli {
    Cli {
        artifacts: artifacts.iter().map(|a| (*a).to_owned()).collect(),
        policy_id: Some("loan_tape.monthly.v1".to_owned()),
        json,
        no_witness: true,
        ..bare()
    }
}

fn witness(command: WitnessCommand, json: bool) -> Cli {
    Cli {
        json,
        command: Some(Command::Witness(WitnessArgs { command })),
        ..bare()
    }
}

#[test]
fn full_pipeline_proceed_json() {
    let execution = run(decision_cli(&["shape.json", "rvl.json", "verify.json"], true)).unwrap();
    assert_eq!(execution.exit_code, 0);
    let parsed: Value = serde_json::from_str(execution.stdout.trim()).unwrap();
    assert_eq!(parsed["tool"], "assess");
    assert_eq!(parsed["decision_band"], "PROCEED");
    assert_eq!(parsed["matched_rule"], "clean_reconciliation");
    assert!(parsed["policy_sha256"].as_str().unwrap().starts_with("sha256:"));
    assert!(parsed["refusal"].is_null());
}

#[test]
fn full_pipeline_proceed_summary() {
    let execution = run(Cli {
        render: Some(RunRenderMode::Summary),
        ..decision_cli(&["shape.json", "rvl.json", "verify.json"], false)
    })
    .unwrap();
    assert_eq!(execution.exit_code, 0);
    assert_eq!(
        execution.stdout.trim(),
        "tool=assess version=assess.v0 outcome=DECISION decision=PROCEED matched_rule=clean_reconciliation risk_code=- required_tools=shape,rvl,verify observed_tools=shape,rvl,verify witness=disabled refusal_code=-"
    );
}

#[test]
fn proceed_with_risk_exit_code_1() {
    let execution = run(decision_cli(&["shape_partial.json", "rvl.json", "verify.json"], true)).unwrap();
    assert_eq!(execution.exit_code, 1);
    let parsed: Value = serde_json::from_str(execution.stdout.trim()).unwrap();
    assert_eq!(parsed["decision_band"], "PROCEED_WITH_RISK");
    assert_eq!(parsed["matched_rule"], "partial_overlap_acceptable");
}

#[test]
fn escalate_exit_code_1() {
    let execution = run(decision_cli(&["shape.json", "rvl_diffuse.json", "verify.json"], true)).unwrap();
    assert_eq!(execution.exit_code, 1);
    let parsed: Value = serde_json::from_str(execution.stdout.trim()).unwrap();
    assert_eq!(parsed["decision_band"], "ESCALATE");
    assert_eq!(parsed["matched_rule"], "diffuse_requires_review");
}

#[test]
fn default_block_exit_code_2() {
    let execution = run(Cli {
        policy_id: Some("default.v0".to_owned()),
        ..decision_cli(&["verify.json"], true)
    })
    .unwrap();
    assert_eq!(execution.exit_code, 2);
    let parsed: Value = serde_json::from_str(execution.stdout.trim()).unwrap();
    assert_eq!(parsed["decision_band"], "BLOCK");
    assert_eq!(parsed["matched_rule"], "default_block");
}

#[test]
fn incomplete_basis_refusal_json() {
    let execution = run(decision_cli(&["verify.json"], true)).unwrap();
    assert_eq!(execution.exit_code, 2);
    let parsed: Value = serde_json::from_str(execution.stdout.trim()).unwrap();
    assert_eq!(parsed["refusal"]["code"], "E_INCOMPLETE_BASIS");
    assert!(parsed["decision_band"].is_null());
}

#[test]
fn unknown_policy_refusal() {
    let execution = run(Cli {
        policy_id: Some("nonexistent.policy.v99".to_owned()),
        ..decision_cli(&["verify.json"], true)
    })
    .unwrap();
    assert_eq!(execution.exit_code, 2);
    let parsed: Value = serde_json::from_str(execution.stdout.trim()).unwrap();
    assert_eq!(parsed["refusal"]["code"], "E_UNKNOWN_POLICY");
}

#[test]
fn bad_artifact_refusal() {
    let execution = run(Cli {
        policy_id: Some("default.v0".to_owned()),
        ..decision_cli(&["garbage.json"], true)
    })
    .unwrap();
    assert_eq!(execution.exit_code, 2);
    let parsed: Value = serde_json::from_str(execution.stdout.trim()).unwrap();
    assert_eq!(parsed["refusal"]["code"], "E_BAD_ARTIFACT");
}

#[test]
fn unreadable_policy_file_is_a_bad_policy() {
    let execution = run(Cli {
        policy_id: None,
        policy: Some("missing.yaml".to_owned()),
        ..decision_cli(&["verify.json"], false)
    })
    .unwrap();
    assert_eq!(execution.exit_code, 2);
    assert_eq!(
        execution.stdout,
        "ASSESS REFUSAL\ncode: E_BAD_POLICY\nmessage: failed to read policy missing.yaml: No such file or directory\n"
    );
}

#[test]
fn proceed_json_is_byte_deterministic() {
    let artifacts = &["shape.json", "rvl.json", "verify.json"];
    let a = run(decision_cli(artifacts, true)).unwrap();
    let b = run(decision_cli(artifacts, true)).unwrap();
    assert_eq!(a, b, "PROCEED JSON must be byte-identical across runs");
}

#[test]
fn proceed_human_is_byte_deterministic() {
    let artifacts = &["shape.json", "rvl.json", "verify.json"];
    let a = run(decision_cli(artifacts, false)).unwrap();
    let b = run(decision_cli(artifacts, false)).unwrap();
    assert_eq!(a, b, "PROCEED human must be byte-identical across runs");
    assert!(a.stdout.starts_with("ASSESS PROCEED\n"));
}

#[test]
fn proceed_with_risk_json_is_byte_deterministic() {
    let artifacts = &["shape_partial.json", "rvl_no_real_change.json", "verify.json"];
    let a = run(decision_cli(artifacts, true)).unwrap();
    let b = run(decision_cli(artifacts, true)).unwrap();
    assert_eq!(a, b, "PROCEED_WITH_RISK JSON must be byte-identical across runs");
    assert_eq!(a.exit_code, 1);
}

#[test]
fn escalate_json_is_byte_deterministic() {
    let artifacts = &["shape.json", "rvl_diffuse.json", "verify.json"];
    let a = run(decision_cli(artifacts, true)).unwrap();
    let b = run(decision_cli(artifacts, true)).unwrap();
    assert_eq!(a, b, "ESCALATE JSON must be byte-identical across runs");
    assert_eq!(a.exit_code, 1);
}

#[test]
fn block_json_is_byte_deterministic() {
    let artifacts = &["shape_partial.json", "rvl_missingness_tolerable.json", "verify.json"];
    let a = run(decision_cli(artifacts, true)).unwrap();
    let b = run(decision_cli(artifacts, true)).unwrap();
    assert_eq!(a, b, "BLOCK JSON must be byte-identical across runs");
    assert_eq!(a.exit_code, 2);
    let parsed: Value = serde_json::from_str(a.stdout.trim()).unwrap();
    assert_eq!(parsed["decision_band"], "BLOCK");
}

#[test]
fn incomplete_basis_refusal_is_byte_deterministic() {
    let artifacts = &["verify.json"];
    let a = run(decision_cli(artifacts, true)).unwrap();
    let b = run(decision_cli(artifacts, true)).unwrap();
    assert_eq!(a, b, "E_INCOMPLETE_BASIS refusal must be byte-identical across runs");
}

#[test]
fn unknown_policy_refusal_is_byte_deterministic() {
    let cli = || Cli {
        policy_id: Some("nonexistent.policy.v99".to_owned()),
        ..decision_cli(&["verify.json"], true)
    };
    let a = run(cli()).unwrap();
    let b = run(cli()).unwrap();
    assert_eq!(a, b, "E_UNKNOWN_POLICY refusal must be byte-identical across runs");
}

#[test]
fn decisions_are_witnessed_unless_suppressed() {
    let recorded = run(Cli {
        render: Some(RunRenderMode::Summary),
        no_witness: false,
        ..decision_cli(&["shape.json", "rvl.json", "verify.json"], false)
    })
    .unwrap();
    assert!(recorded.stdout.contains(" witness=written "));

    let host = Host {
        to_json,
        read_artifacts,
        load_policy,
        append_witness: |_: WitnessRecord| false,
        read_ledger: || -> Result<Vec<Option<WitnessRecord>>, String> { Ok(Vec::new()) },
    };
    let failed = execute(
        Cli {
            render: Some(RunRenderMode::Summary),
            no_witness: false,
            ..decision_cli(&["shape.json", "rvl.json", "verify.json"], false)
        },
        &surface(),
        &host,
    )
    .unwrap();
    assert!(failed.stdout.contains(" witness=not_written "));
}

#[test]
fn witness_query_filters_by_policy_and_input() {
    let matches = run(witness(
        WitnessCommand::Query(WitnessQuery {
            filters: vec![
                "policy=loan_tape.monthly.v1".to_owned(),
                "input=verify.json".to_owned(),
            ],
        }),
        true,
    ))
    .unwrap();
    assert_eq!(matches.exit_code, 0);
    let parsed: Value = serde_json::from_str(matches.stdout.trim()).unwrap();
    assert_eq!(parsed.as_array().map(Vec::len), Some(1));
    assert_eq!(parsed[0]["decision_band"], "ESCALATE");

    let count = run(witness(
        WitnessCommand::Count(WitnessCount {
            filters: vec!["policy=other.policy.v1".to_owned()],
        }),
        true,
    ))
    .unwrap();
    let parsed: Value = serde_json::from_str(count.stdout.trim()).unwrap();
    assert_eq!(parsed["count"], 1);
}

#[test]
fn witness_last_returns_latest_record() {
    let last = run(witness(WitnessCommand::Last(WitnessLast {}), false)).unwrap();
    assert_eq!(last.exit_code, 0);
    assert_eq!(
        last.stdout,
        "2 BLOCK policy=other.policy.v1 inputs=1 duration_ms=7\n"
    );
    let json = run(witness(WitnessCommand::Last(WitnessLast {}), true)).unwrap();
    let parsed: Value = serde_json::from_str(json.stdout.trim()).unwrap();
    assert_eq!(parsed["inputs"][0], "benchmark.json");
}

#[test]
fn witness_execute_route_returns_json_count() {
    let execution = run(witness(WitnessCommand::Count(WitnessCount { filters: Vec::new() }), true))
        .unwrap();
    let json_value: Value = serde_json::from_str(execution.stdout.trim()).unwrap();
    assert!(execution.exit_code <= 1);
    assert_eq!(json_value["count"], 2);
}

#[test]
fn witness_commands_report_bad_filters_and_unreadable_ledgers() {
    let bad = run(witness(
        WitnessCommand::Query(WitnessQuery {
            filters: vec!["colour=blue".to_owned()],
        }),
        false,
    ));
    assert_eq!(
        bad,
        Err(AssessError::Witness(
            "assess: witness: invalid filter `colour=blue`; expected policy=<id>, input=<path> or decision=<band>"
                .to_owned()
        ))
    );
    let none = run(witness(
        WitnessCommand::Query(WitnessQuery {
            filters: vec!["decision=PROCEED".to_owned()],
        }),
        false,
    ))
    .unwrap();
    assert_eq!((none.exit_code, none.stdout.as_str()), (1, ""));

    let host = Host {
        to_json,
        read_artifacts,
        load_policy,
        append_witness: |_: WitnessRecord| true,
        read_ledger: || -> Result<Vec<Option<WitnessRecord>>, String> {
            Err("assess: witness: failed to read ledger: denied".to_owned())
        },
    };
    let unreadable = execute(witness(WitnessCommand::Last(WitnessLast {}), false), &surface(), &host);
    assert_eq!(
        unreadable,
        Err(AssessError::Witness(
            "assess: witness: failed to read ledger: denied".to_owned()
        ))
    );
}

#[test]
fn witness_render_helpers_support_json_and_human_modes() {
    let host = Host {
        to_json,
        read_artifacts,
        load_policy,
        append_witness: |_: WitnessRecord| true,
        read_ledger: || -> Result<Vec<Option<WitnessRecord>>, String> {
            Ok(vec![Some(
                WitnessRecord::scaffold(vec!["shape.json".to_owned()])
                    .with_policy_id("loan_tape.monthly.v1")
                    .with_decision_band("PROCEED")
                    .with_duration_ms(7)
                    .with_timestamp("100"),
            )])
        },
    };
    let run_here = |command: WitnessCommand, json: bool| {
        execute(witness(command, json), &surface(), &host).unwrap()
    };

    let query_json = run_here(WitnessCommand::Query(WitnessQuery { filters: Vec::new() }), true);
    let query_value: Value = serde_json::from_str(&query_json.stdout).unwrap();
    assert_eq!(query_json.exit_code, 0);
    assert_eq!(query_value.as_array().map(Vec::len), Some(1));

    let last_human = run_here(WitnessCommand::Last(WitnessLast {}), false);
    assert_eq!(last_human.exit_code, 0);
    assert_eq!(
        last_human.stdout.lines().collect::<Vec<_>>(),
        vec!["100 PROCEED policy=loan_tape.monthly.v1 inputs=1 duration_ms=7"]
    );

    let count_json = run_here(WitnessCommand::Count(WitnessCount { filters: Vec::new() }), true);
    let count_value: Value = serde_json::from_str(&count_json.stdout).unwrap();
    let mut expected = serde_json::Map::new();
    expected.insert("count".to_owned(), Value::from(1u64));
    assert_eq!(count_value, Value::Object(expected));
}

#[test]
fn witness_render_lines_use_placeholders() {
    let record = WitnessRecord::scaffold(vec!["shape.json".to_owned()])
        .with_policy_id("loan_tape.monthly.v1")
        .with_decision_band("PROCEED")
        .with_duration_ms(7)
        .with_timestamp("100");
    assert_eq!(
        render_record(&record),
        "100 PROCEED policy=loan_tape.monthly.v1 inputs=1 duration_ms=7\n"
    );
    assert_eq!(
        render_record(&WitnessRecord::scaffold(Vec::new())),
        "- - policy=- inputs=0 duration_ms=0\n"
    );
    assert!(parse_filter("input=a=b.json").is_some());
    assert!(parse_filter("policy").is_none());
}

#[test]
fn explicit_policy_path_loads_and_hashes_raw_bytes() {
    let raw = builtin_policies()[0].text.as_bytes().to_vec();
    let loaded = load_document(document(
        PolicySource::Path("fixtures/policies/loan_tape_monthly_v1.yaml".to_owned()),
        &raw,
        Ok(loan_tape()),
    ))
    .unwrap();

    assert_eq!(loaded.policy.policy_id, "loan_tape.monthly.v1");
    assert_eq!(
        loaded.sha256,
        format!("sha256:{:x}", Sha256::digest(raw.as_slice()))
    );
    assert_eq!(
        loaded.source,
        PolicySource::Path("fixtures/policies/loan_tape_monthly_v1.yaml".to_owned())
    );
    assert_eq!(
        content_hash(&Vec::new()),
        "sha256:e3b0c44298fc1c149afbf4c8996fb92427ae41e4649b934ca495991b7852b855"
    );
}

#[test]
fn builtin_policy_resolution_works_without_external_search_paths() {
    let loaded = resolve_policy_id("default.v0", builtin_documents()).unwrap();
    assert_eq!(loaded.policy.policy_id, "default.v0");
    assert_eq!(loaded.source, PolicySource::Builtin("default.v0".to_owned()));
}

#[test]
fn env_search_paths_override_builtin_policies() {
    let mut overriding = loan_tape();
    overriding.policy_version = 9;
    overriding.description = Some("env override policy".to_owned());
    let mut documents = vec![document(
        PolicySource::SearchPath("env-policies/override.yaml".to_owned()),
        b"override",
        Ok(overriding),
    )];
    documents.extend(builtin_documents());
    let loaded = resolve_policy_id("loan_tape.monthly.v1", documents).unwrap();
    assert_eq!(loaded.policy.policy_version, 9);
    assert_eq!(loaded.policy.description.as_deref(), Some("env override policy"));
    assert!(matches!(loaded.source, PolicySource::SearchPath(_)));
}

#[test]
fn user_policy_dir_is_checked_after_builtins() {
    let mut custom = default_v0();
    custom.policy_id = "custom.policy.v1".to_owned();
    custom.policy_version = 3;
    let mut documents = vec![PolicyDocument {
        source: PolicySource::SearchPath("broken.yaml".to_owned()),
        content: Ok(PolicyText {
            bytes: b"::".to_vec(),
            parsed: Err("did not find expected key".to_owned()),
        }),
    }];
    documents.extend(builtin_documents());
    documents.push(document(
        PolicySource::UserDir("home/.cmdrvl/config/assess/policies/custom.yaml".to_owned()),
        b"custom",
        Ok(custom),
    ));
    let loaded = resolve_policy_id("custom.policy.v1", documents).unwrap();
    assert_eq!(loaded.policy.policy_id, "custom.policy.v1");
    assert!(matches!(loaded.source, PolicySource::UserDir(_)));
}

#[test]
fn unknown_policy_id_maps_to_unknown_policy_refusal() {
    let error = resolve_policy_id("missing.policy.v1", builtin_documents())
        .expect_err("unknown policy id should fail");

    assert!(matches!(
        error,
        PolicyError::NotFound { ref id } if id == "missing.policy.v1"
    ));
    assert_eq!(error.refusal_code(), RefusalCode::UnknownPolicy);
    assert_eq!(
        error.message(),
        "policy `missing.policy.v1` not found in ASSESS_POLICY_PATH, builtin policies, or ~/.cmdrvl/config/assess/policies/"
    );
}

#[test]
fn invalid_policy_structure_is_rejected_on_explicit_load() {
    let mut invalid = default_v0();
    invalid.rules.push(rule("another_rule", Vec::new(), DecisionBand::Proceed, None));
    invalid.rules[1].when = None;
    let error = load_document(document(PolicySource::Path("invalid.yaml".to_owned()), b"x", Ok(invalid)))
        .expect_err("default-not-last policy should fail");
    assert!(matches!(error, PolicyError::SchemaViolation(_)));
    assert_eq!(error.refusal_code(), RefusalCode::BadPolicy);
    assert_eq!(error.message(), "policy default rule must be last");

    let unparsed = load_document(PolicyDocument {
        source: PolicySource::Path("bad.yaml".to_owned()),
        content: Ok(PolicyText {
            bytes: b"::".to_vec(),
            parsed: Err("did not find expected key".to_owned()),
        }),
    })
    .unwrap_err();
    assert_eq!(
        unparsed,
        PolicyError::YamlParse("failed to parse policy bad.yaml: did not find expected key".to_owned())
    );
    assert_eq!(unparsed.refusal_code(), RefusalCode::BadPolicy);
}

#[test]
fn search_order_puts_the_search_path_first_and_the_user_dir_last() {
    let from_path = vec![document(
        PolicySource::SearchPath("/p/override.yaml".to_owned()),
        b"path",
        Ok(PolicyFile {
            description: Some("from the search path".to_owned()),
            ..default_v0()
        }),
    )];
    let from_user_dir = vec![document(
        PolicySource::UserDir("/u/default.yaml".to_owned()),
        b"user",
        Ok(default_v0()),
    )];
    let documents = search_documents(from_path, builtin_documents(), from_user_dir);
    assert_eq!(documents.len(), 4);
    assert_eq!(documents[0].source, PolicySource::SearchPath("/p/override.yaml".to_owned()));
    assert_eq!(documents[1].source, PolicySource::Builtin("loan_tape.monthly.v1".to_owned()));
    assert_eq!(documents[2].source, PolicySource::Builtin("default.v0".to_owned()));
    assert_eq!(documents[3].source, PolicySource::UserDir("/u/default.yaml".to_owned()));

    let loaded = resolve_policy_id("default.v0", documents).unwrap();
    assert_eq!(loaded.source, PolicySource::SearchPath("/p/override.yaml".to_owned()));
    assert_eq!(loaded.policy.description.as_deref(), Some("from the search path"));
}
