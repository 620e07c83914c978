use assess::cli::args::AFTER_LONG_HELP;
use assess::cli::{
    AssessExit, CapabilitiesArgs, Cli, Command, DoctorArgs, DoctorCommand, DoctorInvocation,
    DoctorInvocationCommand, PolicySelector, RobotDocsArgs, RobotDocsCommand, Route, RouteError,
    RunCommand, RunRenderMode, UsageErrorKind, WitnessArgs, WitnessCommand, WitnessCount,
    WitnessInvocation, WitnessInvocationCommand, WitnessLast, route,
};
use assess::doctor::{DoctorReports, HealthFacts, agent_entrypoints};
use assess::output::{RenderMode, WitnessStatus};
use assess::policy::DecisionBand;
use assess::refusal::RefusalEnvelope;
use assess::output::AssessResult;
use assess::policy::{LoadedPolicy, PolicyError};
use assess::run::{Host, JsonDocument};
use assess::witness::WitnessRecord;
use assess::{ASSESS_SCHEMA_JSON, AssessError, Surface, execute};
use serde_json::Value;

fn bare() -> Cli {
    Cli {
        artifacts: Vec::new(),
        policy: None,
        policy_id: None,
        json: false,
        render: None,
        no_witness: false,
        describe: false,
        schema: false,
        version: false,
        robot_triage: false,
        command: None,
    }
}

fn intact_facts() -> HealthFacts {
    HealthFacts {
        manifest_embedded: true,
        manifest_version: assess::PACKAGE_VERSION.to_owned(),
        output_schema: "assess.v0".to_owned(),
        doctor_declared: true,
        assess_schema_embedded: true,
        policy_schema_embedded: true,
    }
}

fn capabilities_json() -> String {
    let mut payload = serde_json::Map::new();
    payload.insert(
        "schema".to_owned(),
        Value::String(assess::doctor::CAPABILITIES_SCHEMA.to_owned()),
    );
    let entrypoints = agent_entrypoints()
        .into_iter()
        .map(|note| {
            let mut entry = serde_json::Map::new();
            entry.insert("usage".to_owned(), Value::String(note.label));
            entry.insert("description".to_owned(), Value::String(note.text));
            Value::Object(entry)
        })
        .collect();
    payload.insert("agent_entrypoints".to_owned(), Value::Array(entrypoints));
    serde_json::to_string(&Value::Object(payload)).unwrap()
}

fn surface() -> Surface {
    Surface {
        help: format!("Usage: assess [OPTIONS] [ARTIFACT]...\n\n{AFTER_LONG_HELP}"),
        doctor: DoctorReports {
            facts: intact_facts(),
            health_json: "{\"schema\":\"assess.doctor.health.v1\"}".to_owned(),
            capabilities_json: capabilities_json(),
            triage_json: "{\"schema\":\"assess.doctor.triage.v1\"}".to_owned(),
        },
    }
}

fn to_json(document: JsonDocument) -> String {
    match document {
        JsonDocument::Result(AssessResult::Refusal(envelope)) => refusal_json(envelope),
        JsonDocument::Count(count) => format!("{{\"count\":{count}}}"),
        other => format!("{other:?}"),
    }
}

fn refusal_json(envelope: RefusalEnvelope) -> String {
    let mut detail = serde_json::Map::new();
    for field in envelope.refusal.detail {
        detail.insert(field.key, Value::String(field.value));
    }
    let mut refusal = serde_json::Map::new();
    refusal.insert("code".to_owned(), Value::String(envelope.refusal.code));
    refusal.insert("message".to_owned(), Value::String(envelope.refusal.message));
    refusal.insert("detail".to_owned(), Value::Object(detail));
    let mut payload = serde_json::Map::new();
    payload.insert("tool".to_owned(), Value::String(envelope.tool));
    payload.insert("version".to_owned(), Value::String(envelope.version));
    payload.insert(
        "decision_band".to_owned(),
        envelope.decision_band.map(Value::String).unwrap_or(Value::Null),
    );
    payload.insert("refusal".to_owned(), Value::Object(refusal));
    serde_json::to_string_pretty(&Value::Object(payload)).unwrap()
}

fn run(cli: Cli) -> Result<assess::Execution, AssessError> {
    let host = Host {
        to_json,
        read_artifacts: |_: Vec<String>| Vec::new(),
        load_policy: |selector: PolicySelector| -> Result<LoadedPolicy, PolicyError> {
            let id = match selector {
                PolicySelector::Path(path) => path,
                PolicySelector::Id(id) => id,
            };
            Err(PolicyError::NotFound { id })
        },
        append_witness: |_: WitnessRecord| false,
        read_ledger: || -> Result<Vec<Option<WitnessRecord>>, String> { Ok(Vec::new()) },
    };
    execute(cli, &surface(), &host)
}

#[test]
fn missing_run_inputs_stay_on_usage_error_path() {
    let missing_artifacts = route(Cli {
        policy: Some("fixtures/policies/loan_tape_monthly_v1.yaml".to_owned()),
        ..bare()
    })
    .expect_err("artifact list should be required for assess runs");
    assert!(matches!(
        missing_artifacts,
        RouteError::Usage(ref error) if error.kind == UsageErrorKind::MissingRequiredArgument
    ));

    let missing_policy = route(Cli {
        artifacts: vec!["fixtures/artifacts/shape_clean.json".to_owned()],
        ..bare()
    })
    .expect_err("policy selector should be required for assess runs");
    assert!(matches!(
        missing_policy,
        RouteError::Usage(ref error) if error.kind == UsageErrorKind::MissingRequiredArgument
    ));
}

#[test]
fn bare_invocation_prints_agent_entrypoints() {
    let execution = run(bare()).expect("bare invocation prints help");

    assert_eq!(execution.exit_code, 0);
    assert!(execution.stdout.contains("Agent entrypoints:"));
    assert!(execution.stdout.contains("assess --robot-triage"));
    assert!(execution.stdout.contains("assess capabilities --json"));
    assert!(execution.stdout.contains("assess robot-docs guide"));
}

#[test]
fn json_only_returns_capabilities_contract() {
    let execution = run(Cli { json: true, ..bare() }).expect("--json alone routes to capabilities");

    assert_eq!(execution.exit_code, 0);
    let payload: Value = serde_json::from_str(execution.stdout.trim()).unwrap();
    assert_eq!(payload["schema"], "assess.doctor.capabilities.v1");
    assert_eq!(
        payload["agent_entrypoints"][0]["usage"],
        "assess --robot-triage"
    );
}

#[test]
fn top_level_robot_triage_routes_to_read_only_json() {
    let route = route(Cli { robot_triage: true, ..bare() }).expect("robot triage should route");

    assert_eq!(
        route,
        Route::Doctor(DoctorInvocation {
            command: DoctorInvocationCommand::RobotTriage,
            json: true,
        })
    );
}

#[test]
fn top_level_capabilities_and_robot_docs_aliases_route() {
    let capabilities = route(Cli {
        json: true,
        command: Some(Command::Capabilities(CapabilitiesArgs {})),
        ..bare()
    })
    .expect("capabilities alias should route");
    assert_eq!(
        capabilities,
        Route::Doctor(DoctorInvocation {
            command: DoctorInvocationCommand::Capabilities,
            json: true,
        })
    );

    let robot_docs = route(Cli {
        command: Some(Command::RobotDocs(RobotDocsArgs {
            command: Some(RobotDocsCommand::Guide),
        })),
        ..bare()
    })
    .expect("robot-docs guide alias should route");
    assert_eq!(
        robot_docs,
        Route::Doctor(DoctorInvocation {
            command: DoctorInvocationCommand::RobotDocs,
            json: false,
        })
    );
}

#[test]
fn special_flags_precede_subcommand_routing() {
    let execution = run(Cli {
        schema: true,
        command: Some(Command::Witness(WitnessArgs {
            command: WitnessCommand::Last(WitnessLast {}),
        })),
        ..bare()
    })
    .expect("--schema wins over the witness subcommand");

    assert_eq!(execution.exit_code, 0);
    let expected = if ASSESS_SCHEMA_JSON.ends_with('\n') {
        ASSESS_SCHEMA_JSON.to_owned()
    } else {
        format!("{ASSESS_SCHEMA_JSON}\n")
    };
    assert_eq!(execution.stdout, expected);
}

#[test]
fn ambiguous_policy_selector_returns_refusal_json() {
    let execution = run(Cli {
        artifacts: vec!["fixtures/artifacts/shape_clean.json".to_owned()],
        policy: Some("fixtures/policies/loan_tape_monthly_v1.yaml".to_owned()),
        policy_id: Some("loan_tape.monthly.v1".to_owned()),
        json: true,
        ..bare()
    })
    .expect("an ambiguous selector is a refusal, not an error");

    assert_eq!(execution.exit_code, 2);
    let refusal: Value = serde_json::from_str(execution.stdout.trim()).unwrap();
    assert_eq!(refusal["tool"], "assess");
    assert_eq!(refusal["version"], "assess.v0");
    assert!(refusal["decision_band"].is_null());
    assert_eq!(refusal["refusal"]["code"], "E_AMBIGUOUS_POLICY");
    assert_eq!(
        refusal["refusal"]["detail"]["policy"],
        "fixtures/policies/loan_tape_monthly_v1.yaml"
    );
    assert_eq!(
        refusal["refusal"]["detail"]["policy_id"],
        "loan_tape.monthly.v1"
    );
}

#[test]
fn successful_routes_preserve_run_and_witness_shape() {
    let run_route = route(Cli {
        artifacts: vec!["fixtures/artifacts/shape_clean.json".to_owned()],
        policy_id: Some("loan_tape.monthly.v1".to_owned()),
        ..bare()
    })
    .expect("run route should parse and validate");

    assert_eq!(
        run_route,
        Route::Run(RunCommand {
            artifacts: vec!["fixtures/artifacts/shape_clean.json".to_owned()],
            policy_selector: PolicySelector::Id("loan_tape.monthly.v1".to_owned()),
            render_mode: RenderMode::Human,
            no_witness: false,
        })
    );

    let witness_route = route(Cli {
        json: true,
        command: Some(Command::Witness(WitnessArgs {
            command: WitnessCommand::Count(WitnessCount {
                filters: vec!["policy=loan_tape.monthly.v1".to_owned()],
            }),
        })),
        ..bare()
    })
    .expect("witness route should parse and validate");

    assert_eq!(
        witness_route,
        Route::Witness(WitnessInvocation {
            command: WitnessInvocationCommand::Count {
                filters: vec!["policy=loan_tape.monthly.v1".to_owned()],
            },
            json: true,
        })
    );
}

#[test]
fn render_modes_route_and_conflicts_stay_explicit() {
    let summary_route = route(Cli {
        artifacts: vec!["fixtures/artifacts/shape_clean.json".to_owned()],
        policy_id: Some("loan_tape.monthly.v1".to_owned()),
        render: Some(RunRenderMode::Summary),
        ..bare()
    })
    .expect("summary route should parse");

    assert_eq!(
        summary_route,
        Route::Run(RunCommand {
            artifacts: vec!["fixtures/artifacts/shape_clean.json".to_owned()],
            policy_selector: PolicySelector::Id("loan_tape.monthly.v1".to_owned()),
            render_mode: RenderMode::Summary,
            no_witness: false,
        })
    );

    // The parser refuses `--json` together with `--render`; were both to
    // arrive, JSON would win.
    assert_eq!(
        assess::cli::render_mode(true, Some(RunRenderMode::Summary)),
        RenderMode::Json
    );
}

#[test]
fn witness_subcommand_rejects_run_render_modes() {
    let err = route(Cli {
        render: Some(RunRenderMode::Summary),
        command: Some(Command::Witness(WitnessArgs {
            command: WitnessCommand::Last(WitnessLast {}),
        })),
        ..bare()
    })
    .expect_err("witness route should reject render mode");

    if let RouteError::Usage(error) = &err {
        assert_eq!(error.kind, UsageErrorKind::ArgumentConflict);
        assert!(
            error
                .message
                .contains("`--render` is not supported with `assess witness`")
        );
    }
    assert!(matches!(err, RouteError::Usage(_)));
}

#[test]
fn decision_bands_map_to_cli_exit_codes() {
    assert_eq!(
        AssessExit::from_decision_band(DecisionBand::Proceed).code(),
        0
    );
    assert_eq!(
        AssessExit::from_decision_band(DecisionBand::ProceedWithRisk).code(),
        1
    );
    assert_eq!(
        AssessExit::from_decision_band(DecisionBand::Escalate).code(),
        1
    );
    assert_eq!(
        AssessExit::from_decision_band(DecisionBand::Block).code(),
        2
    );
}

#[test]
fn witness_subcommand_rejects_each_run_input_in_order() {
    let witness = || {
        Some(Command::Witness(WitnessArgs {
            command: WitnessCommand::Last(WitnessLast {}),
        }))
    };
    let message = |cli: Cli| match route(cli) {
        Err(RouteError::Usage(error)) => {
            assert_eq!(error.kind, UsageErrorKind::ArgumentConflict);
            error.message
        }
        other => panic!("expected a usage error, got {other:?}"),
    };
    assert_eq!(
        message(Cli {
            artifacts: vec!["a.json".to_owned()],
            policy: Some("p.yaml".to_owned()),
            command: witness(),
            ..bare()
        }),
        "artifact arguments are not accepted with `assess witness`"
    );
    assert_eq!(
        message(Cli {
            policy_id: Some("p".to_owned()),
            no_witness: true,
            command: witness(),
            ..bare()
        }),
        "policy selectors are not accepted with `assess witness`"
    );
    assert_eq!(
        message(Cli {
            no_witness: true,
            command: witness(),
            ..bare()
        }),
        "`--no-witness` cannot be used with `assess witness`"
    );
}

#[test]
fn doctor_without_subcommand_is_a_usage_error() {
    let err = route(Cli {
        command: Some(Command::Doctor(DoctorArgs {
            robot_triage: false,
            command: None,
        })),
        ..bare()
    })
    .expect_err("doctor needs a subcommand");
    assert!(matches!(
        err,
        RouteError::Usage(ref error) if error.kind == UsageErrorKind::MissingSubcommand
    ));

    let health = route(Cli {
        json: true,
        command: Some(Command::Doctor(DoctorArgs {
            robot_triage: false,
            command: Some(DoctorCommand::Health),
        })),
        ..bare()
    })
    .unwrap();
    assert_eq!(
        health,
        Route::Doctor(DoctorInvocation {
            command: DoctorInvocationCommand::Health,
            json: true,
        })
    );
}

#[test]
fn ambiguous_policy_refusal_respects_summary_render_mode() {
    let execution = run(Cli {
        artifacts: vec!["/dev/null".to_owned()],
        policy: Some("some.yaml".to_owned()),
        policy_id: Some("some.id".to_owned()),
        render: Some(RunRenderMode::SummaryTsv),
        no_witness: true,
        ..bare()
    })
    .unwrap();
    assert_eq!(execution.exit_code, 2);
    assert_eq!(
        execution.stdout.trim(),
        "tool\tversion\toutcome\tdecision\tmatched_rule\trisk_code\trequired_tools\tobserved_tools\twitness\trefusal_code\nassess\tassess.v0\tREFUSAL\t-\t-\t-\t-\t-\tdisabled\tE_AMBIGUOUS_POLICY"
    );
}

#[test]
fn ambiguous_policy_refusal_in_summary_mode_is_one_line() {
    let execution = run(Cli {
        artifacts: vec!["shape.json".to_owned()],
        policy: Some("policy.yaml".to_owned()),
        policy_id: Some("loan_tape.monthly.v1".to_owned()),
        render: Some(RunRenderMode::Summary),
        no_witness: true,
        ..bare()
    })
    .unwrap();
    assert_eq!(execution.exit_code, 2);
    assert_eq!(
        execution.stdout,
        "tool=assess version=assess.v0 outcome=REFUSAL decision=- matched_rule=- risk_code=- \
         required_tools=- observed_tools=- witness=disabled refusal_code=E_AMBIGUOUS_POLICY\n"
    );
}

#[test]
fn ambiguous_policy_refusal() {
    let execution = run(Cli {
        artifacts: vec!["/dev/null".to_owned()],
        policy: Some("some.yaml".to_owned()),
        policy_id: Some("some.id".to_owned()),
        json: true,
        no_witness: true,
        ..bare()
    })
    .unwrap();
    assert_eq!(execution.exit_code, 2);

    let parsed: Value = serde_json::from_str(execution.stdout.trim()).unwrap();
    assert_eq!(parsed["refusal"]["code"], "E_AMBIGUOUS_POLICY");
}

#[test]
fn unknown_policy_ids_are_refused_and_empty_ledgers_count_zero() {
    let decision = run(Cli {
        artifacts: vec!["shape.json".to_owned()],
        policy_id: Some("nonexistent.policy.v99".to_owned()),
        json: true,
        no_witness: true,
        ..bare()
    })
    .unwrap();
    assert_eq!(decision.exit_code, 2);
    let parsed: Value = serde_json::from_str(decision.stdout.trim()).unwrap();
    assert_eq!(parsed["refusal"]["code"], "E_UNKNOWN_POLICY");
    assert!(parsed["decision_band"].is_null());

    let count = run(Cli {
        json: true,
        command: Some(Command::Witness(WitnessArgs {
            command: WitnessCommand::Count(WitnessCount { filters: Vec::new() }),
        })),
        ..bare()
    })
    .unwrap();
    assert_eq!(count.exit_code, 0);
    assert_eq!(count.stdout, "{\"count\":0}\n");
}

#[test]
fn usage_errors_are_handed_back() {
    match run(Cli {
        artifacts: vec!["shape.json".to_owned()],
        ..bare()
    }) {
        Err(AssessError::Usage(error)) => {
            assert_eq!(error.kind, UsageErrorKind::MissingRequiredArgument);
            assert_eq!(
                error.message,
                "the following required arguments were not provided:\n  --policy <POLICY>\n\nor:\n  --policy-id <POLICY_ID>"
            );
        }
        other => panic!("expected a usage error, got {other:?}"),
    }
}

#[test]
fn refusal_witness_status_follows_no_witness() {
    assert_eq!(
        assess::cli::refusal_witness_status(true),
        WitnessStatus::Disabled
    );
    assert_eq!(
        assess::cli::refusal_witness_status(false),
        WitnessStatus::NotWritten
    );
}

#[test]
fn json_typo_error_names_corrected_command() {
    let error = clap::Command::new("assess")
        .arg(
            clap::Arg::new("json")
                .long("json")
                .action(clap::ArgAction::SetTrue),
        )
        .try_get_matches_from(["assess", "--jsno"])
        .expect_err("--jsno should fail");
    let suggestion = match error.get(clap::error::ContextKind::SuggestedArg) {
        Some(clap::error::ContextValue::String(arg)) => Some(arg.clone()),
        _ => None,
    };
    let rendered = assess::cli::format_cli_error(
        &error.render().to_string(),
        suggestion.as_deref(),
    );

    assert!(rendered.contains("did you mean `--json`"));
    assert!(rendered.contains("next: assess capabilities --json"));
}

#[test]
fn cli_errors_without_suggestion_still_point_to_capabilities() {
    assert_eq!(
        assess::cli::format_cli_error("error: missing input", None),
        "error: missing input\nnext: assess capabilities --json\n"
    );
}
