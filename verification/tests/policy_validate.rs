use assess::policy::validate::validate;
use assess::policy::{DecisionBand, PolicyFile, Rule, ThenClause, ToolCondition, ToolMatcher};
use assess::refusal::RefusalCode;

fn default_rule() -> Rule {
    Rule {
        name: "default_block".to_owned(),
        default: true,
        when: None,
        then_clause: ThenClause {
            decision_band: DecisionBand::Block,
            risk_code: Some("UNHANDLED_CONDITION".to_owned()),
        },
    }
}

fn policy(schema_version: u32, requires: Vec<String>, rules: Vec<Rule>) -> PolicyFile {
    PolicyFile {
        schema_version,
        policy_id: "loan_tape.monthly.v1".to_owned(),
        policy_version: 1,
        description: None,
        requires,
        rules,
    }
}

#[test]
fn accepts_valid_minimal_default_policy() {
    let policy = policy(
        1,
        vec!["shape".to_owned(), "rvl".to_owned(), "verify".to_owned()],
        vec![
            Rule {
                name: "clean_bundle".to_owned(),
                default: false,
                when: Some(vec![ToolCondition {
                    tool: "verify".to_owned(),
                    matcher: ToolMatcher {
                        outcome: Some("PASS".to_owned()),
                        outcome_in: None,
                        refusal: None,
                        signals: Vec::new(),
                    },
                }]),
                then_clause: ThenClause {
                    decision_band: DecisionBand::Proceed,
                    risk_code: None,
                },
            },
            default_rule(),
        ],
    );

    assert!(validate(&policy).is_ok());
}

#[test]
fn rejects_non_v0_schema_version() {
    let policy = policy(2, Vec::new(), vec![default_rule()]);

    let error = validate(&policy).expect_err("schema_version mismatch should fail");
    assert_eq!(error.message(), "policy schema_version must be 1, found 2");
    assert_eq!(error.refusal_code(), RefusalCode::BadPolicy);
}

#[test]
fn rejects_empty_rule_lists() {
    let policy = policy(1, Vec::new(), Vec::new());

    let error = validate(&policy).expect_err("empty rule list should fail");
    assert_eq!(error.message(), "policy must define at least one rule");
}

#[test]
fn rejects_default_rule_when_not_last() {
    let policy = policy(
        1,
        Vec::new(),
        vec![
            default_rule(),
            Rule {
                name: "clean_bundle".to_owned(),
                default: false,
                when: None,
                then_clause: ThenClause {
                    decision_band: DecisionBand::Proceed,
                    risk_code: None,
                },
            },
        ],
    );

    let error = validate(&policy).expect_err("default rule must be last");
    assert_eq!(error.message(), "policy default rule must be last");
}

#[test]
fn rejects_non_proceed_rules_without_risk_code() {
    let policy = policy(
        1,
        Vec::new(),
        vec![Rule {
            name: "default_block".to_owned(),
            default: true,
            when: None,
            then_clause: ThenClause {
                decision_band: DecisionBand::Block,
                risk_code: None,
            },
        }],
    );

    let error = validate(&policy).expect_err("non-proceed rule must carry risk_code");
    assert_eq!(
        error.message(),
        "rule `default_block` requires non-empty risk_code for BLOCK"
    );
}

#[test]
fn rejects_blank_risk_codes_for_non_proceed_rules() {
    let policy = policy(
        1,
        Vec::new(),
        vec![Rule {
            name: "riskful_rule".to_owned(),
            default: true,
            when: None,
            then_clause: ThenClause {
                decision_band: DecisionBand::Escalate,
                risk_code: Some("   ".to_owned()),
            },
        }],
    );

    let error = validate(&policy).expect_err("blank risk_code should fail");
    assert_eq!(
        error.message(),
        "rule `riskful_rule` requires non-empty risk_code for ESCALATE"
    );
}

#[test]
fn policy_errors_are_reported_as_bad_policy() {
    let error = validate(&policy(7, Vec::new(), Vec::new())).unwrap_err();
    assert_eq!(error.refusal_code().as_str(), "E_BAD_POLICY");
    assert_eq!(error.message(), "policy schema_version must be 1, found 7");
}

#[test]
fn resolution_order_lists_env_then_builtins_then_user_dir() {
    assert_eq!(
        assess::policy::loader::resolution_order(),
        &["ASSESS_POLICY_PATH", "builtin-policies", "~/.cmdrvl/config/assess/policies/"]
    );
    assert_eq!(assess::policy::scaffold_status(), "policy scaffold ready");
}
