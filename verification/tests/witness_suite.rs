use assess::paths::{self, EnvSnapshot};
use assess::witness::WitnessRecord;
use assess::witness::ledger::{select_assess_records, witness_ledger_path};
use assess::witness::query::{WitnessQueryMode, supported_modes};

fn env(home: Option<&str>, witness: Option<&str>) -> EnvSnapshot {
    EnvSnapshot {
        home: home.map(str::to_owned),
        userprofile: None,
        witness: witness.map(str::to_owned),
    }
}

fn record(tool: &str, ts: &str) -> WitnessRecord {
    WitnessRecord {
        tool: tool.to_owned(),
        command: "run".to_owned(),
        inputs: Vec::new(),
        policy_id: None,
        decision_band: None,
        duration_ms: 0,
        ts: Some(ts.to_owned()),
    }
}

#[test]
fn explicit_epistemic_witness_path_wins() {
    let path = witness_ledger_path(&env(Some("/tmp/home"), Some("/tmp/custom-ledger.jsonl")));

    assert_eq!(path, "/tmp/custom-ledger.jsonl");
}

#[test]
fn home_fallback_uses_standard_ledger_location() {
    let path = witness_ledger_path(&env(Some("/tmp/home"), None));

    assert_eq!(path, "/tmp/home/.cmdrvl/state/witness/witness.jsonl");
    assert_eq!(path, paths::CANONICAL_WITNESS.replace('~', "/tmp/home"));
}

#[test]
fn malformed_ledger_lines_are_ignored() {
    // The ledger held an `assess` record, a `verify` record and a line that
    // is not JSON; the last decodes to nothing.
    let lines = vec![Some(record("assess", "1")), Some(record("verify", "2")), None];

    let records = select_assess_records(&lines);

    assert_eq!(records.len(), 1);
    assert_eq!(records[0].tool, "assess");
}

#[test]
fn witness_scaffold_shapes_exist() {
    let record = WitnessRecord::scaffold(vec!["shape.json".to_owned()]);
    assert_eq!(record.tool, "assess");
    assert_eq!(record.command, "run");
    assert_eq!(record.inputs, vec!["shape.json".to_owned()]);
    assert_eq!(record.policy_id, None);
    assert_eq!(record.duration_ms, 0);
    assert_eq!(supported_modes().len(), 3);
    assert_eq!(
        supported_modes(),
        [
            WitnessQueryMode::Query,
            WitnessQueryMode::Last,
            WitnessQueryMode::Count
        ]
    );
}

#[test]
fn record_builders_set_their_field() {
    let record = WitnessRecord::scaffold(vec!["shape.json".to_owned()])
        .with_policy_id("loan_tape.monthly.v1")
        .with_decision_band("PROCEED")
        .with_duration_ms(42)
        .with_timestamp("12345");
    assert_eq!(record.policy_id.as_deref(), Some("loan_tape.monthly.v1"));
    assert_eq!(record.decision_band.as_deref(), Some("PROCEED"));
    assert_eq!(record.duration_ms, 42);
    assert_eq!(record.ts.as_deref(), Some("12345"));
    assert_eq!(record.tool, "assess");
    assert_eq!(record.copy(), record);
}

#[test]
fn selection_keeps_ledger_order() {
    let lines = vec![
        Some(record("assess", "1")),
        None,
        Some(record("assess", "2")),
        Some(record("shape", "3")),
        Some(record("assess", "4")),
    ];
    let stamps: Vec<String> = select_assess_records(&lines)
        .into_iter()
        .map(|r| r.ts.unwrap())
        .collect();
    assert_eq!(stamps, vec!["1", "2", "4"]);
    assert!(select_assess_records(&Vec::new()).is_empty());
}
