use assess::paths::{
    CANONICAL_POLICY_DIR, CANONICAL_WITNESS, DEPRECATION_NOTICES, EnvSnapshot, LEGACY_POLICY_DIR,
    LEGACY_WITNESS, MIGRATION_LOG, MigrationStep, RecordIdentity, TOOL_NAME,
    canonical_policy_dir, canonical_policy_dir_from_home, config_footprint, default_witness_path,
    deprecation_record, home_dir_from_env, join_path_text, legacy_policy_dir, legacy_witness_path,
    migration_record, non_empty_env, plan_policy_dir_migration, plan_witness_migration,
    record_already_present, witness_tree_needed,
};

fn env(home: Option<&str>, userprofile: Option<&str>, witness: Option<&str>) -> EnvSnapshot {
    EnvSnapshot {
        home: home.map(str::to_owned),
        userprofile: userprofile.map(str::to_owned),
        witness: witness.map(str::to_owned),
    }
}

#[test]
fn default_witness_path_prefers_explicit_env_override() {
    let values = env(Some("/tmp/home"), None, Some("/tmp/custom-witness.jsonl"));
    let path = default_witness_path(&values);

    assert_eq!(path, "/tmp/custom-witness.jsonl");
}

#[test]
fn default_witness_path_uses_cmdrvl_root_when_env_missing() {
    let values = env(Some("/tmp/home"), None, None);
    let path = default_witness_path(&values);

    assert_eq!(path, "/tmp/home/.cmdrvl/state/witness/witness.jsonl");
}

#[test]
fn witness_migration_is_skipped_for_explicit_override() {
    let home = "/tmp/assess-paths-override";
    let override_path = "/tmp/assess-paths-override/operator-witness.jsonl";
    let values = env(Some(home), None, Some(override_path));

    assert_eq!(plan_witness_migration(&values, true, false), None);
    assert_eq!(default_witness_path(&values), override_path);
    assert_eq!(witness_tree_needed(&values), None);
}

#[test]
fn config_footprint_declares_policy_and_witness_paths() {
    let footprint = config_footprint();

    assert_eq!(footprint.tool, TOOL_NAME);
    assert_eq!(footprint.managed_config_paths[0], CANONICAL_POLICY_DIR);
    assert_eq!(footprint.managed_state_paths[0], CANONICAL_WITNESS);
    assert!(footprint.legacy_migration_required);
    assert!(footprint.self_contained);
    assert_eq!(footprint.schema, "cmdrvl.config_footprint.v1");
    assert_eq!(footprint.legacy_paths, vec![LEGACY_POLICY_DIR, LEGACY_WITNESS]);
    assert_eq!(footprint.migration_log, MIGRATION_LOG);
    assert_eq!(footprint.deprecation_notices, DEPRECATION_NOTICES);
    assert!(footprint.managed_cache_paths.is_empty());
    assert_eq!(footprint.env_overrides[0].name, "ASSESS_POLICY_PATH");
    assert_eq!(footprint.env_overrides[1].name, "EPISTEMIC_WITNESS");
}

#[test]
fn policy_dir_migration_copies_legacy_files_without_deleting_source() {
    let values = env(Some("/home/op"), None, None);
    let migration = plan_policy_dir_migration(&values, true, false).expect("legacy dir migrates");

    assert_eq!(
        migration.tree,
        vec![
            "/home/op/.cmdrvl",
            "/home/op/.cmdrvl/config",
            "/home/op/.cmdrvl/config/assess",
            "/home/op/.cmdrvl/config/assess/policies",
            "/home/op/.cmdrvl/migrations",
            "/home/op/.cmdrvl/notices",
        ]
    );
    assert_eq!(migration.migration_log, "/home/op/.cmdrvl/migrations/applied.jsonl");
    assert_eq!(
        migration.deprecation_notices,
        "/home/op/.cmdrvl/notices/deprecated-paths.jsonl"
    );
    match migration.step {
        MigrationStep::Copy {
            source,
            destination,
            migration,
            notice,
        } => {
            assert_eq!(source, "/home/op/.epistemic/policies");
            assert_eq!(destination, "/home/op/.cmdrvl/config/assess/policies");
            assert_eq!(migration.path_class, "policy_directory");
            assert_eq!(migration.action, "copied_legacy_to_canonical");
            assert_eq!(migration.version, "cmdrvl.migration.v1");
            assert!(!migration.secret_values_recorded);
            assert_eq!(notice.action, "legacy_path_migrated");
            assert_eq!(notice.outcome, "canonical_created");
        }
        other => panic!("expected a copy, got {other:?}"),
    }
}

#[test]
fn witness_migration_copies_legacy_file_without_deleting_source() {
    let values = env(Some("/home/op"), None, None);
    let migration = plan_witness_migration(&values, true, false).expect("legacy ledger migrates");
    assert_eq!(
        migration.tree,
        vec![
            "/home/op/.cmdrvl",
            "/home/op/.cmdrvl/state",
            "/home/op/.cmdrvl/state/witness",
            "/home/op/.cmdrvl/migrations",
            "/home/op/.cmdrvl/notices",
        ]
    );
    match migration.step {
        MigrationStep::Copy {
            source,
            destination,
            notice,
            ..
        } => {
            assert_eq!(source, "/home/op/.epistemic/witness.jsonl");
            assert_eq!(destination, "/home/op/.cmdrvl/state/witness/witness.jsonl");
            assert_eq!(notice.path_class, "witness_ledger");
            assert_eq!(notice.version, "cmdrvl.deprecated_path_notice.v1");
        }
        other => panic!("expected a copy, got {other:?}"),
    }
}

#[test]
fn existing_canonical_locations_only_get_a_notice() {
    let values = env(Some("/home/op"), None, None);
    let policy = plan_policy_dir_migration(&values, true, true).unwrap();
    match policy.step {
        MigrationStep::NoticeOnly { notice } => {
            assert_eq!(notice.action, "legacy_path_present");
            assert_eq!(notice.outcome, "canonical_preferred");
            assert_eq!(notice.source_path, "/home/op/.epistemic/policies");
        }
        other => panic!("expected a notice, got {other:?}"),
    }
    assert_eq!(plan_policy_dir_migration(&values, false, true), None);
    assert_eq!(plan_witness_migration(&values, false, false), None);
    assert_eq!(plan_witness_migration(&env(None, None, None), true, false), None);
}

#[test]
fn home_falls_back_to_userprofile_and_ignores_blank_values() {
    assert_eq!(
        home_dir_from_env(&env(Some("  "), Some("C:/Users/op"), None)).as_deref(),
        Some("C:/Users/op")
    );
    assert_eq!(home_dir_from_env(&env(Some(""), Some("\t"), None)), None);
    assert_eq!(non_empty_env(&Some(" x ".to_owned())).as_deref(), Some(" x "));
    assert_eq!(
        default_witness_path(&env(None, None, Some("   "))),
        ".cmdrvl/state/witness/witness.jsonl"
    );
    assert_eq!(
        canonical_policy_dir(&env(Some("/home/op/"), None, None)),
        "/home/op/.cmdrvl/config/assess/policies"
    );
    assert_eq!(
        canonical_policy_dir_from_home("/srv"),
        "/srv/.cmdrvl/config/assess/policies"
    );
    assert_eq!(
        legacy_policy_dir(&env(Some("/srv"), None, None)).as_deref(),
        Some("/srv/.epistemic/policies")
    );
    assert_eq!(legacy_witness_path(&env(None, None, None)), None);
}

#[test]
fn path_join_adds_one_separator() {
    assert_eq!(join_path_text("/a", "b"), "/a/b");
    assert_eq!(join_path_text("/a/", "b"), "/a/b");
    assert_eq!(join_path_text("", "b"), "b");
}

#[test]
fn logged_events_are_recognised_by_identity_fields() {
    let record = migration_record(
        "witness_ledger",
        "/h/.epistemic/witness.jsonl",
        "/h/.cmdrvl/state/witness/witness.jsonl",
        "copied_legacy_to_canonical",
    );
    let same = RecordIdentity {
        tool: Some("assess".to_owned()),
        path_class: Some("witness_ledger".to_owned()),
        source_path: Some("/h/.epistemic/witness.jsonl".to_owned()),
        destination_path: Some("/h/.cmdrvl/state/witness/witness.jsonl".to_owned()),
        action: Some("copied_legacy_to_canonical".to_owned()),
    };
    let other_action = RecordIdentity {
        action: Some("legacy_path_present".to_owned()),
        ..same.clone()
    };
    assert!(record_already_present(&vec![other_action.clone(), same], &record));
    assert!(!record_already_present(&vec![other_action], &record));
    assert!(!record_already_present(&Vec::new(), &record));

    let notice = deprecation_record("policy_directory", "a", "b", "legacy_path_present", "canonical_preferred");
    assert_eq!(notice.outcome, "canonical_preferred");
    assert_eq!(notice.tool, "assess");
}
