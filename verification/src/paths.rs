//! Where `assess` keeps its state: the canonical `~/.cmdrvl` tree, the
//! witness ledger override, and the copy-only migration of the legacy
//! `~/.epistemic` locations. Everything here is computed from a snapshot of
//! the environment and from what the caller observed on disk; the caller
//! performs the file system work.
use vstd::prelude::*;

use crate::text::{chars_of, is_blank, is_blank_text, opt_view, owned, push_str, same_text};

verus! {

pub const TOOL_NAME: &'static str = "assess";

pub const WITNESS_ENV: &'static str = "EPISTEMIC_WITNESS";

pub const POLICY_ENV: &'static str = "ASSESS_POLICY_PATH";

pub const CANONICAL_ROOT: &'static str = "~/.cmdrvl";

pub const CANONICAL_POLICY_DIR: &'static str = "~/.cmdrvl/config/assess/policies/";

pub const CANONICAL_WITNESS: &'static str = "~/.cmdrvl/state/witness/witness.jsonl";

pub const MIGRATION_LOG: &'static str = "~/.cmdrvl/migrations/applied.jsonl";

pub const DEPRECATION_NOTICES: &'static str = "~/.cmdrvl/notices/deprecated-paths.jsonl";

pub const LEGACY_POLICY_DIR: &'static str = "~/.epistemic/policies/";

pub const LEGACY_WITNESS: &'static str = "~/.epistemic/witness.jsonl";

/// The environment variables that path resolution reads, as the process
/// saw them (`None` when unset).
#[derive(Debug, Clone, PartialEq, Eq)]
pub struct EnvSnapshot {
    pub home: Option<String>,
    pub userprofile: Option<String>,
    pub witness: Option<String>,
}

/// A variable counts as set when it holds something other than white space.
pub open spec fn non_empty_value(v: Option<Seq<char>>) -> Option<Seq<char>> {
    match v {
        Some(s) => if is_blank_text(s) {
            None
        } else {
            Some(s)
        },
        None => None,
    }
}

/// Appending a relative component to a path: a `/` goes between them unless
/// the path is empty or already ends in `/`.
pub open spec fn join_path(base: Seq<char>, part: Seq<char>) -> Seq<char> {
    if base.len() == 0 {
        part
    } else if base.last() == '/' {
        base + part
    } else {
        base + "/"@ + part
    }
}

/// The home directory: `HOME`, else `USERPROFILE`.
pub open spec fn home_of(env: EnvSnapshot) -> Option<Seq<char>> {
    match non_empty_value(opt_view(env.home)) {
        Some(h) => Some(h),
        None => non_empty_value(opt_view(env.userprofile)),
    }
}

/// `<home>/.cmdrvl`, or `.cmdrvl` relative to the working directory when
/// no home is known.
pub open spec fn cmdrvl_root_of(env: EnvSnapshot) -> Seq<char> {
    match home_of(env) {
        Some(h) => join_path(h, ".cmdrvl"@),
        None => ".cmdrvl"@,
    }
}

pub open spec fn policy_dir_under(root: Seq<char>) -> Seq<char> {
    join_path(join_path(join_path(root, "config"@), "assess"@), "policies"@)
}

pub open spec fn witness_file_under(root: Seq<char>) -> Seq<char> {
    join_path(join_path(join_path(root, "state"@), "witness"@), "witness.jsonl"@)
}

pub open spec fn canonical_policy_dir_of(env: EnvSnapshot) -> Seq<char> {
    policy_dir_under(cmdrvl_root_of(env))
}

pub open spec fn canonical_witness_of(env: EnvSnapshot) -> Seq<char> {
    witness_file_under(cmdrvl_root_of(env))
}

pub open spec fn legacy_policy_dir_of(env: EnvSnapshot) -> Option<Seq<char>> {
    match home_of(env) {
        Some(h) => Some(join_path(join_path(h, ".epistemic"@), "policies"@)),
        None => None,
    }
}

pub open spec fn legacy_witness_of(env: EnvSnapshot) -> Option<Seq<char>> {
    match home_of(env) {
        Some(h) => Some(join_path(join_path(h, ".epistemic"@), "witness.jsonl"@)),
        None => None,
    }
}

/// The witness ledger: the `EPISTEMIC_WITNESS` override when set, else the
/// canonical ledger.
pub open spec fn default_witness_of(env: EnvSnapshot) -> Seq<char> {
    match non_empty_value(opt_view(env.witness)) {
        Some(p) => p,
        None => canonical_witness_of(env),
    }
}

/// The value of a variable when it holds something other than white space.
pub fn non_empty_env(value: &Option<String>) -> (r: Option<String>)
    ensures
        opt_view(r) == non_empty_value(opt_view(*value)),
{
    match value {
        Some(v) => if is_blank(v.as_str()) {
            None
        } else {
            Some(owned(v.as_str()))
        },
        None => None,
    }
}

/// Append a relative component to a path.
pub fn join_path_text(base: &str, part: &str) -> (r: String)
    ensures
        r@ == join_path(base@, part@),
{
    let chars = chars_of(base);
    if chars.len() == 0 {
        return owned(part);
    }
    let mut r = owned(base);
    if chars[chars.len() - 1] != '/' {
        push_str(&mut r, "/");
    }
    push_str(&mut r, part);
    r
}

pub fn home_dir_from_env(env: &EnvSnapshot) -> (r: Option<String>)
    ensures
        opt_view(r) == home_of(*env),
{
    match non_empty_env(&env.home) {
        Some(h) => Some(h),
        None => non_empty_env(&env.userprofile),
    }
}

pub fn cmdrvl_root_from_env(env: &EnvSnapshot) -> (r: String)
    ensures
        r@ == cmdrvl_root_of(*env),
{
    match home_dir_from_env(env) {
        Some(h) => join_path_text(h.as_str(), ".cmdrvl"),
        None => owned(".cmdrvl"),
    }
}

/// `<home>/.cmdrvl/config/assess/policies`.
pub fn canonical_policy_dir_from_home(home: &str) -> (r: String)
    ensures
        r@ == policy_dir_under(join_path(home@, ".cmdrvl"@)),
{
    let root = join_path_text(home, ".cmdrvl");
    policy_dir_from_root(root.as_str())
}

fn policy_dir_from_root(root: &str) -> (r: String)
    ensures
        r@ == policy_dir_under(root@),
{
    let config = join_path_text(root, "config");
    let assess = join_path_text(config.as_str(), "assess");
    join_path_text(assess.as_str(), "policies")
}

/// The canonical user policy directory.
pub fn canonical_policy_dir(env: &EnvSnapshot) -> (r: String)
    ensures
        r@ == canonical_policy_dir_of(*env),
{
    let root = cmdrvl_root_from_env(env);
    policy_dir_from_root(root.as_str())
}

/// The canonical witness ledger.
pub fn canonical_witness_path(env: &EnvSnapshot) -> (r: String)
    ensures
        r@ == canonical_witness_of(*env),
{
    let root = cmdrvl_root_from_env(env);
    let state = join_path_text(root.as_str(), "state");
    let witness = join_path_text(state.as_str(), "witness");
    join_path_text(witness.as_str(), "witness.jsonl")
}

/// `<home>/.epistemic/policies`, when a home is known.
pub fn legacy_policy_dir(env: &EnvSnapshot) -> (r: Option<String>)
    ensures
        opt_view(r) == legacy_policy_dir_of(*env),
{
    match home_dir_from_env(env) {
        Some(h) => {
            let base = join_path_text(h.as_str(), ".epistemic");
            Some(join_path_text(base.as_str(), "policies"))
        },
        None => None,
    }
}

/// `<home>/.epistemic/witness.jsonl`, when a home is known.
pub fn legacy_witness_path(env: &EnvSnapshot) -> (r: Option<String>)
    ensures
        opt_view(r) == legacy_witness_of(*env),
{
    match home_dir_from_env(env) {
        Some(h) => {
            let base = join_path_text(h.as_str(), ".epistemic");
            Some(join_path_text(base.as_str(), "witness.jsonl"))
        },
        None => None,
    }
}

/// The witness ledger this process reads and appends to.
pub fn default_witness_path(env: &EnvSnapshot) -> (r: String)
    ensures
        r@ == default_witness_of(*env),
{
    match non_empty_env(&env.witness) {
        Some(p) => p,
        None => canonical_witness_path(env),
    }
}

/// One line of the migration log or of the deprecation notices.
#[derive(Debug, Clone, PartialEq, Eq)]
pub struct PathRecord {
    pub version: String,
    pub tool: String,
    pub path_class: String,
    pub source_path: String,
    pub destination_path: String,
    pub action: String,
    pub outcome: String,
    pub secret_values_recorded: bool,
}

pub struct PathRecordView {
    pub version: Seq<char>,
    pub tool: Seq<char>,
    pub path_class: Seq<char>,
    pub source_path: Seq<char>,
    pub destination_path: Seq<char>,
    pub action: Seq<char>,
    pub outcome: Seq<char>,
    pub secret_values_recorded: bool,
}

impl View for PathRecord {
    type V = PathRecordView;

    open spec fn view(&self) -> PathRecordView {
        PathRecordView {
            version: self.version@,
            tool: self.tool@,
            path_class: self.path_class@,
            source_path: self.source_path@,
            destination_path: self.destination_path@,
            action: self.action@,
            outcome: self.outcome@,
            secret_values_recorded: self.secret_values_recorded,
        }
    }
}

/// The log line of a completed copy.
pub open spec fn migration_view(
    path_class: Seq<char>,
    source: Seq<char>,
    destination: Seq<char>,
    action: Seq<char>,
) -> PathRecordView {
    PathRecordView {
        version: "cmdrvl.migration.v1"@,
        tool: "assess"@,
        path_class,
        source_path: source,
        destination_path: destination,
        action,
        outcome: "ok"@,
        secret_values_recorded: false,
    }
}

/// The notice that a legacy location is still present.
pub open spec fn deprecation_view(
    path_class: Seq<char>,
    source: Seq<char>,
    destination: Seq<char>,
    action: Seq<char>,
    outcome: Seq<char>,
) -> PathRecordView {
    PathRecordView {
        version: "cmdrvl.deprecated_path_notice.v1"@,
        tool: "assess"@,
        path_class,
        source_path: source,
        destination_path: destination,
        action,
        outcome,
        secret_values_recorded: false,
    }
}

pub fn migration_record(path_class: &str, source: &str, destination: &str, action: &str) -> (r:
    PathRecord)
    ensures
        r@ == migration_view(path_class@, source@, destination@, action@),
{
    PathRecord {
        version: owned("cmdrvl.migration.v1"),
        tool: owned(TOOL_NAME),
        path_class: owned(path_class),
        source_path: owned(source),
        destination_path: owned(destination),
        action: owned(action),
        outcome: owned("ok"),
        secret_values_recorded: false,
    }
}

pub fn deprecation_record(
    path_class: &str,
    source: &str,
    destination: &str,
    action: &str,
    outcome: &str,
) -> (r: PathRecord)
    ensures
        r@ == deprecation_view(path_class@, source@, destination@, action@, outcome@),
{
    PathRecord {
        version: owned("cmdrvl.deprecated_path_notice.v1"),
        tool: owned(TOOL_NAME),
        path_class: owned(path_class),
        source_path: owned(source),
        destination_path: owned(destination),
        action: owned(action),
        outcome: owned(outcome),
        secret_values_recorded: false,
    }
}

/// The fields that identify a record already in a log: each is the string
/// the line holds under that key, or `None` when the key is missing or holds
/// something other than a string.
#[derive(Debug, Clone, PartialEq, Eq)]
pub struct RecordIdentity {
    pub tool: Option<String>,
    pub path_class: Option<String>,
    pub source_path: Option<String>,
    pub destination_path: Option<String>,
    pub action: Option<String>,
}

/// A logged line records the same event when tool, path class, source,
/// destination and action all agree.
pub open spec fn same_event(existing: RecordIdentity, record: PathRecordView) -> bool {
    &&& opt_view(existing.tool) == Some(record.tool)
    &&& opt_view(existing.path_class) == Some(record.path_class)
    &&& opt_view(existing.source_path) == Some(record.source_path)
    &&& opt_view(existing.destination_path) == Some(record.destination_path)
    &&& opt_view(existing.action) == Some(record.action)
}

fn field_matches(existing: &Option<String>, value: &String) -> (r: bool)
    ensures
        r == (opt_view(*existing) == Some(value@)),
{
    match existing {
        Some(e) => same_text(e.as_str(), value.as_str()),
        None => false,
    }
}

/// Whether a log already holds a line for this event, so that appending it
/// again is skipped.
pub fn record_already_present(existing: &Vec<RecordIdentity>, record: &PathRecord) -> (r: bool)
    ensures
        r == exists|i: int| 0 <= i < existing@.len() && same_event(#[trigger] existing@[i], record@),
{
    let mut i: usize = 0;
    while i < existing.len()
        invariant
            i <= existing@.len(),
            forall|j: int| 0 <= j < i ==> !same_event(#[trigger] existing@[j], record@),
        decreases existing@.len() - i,
    {
        let e = &existing[i];
        if field_matches(&e.tool, &record.tool) && field_matches(&e.path_class, &record.path_class)
            && field_matches(&e.source_path, &record.source_path) && field_matches(
            &e.destination_path,
            &record.destination_path,
        ) && field_matches(&e.action, &record.action) {
            assert(same_event(existing@[i as int], record@));
            return true;
        }
        i = i + 1;
    }
    false
}

/// What a migration does once its directory tree exists.
#[derive(Debug, Clone, PartialEq, Eq)]
pub enum MigrationStep {
    /// The canonical location already exists: only record that the legacy
    /// one is still present.
    NoticeOnly { notice: PathRecord },
    /// Copy the legacy location to the canonical one (never deleting the
    /// source), then record the copy and the notice.
    Copy { source: String, destination: String, migration: PathRecord, notice: PathRecord },
}

/// A migration to perform: the directories to create first, the two log
/// files, and the step.
#[derive(Debug, Clone, PartialEq, Eq)]
pub struct Migration {
    pub tree: Vec<String>,
    pub migration_log: String,
    pub deprecation_notices: String,
    pub step: MigrationStep,
}

pub enum MigrationStepView {
    NoticeOnly(PathRecordView),
    Copy(Seq<char>, Seq<char>, PathRecordView, PathRecordView),
}

pub struct MigrationView {
    pub tree: Seq<Seq<char>>,
    pub migration_log: Seq<char>,
    pub deprecation_notices: Seq<char>,
    pub step: MigrationStepView,
}

pub open spec fn step_view(s: MigrationStep) -> MigrationStepView {
    match s {
        MigrationStep::NoticeOnly { notice } => MigrationStepView::NoticeOnly(notice@),
        MigrationStep::Copy { source, destination, migration, notice } => MigrationStepView::Copy(
            source@,
            destination@,
            migration@,
            notice@,
        ),
    }
}

pub open spec fn migration_plan_view(m: Option<Migration>) -> Option<MigrationView> {
    match m {
        Some(m) => Some(
            MigrationView {
                tree: crate::text::strings_view(m.tree@),
                migration_log: m.migration_log@,
                deprecation_notices: m.deprecation_notices@,
                step: step_view(m.step),
            },
        ),
        None => None,
    }
}

/// The directories of the canonical config tree, parents first.
pub open spec fn config_tree_of(root: Seq<char>) -> Seq<Seq<char>> {
    seq![
        root,
        join_path(root, "config"@),
        join_path(join_path(root, "config"@), "assess"@),
        policy_dir_under(root),
        join_path(root, "migrations"@),
        join_path(root, "notices"@),
    ]
}

/// The directories of the canonical witness tree, parents first.
pub open spec fn witness_tree_of(root: Seq<char>) -> Seq<Seq<char>> {
    seq![
        root,
        join_path(root, "state"@),
        join_path(join_path(root, "state"@), "witness"@),
        join_path(root, "migrations"@),
        join_path(root, "notices"@),
    ]
}

pub open spec fn migration_log_of(root: Seq<char>) -> Seq<char> {
    join_path(join_path(root, "migrations"@), "applied.jsonl"@)
}

pub open spec fn notices_of(root: Seq<char>) -> Seq<char> {
    join_path(join_path(root, "notices"@), "deprecated-paths.jsonl"@)
}

/// The step of a migration from `legacy` to `canonical`.
pub open spec fn step_of(
    path_class: Seq<char>,
    legacy: Seq<char>,
    canonical: Seq<char>,
    canonical_exists: bool,
) -> MigrationStepView {
    if canonical_exists {
        MigrationStepView::NoticeOnly(
            deprecation_view(
                path_class,
                legacy,
                canonical,
                "legacy_path_present"@,
                "canonical_preferred"@,
            ),
        )
    } else {
        MigrationStepView::Copy(
            legacy,
            canonical,
            migration_view(path_class, legacy, canonical, "copied_legacy_to_canonical"@),
            deprecation_view(
                path_class,
                legacy,
                canonical,
                "legacy_path_migrated"@,
                "canonical_created"@,
            ),
        )
    }
}

/// The policy directory migration: only when a home is known and the
/// legacy directory exists.
pub open spec fn expected_policy_migration(
    env: EnvSnapshot,
    legacy_is_dir: bool,
    canonical_exists: bool,
) -> Option<MigrationView> {
    match legacy_policy_dir_of(env) {
        Some(legacy) => if legacy_is_dir {
            Some(
                MigrationView {
                    tree: config_tree_of(cmdrvl_root_of(env)),
                    migration_log: migration_log_of(cmdrvl_root_of(env)),
                    deprecation_notices: notices_of(cmdrvl_root_of(env)),
                    step: step_of(
                        "policy_directory"@,
                        legacy,
                        canonical_policy_dir_of(env),
                        canonical_exists,
                    ),
                },
            )
        } else {
            None
        },
        None => None,
    }
}

/// The witness ledger migration: never under an explicit ledger override,
/// and only when a home is known and the legacy ledger is a file other than
/// the canonical one.
pub open spec fn expected_witness_migration(
    env: EnvSnapshot,
    legacy_is_file: bool,
    canonical_exists: bool,
) -> Option<MigrationView> {
    if non_empty_value(opt_view(env.witness)) is Some {
        None
    } else {
        match legacy_witness_of(env) {
            Some(legacy) => if legacy_is_file && legacy != canonical_witness_of(env) {
                Some(
                    MigrationView {
                        tree: witness_tree_of(cmdrvl_root_of(env)),
                        migration_log: migration_log_of(cmdrvl_root_of(env)),
                        deprecation_notices: notices_of(cmdrvl_root_of(env)),
                        step: step_of(
                            "witness_ledger"@,
                            legacy,
                            canonical_witness_of(env),
                            canonical_exists,
                        ),
                    },
                )
            } else {
                None
            },
            None => None,
        }
    }
}

fn step_for(path_class: &str, legacy: &String, canonical: &String, canonical_exists: bool) -> (r:
    MigrationStep)
    ensures
        step_view(r) == step_of(path_class@, legacy@, canonical@, canonical_exists),
{
    if canonical_exists {
        MigrationStep::NoticeOnly {
            notice: deprecation_record(
                path_class,
                legacy.as_str(),
                canonical.as_str(),
                "legacy_path_present",
                "canonical_preferred",
            ),
        }
    } else {
        MigrationStep::Copy {
            source: owned(legacy.as_str()),
            destination: owned(canonical.as_str()),
            migration: migration_record(
                path_class,
                legacy.as_str(),
                canonical.as_str(),
                "copied_legacy_to_canonical",
            ),
            notice: deprecation_record(
                path_class,
                legacy.as_str(),
                canonical.as_str(),
                "legacy_path_migrated",
                "canonical_created",
            ),
        }
    }
}

fn log_paths(root: &str) -> (r: (String, String))
    ensures
        r.0@ == migration_log_of(root@),
        r.1@ == notices_of(root@),
{
    let migrations = join_path_text(root, "migrations");
    let notices = join_path_text(root, "notices");
    (
        join_path_text(migrations.as_str(), "applied.jsonl"),
        join_path_text(notices.as_str(), "deprecated-paths.jsonl"),
    )
}

/// The directories of the canonical config tree under a root.
pub fn config_tree(root: &str) -> (r: Vec<String>)
    ensures
        crate::text::strings_view(r@) == config_tree_of(root@),
{
    let config = join_path_text(root, "config");
    let assess = join_path_text(config.as_str(), "assess");
    let mut r: Vec<String> = Vec::new();
    r.push(owned(root));
    r.push(join_path_text(root, "config"));
    r.push(join_path_text(config.as_str(), "assess"));
    r.push(join_path_text(assess.as_str(), "policies"));
    r.push(join_path_text(root, "migrations"));
    r.push(join_path_text(root, "notices"));
    assert(crate::text::strings_view(r@) =~= config_tree_of(root@));
    r
}

/// The directories of the canonical witness tree under a root.
pub fn witness_tree(root: &str) -> (r: Vec<String>)
    ensures
        crate::text::strings_view(r@) == witness_tree_of(root@),
{
    let state = join_path_text(root, "state");
    let mut r: Vec<String> = Vec::new();
    r.push(owned(root));
    r.push(join_path_text(root, "state"));
    r.push(join_path_text(state.as_str(), "witness"));
    r.push(join_path_text(root, "migrations"));
    r.push(join_path_text(root, "notices"));
    assert(crate::text::strings_view(r@) =~= witness_tree_of(root@));
    r
}

/// Decide the copy-only migration of the legacy policy directory, given
/// whether that directory exists and whether the canonical one did before.
pub fn plan_policy_dir_migration(env: &EnvSnapshot, legacy_is_dir: bool, canonical_exists: bool) -> (r:
    Option<Migration>)
    ensures
        migration_plan_view(r) == expected_policy_migration(*env, legacy_is_dir, canonical_exists),
{
    let canonical = canonical_policy_dir(env);
    let legacy = match legacy_policy_dir(env) {
        Some(l) => l,
        None => return None,
    };
    if !legacy_is_dir {
        return None;
    }
    let root = cmdrvl_root_from_env(env);
    let (migration_log, deprecation_notices) = log_paths(root.as_str());
    Some(
        Migration {
            tree: config_tree(root.as_str()),
            migration_log,
            deprecation_notices,
            step: step_for("policy_directory", &legacy, &canonical, canonical_exists),
        },
    )
}

/// Decide the copy-only migration of the legacy witness ledger, given
/// whether that file exists and whether the canonical ledger exists.
pub fn plan_witness_migration(env: &EnvSnapshot, legacy_is_file: bool, canonical_exists: bool) -> (r:
    Option<Migration>)
    ensures
        migration_plan_view(r) == expected_witness_migration(*env, legacy_is_file, canonical_exists),
{
    if non_empty_env(&env.witness).is_some() {
        return None;
    }
    let canonical = canonical_witness_path(env);
    let legacy = match legacy_witness_path(env) {
        Some(l) => l,
        None => return None,
    };
    if !legacy_is_file || same_text(legacy.as_str(), canonical.as_str()) {
        return None;
    }
    let root = cmdrvl_root_from_env(env);
    let (migration_log, deprecation_notices) = log_paths(root.as_str());
    Some(
        Migration {
            tree: witness_tree(root.as_str()),
            migration_log,
            deprecation_notices,
            step: step_for("witness_ledger", &legacy, &canonical, canonical_exists),
        },
    )
}

/// Whether appending to the ledger must first create the canonical witness
/// tree: only when no override names the ledger.
pub fn witness_tree_needed(env: &EnvSnapshot) -> (r: Option<Vec<String>>)
    ensures
        match r {
            Some(t) => non_empty_value(opt_view(env.witness)) is None
                && crate::text::strings_view(t@) == witness_tree_of(cmdrvl_root_of(*env)),
            None => non_empty_value(opt_view(env.witness)) is Some,
        },
{
    if non_empty_env(&env.witness).is_some() {
        return None;
    }
    let root = cmdrvl_root_from_env(env);
    Some(witness_tree(root.as_str()))
}

/// An environment variable that overrides one of the managed paths.
#[derive(Debug, Clone, PartialEq, Eq)]
pub struct EnvOverride {
    pub name: String,
    pub path_class: String,
    pub behavior: String,
}

/// The declaration of every location `assess` manages, for operators.
#[derive(Debug, Clone, PartialEq, Eq)]
pub struct ConfigFootprint {
    pub schema: String,
    pub tool: String,
    pub canonical_root: String,
    pub managed_config_paths: Vec<String>,
    pub managed_state_paths: Vec<String>,
    pub managed_cache_paths: Vec<String>,
    pub managed_lock_paths: Vec<String>,
    pub env_overrides: Vec<EnvOverride>,
    pub legacy_paths: Vec<String>,
    pub migration_log: String,
    pub deprecation_notices: String,
    pub legacy_migration_required: bool,
    pub migration_policy: String,
    pub self_contained: bool,
}

pub open spec fn env_override_view(o: EnvOverride) -> (Seq<char>, Seq<char>, Seq<char>) {
    (o.name@, o.path_class@, o.behavior@)
}

pub open spec fn policy_override_behavior() -> Seq<char> {
    "explicit operator search path; canonical policy dir remains the implicit user fallback"@
}

pub open spec fn witness_override_behavior() -> Seq<char> {
    "explicit operator ledger override; no implicit witness migration is performed for override paths"@
}

pub open spec fn migration_policy_text() -> Seq<char> {
    "copy-only legacy policy and witness migration; never delete or move legacy files; never record file contents or secret values"@
}

/// The configuration footprint: the canonical policy directory and witness
/// ledger under `~/.cmdrvl`, no cache or lock paths, the two environment
/// overrides, the two legacy paths and the copy-only migration policy.
pub fn config_footprint() -> (r: ConfigFootprint)
    ensures
        r.schema@ == "cmdrvl.config_footprint.v1"@,
        r.tool@ == TOOL_NAME@,
        r.canonical_root@ == CANONICAL_ROOT@,
        crate::text::strings_view(r.managed_config_paths@) == seq![CANONICAL_POLICY_DIR@],
        crate::text::strings_view(r.managed_state_paths@) == seq![CANONICAL_WITNESS@],
        r.managed_cache_paths@.len() == 0,
        r.managed_lock_paths@.len() == 0,
        r.env_overrides@.map_values(|o: EnvOverride| env_override_view(o)) == seq![
            (POLICY_ENV@, "policy_search_path"@, policy_override_behavior()),
            (WITNESS_ENV@, "witness_ledger"@, witness_override_behavior()),
        ],
        crate::text::strings_view(r.legacy_paths@) == seq![LEGACY_POLICY_DIR@, LEGACY_WITNESS@],
        r.migration_log@ == MIGRATION_LOG@,
        r.deprecation_notices@ == DEPRECATION_NOTICES@,
        r.legacy_migration_required,
        r.migration_policy@ == migration_policy_text(),
        r.self_contained,
{
    let mut config_paths: Vec<String> = Vec::new();
    config_paths.push(owned(CANONICAL_POLICY_DIR));
    let mut state_paths: Vec<String> = Vec::new();
    state_paths.push(owned(CANONICAL_WITNESS));
    let mut overrides: Vec<EnvOverride> = Vec::new();
    overrides.push(
        EnvOverride {
            name: owned(POLICY_ENV),
            path_class: owned("policy_search_path"),
            behavior: owned(
                "explicit operator search path; canonical policy dir remains the implicit user fallback",
            ),
        },
    );
    overrides.push(
        EnvOverride {
            name: owned(WITNESS_ENV),
            path_class: owned("witness_ledger"),
            behavior: owned(
                "explicit operator ledger override; no implicit witness migration is performed for override paths",
            ),
        },
    );
    let mut legacy: Vec<String> = Vec::new();
    legacy.push(owned(LEGACY_POLICY_DIR));
    legacy.push(owned(LEGACY_WITNESS));
    let r = ConfigFootprint {
        schema: owned("cmdrvl.config_footprint.v1"),
        tool: owned(TOOL_NAME),
        canonical_root: owned(CANONICAL_ROOT),
        managed_config_paths: config_paths,
        managed_state_paths: state_paths,
        managed_cache_paths: Vec::new(),
        managed_lock_paths: Vec::new(),
        env_overrides: overrides,
        legacy_paths: legacy,
        migration_log: owned(MIGRATION_LOG),
        deprecation_notices: owned(DEPRECATION_NOTICES),
        legacy_migration_required: true,
        migration_policy: owned(
            "copy-only legacy policy and witness migration; never delete or move legacy files; never record file contents or secret values",
        ),
        self_contained: true,
    };
    assert(crate::text::strings_view(r.managed_config_paths@) =~= seq![CANONICAL_POLICY_DIR@]);
    assert(crate::text::strings_view(r.managed_state_paths@) =~= seq![CANONICAL_WITNESS@]);
    assert(r.env_overrides@.map_values(|o: EnvOverride| env_override_view(o)) =~= seq![
        (POLICY_ENV@, "policy_search_path"@, policy_override_behavior()),
        (WITNESS_ENV@, "witness_ledger"@, witness_override_behavior()),
    ]);
    assert(crate::text::strings_view(r.legacy_paths@) =~= seq![LEGACY_POLICY_DIR@, LEGACY_WITNESS@]);
    r
}

/// An explicit ledger override names the ledger, and no witness migration
/// happens for it, whatever is on disk.
pub proof fn law_witness_override_wins(env: EnvSnapshot, legacy_is_file: bool, canonical_exists: bool)
    requires
        non_empty_value(opt_view(env.witness)) is Some,
    ensures
        Some(default_witness_of(env)) == non_empty_value(opt_view(env.witness)),
        expected_witness_migration(env, legacy_is_file, canonical_exists) is None,
{
}

/// Without an override, the ledger is the documented location
/// `~/.cmdrvl/state/witness/witness.jsonl` with `~` read as the home
/// directory (for a home that does not end in `/`).
pub proof fn law_default_witness_is_documented_location(env: EnvSnapshot, home: Seq<char>)
    requires
        non_empty_value(opt_view(env.witness)) is None,
        home_of(env) == Some(home),
        home.last() != '/',
    ensures
        default_witness_of(env) == home + "/.cmdrvl/state/witness/witness.jsonl"@,
{
    reveal_strlit("/");
    reveal_strlit(".cmdrvl");
    reveal_strlit("state");
    reveal_strlit("witness");
    reveal_strlit("witness.jsonl");
    reveal_strlit("/.cmdrvl/state/witness/witness.jsonl");
    assert(home.len() > 0) by {
        assert(!is_blank_text(home));
    }
    assert(default_witness_of(env) =~= home + "/.cmdrvl/state/witness/witness.jsonl"@);
}

/// Without a home, the canonical tree is `.cmdrvl` under the working
/// directory.
pub proof fn law_root_without_home(env: EnvSnapshot)
    requires
        home_of(env) is None,
    ensures
        cmdrvl_root_of(env) == ".cmdrvl"@,
{
}

/// A planned migration only ever copies from the legacy location to the
/// canonical one: its step never names another source or destination.
pub proof fn law_migrations_copy_legacy_to_canonical(
    env: EnvSnapshot,
    flag_legacy: bool,
    canonical_exists: bool,
)
    ensures
        match expected_policy_migration(env, flag_legacy, canonical_exists) {
            Some(m) => match m.step {
                MigrationStepView::Copy(src, dst, _, _) => Some(src) == legacy_policy_dir_of(env)
                    && dst == canonical_policy_dir_of(env) && !canonical_exists,
                MigrationStepView::NoticeOnly(_) => canonical_exists,
            },
            None => true,
        },
        match expected_witness_migration(env, flag_legacy, canonical_exists) {
            Some(m) => match m.step {
                MigrationStepView::Copy(src, dst, _, _) => Some(src) == legacy_witness_of(env)
                    && dst == canonical_witness_of(env) && src != dst && !canonical_exists,
                MigrationStepView::NoticeOnly(_) => canonical_exists,
            },
            None => true,
        },
{
}

} // verus!
