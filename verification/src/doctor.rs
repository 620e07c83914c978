//! The read-only doctor: health checks over the compiled-in manifest and
//! schemas, the capabilities and triage reports, and the robot docs. The
//! doctor never reads artifacts, policies or the witness ledger. The JSON
//! forms of the reports are serialised by the caller from the data here.
use vstd::prelude::*;

use crate::Execution;
use crate::cli::{AssessExit, DoctorInvocation, DoctorInvocationCommand};
use crate::paths::{EnvSnapshot, canonical_policy_dir, canonical_policy_dir_of, default_witness_of};
use crate::text::{decimal_text, opt_view, owned, push_decimal, push_str, same_text};
use crate::{ASSESS_SCHEMA_JSON, OPERATOR_JSON, POLICY_SCHEMA_JSON};
use crate::witness::ledger::witness_ledger_path;

verus! {

pub const CONTRACT: &'static str = "cmdrvl.read_only_doctor.v1";

pub const HEALTH_SCHEMA: &'static str = "assess.doctor.health.v1";

pub const CAPABILITIES_SCHEMA: &'static str = "assess.doctor.capabilities.v1";

pub const TRIAGE_SCHEMA: &'static str = "assess.doctor.triage.v1";

/// What the caller learned by parsing the compiled-in documents.
#[derive(Debug, Clone, PartialEq, Eq)]
pub struct HealthFacts {
    /// The operator manifest parses as JSON.
    pub manifest_embedded: bool,
    /// Its `version` string, or empty when there is none.
    pub manifest_version: String,
    /// Its `invocation.output_schema` string, or empty when there is none.
    pub output_schema: String,
    /// Its `subcommands` list has an entry named `doctor`.
    pub doctor_declared: bool,
    /// The decision output schema parses as JSON.
    pub assess_schema_embedded: bool,
    /// The policy schema parses as JSON.
    pub policy_schema_embedded: bool,
}

/// Whether the text parses as one JSON document.
pub uninterp spec fn json_parses(text: Seq<char>) -> bool;

/// The string at a JSON pointer of the text, when the text parses and a
/// string stands there.
pub uninterp spec fn json_str_at(text: Seq<char>, pointer: Seq<char>) -> Option<Seq<char>>;

/// For the array at a JSON pointer of the text, when the text parses and
/// an array stands there: the `name` string of each entry, in order (`None`
/// for an entry without one).
pub uninterp spec fn json_names_at(text: Seq<char>, pointer: Seq<char>) -> Option<
    Seq<Option<Seq<char>>>,
>;

/// `serde_json::from_str::<serde_json::Value>`, asking only whether it
/// succeeds.
///
/// Trusted: parsing is a function of the text alone; the contract names
/// the answer and claims nothing more.
#[verifier::external_body]
fn json_text_parses(text: &str) -> (r: bool)
    ensures
        r == json_parses(text@),
{
    serde_json::from_str::<serde_json::Value>(text).is_ok()
}

/// `serde_json::from_str::<serde_json::Value>`, then `Value::pointer` and
/// `Value::as_str`.
///
/// Trusted: the string found is a function of the text and the pointer
/// alone; the contract names it and claims nothing more.
#[verifier::external_body]
fn json_string_at(text: &str, pointer: &str) -> (r: Option<String>)
    ensures
        opt_view(r) == json_str_at(text@, pointer@),
{
    let value = serde_json::from_str::<serde_json::Value>(text).ok()?;
    value.pointer(pointer)?.as_str().map(str::to_owned)
}

/// The view of a list of optional names.
pub open spec fn names_view(names: Seq<Option<String>>) -> Seq<Option<Seq<char>>> {
    names.map_values(|n: Option<String>| opt_view(n))
}

/// `serde_json::from_str::<serde_json::Value>`, then `Value::pointer`,
/// `Value::as_array`, and for each entry `Value::get("name")` with
/// `Value::as_str`.
///
/// Trusted: the names found are a function of the text and the pointer
/// alone; the contract names them and claims nothing more.
#[verifier::external_body]
fn json_array_names(text: &str, pointer: &str) -> (r: Option<Vec<Option<String>>>)
    ensures
        match r {
            Some(v) => json_names_at(text@, pointer@) == Some(names_view(v@)),
            None => json_names_at(text@, pointer@) == None::<Seq<Option<Seq<char>>>>,
        },
{
    let value = serde_json::from_str::<serde_json::Value>(text).ok()?;
    let entries = value.pointer(pointer)?.as_array()?;
    Some(entries.iter().map(|entry| entry.get("name").and_then(|n| n.as_str()).map(str::to_owned)).collect())
}

/// A string found, or the empty text when there is none.
pub open spec fn text_or_empty(found: Option<Seq<char>>) -> Seq<char> {
    match found {
        Some(t) => t,
        None => Seq::empty(),
    }
}

/// Whether a list of names holds `doctor`.
pub open spec fn names_declare_doctor(found: Option<Seq<Option<Seq<char>>>>) -> bool {
    found matches Some(names) && names.contains(Some("doctor"@))
}

/// What the compiled-in documents hold, as the health checks read them.
pub open spec fn embedded_facts(f: HealthFacts) -> bool {
    &&& f.manifest_embedded == json_parses(OPERATOR_JSON@)
    &&& f.manifest_version@ == text_or_empty(json_str_at(OPERATOR_JSON@, "/version"@))
    &&& f.output_schema@ == text_or_empty(
        json_str_at(OPERATOR_JSON@, "/invocation/output_schema"@),
    )
    &&& f.doctor_declared == names_declare_doctor(json_names_at(OPERATOR_JSON@, "/subcommands"@))
    &&& f.assess_schema_embedded == json_parses(ASSESS_SCHEMA_JSON@)
    &&& f.policy_schema_embedded == json_parses(POLICY_SCHEMA_JSON@)
}

fn text_or_default(found: Option<String>) -> (r: String)
    ensures
        r@ == text_or_empty(opt_view(found)),
{
    match found {
        Some(t) => t,
        None => String::new(),
    }
}

/// Whether any entry is named `doctor`.
fn declares_doctor(names: &Vec<Option<String>>) -> (r: bool)
    ensures
        r == names_view(names@).contains(Some("doctor"@)),
{
    let ghost all = names_view(names@);
    let mut i: usize = 0;
    while i < names.len()
        invariant
            i <= names@.len(),
            all == names_view(names@),
            forall|j: int| 0 <= j < i ==> all[j] != Some("doctor"@),
        decreases names@.len() - i,
    {
        let hit = match &names[i] {
            Some(n) => same_text(n.as_str(), "doctor"),
            None => false,
        };
        if hit {
            assert(all[i as int] == Some("doctor"@));
            return true;
        }
        i = i + 1;
    }
    assert forall|x: Option<Seq<char>>| all.contains(x) implies x != Some("doctor"@) by {
        let j = choose|j: int| 0 <= j < all.len() && all[j] == x;
        assert(all[j] != Some("doctor"@));
    }
    false
}

/// Read the facts the health checks judge from the compiled-in manifest
/// and schemas.
pub fn health_facts() -> (f: HealthFacts)
    ensures
        embedded_facts(f),
{
    let names = json_array_names(OPERATOR_JSON, "/subcommands");
    let doctor_declared = match &names {
        Some(v) => declares_doctor(v),
        None => false,
    };
    HealthFacts {
        manifest_embedded: json_text_parses(OPERATOR_JSON),
        manifest_version: text_or_default(json_string_at(OPERATOR_JSON, "/version")),
        output_schema: text_or_default(json_string_at(OPERATOR_JSON, "/invocation/output_schema")),
        doctor_declared,
        assess_schema_embedded: json_text_parses(ASSESS_SCHEMA_JSON),
        policy_schema_embedded: json_text_parses(POLICY_SCHEMA_JSON),
    }
}

/// One health check: an identifier, whether it passed, and what it checks.
#[derive(Debug, Clone, PartialEq, Eq)]
pub struct HealthCheck {
    pub id: String,
    pub ok: bool,
    pub message: String,
}

pub open spec fn check_view(c: HealthCheck) -> (Seq<char>, bool, Seq<char>) {
    (c.id@, c.ok, c.message@)
}

pub open spec fn checks_view(s: Seq<HealthCheck>) -> Seq<(Seq<char>, bool, Seq<char>)> {
    s.map_values(|c: HealthCheck| check_view(c))
}

/// The severity a check is reported with.
pub open spec fn severity_text(ok: bool) -> Seq<char> {
    if ok {
        "info"@
    } else {
        "error"@
    }
}

impl HealthCheck {
    pub fn severity(&self) -> (s: &'static str)
        ensures
            s@ == severity_text(self.ok),
    {
        if self.ok {
            "info"
        } else {
            "error"
        }
    }
}

/// The eleven health checks, in report order.
pub open spec fn health_checks_of(facts: HealthFacts) -> Seq<(Seq<char>, bool, Seq<char>)> {
    seq![
        ("operator_manifest_embedded"@, facts.manifest_embedded, "compiled operator.json parses as JSON"@),
        (
            "operator_manifest_version"@,
            facts.manifest_version@ == crate::PACKAGE_VERSION@,
            "operator.json version matches the compiled crate version"@,
        ),
        (
            "operator_output_schema"@,
            facts.output_schema@ == "assess.v0"@,
            "operator.json declares the assess.v0 output contract"@,
        ),
        ("assess_schema_embedded"@, facts.assess_schema_embedded, "compiled assess.v0 schema parses as JSON"@),
        ("policy_schema_embedded"@, facts.policy_schema_embedded, "compiled policy.v0 schema parses as JSON"@),
        ("doctor_manifest_entry"@, facts.doctor_declared, "operator.json declares the read-only doctor subcommand"@),
        ("fix_mode_disabled"@, true, "doctor --fix is intentionally absent from the CLI surface"@),
        ("witness_ledger_unopened"@, true, "doctor does not query or append the local witness ledger"@),
        ("config_footprint_declared"@, true, "implicit policy and witness paths are rooted under ~/.cmdrvl"@),
        ("decision_pipeline_unentered"@, true, "doctor does not load policies, construct bundles, or evaluate rules"@),
        ("network_disabled"@, true, "doctor performs no DNS, HTTP, TLS, or other network probes"@),
    ]
}

fn check(id: &str, ok: bool, message: &str) -> (c: HealthCheck)
    ensures
        check_view(c) == (id@, ok, message@),
{
    HealthCheck { id: owned(id), ok, message: owned(message) }
}

/// Run the health checks over what the compiled-in documents hold.
pub fn health_checks(facts: &HealthFacts) -> (r: Vec<HealthCheck>)
    ensures
        checks_view(r@) == health_checks_of(*facts),
{
    let mut r: Vec<HealthCheck> = Vec::new();
    r.push(check("operator_manifest_embedded", facts.manifest_embedded, "compiled operator.json parses as JSON"));
    r.push(
        check(
            "operator_manifest_version",
            same_text(facts.manifest_version.as_str(), crate::PACKAGE_VERSION),
            "operator.json version matches the compiled crate version",
        ),
    );
    r.push(
        check(
            "operator_output_schema",
            same_text(facts.output_schema.as_str(), "assess.v0"),
            "operator.json declares the assess.v0 output contract",
        ),
    );
    r.push(check("assess_schema_embedded", facts.assess_schema_embedded, "compiled assess.v0 schema parses as JSON"));
    r.push(check("policy_schema_embedded", facts.policy_schema_embedded, "compiled policy.v0 schema parses as JSON"));
    r.push(check("doctor_manifest_entry", facts.doctor_declared, "operator.json declares the read-only doctor subcommand"));
    r.push(check("fix_mode_disabled", true, "doctor --fix is intentionally absent from the CLI surface"));
    r.push(check("witness_ledger_unopened", true, "doctor does not query or append the local witness ledger"));
    r.push(check("config_footprint_declared", true, "implicit policy and witness paths are rooted under ~/.cmdrvl"));
    r.push(check("decision_pipeline_unentered", true, "doctor does not load policies, construct bundles, or evaluate rules"));
    r.push(check("network_disabled", true, "doctor performs no DNS, HTTP, TLS, or other network probes"));
    assert(checks_view(r@) =~= health_checks_of(*facts));
    r
}

/// How many of the checks failed.
pub open spec fn failed_count(s: Seq<(Seq<char>, bool, Seq<char>)>) -> nat
    decreases s.len(),
{
    if s.len() == 0 {
        0
    } else {
        failed_count(s.drop_last()) + if s.last().1 {
            0nat
        } else {
            1nat
        }
    }
}

/// The tally of a health report.
#[derive(Debug, Clone, Copy, PartialEq, Eq, Structural)]
pub struct HealthCounts {
    pub total: usize,
    pub passed: usize,
    pub failed: usize,
}

impl HealthCounts {
    /// The report is healthy when no check failed.
    pub fn ok(&self) -> (r: bool)
        ensures
            r == (self.failed == 0),
    {
        self.failed == 0
    }
}

proof fn lemma_failed_count_bounded(s: Seq<(Seq<char>, bool, Seq<char>)>)
    ensures
        failed_count(s) <= s.len(),
    decreases s.len(),
{
    if s.len() > 0 {
        lemma_failed_count_bounded(s.drop_last());
    }
}

/// Count the checks, the passed ones and the failed ones.
pub fn health_counts(checks: &Vec<HealthCheck>) -> (r: HealthCounts)
    ensures
        r.total == checks@.len(),
        r.failed == failed_count(checks_view(checks@)),
        r.passed == r.total - r.failed,
{
    let ghost all = checks_view(checks@);
    let mut failed: usize = 0;
    let mut i: usize = 0;
    while i < checks.len()
        invariant
            i <= checks@.len(),
            all == checks_view(checks@),
            failed == failed_count(all.take(i as int)),
            failed <= i,
        decreases checks@.len() - i,
    {
        assert(all.take(i + 1).drop_last() =~= all.take(i as int));
        if !checks[i].ok {
            failed = failed + 1;
        }
        i = i + 1;
    }
    assert(all.take(checks@.len() as int) =~= all);
    HealthCounts { total: checks.len(), passed: checks.len() - failed, failed }
}

/// The one-screen health report.
pub open spec fn health_summary_text(counts: HealthCounts) -> Seq<char> {
    "assess doctor health: "@ + (if counts.failed == 0 {
        "ok"@
    } else {
        "unhealthy"@
    }) + "\nread_only=true\nfixers=0\nchecks="@ + decimal_text(counts.passed as nat) + "/"@
        + decimal_text(counts.total as nat)
}

pub fn health_summary(counts: &HealthCounts) -> (r: String)
    ensures
        r@ == health_summary_text(*counts),
{
    let mut r = owned("assess doctor health: ");
    if counts.ok() {
        push_str(&mut r, "ok");
    } else {
        push_str(&mut r, "unhealthy");
    }
    push_str(&mut r, "\nread_only=true\nfixers=0\nchecks=");
    push_decimal(&mut r, counts.passed as u64);
    push_str(&mut r, "/");
    push_decimal(&mut r, counts.total as u64);
    r
}

/// The triage score: full marks for a healthy report, none otherwise.
pub fn triage_score(ok: bool) -> (r: u8)
    ensures
        r == (if ok {
            100u8
        } else {
            0u8
        }),
{
    if ok {
        100
    } else {
        0
    }
}

pub const CAPABILITIES_TEXT: &'static str = "assess doctor capabilities\nread_only=true\nfixers=0\ncommands=health,capabilities,robot-docs,--robot-triage";

/// Concise machine-oriented usage notes.
pub fn robot_docs_text() -> (r: &'static str)
    ensures
        r@ == ROBOT_DOCS@,
{
    ROBOT_DOCS
}

pub const ROBOT_DOCS: &'static str = "assess doctor robot-docs
contract: cmdrvl.read_only_doctor.v1
commands:
  assess doctor health --json
  assess doctor capabilities --json
  assess doctor --robot-triage
read_only:
  - does not read stdin, artifacts, policies, schemas from disk, or witness ledgers
  - does not construct bundles, evaluate policy rules, append witness records, create directories, or contact providers
  - implicit policy fallback is ~/.cmdrvl/config/assess/policies; implicit witness fallback is ~/.cmdrvl/state/witness/witness.jsonl
fix_mode:
  - no --fix surface is implemented in this release
next_steps:
  - use assess --describe for the full operator manifest
  - use assess --schema for the decision artifact schema";

/// A doctor command as the capabilities report lists it.
#[derive(Debug, Clone, PartialEq, Eq)]
pub struct DoctorCommandInfo {
    pub name: String,
    pub usage: String,
    pub output_schema: String,
    pub description: String,
}

pub open spec fn command_info_view(c: DoctorCommandInfo) -> (Seq<char>, Seq<char>, Seq<char>, Seq<char>) {
    (c.name@, c.usage@, c.output_schema@, c.description@)
}

pub open spec fn doctor_commands_of() -> Seq<(Seq<char>, Seq<char>, Seq<char>, Seq<char>)> {
    seq![
        (
            "health"@,
            "assess doctor health --json"@,
            HEALTH_SCHEMA@,
            "Report compiled manifest, embedded schema, and read-only contract health"@,
        ),
        (
            "capabilities"@,
            "assess doctor capabilities --json"@,
            CAPABILITIES_SCHEMA@,
            "Describe doctor commands, exit codes, side-effect boundaries, and disabled fixers"@,
        ),
        (
            "robot-docs"@,
            "assess doctor robot-docs"@,
            "text/plain"@,
            "Emit concise machine-oriented usage notes"@,
        ),
        (
            "robot-triage"@,
            "assess doctor --robot-triage"@,
            TRIAGE_SCHEMA@,
            "Emit a compact triage report for automation"@,
        ),
    ]
}

fn command_info(name: &str, usage: &str, output_schema: &str, description: &str) -> (r:
    DoctorCommandInfo)
    ensures
        command_info_view(r) == (name@, usage@, output_schema@, description@),
{
    DoctorCommandInfo {
        name: owned(name),
        usage: owned(usage),
        output_schema: owned(output_schema),
        description: owned(description),
    }
}

/// The doctor commands, in the order the capabilities report lists them.
pub fn doctor_commands() -> (r: Vec<DoctorCommandInfo>)
    ensures
        r@.map_values(|c: DoctorCommandInfo| command_info_view(c)) == doctor_commands_of(),
{
    let mut r: Vec<DoctorCommandInfo> = Vec::new();
    r.push(
        command_info(
            "health",
            "assess doctor health --json",
            HEALTH_SCHEMA,
            "Report compiled manifest, embedded schema, and read-only contract health",
        ),
    );
    r.push(
        command_info(
            "capabilities",
            "assess doctor capabilities --json",
            CAPABILITIES_SCHEMA,
            "Describe doctor commands, exit codes, side-effect boundaries, and disabled fixers",
        ),
    );
    r.push(
        command_info(
            "robot-docs",
            "assess doctor robot-docs",
            "text/plain",
            "Emit concise machine-oriented usage notes",
        ),
    );
    r.push(
        command_info(
            "robot-triage",
            "assess doctor --robot-triage",
            TRIAGE_SCHEMA,
            "Emit a compact triage report for automation",
        ),
    );
    assert(r@.map_values(|c: DoctorCommandInfo| command_info_view(c)) =~= doctor_commands_of());
    r
}

/// A label and the text that goes with it (a usage line and what it is
/// for, an exit code and its meaning, a location name and its path).
#[derive(Debug, Clone, PartialEq, Eq)]
pub struct LabelledText {
    pub label: String,
    pub text: String,
}

pub open spec fn note_view(n: LabelledText) -> (Seq<char>, Seq<char>) {
    (n.label@, n.text@)
}

pub open spec fn agent_entrypoints_of() -> Seq<(Seq<char>, Seq<char>)> {
    seq![
        ("assess --robot-triage"@, "Read-only machine triage of the installed binary"@),
        ("assess capabilities --json"@, "Read-only capabilities contract"@),
        ("assess robot-docs guide"@, "Concise machine-oriented usage notes"@),
    ]
}

fn note(label: &str, text: &str) -> (r: LabelledText)
    ensures
        note_view(r) == (label@, text@),
{
    LabelledText { label: owned(label), text: owned(text) }
}

/// The entry points an agent should start from, first the triage.
pub fn agent_entrypoints() -> (r: Vec<LabelledText>)
    ensures
        r@.map_values(|n: LabelledText| note_view(n)) == agent_entrypoints_of(),
{
    let mut r: Vec<LabelledText> = Vec::new();
    r.push(note("assess --robot-triage", "Read-only machine triage of the installed binary"));
    r.push(note("assess capabilities --json", "Read-only capabilities contract"));
    r.push(note("assess robot-docs guide", "Concise machine-oriented usage notes"));
    assert(r@.map_values(|n: LabelledText| note_view(n)) =~= agent_entrypoints_of());
    r
}

/// What each doctor exit code means.
pub open spec fn exit_code_notes_of() -> Seq<(Seq<char>, Seq<char>)> {
    seq![
        ("0"@, "doctor report emitted successfully"@),
        ("1"@, "reserved for future unhealthy read-only findings"@),
        ("2"@, "CLI usage error or refusal"@),
    ]
}

pub fn exit_code_notes() -> (r: Vec<LabelledText>)
    ensures
        r@.map_values(|n: LabelledText| note_view(n)) == exit_code_notes_of(),
{
    let mut r: Vec<LabelledText> = Vec::new();
    r.push(note("0", "doctor report emitted successfully"));
    r.push(note("1", "reserved for future unhealthy read-only findings"));
    r.push(note("2", "CLI usage error or refusal"));
    assert(r@.map_values(|n: LabelledText| note_view(n)) =~= exit_code_notes_of());
    r
}

/// The side effects the doctor declares, every one of them absent.
pub open spec fn side_effect_names_of() -> Seq<Seq<char>> {
    seq![
        "reads_stdin"@,
        "reads_artifact_files"@,
        "reads_policy_files"@,
        "validates_policy"@,
        "constructs_bundle"@,
        "evaluates_rules"@,
        "renders_decision"@,
        "queries_witness_ledger"@,
        "opens_witness_ledger"@,
        "appends_witness_ledger"@,
        "creates_witness_directory"@,
        "writes_witness_ledger"@,
        "writes_migration_logs"@,
        "writes_deprecation_notices"@,
        "writes_doctor_artifacts"@,
        "uses_network"@,
        "changes_cwd"@,
        "rewrites_operator_manifest"@,
    ]
}

pub fn side_effect_names() -> (r: Vec<&'static str>)
    ensures
        r@.map_values(|s: &'static str| s@) == side_effect_names_of(),
{
    let mut r: Vec<&'static str> = Vec::new();
    r.push("reads_stdin");
    r.push("reads_artifact_files");
    r.push("reads_policy_files");
    r.push("validates_policy");
    r.push("constructs_bundle");
    r.push("evaluates_rules");
    r.push("renders_decision");
    r.push("queries_witness_ledger");
    r.push("opens_witness_ledger");
    r.push("appends_witness_ledger");
    r.push("creates_witness_directory");
    r.push("writes_witness_ledger");
    r.push("writes_migration_logs");
    r.push("writes_deprecation_notices");
    r.push("writes_doctor_artifacts");
    r.push("uses_network");
    r.push("changes_cwd");
    r.push("rewrites_operator_manifest");
    assert(r@.map_values(|s: &'static str| s@) =~= side_effect_names_of());
    r
}

pub open spec fn next_steps_of() -> Seq<Seq<char>> {
    seq![
        "Use assess --describe for the full compiled operator contract."@,
        "Use assess --schema for the assess.v0 decision output schema."@,
        "Do not expect assess doctor to read artifacts, load policies, evaluate rules, query or append witness records, or emit portable evidence."@,
    ]
}

/// The steps the triage report recommends.
pub fn recommended_next_steps() -> (r: Vec<&'static str>)
    ensures
        r@.map_values(|s: &'static str| s@) == next_steps_of(),
{
    let mut r: Vec<&'static str> = Vec::new();
    r.push("Use assess --describe for the full compiled operator contract.");
    r.push("Use assess --schema for the assess.v0 decision output schema.");
    r.push(
        "Do not expect assess doctor to read artifacts, load policies, evaluate rules, query or append witness records, or emit portable evidence.",
    );
    assert(r@.map_values(|s: &'static str| s@) =~= next_steps_of());
    r
}

/// The health report: every check with its tally, whether all passed, the
/// locations it names, and the read-only contract (no fixers).
#[derive(Debug, Clone, PartialEq, Eq)]
pub struct HealthReport {
    pub checks: Vec<HealthCheck>,
    pub counts: HealthCounts,
    pub ok: bool,
    pub read_only: bool,
    pub observed_paths: Vec<LabelledText>,
    pub fixers: Vec<String>,
}

/// The tally of the health checks over these facts.
pub open spec fn counts_of(facts: HealthFacts) -> (nat, nat, nat) {
    let checks = health_checks_of(facts);
    (checks.len(), (checks.len() - failed_count(checks)) as nat, failed_count(checks))
}

/// Whether every health check over these facts passed.
pub open spec fn healthy(facts: HealthFacts) -> bool {
    failed_count(health_checks_of(facts)) == 0
}

/// Build the health report for these facts and this environment.
pub fn health_report(facts: &HealthFacts, env: &EnvSnapshot) -> (r: HealthReport)
    ensures
        checks_view(r.checks@) == health_checks_of(*facts),
        (r.counts.total as nat, r.counts.passed as nat, r.counts.failed as nat) == counts_of(*facts),
        r.ok == healthy(*facts),
        r.read_only,
        r.observed_paths@.map_values(|n: LabelledText| note_view(n)) == observed_paths_of(*env),
        r.fixers@.len() == 0,
{
    let checks = health_checks(facts);
    proof {
        lemma_failed_count_bounded(checks_view(checks@));
    }
    let counts = health_counts(&checks);
    let ok = counts.ok();
    HealthReport {
        checks,
        counts,
        ok,
        read_only: true,
        observed_paths: observed_paths(env),
        fixers: Vec::new(),
    }
}

/// The triage report: the checks, whether all passed, the score, the
/// read-only contract (no fixers) and the recommended next steps.
#[derive(Debug, Clone, PartialEq, Eq)]
pub struct TriageReport {
    pub checks: Vec<HealthCheck>,
    pub ok: bool,
    pub score: u8,
    pub read_only: bool,
    pub fixers: Vec<String>,
    pub next_steps: Vec<&'static str>,
}

/// Build the triage report for these facts.
pub fn triage_report(facts: &HealthFacts) -> (r: TriageReport)
    ensures
        checks_view(r.checks@) == health_checks_of(*facts),
        r.ok == healthy(*facts),
        r.score == (if healthy(*facts) {
            100u8
        } else {
            0u8
        }),
        r.read_only,
        r.fixers@.len() == 0,
        r.next_steps@.map_values(|s: &'static str| s@) == next_steps_of(),
{
    let checks = health_checks(facts);
    let counts = health_counts(&checks);
    let ok = counts.ok();
    TriageReport {
        checks,
        ok,
        score: triage_score(ok),
        read_only: true,
        fixers: Vec::new(),
        next_steps: recommended_next_steps(),
    }
}

/// The capabilities report: what the doctor offers and promises, read-only
/// and with no fixers.
#[derive(Debug, Clone, PartialEq, Eq)]
pub struct CapabilitiesReport {
    pub read_only: bool,
    pub agent_entrypoints: Vec<LabelledText>,
    pub commands: Vec<DoctorCommandInfo>,
    pub exit_codes: Vec<LabelledText>,
    pub side_effects: Vec<&'static str>,
    pub fixers: Vec<String>,
}

/// Build the capabilities report.
pub fn capabilities_report() -> (r: CapabilitiesReport)
    ensures
        r.read_only,
        r.agent_entrypoints@.map_values(|n: LabelledText| note_view(n)) == agent_entrypoints_of(),
        r.commands@.map_values(|c: DoctorCommandInfo| command_info_view(c)) == doctor_commands_of(),
        r.exit_codes@.map_values(|n: LabelledText| note_view(n)) == exit_code_notes_of(),
        r.side_effects@.map_values(|s: &'static str| s@) == side_effect_names_of(),
        r.fixers@.len() == 0,
{
    CapabilitiesReport {
        read_only: true,
        agent_entrypoints: agent_entrypoints(),
        commands: doctor_commands(),
        exit_codes: exit_code_notes(),
        side_effects: side_effect_names(),
        fixers: Vec::new(),
    }
}

/// The doctor's JSON reports as the caller serialised them, and the facts
/// its health checks ran on.
#[derive(Debug, Clone, PartialEq, Eq)]
pub struct DoctorReports {
    pub facts: HealthFacts,
    pub health_json: String,
    pub capabilities_json: String,
    pub triage_json: String,
}

/// What a doctor invocation prints.
pub open spec fn doctor_output(invocation: DoctorInvocation, reports: DoctorReports) -> Seq<char> {
    match invocation.command {
        DoctorInvocationCommand::Health => if invocation.json {
            reports.health_json@
        } else {
            let checks = health_checks_of(reports.facts);
            health_summary_text(
                HealthCounts {
                    total: checks.len() as usize,
                    passed: (checks.len() - failed_count(checks)) as usize,
                    failed: failed_count(checks) as usize,
                },
            )
        },
        DoctorInvocationCommand::Capabilities => if invocation.json {
            reports.capabilities_json@
        } else {
            CAPABILITIES_TEXT@
        },
        DoctorInvocationCommand::RobotDocs => ROBOT_DOCS@,
        DoctorInvocationCommand::RobotTriage => reports.triage_json@,
    }
}

/// Answer a doctor invocation. The doctor always exits 0.
pub fn execute(invocation: DoctorInvocation, reports: &DoctorReports) -> (r: Execution)
    ensures
        r.exit_code == 0,
        r.stdout@ == doctor_output(invocation, *reports),
{
    match invocation.command {
        DoctorInvocationCommand::Health => {
            if invocation.json {
                Execution::new(AssessExit::Proceed, reports.health_json.as_str())
            } else {
                let checks = health_checks(&reports.facts);
                proof {
                    lemma_failed_count_bounded(checks_view(checks@));
                }
                let counts = health_counts(&checks);
                let text = health_summary(&counts);
                Execution::new(AssessExit::Proceed, text.as_str())
            }
        },
        DoctorInvocationCommand::Capabilities => {
            if invocation.json {
                Execution::new(AssessExit::Proceed, reports.capabilities_json.as_str())
            } else {
                Execution::new(AssessExit::Proceed, CAPABILITIES_TEXT)
            }
        },
        DoctorInvocationCommand::RobotDocs => Execution::new(AssessExit::Proceed, robot_docs_text()),
        DoctorInvocationCommand::RobotTriage => Execution::new(
            AssessExit::Proceed,
            reports.triage_json.as_str(),
        ),
    }
}


/// When the compiled-in documents are intact (every document parses, the
/// manifest carries this package's version, declares the `assess.v0`
/// output and the doctor), every health check passes.
pub proof fn law_health_ok_when_documents_intact(facts: HealthFacts)
    requires
        facts.manifest_embedded,
        facts.manifest_version@ == crate::PACKAGE_VERSION@,
        facts.output_schema@ == "assess.v0"@,
        facts.doctor_declared,
        facts.assess_schema_embedded,
        facts.policy_schema_embedded,
    ensures
        failed_count(health_checks_of(facts)) == 0,
{
    reveal_with_fuel(failed_count, 12);
}


/// The locations the health report names, and where each is (the caller's
/// environment decides the policy directory and the ledger).
pub open spec fn observed_paths_of(env: EnvSnapshot) -> Seq<(Seq<char>, Seq<char>)> {
    seq![
        ("operator_manifest"@, "embedded:operator.json"@),
        ("assess_schema"@, "embedded:schemas/assess.v0.schema.json"@),
        ("policy_schema"@, "embedded:schemas/policy.v0.schema.json"@),
        ("policy_dir"@, canonical_policy_dir_of(env)),
        ("witness_ledger"@, default_witness_of(env)),
    ]
}

pub fn observed_paths(env: &EnvSnapshot) -> (r: Vec<LabelledText>)
    ensures
        r@.map_values(|n: LabelledText| note_view(n)) == observed_paths_of(*env),
{
    let mut r: Vec<LabelledText> = Vec::new();
    r.push(note("operator_manifest", "embedded:operator.json"));
    r.push(note("assess_schema", "embedded:schemas/assess.v0.schema.json"));
    r.push(note("policy_schema", "embedded:schemas/policy.v0.schema.json"));
    r.push(LabelledText { label: owned("policy_dir"), text: canonical_policy_dir(env) });
    r.push(LabelledText { label: owned("witness_ledger"), text: witness_ledger_path(env) });
    assert(r@.map_values(|n: LabelledText| note_view(n)) =~= observed_paths_of(*env));
    r
}
} // verus!
