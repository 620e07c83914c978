use vstd::prelude::*;

verus! {

/// Text shown after the long help: the entry points for agents and worked
/// examples.
pub const AFTER_LONG_HELP: &'static str = "Agent entrypoints:
  assess --robot-triage
  assess capabilities --json
  assess robot-docs guide

Decision examples:
  assess shape.json rvl.json verify.json --policy policy.yaml --json
  assess shape.json rvl.json verify.json --policy-id loan_tape.monthly.v1 --render summary

Witness examples:
  assess witness last --json
  assess witness query policy=loan_tape.monthly.v1 --json
";

/// The compact renderings a run can ask for with `--render`.
#[derive(Debug, Clone, Copy, PartialEq, Eq, Structural)]
pub enum RunRenderMode {
    Summary,
    SummaryTsv,
}

/// The parsed command line of `assess`.
#[derive(Debug, Clone, PartialEq, Eq)]
pub struct Cli {
    /// Spine report artifacts included in the epistemic basis.
    pub artifacts: Vec<String>,
    /// Decision policy path.
    pub policy: Option<String>,
    /// Policy to resolve by ID.
    pub policy_id: Option<String>,
    /// Emit canonical JSON.
    pub json: bool,
    /// Compact operator summary output.
    pub render: Option<RunRenderMode>,
    /// Suppress witness ledger recording.
    pub no_witness: bool,
    /// Print the operator manifest and exit.
    pub describe: bool,
    /// Print the output schema and exit.
    pub schema: bool,
    /// Print the version and exit.
    pub version: bool,
    /// Emit read-only machine triage JSON and exit.
    pub robot_triage: bool,
    pub command: Option<Command>,
}

#[derive(Debug, Clone, PartialEq, Eq)]
pub enum Command {
    /// Read-only alias for `assess doctor capabilities`.
    Capabilities(CapabilitiesArgs),
    /// Read-only alias for `assess doctor robot-docs`.
    RobotDocs(RobotDocsArgs),
    Doctor(DoctorArgs),
    Witness(WitnessArgs),
}

#[derive(Debug, Clone, PartialEq, Eq)]
pub struct CapabilitiesArgs {}

#[derive(Debug, Clone, PartialEq, Eq)]
pub struct RobotDocsArgs {
    pub command: Option<RobotDocsCommand>,
}

#[derive(Debug, Clone, Copy, PartialEq, Eq, Structural)]
pub enum RobotDocsCommand {
    Guide,
}

#[derive(Debug, Clone, PartialEq, Eq)]
pub struct DoctorArgs {
    pub robot_triage: bool,
    pub command: Option<DoctorCommand>,
}

#[derive(Debug, Clone, Copy, PartialEq, Eq, Structural)]
pub enum DoctorCommand {
    Health,
    Capabilities,
    RobotDocs,
}

#[derive(Debug, Clone, PartialEq, Eq)]
pub struct WitnessArgs {
    pub command: WitnessCommand,
}

#[derive(Debug, Clone, PartialEq, Eq)]
pub enum WitnessCommand {
    Query(WitnessQuery),
    Last(WitnessLast),
    Count(WitnessCount),
}

#[derive(Debug, Clone, PartialEq, Eq)]
pub struct WitnessQuery {
    pub filters: Vec<String>,
}

#[derive(Debug, Clone, PartialEq, Eq)]
pub struct WitnessLast {}

#[derive(Debug, Clone, PartialEq, Eq)]
pub struct WitnessCount {
    pub filters: Vec<String>,
}

} // verus!
