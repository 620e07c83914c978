pub mod args;
pub mod exit;

use vstd::prelude::*;

use crate::output::{RenderMode, WitnessStatus};
use crate::refusal::payload::{EnvelopeView, new_envelope};
use crate::refusal::{DetailField, RefusalCode, RefusalEnvelope};
use crate::text::owned;

pub use args::{
    CapabilitiesArgs, Cli, Command, DoctorArgs, DoctorCommand, RobotDocsArgs, RobotDocsCommand,
    RunRenderMode, WitnessArgs, WitnessCommand, WitnessCount, WitnessLast, WitnessQuery,
};
pub use exit::AssessExit;

verus! {

/// What a command line asks `assess` to do.
#[derive(Debug, Clone, PartialEq, Eq)]
pub enum Route {
    Describe,
    Schema,
    Version,
    /// A bare invocation: print the long help.
    Help,
    Doctor(DoctorInvocation),
    Run(RunCommand),
    Witness(WitnessInvocation),
}

/// A decision run over a set of artifacts.
#[derive(Debug, Clone, PartialEq, Eq)]
pub struct RunCommand {
    pub artifacts: Vec<String>,
    pub policy_selector: PolicySelector,
    pub render_mode: RenderMode,
    pub no_witness: bool,
}

/// How the policy of a run is chosen.
#[derive(Debug, Clone, PartialEq, Eq)]
pub enum PolicySelector {
    Path(String),
    Id(String),
}

#[derive(Debug, Clone, PartialEq, Eq)]
pub struct WitnessInvocation {
    pub command: WitnessInvocationCommand,
    pub json: bool,
}

#[derive(Debug, Clone, PartialEq, Eq)]
pub enum WitnessInvocationCommand {
    Query { filters: Vec<String> },
    Last,
    Count { filters: Vec<String> },
}

/// A read-only doctor report request.
#[derive(Debug, Clone, Copy, PartialEq, Eq, Structural)]
pub struct DoctorInvocation {
    pub command: DoctorInvocationCommand,
    pub json: bool,
}

#[derive(Debug, Clone, Copy, PartialEq, Eq, Structural)]
pub enum DoctorInvocationCommand {
    Health,
    Capabilities,
    RobotDocs,
    RobotTriage,
}

/// The kinds of command-line usage error that routing reports.
#[derive(Debug, Clone, Copy, PartialEq, Eq, Structural)]
pub enum UsageErrorKind {
    MissingRequiredArgument,
    ArgumentConflict,
    MissingSubcommand,
}

/// A command-line usage error: its kind and its message.
#[derive(Debug, Clone, PartialEq, Eq)]
pub struct UsageError {
    pub kind: UsageErrorKind,
    pub message: String,
}

/// Why a command line does not route.
#[derive(Debug, Clone, PartialEq, Eq)]
pub enum RouteError {
    Usage(UsageError),
    Refusal { refusal: RefusalEnvelope, render_mode: RenderMode, witness_status: WitnessStatus },
}

/// The view of a routing error.
pub enum RouteErrorView {
    Usage(UsageErrorKind, Seq<char>),
    Refusal(EnvelopeView, RenderMode, WitnessStatus),
}

pub open spec fn route_error_view(e: RouteError) -> RouteErrorView {
    match e {
        RouteError::Usage(u) => RouteErrorView::Usage(u.kind, u.message@),
        RouteError::Refusal { refusal, render_mode, witness_status } => RouteErrorView::Refusal(
            refusal@,
            render_mode,
            witness_status,
        ),
    }
}

pub open spec fn route_result_view(r: Result<Route, RouteError>) -> Result<Route, RouteErrorView> {
    match r {
        Ok(route) => Ok(route),
        Err(e) => Err(route_error_view(e)),
    }
}

/// The output mode of a run: `--json` wins, then `--render`, else human.
pub open spec fn render_mode_of(json: bool, render: Option<RunRenderMode>) -> RenderMode {
    if json {
        RenderMode::Json
    } else {
        match render {
            Some(RunRenderMode::Summary) => RenderMode::Summary,
            Some(RunRenderMode::SummaryTsv) => RenderMode::SummaryTsv,
            None => RenderMode::Human,
        }
    }
}

/// The witness status reported with a refusal.
pub open spec fn refusal_status_of(no_witness: bool) -> WitnessStatus {
    if no_witness {
        WitnessStatus::Disabled
    } else {
        WitnessStatus::NotWritten
    }
}

/// The refusal for a run that names both a policy path and a policy ID.
pub open spec fn ambiguous_policy_view(policy: Seq<char>, policy_id: Seq<char>) -> EnvelopeView {
    EnvelopeView {
        detail: seq![("policy"@, policy), ("policy_id"@, policy_id)],
        ..new_envelope(
            RefusalCode::AmbiguousPolicy,
            "ambiguous policy selector: provide either --policy or --policy-id, not both"@,
        )
    }
}

pub open spec fn missing_artifacts_message() -> Seq<char> {
    "the following required arguments were not provided:\n  <ARTIFACT>..."@
}

pub open spec fn missing_policy_message() -> Seq<char> {
    "the following required arguments were not provided:\n  --policy <POLICY>\n\nor:\n  --policy-id <POLICY_ID>"@
}

pub open spec fn missing_doctor_command_message() -> Seq<char> {
    "`assess doctor` requires a subcommand: health, capabilities, robot-docs, or --robot-triage"@
}

/// The route of a decision run.
pub open spec fn expected_run(cli: Cli) -> Result<Route, RouteErrorView> {
    if cli.artifacts@.len() == 0 {
        Err(RouteErrorView::Usage(UsageErrorKind::MissingRequiredArgument, missing_artifacts_message()))
    } else {
        match (cli.policy, cli.policy_id) {
            (Some(p), Some(i)) => Err(
                RouteErrorView::Refusal(
                    ambiguous_policy_view(p@, i@),
                    render_mode_of(cli.json, cli.render),
                    refusal_status_of(cli.no_witness),
                ),
            ),
            (Some(p), None) => Ok(
                Route::Run(
                    RunCommand {
                        artifacts: cli.artifacts,
                        policy_selector: PolicySelector::Path(p),
                        render_mode: render_mode_of(cli.json, cli.render),
                        no_witness: cli.no_witness,
                    },
                ),
            ),
            (None, Some(i)) => Ok(
                Route::Run(
                    RunCommand {
                        artifacts: cli.artifacts,
                        policy_selector: PolicySelector::Id(i),
                        render_mode: render_mode_of(cli.json, cli.render),
                        no_witness: cli.no_witness,
                    },
                ),
            ),
            (None, None) => Err(
                RouteErrorView::Usage(UsageErrorKind::MissingRequiredArgument, missing_policy_message()),
            ),
        }
    }
}

pub open spec fn invocation_command(c: WitnessCommand) -> WitnessInvocationCommand {
    match c {
        WitnessCommand::Query(q) => WitnessInvocationCommand::Query { filters: q.filters },
        WitnessCommand::Last(_) => WitnessInvocationCommand::Last,
        WitnessCommand::Count(c) => WitnessInvocationCommand::Count { filters: c.filters },
    }
}

/// The route of `assess witness ...`: run flags are refused, in this order.
pub open spec fn expected_witness(cli: Cli, w: WitnessArgs) -> Result<Route, RouteErrorView> {
    if cli.artifacts@.len() != 0 {
        Err(
            RouteErrorView::Usage(
                UsageErrorKind::ArgumentConflict,
                "artifact arguments are not accepted with `assess witness`"@,
            ),
        )
    } else if cli.policy is Some || cli.policy_id is Some {
        Err(
            RouteErrorView::Usage(
                UsageErrorKind::ArgumentConflict,
                "policy selectors are not accepted with `assess witness`"@,
            ),
        )
    } else if cli.no_witness {
        Err(
            RouteErrorView::Usage(
                UsageErrorKind::ArgumentConflict,
                "`--no-witness` cannot be used with `assess witness`"@,
            ),
        )
    } else if cli.render is Some {
        Err(
            RouteErrorView::Usage(
                UsageErrorKind::ArgumentConflict,
                "`--render` is not supported with `assess witness`"@,
            ),
        )
    } else {
        Ok(
            Route::Witness(
                WitnessInvocation { command: invocation_command(w.command), json: cli.json },
            ),
        )
    }
}

/// The route of `assess doctor ...`.
pub open spec fn expected_doctor(d: DoctorArgs, json: bool) -> Result<Route, RouteErrorView> {
    if d.robot_triage {
        Ok(
            Route::Doctor(
                DoctorInvocation { command: DoctorInvocationCommand::RobotTriage, json: true },
            ),
        )
    } else {
        match d.command {
            Some(DoctorCommand::Health) => Ok(
                Route::Doctor(DoctorInvocation { command: DoctorInvocationCommand::Health, json }),
            ),
            Some(DoctorCommand::Capabilities) => Ok(
                Route::Doctor(
                    DoctorInvocation { command: DoctorInvocationCommand::Capabilities, json },
                ),
            ),
            Some(DoctorCommand::RobotDocs) => Ok(
                Route::Doctor(DoctorInvocation { command: DoctorInvocationCommand::RobotDocs, json }),
            ),
            None => Err(
                RouteErrorView::Usage(
                    UsageErrorKind::MissingSubcommand,
                    missing_doctor_command_message(),
                ),
            ),
        }
    }
}

/// A command line with no subcommand and none of the run inputs.
pub open spec fn is_bare(cli: Cli) -> bool {
    &&& cli.artifacts@.len() == 0
    &&& cli.policy is None
    &&& cli.policy_id is None
    &&& cli.render is None
    &&& !cli.no_witness
}

/// Where a command line goes. The printing flags come first, in the order
/// describe, schema, version, robot triage; then the subcommand; a bare
/// invocation prints help, or the capabilities report with `--json`.
pub open spec fn expected_route(cli: Cli) -> Result<Route, RouteErrorView> {
    if cli.describe {
        Ok(Route::Describe)
    } else if cli.schema {
        Ok(Route::Schema)
    } else if cli.version {
        Ok(Route::Version)
    } else if cli.robot_triage {
        Ok(
            Route::Doctor(
                DoctorInvocation { command: DoctorInvocationCommand::RobotTriage, json: true },
            ),
        )
    } else {
        match cli.command {
            Some(Command::Witness(w)) => expected_witness(cli, w),
            Some(Command::Capabilities(_)) => Ok(
                Route::Doctor(
                    DoctorInvocation {
                        command: DoctorInvocationCommand::Capabilities,
                        json: cli.json,
                    },
                ),
            ),
            Some(Command::RobotDocs(_)) => Ok(
                Route::Doctor(
                    DoctorInvocation { command: DoctorInvocationCommand::RobotDocs, json: cli.json },
                ),
            ),
            Some(Command::Doctor(d)) => expected_doctor(d, cli.json),
            None => if is_bare(cli) {
                if cli.json {
                    Ok(
                        Route::Doctor(
                            DoctorInvocation {
                                command: DoctorInvocationCommand::Capabilities,
                                json: true,
                            },
                        ),
                    )
                } else {
                    Ok(Route::Help)
                }
            } else {
                expected_run(cli)
            },
        }
    }
}

fn usage(kind: UsageErrorKind, message: &str) -> (e: RouteError)
    ensures
        route_error_view(e) == RouteErrorView::Usage(kind, message@),
{
    RouteError::Usage(UsageError { kind, message: owned(message) })
}

/// Decide where a parsed command line goes.
pub fn route(cli: Cli) -> (r: Result<Route, RouteError>)
    ensures
        route_result_view(r) == expected_route(cli),
{
    if cli.describe {
        return Ok(Route::Describe);
    }
    if cli.schema {
        return Ok(Route::Schema);
    }
    if cli.version {
        return Ok(Route::Version);
    }
    if cli.robot_triage {
        return Ok(
            Route::Doctor(
                DoctorInvocation { command: DoctorInvocationCommand::RobotTriage, json: true },
            ),
        );
    }
    let Cli {
        artifacts,
        policy,
        policy_id,
        json,
        render,
        no_witness,
        describe: _,
        schema: _,
        version: _,
        robot_triage: _,
        command,
    } = cli;
    match command {
        Some(Command::Witness(witness)) => route_witness(
            artifacts,
            policy,
            policy_id,
            no_witness,
            json,
            render,
            witness,
        ),
        Some(Command::Capabilities(_)) => Ok(
            Route::Doctor(
                DoctorInvocation { command: DoctorInvocationCommand::Capabilities, json },
            ),
        ),
        Some(Command::RobotDocs(_)) => Ok(
            Route::Doctor(DoctorInvocation { command: DoctorInvocationCommand::RobotDocs, json }),
        ),
        Some(Command::Doctor(doctor)) => route_doctor(doctor, json),
        None => {
            let bare = artifacts.len() == 0 && policy.is_none() && policy_id.is_none()
                && render.is_none() && !no_witness;
            if bare {
                if json {
                    Ok(
                        Route::Doctor(
                            DoctorInvocation {
                                command: DoctorInvocationCommand::Capabilities,
                                json: true,
                            },
                        ),
                    )
                } else {
                    Ok(Route::Help)
                }
            } else {
                route_run(artifacts, policy, policy_id, json, render, no_witness)
            }
        },
    }
}

fn route_doctor(doctor: DoctorArgs, json: bool) -> (r: Result<Route, RouteError>)
    ensures
        route_result_view(r) == expected_doctor(doctor, json),
{
    if doctor.robot_triage {
        return Ok(
            Route::Doctor(
                DoctorInvocation { command: DoctorInvocationCommand::RobotTriage, json: true },
            ),
        );
    }
    match doctor.command {
        Some(DoctorCommand::Health) => Ok(
            Route::Doctor(DoctorInvocation { command: DoctorInvocationCommand::Health, json }),
        ),
        Some(DoctorCommand::Capabilities) => Ok(
            Route::Doctor(DoctorInvocation { command: DoctorInvocationCommand::Capabilities, json }),
        ),
        Some(DoctorCommand::RobotDocs) => Ok(
            Route::Doctor(DoctorInvocation { command: DoctorInvocationCommand::RobotDocs, json }),
        ),
        None => Err(
            usage(
                UsageErrorKind::MissingSubcommand,
                "`assess doctor` requires a subcommand: health, capabilities, robot-docs, or --robot-triage",
            ),
        ),
    }
}

fn route_run(
    artifacts: Vec<String>,
    policy: Option<String>,
    policy_id: Option<String>,
    json: bool,
    render: Option<RunRenderMode>,
    no_witness: bool,
) -> (r: Result<Route, RouteError>)
    ensures
        forall|cli: Cli|
            cli.artifacts == artifacts && cli.policy == policy && cli.policy_id == policy_id
                && cli.json == json && cli.render == render && cli.no_witness == no_witness
                ==> route_result_view(r) == #[trigger] expected_run(cli),
{
    if artifacts.len() == 0 {
        return Err(
            usage(
                UsageErrorKind::MissingRequiredArgument,
                "the following required arguments were not provided:\n  <ARTIFACT>...",
            ),
        );
    }
    let render_mode = render_mode(json, render);
    let witness_status = refusal_witness_status(no_witness);
    match policy {
        Some(policy) => match policy_id {
            Some(policy_id) => {
                let ghost p = policy@;
                let ghost i = policy_id@;
                let mut detail: Vec<DetailField> = Vec::new();
                detail.push(DetailField { key: owned("policy"), value: policy });
                detail.push(DetailField { key: owned("policy_id"), value: policy_id });
                let refusal = RefusalEnvelope::new(
                    RefusalCode::AmbiguousPolicy,
                    "ambiguous policy selector: provide either --policy or --policy-id, not both",
                ).with_detail(detail);
                assert(refusal@ == ambiguous_policy_view(p, i)) by {
                    assert(crate::refusal::payload::detail_view(detail@) =~= seq![
                        ("policy"@, p),
                        ("policy_id"@, i),
                    ]);
                }
                Err(RouteError::Refusal { refusal, render_mode, witness_status })
            },
            None => Ok(
                Route::Run(
                    RunCommand {
                        artifacts,
                        policy_selector: PolicySelector::Path(policy),
                        render_mode,
                        no_witness,
                    },
                ),
            ),
        },
        None => match policy_id {
            Some(policy_id) => Ok(
                Route::Run(
                    RunCommand {
                        artifacts,
                        policy_selector: PolicySelector::Id(policy_id),
                        render_mode,
                        no_witness,
                    },
                ),
            ),
            None => Err(
                usage(
                    UsageErrorKind::MissingRequiredArgument,
                    "the following required arguments were not provided:\n  --policy <POLICY>\n\nor:\n  --policy-id <POLICY_ID>",
                ),
            ),
        },
    }
}

fn route_witness(
    artifacts: Vec<String>,
    policy: Option<String>,
    policy_id: Option<String>,
    no_witness: bool,
    json: bool,
    render: Option<RunRenderMode>,
    witness: WitnessArgs,
) -> (r: Result<Route, RouteError>)
    ensures
        forall|cli: Cli|
            cli.artifacts == artifacts && cli.policy == policy && cli.policy_id == policy_id
                && cli.json == json && cli.render == render && cli.no_witness == no_witness
                ==> route_result_view(r) == #[trigger] expected_witness(cli, witness),
{
    if artifacts.len() != 0 {
        return Err(
            usage(
                UsageErrorKind::ArgumentConflict,
                "artifact arguments are not accepted with `assess witness`",
            ),
        );
    }
    if policy.is_some() || policy_id.is_some() {
        return Err(
            usage(
                UsageErrorKind::ArgumentConflict,
                "policy selectors are not accepted with `assess witness`",
            ),
        );
    }
    if no_witness {
        return Err(
            usage(
                UsageErrorKind::ArgumentConflict,
                "`--no-witness` cannot be used with `assess witness`",
            ),
        );
    }
    if render.is_some() {
        return Err(
            usage(
                UsageErrorKind::ArgumentConflict,
                "`--render` is not supported with `assess witness`",
            ),
        );
    }
    let command = match witness.command {
        WitnessCommand::Query(query) => WitnessInvocationCommand::Query { filters: query.filters },
        WitnessCommand::Last(_) => WitnessInvocationCommand::Last,
        WitnessCommand::Count(count) => WitnessInvocationCommand::Count { filters: count.filters },
    };
    Ok(Route::Witness(WitnessInvocation { command, json }))
}

/// The output mode of a run: `--json` wins, then `--render`, else human.
pub fn render_mode(json: bool, render: Option<RunRenderMode>) -> (m: RenderMode)
    ensures
        m == render_mode_of(json, render),
{
    if json {
        return RenderMode::Json;
    }
    match render {
        Some(RunRenderMode::Summary) => RenderMode::Summary,
        Some(RunRenderMode::SummaryTsv) => RenderMode::SummaryTsv,
        None => RenderMode::Human,
    }
}

/// The witness status a refusal reports: disabled under `--no-witness`,
/// otherwise not written.
pub fn refusal_witness_status(no_witness: bool) -> (s: WitnessStatus)
    ensures
        s == refusal_status_of(no_witness),
{
    if no_witness {
        WitnessStatus::Disabled
    } else {
        WitnessStatus::NotWritten
    }
}


/// The printing flags win over everything else on the command line, in
/// the order describe, schema, version.
pub proof fn law_printing_flags_precede_routing(cli: Cli)
    ensures
        cli.describe ==> expected_route(cli) == Ok::<Route, RouteErrorView>(Route::Describe),
        !cli.describe && cli.schema ==> expected_route(cli) == Ok::<Route, RouteErrorView>(
            Route::Schema,
        ),
        !cli.describe && !cli.schema && cli.version ==> expected_route(cli) == Ok::<
            Route,
            RouteErrorView,
        >(Route::Version),
{
}

/// A run that names both a policy path and a policy ID is refused with
/// `E_AMBIGUOUS_POLICY`, carrying both selectors, and no decision band.
pub proof fn law_both_policy_selectors_refuse(cli: Cli, policy: String, policy_id: String)
    requires
        !cli.describe && !cli.schema && !cli.version && !cli.robot_triage,
        cli.command is None,
        cli.artifacts@.len() > 0,
        cli.policy == Some(policy),
        cli.policy_id == Some(policy_id),
    ensures
        expected_route(cli) matches Err(RouteErrorView::Refusal(e, _, _)) && e.code
            == "E_AMBIGUOUS_POLICY"@ && e.decision_band is None && e.detail == seq![
            ("policy"@, policy@),
            ("policy_id"@, policy_id@),
        ],
{
}


/// How a command-line error reads: the parser's own report, a suggestion
/// when the parser has one, and the read-only entry point to try next.
pub open spec fn cli_error_text(rendered: Seq<char>, suggestion: Option<Seq<char>>) -> Seq<char> {
    crate::newline_text(rendered) + match suggestion {
        Some(s) => "did you mean `"@ + s + "`?\n"@,
        None => Seq::empty(),
    } + "next: assess capabilities --json\n"@
}

/// Format a command-line error from the parser's rendering of it and the
/// argument it suggests, if any.
pub fn format_cli_error(rendered: &str, suggestion: Option<&str>) -> (r: String)
    ensures
        r@ == cli_error_text(
            rendered@,
            match suggestion {
                Some(s) => Some(s@),
                None => None,
            },
        ),
{
    let mut r = crate::with_trailing_newline(rendered);
    match suggestion {
        Some(s) => {
            crate::text::push_str(&mut r, "did you mean `");
            crate::text::push_str(&mut r, s);
            crate::text::push_str(&mut r, "`?\n");
        },
        None => {},
    }
    crate::text::push_str(&mut r, "next: assess capabilities --json\n");
    r
}
} // verus!
