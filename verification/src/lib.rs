//! `assess`: deterministic decision classification over a complete spine
//! evidence bundle. Artifacts are loaded into a bundle, a policy's ordered
//! exact-match rules assign one of four decision bands, and the result is
//! rendered for operators and agents.
pub mod bundle;
pub mod cli;
pub mod doctor;
pub mod evaluate;
pub mod order;
pub mod output;
pub mod paths;
pub mod pipeline;
pub mod policy;
pub mod refusal;
pub mod run;
pub mod text;
pub mod witness;

use vstd::prelude::*;

use cli::exit::exit_code_of;
use bundle::ArtifactSource;
use cli::{
    AssessExit, Cli, PolicySelector, Route, RouteError, RouteErrorView, UsageError, expected_route,
    route,
};
use doctor::{DoctorReports, doctor_output};
use policy::{LoadedPolicy, PolicyError};
use run::{Host, JsonDocument, host_ready, printed, refusal_printed, run_meets, witness_meets};
use witness::WitnessRecord;
use text::{chars_of, owned, push_str};

verus! {

pub const TOOL: &'static str = "assess";

/// The output contract version.
pub const VERSION: &'static str = "assess.v0";

/// The version of this package.
pub const PACKAGE_VERSION: &'static str = "0.1.0";

/// The operator manifest printed by `--describe`.
pub const OPERATOR_JSON: &'static str = "{
  \"schema_version\": \"operator.v0\",
  \"name\": \"assess\",
  \"version\": \"0.1.0\",
  \"description\": \"Deterministic decision classification over a complete spine evidence bundle\",
  \"pipeline\": {
    \"upstream\": [\"shape\", \"rvl\", \"verify\", \"benchmark\"],
    \"downstream\": [\"pack\"]
  },
  \"invocation\": {
    \"usage\": [
      \"assess <ARTIFACT>... --policy <POLICY> [OPTIONS]\",
      \"assess <ARTIFACT>... --policy-id <ID> [OPTIONS]\",
      \"assess witness <query|last|count> [OPTIONS]\",
      \"assess doctor <health|capabilities|robot-docs> [--json]\"
    ],
    \"output_schema\": \"assess.v0\"
  },
  \"options\": [
    {\"flag\": \"--policy\", \"value\": \"PATH\"},
    {\"flag\": \"--policy-id\", \"value\": \"ID\"},
    {\"flag\": \"--json\"},
    {\"flag\": \"--render\", \"values\": [\"summary\", \"summary-tsv\"]},
    {\"flag\": \"--no-witness\"},
    {\"flag\": \"--describe\"},
    {\"flag\": \"--schema\"},
    {\"flag\": \"--version\"},
    {\"flag\": \"--robot-triage\"}
  ],
  \"exit_codes\": {
    \"0\": {\"meaning\": \"PROCEED\"},
    \"1\": {\"meaning\": \"PROCEED_WITH_RISK or ESCALATE\"},
    \"2\": {\"meaning\": \"BLOCK / REFUSAL / CLI error\"}
  },
  \"refusals\": [
    {\"code\": \"E_BAD_POLICY\"},
    {\"code\": \"E_AMBIGUOUS_POLICY\"},
    {\"code\": \"E_UNKNOWN_POLICY\"},
    {\"code\": \"E_BAD_ARTIFACT\"},
    {\"code\": \"E_DUPLICATE_TOOL\"},
    {\"code\": \"E_INCOMPLETE_BASIS\"},
    {\"code\": \"E_MISSING_RULE\"}
  ],
  \"capabilities\": {
    \"formats\": [\"human\", \"json\", \"summary\", \"summary-tsv\"]
  },
  \"subcommands\": [
    {
      \"name\": \"witness\",
      \"status\": \"implemented\",
      \"current_runtime_behavior\": {\"status\": \"implemented\"}
    },
    {
      \"name\": \"doctor\",
      \"status\": \"implemented\",
      \"read_only\": true
    }
  ],
  \"notes\": [
    \"Metadata surfaces (--describe, --schema, --version) are implemented.\",
    \"Decision execution and witness execution are implemented.\",
    \"Run mode supports compact summary and TSV summary render surfaces via --render.\"
  ]
}
";

/// The JSON Schema of `assess.v0` decision output, printed by `--schema`.
pub const ASSESS_SCHEMA_JSON: &'static str = "{
  \"$schema\": \"https://json-schema.org/draft/2020-12/schema\",
  \"title\": \"assess.v0\",
  \"type\": \"object\",
  \"required\": [\"tool\", \"version\", \"decision_band\", \"policy\", \"matched_rule\", \"required_tools\", \"observed_tools\", \"risk_factors\", \"epistemic_basis\", \"refusal\"],
  \"properties\": {
    \"tool\": {\"const\": \"assess\"},
    \"version\": {\"const\": \"assess.v0\"},
    \"decision_band\": {\"enum\": [\"PROCEED\", \"PROCEED_WITH_RISK\", \"ESCALATE\", \"BLOCK\"]},
    \"policy\": {
      \"type\": \"object\",
      \"required\": [\"id\", \"version\", \"sha256\"],
      \"properties\": {
        \"id\": {\"type\": \"string\"},
        \"version\": {\"type\": \"integer\", \"minimum\": 0},
        \"sha256\": {\"type\": \"string\"}
      }
    },
    \"matched_rule\": {\"type\": \"string\"},
    \"required_tools\": {\"type\": \"array\", \"items\": {\"type\": \"string\"}},
    \"observed_tools\": {\"type\": \"array\", \"items\": {\"type\": \"string\"}},
    \"risk_factors\": {
      \"type\": \"array\",
      \"items\": {
        \"type\": \"object\",
        \"required\": [\"code\"],
        \"properties\": {
          \"code\": {\"type\": \"string\"},
          \"source_tool\": {\"type\": \"string\"},
          \"detail\": {\"type\": \"string\"}
        }
      }
    },
    \"epistemic_basis\": {
      \"type\": \"array\",
      \"items\": {
        \"type\": \"object\",
        \"required\": [\"artifact\", \"tool\", \"version\", \"outcome\", \"policy_signals\"],
        \"properties\": {
          \"artifact\": {\"type\": \"string\"},
          \"tool\": {\"type\": \"string\"},
          \"version\": {\"type\": \"string\"},
          \"outcome\": {\"type\": [\"string\", \"null\"]},
          \"policy_signals\": {\"type\": \"object\"},
          \"refusal\": {\"type\": [\"object\", \"null\"]}
        }
      }
    },
    \"refusal\": {\"type\": \"null\"}
  }
}
";

/// The JSON Schema of `policy.v0` policy files.
pub const POLICY_SCHEMA_JSON: &'static str = "{
  \"$schema\": \"https://json-schema.org/draft/2020-12/schema\",
  \"title\": \"policy.v0\",
  \"type\": \"object\",
  \"required\": [\"schema_version\", \"policy_id\", \"policy_version\", \"requires\", \"rules\"],
  \"properties\": {
    \"schema_version\": {\"const\": 1},
    \"policy_id\": {\"type\": \"string\"},
    \"policy_version\": {\"type\": \"integer\", \"minimum\": 0},
    \"description\": {\"type\": \"string\"},
    \"requires\": {\"type\": \"array\", \"items\": {\"type\": \"string\"}},
    \"rules\": {
      \"type\": \"array\",
      \"minItems\": 1,
      \"items\": {
        \"type\": \"object\",
        \"required\": [\"name\", \"then\"],
        \"properties\": {
          \"name\": {\"type\": \"string\"},
          \"default\": {\"type\": \"boolean\"},
          \"when\": {\"type\": \"object\"},
          \"then\": {
            \"type\": \"object\",
            \"required\": [\"decision_band\"],
            \"properties\": {
              \"decision_band\": {\"enum\": [\"PROCEED\", \"PROCEED_WITH_RISK\", \"ESCALATE\", \"BLOCK\"]},
              \"risk_code\": {\"type\": \"string\"}
            }
          }
        }
      }
    }
  }
}
";

/// What a completed invocation prints and how the process exits.
#[derive(Debug, Clone, PartialEq, Eq)]
pub struct Execution {
    pub exit_code: u8,
    pub stdout: String,
}

impl Execution {
    pub fn new(exit: AssessExit, stdout: &str) -> (r: Self)
        ensures
            r.exit_code == exit_code_of(exit),
            r.stdout@ == stdout@,
    {
        Execution { exit_code: exit.code(), stdout: owned(stdout) }
    }
}

/// Why an invocation produced no output of its own.
#[derive(Debug, Clone, PartialEq, Eq)]
pub enum AssessError {
    /// The command line is unusable; the caller reports it as a usage error.
    Usage(UsageError),
    /// The witness ledger could not be read, or a witness query is unusable.
    Witness(String),
}

/// What only the command-line layer renders: the long help text, and the
/// doctor's reports.
#[derive(Debug, Clone, PartialEq, Eq)]
pub struct Surface {
    pub help: String,
    pub doctor: DoctorReports,
}

/// The text, ending in a line break.
pub open spec fn newline_text(value: Seq<char>) -> Seq<char> {
    if value.len() > 0 && value.last() == '\n' {
        value
    } else {
        value + "\n"@
    }
}

/// The text, with a line break appended unless it already ends in one.
pub fn with_trailing_newline(value: &str) -> (r: String)
    ensures
        r@ == newline_text(value@),
{
    let chars = chars_of(value);
    let mut r = owned(value);
    if chars.len() == 0 || chars[chars.len() - 1] != '\n' {
        push_str(&mut r, "\n");
    }
    r
}

/// What executing a command line yields, for every route: the printing
/// flags print the embedded documents, help and doctor print the caller's
/// texts, usage errors are handed back, a refusal prints in the requested
/// mode and exits 2, a decision run and a witness command do what
/// `run_meets` and `witness_meets` say.
pub open spec fn execution_meets<J, A, P, W, L>(
    cli: Cli,
    surface: Surface,
    host: Host<J, A, P, W, L>,
    r: Result<Execution, AssessError>,
) -> bool where
    J: Fn(JsonDocument) -> String,
    A: Fn(Vec<String>) -> Vec<ArtifactSource>,
    P: Fn(PolicySelector) -> Result<LoadedPolicy, PolicyError>,
    W: Fn(WitnessRecord) -> bool,
    L: Fn() -> Result<Vec<Option<WitnessRecord>>, String>,
 {
    match expected_route(cli) {
        Ok(Route::Describe) => printed(r, 0, newline_text(OPERATOR_JSON@)),
        Ok(Route::Schema) => printed(r, 0, newline_text(ASSESS_SCHEMA_JSON@)),
        Ok(Route::Version) => printed(r, 0, "assess "@ + PACKAGE_VERSION@ + "\n"@),
        Ok(Route::Help) => printed(r, 0, surface.help@),
        Ok(Route::Doctor(invocation)) => printed(r, 0, doctor_output(invocation, surface.doctor)),
        Ok(Route::Run(cmd)) => run_meets(host, cmd, r),
        Ok(Route::Witness(invocation)) => witness_meets(host, invocation, r),
        Err(RouteErrorView::Usage(kind, message)) => r matches Err(AssessError::Usage(u)) && u.kind
            == kind && u.message@ == message,
        Err(RouteErrorView::Refusal(envelope, mode, status)) => refusal_printed(
            host.to_json,
            envelope,
            mode,
            status,
            r,
        ),
    }
}

/// Execute a parsed command line, with the host doing the work only the
/// caller can do.
pub fn execute<J, A, P, W, L>(cli: Cli, surface: &Surface, host: &Host<J, A, P, W, L>) -> (r: Result<
    Execution,
    AssessError,
>) where
    J: Fn(JsonDocument) -> String,
    A: Fn(Vec<String>) -> Vec<ArtifactSource>,
    P: Fn(PolicySelector) -> Result<LoadedPolicy, PolicyError>,
    W: Fn(WitnessRecord) -> bool,
    L: Fn() -> Result<Vec<Option<WitnessRecord>>, String>,

    requires
        host_ready(*host),
    ensures
        execution_meets(cli, *surface, *host, r),
{
    match route(cli) {
        Ok(Route::Describe) => Ok(
            Execution { exit_code: 0, stdout: with_trailing_newline(OPERATOR_JSON) },
        ),
        Ok(Route::Schema) => Ok(
            Execution { exit_code: 0, stdout: with_trailing_newline(ASSESS_SCHEMA_JSON) },
        ),
        Ok(Route::Version) => {
            let mut stdout = owned("assess ");
            push_str(&mut stdout, PACKAGE_VERSION);
            push_str(&mut stdout, "\n");
            Ok(Execution { exit_code: 0, stdout })
        },
        Ok(Route::Help) => Ok(Execution { exit_code: 0, stdout: owned(surface.help.as_str()) }),
        Ok(Route::Doctor(invocation)) => Ok(doctor::execute(invocation, &surface.doctor)),
        Ok(Route::Run(cmd)) => run::run_decision(host, cmd),
        Ok(Route::Witness(invocation)) => run::run_witness(host, invocation),
        Err(RouteError::Usage(usage)) => Err(AssessError::Usage(usage)),
        Err(RouteError::Refusal { refusal, render_mode, witness_status }) => {
            let ghost e = refusal;
            let r = run::emit(
                &host.to_json,
                output::AssessResult::Refusal(refusal),
                2,
                render_mode,
                witness_status,
            );
            assert(run::result_printed(
                host.to_json,
                output::AssessResult::Refusal(e),
                2,
                render_mode,
                witness_status,
                r,
            ));
            r
        },
    }
}

} // verus!
