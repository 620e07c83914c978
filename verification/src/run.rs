//! Running a decision and answering a witness command. The work only the
//! caller can do (serialising JSON, reading artifacts, loading a policy,
//! reading and appending the witness ledger) is handed in as functions;
//! every decision about what to do with their results is made here.
use vstd::prelude::*;

use crate::bundle::ArtifactSource;
use crate::cli::exit::exit_code_of;
use crate::cli::{
    PolicySelector, RunCommand, WitnessInvocation, WitnessInvocationCommand, refusal_status_of,
};
use crate::output::human::{ResultView, result_view};
use crate::output::{
    AssessResult, RenderContext, RenderMode, WitnessStatus, render_with_context, rendered_text,
    witness_status_text,
};
use crate::pipeline::{assess, assessment_meets, law_assessment_is_deterministic};
use crate::bundle::sources_view;
use crate::policy::{LoadedPolicy, PolicyError, policy_error_code, policy_error_message};
use crate::refusal::payload::{EnvelopeView, new_envelope};
use crate::refusal::RefusalEnvelope;
use crate::text::{copy_strings, decimal_text, owned, push_decimal, push_str, strings_view};
use crate::witness::WitnessRecord;
use crate::witness::ledger::{assess_records_of, lines_view, records_view, select_assess_records};
use crate::witness::query::{
    parse_filters, parse_filters_text, query_records, query_view, record_line, record_lines,
    render_record, render_records,
};
use crate::witness::record::{WitnessView, scaffold_view};
use crate::{AssessError, Execution, newline_text, with_trailing_newline};

verus! {

/// A document the caller serialises as JSON.
#[derive(Debug)]
pub enum JsonDocument {
    /// A decision or a refusal.
    Result(AssessResult),
    /// The records a witness query selected.
    Records(Vec<WitnessRecord>),
    /// The latest witness record, if any.
    Record(Option<WitnessRecord>),
    /// How many witness records a count selected.
    Count(u64),
}

/// The work only the caller can do.
pub struct Host<J, A, P, W, L> {
    /// Serialise a document as JSON.
    pub to_json: J,
    /// Read and decode each artifact named on the command line.
    pub read_artifacts: A,
    /// Load the policy a run selects.
    pub load_policy: P,
    /// Append a record to the witness ledger, stamped with the time and the
    /// run's duration; whether it was written.
    pub append_witness: W,
    /// Read the witness ledger: each line decoded, or `None` when it is not
    /// a record; or why the ledger could not be read.
    pub read_ledger: L,
}

/// Every function of the host may be called on every input.
pub open spec fn host_ready<J, A, P, W, L>(host: Host<J, A, P, W, L>) -> bool where
    J: Fn(JsonDocument) -> String,
    A: Fn(Vec<String>) -> Vec<ArtifactSource>,
    P: Fn(PolicySelector) -> Result<LoadedPolicy, PolicyError>,
    W: Fn(WitnessRecord) -> bool,
    L: Fn() -> Result<Vec<Option<WitnessRecord>>, String>,
 {
    &&& forall|d: JsonDocument| call_requires(host.to_json, (d,))
    &&& forall|a: Vec<String>| call_requires(host.read_artifacts, (a,))
    &&& forall|s: PolicySelector| call_requires(host.load_policy, (s,))
    &&& forall|w: WitnessRecord| call_requires(host.append_witness, (w,))
    &&& call_requires(host.read_ledger, ())
}

/// `r` printed, with this exit code, the JSON the host made of a document
/// that `doc_ok` accepts, ending in a line break.
pub open spec fn json_printed<J: Fn(JsonDocument) -> String>(
    to_json: J,
    doc_ok: spec_fn(JsonDocument) -> bool,
    code: u8,
    r: Result<Execution, AssessError>,
) -> bool {
    r matches Ok(x) && x.exit_code == code && exists|d: JsonDocument, s: String|
        doc_ok(d) && call_ensures(to_json, (d,), s) && x.stdout@ == newline_text(s@)
}

/// Whether `r` is a successful execution with this exit code and output.
pub open spec fn printed(r: Result<Execution, AssessError>, code: u8, text: Seq<char>) -> bool {
    r matches Ok(x) && x.exit_code == code && x.stdout@ == text
}

/// A result printed in a render mode with a witness status: as JSON, or as
/// its rendering, ending in a line break, with the exit code given.
pub open spec fn result_printed<J: Fn(JsonDocument) -> String>(
    to_json: J,
    result: AssessResult,
    code: u8,
    mode: RenderMode,
    status: WitnessStatus,
    r: Result<Execution, AssessError>,
) -> bool {
    if mode == RenderMode::Json {
        json_printed(to_json, |d: JsonDocument| d == JsonDocument::Result(result), code, r)
    } else {
        printed(
            r,
            code,
            newline_text(rendered_text(result_view(result), mode, witness_status_text(status)).unwrap()),
        )
    }
}

/// A refusal printed in a render mode, exiting 2.
pub open spec fn refusal_printed<J: Fn(JsonDocument) -> String>(
    to_json: J,
    envelope: EnvelopeView,
    mode: RenderMode,
    status: WitnessStatus,
    r: Result<Execution, AssessError>,
) -> bool {
    exists|e: RefusalEnvelope|
        e@ == envelope && #[trigger] result_printed(
            to_json,
            AssessResult::Refusal(e),
            2,
            mode,
            status,
            r,
        )
}

/// Print a result in a render mode.
pub fn emit<J: Fn(JsonDocument) -> String>(
    to_json: &J,
    result: AssessResult,
    code: u8,
    mode: RenderMode,
    status: WitnessStatus,
) -> (r: Result<Execution, AssessError>)
    requires
        forall|d: JsonDocument| call_requires(*to_json, (d,)),
    ensures
        result_printed(*to_json, result, code, mode, status, r),
{
    if mode == RenderMode::Json {
        let ghost whole = result;
        let text = to_json(JsonDocument::Result(result));
        let stdout = with_trailing_newline(text.as_str());
        let r = Ok(Execution { exit_code: code, stdout });
        assert(call_ensures(*to_json, (JsonDocument::Result(whole),), text));
        r
    } else {
        let context = RenderContext::with_witness_status(status);
        match render_with_context(&result, mode, context) {
            Some(text) => Ok(Execution { exit_code: code, stdout: with_trailing_newline(text.as_str()) }),
            None => Ok(Execution { exit_code: code, stdout: owned("\n") }),
        }
    }
}

/// The witness record of a decision: an `assess run` over the artifacts,
/// with the policy's ID and the decided band.
pub open spec fn decision_record_view(artifacts: Seq<Seq<char>>, policy_id: Seq<char>, band: Seq<char>) -> WitnessView {
    WitnessView { policy_id: Some(policy_id), decision_band: Some(band), ..scaffold_view(artifacts) }
}

/// What a run prints once the pipeline has given `x`: a refusal with its
/// status; a decision under `--no-witness` as disabled; otherwise the
/// decision's record goes to the ledger and the status says whether it was
/// written. The exit code is the pipeline's.
pub open spec fn outcome_printed<J, W>(
    to_json: J,
    append_witness: W,
    cmd: RunCommand,
    loaded: LoadedPolicy,
    x: (AssessResult, crate::cli::AssessExit),
    r: Result<Execution, AssessError>,
) -> bool where J: Fn(JsonDocument) -> String, W: Fn(WitnessRecord) -> bool {
    match x.0 {
        AssessResult::Refusal(_) => result_printed(
            to_json,
            x.0,
            exit_code_of(x.1),
            cmd.render_mode,
            refusal_status_of(cmd.no_witness),
            r,
        ),
        AssessResult::Decision(o) => if cmd.no_witness {
            result_printed(to_json, x.0, exit_code_of(x.1), cmd.render_mode, WitnessStatus::Disabled, r)
        } else {
            exists|rec: WitnessRecord, written: bool|
                rec@ == decision_record_view(
                    strings_view(cmd.artifacts@),
                    loaded.policy.policy_id@,
                    o.decision_band@,
                ) && call_ensures(append_witness, (rec,), written) && result_printed(
                    to_json,
                    x.0,
                    exit_code_of(x.1),
                    cmd.render_mode,
                    if written {
                        WitnessStatus::Written
                    } else {
                        WitnessStatus::NotWritten
                    },
                    r,
                )
        },
    }
}

/// What a decision run yields: the host loads the policy; a policy that
/// cannot be loaded is refused with its error's code and message; otherwise
/// the host reads the artifacts, the pipeline assesses them, and the
/// outcome is printed with the pipeline's exit code.
pub open spec fn run_meets<J, A, P, W, L>(
    host: Host<J, A, P, W, L>,
    cmd: RunCommand,
    r: Result<Execution, AssessError>,
) -> bool where
    J: Fn(JsonDocument) -> String,
    A: Fn(Vec<String>) -> Vec<ArtifactSource>,
    P: Fn(PolicySelector) -> Result<LoadedPolicy, PolicyError>,
    W: Fn(WitnessRecord) -> bool,
    L: Fn() -> Result<Vec<Option<WitnessRecord>>, String>,
 {
    exists|p: Result<LoadedPolicy, PolicyError>|
        #[trigger] call_ensures(host.load_policy, (cmd.policy_selector,), p) && match p {
            Err(e) => refusal_printed(
                host.to_json,
                new_envelope(policy_error_code(e), policy_error_message(e)),
                cmd.render_mode,
                refusal_status_of(cmd.no_witness),
                r,
            ),
            Ok(loaded) => exists|
                names: Vec<String>,
                sources: Vec<ArtifactSource>,
                x: (AssessResult, crate::cli::AssessExit),
            |
                strings_view(names@) == strings_view(cmd.artifacts@) && call_ensures(
                    host.read_artifacts,
                    (names,),
                    sources,
                ) && assessment_meets(sources@, loaded, x) && outcome_printed(
                    host.to_json,
                    host.append_witness,
                    cmd,
                    loaded,
                    x,
                    r,
                ),
        }
}

/// Run a decision.
pub fn run_decision<J, A, P, W, L>(host: &Host<J, A, P, W, L>, cmd: RunCommand) -> (r: Result<
    Execution,
    AssessError,
>) where
    J: Fn(JsonDocument) -> String,
    A: Fn(Vec<String>) -> Vec<ArtifactSource>,
    P: Fn(PolicySelector) -> Result<LoadedPolicy, PolicyError>,
    W: Fn(WitnessRecord) -> bool,
    L: Fn() -> Result<Vec<Option<WitnessRecord>>, String>,

    requires
        host_ready(*host),
    ensures
        run_meets(*host, cmd, r),
{
    let ghost whole = cmd;
    let RunCommand { artifacts, policy_selector, render_mode, no_witness } = cmd;
    let loaded = match (host.load_policy)(policy_selector) {
        Err(e) => {
            let ghost err = e;
            let refusal = RefusalEnvelope::new(e.refusal_code(), e.message().as_str());
            let ghost env = refusal;
            let r = emit(
                &host.to_json,
                AssessResult::Refusal(refusal),
                2,
                render_mode,
                crate::cli::refusal_witness_status(no_witness),
            );
            assert(refusal_printed(
                host.to_json,
                new_envelope(policy_error_code(err), policy_error_message(err)),
                render_mode,
                refusal_status_of(no_witness),
                r,
            ));
            return r;
        },
        Ok(loaded) => loaded,
    };
    let names = copy_strings(&artifacts);
    let ghost names_ghost = names;
    let sources = (host.read_artifacts)(names);
    let ghost sources_ghost = sources;
    let (result, exit) = assess(sources, &loaded);
    let ghost x = (result, exit);
    let code = exit.code();
    let r = match &result {
        AssessResult::Refusal(_) => emit(
            &host.to_json,
            result,
            code,
            render_mode,
            crate::cli::refusal_witness_status(no_witness),
        ),
        AssessResult::Decision(output) => {
            if no_witness {
                emit(&host.to_json, result, code, render_mode, WitnessStatus::Disabled)
            } else {
                let record = WitnessRecord::scaffold(copy_strings(&artifacts)).with_policy_id(
                    loaded.policy.policy_id.as_str(),
                ).with_decision_band(output.decision_band.as_str());
                let ghost rec = record;
                let written = (host.append_witness)(record);
                let status = if written {
                    WitnessStatus::Written
                } else {
                    WitnessStatus::NotWritten
                };
                let r = emit(&host.to_json, result, code, render_mode, status);
                assert(call_ensures(host.append_witness, (rec,), written));
                r
            }
        },
    };
    assert(outcome_printed(host.to_json, host.append_witness, whole, loaded, x, r));
    r
}

/// What `witness last` prints without JSON.
pub open spec fn last_text(records: Seq<WitnessView>) -> Seq<char> {
    if records.len() > 0 {
        record_line(records.last())
    } else {
        "no witness records\n"@
    }
}

/// What a witness command yields: the host reads the ledger (an unreadable
/// ledger is a witness error); the `assess` records among its lines are
/// queried: `query` lists the records meeting every filter (exit 1 when
/// none does), `last` gives the latest record (exit 1 when there is none),
/// `count` gives how many records meet every filter; an unusable filter is
/// a witness error.
pub open spec fn witness_meets<J, A, P, W, L>(
    host: Host<J, A, P, W, L>,
    invocation: WitnessInvocation,
    r: Result<Execution, AssessError>,
) -> bool where
    J: Fn(JsonDocument) -> String,
    A: Fn(Vec<String>) -> Vec<ArtifactSource>,
    P: Fn(PolicySelector) -> Result<LoadedPolicy, PolicyError>,
    W: Fn(WitnessRecord) -> bool,
    L: Fn() -> Result<Vec<Option<WitnessRecord>>, String>,
 {
    exists|lines: Result<Vec<Option<WitnessRecord>>, String>|
        #[trigger] call_ensures(host.read_ledger, (), lines) && match lines {
            Err(m) => r == Err::<Execution, AssessError>(AssessError::Witness(m)),
            Ok(ls) => {
                let records = assess_records_of(lines_view(ls@));
                match invocation.command {
                    WitnessInvocationCommand::Query { filters } => match parse_filters_text(
                        strings_view(filters@),
                    ) {
                        Err(m) => r matches Err(AssessError::Witness(x)) && x@ == m,
                        Ok(fs) => {
                            let hits = query_view(records, fs);
                            let code: u8 = if hits.len() > 0 {
                                0
                            } else {
                                1
                            };
                            if invocation.json {
                                json_printed(
                                    host.to_json,
                                    |d: JsonDocument|
                                        d matches JsonDocument::Records(v) && records_view(v@)
                                            == hits,
                                    code,
                                    r,
                                )
                            } else {
                                printed(r, code, record_lines(hits))
                            }
                        },
                    },
                    WitnessInvocationCommand::Last => {
                        let code: u8 = if records.len() > 0 {
                            0
                        } else {
                            1
                        };
                        if invocation.json {
                            json_printed(
                                host.to_json,
                                |d: JsonDocument|
                                    d matches JsonDocument::Record(o) && match o {
                                        Some(w) => records.len() > 0 && w@ == records.last(),
                                        None => records.len() == 0,
                                    },
                                code,
                                r,
                            )
                        } else {
                            printed(r, code, last_text(records))
                        }
                    },
                    WitnessInvocationCommand::Count { filters } => match parse_filters_text(
                        strings_view(filters@),
                    ) {
                        Err(m) => r matches Err(AssessError::Witness(x)) && x@ == m,
                        Ok(fs) => {
                            let n = query_view(records, fs).len();
                            if invocation.json {
                                json_printed(
                                    host.to_json,
                                    |d: JsonDocument| d == JsonDocument::Count(n as u64),
                                    0,
                                    r,
                                )
                            } else {
                                printed(r, 0, decimal_text(n) + "\n"@)
                            }
                        },
                    },
                }
            },
        }
}

fn print_json<J: Fn(JsonDocument) -> String>(to_json: &J, doc: JsonDocument, code: u8) -> (r: Result<
    Execution,
    AssessError,
>)
    requires
        forall|d: JsonDocument| call_requires(*to_json, (d,)),
    ensures
        r matches Ok(x) && x.exit_code == code && exists|s: String|
            call_ensures(*to_json, (doc,), s) && x.stdout@ == newline_text(s@),
{
    let ghost whole = doc;
    let text = to_json(doc);
    assert(call_ensures(*to_json, (whole,), text));
    Ok(Execution { exit_code: code, stdout: with_trailing_newline(text.as_str()) })
}

/// Answer a witness command.
pub fn run_witness<J, A, P, W, L>(host: &Host<J, A, P, W, L>, invocation: WitnessInvocation) -> (r:
    Result<Execution, AssessError>) where
    J: Fn(JsonDocument) -> String,
    A: Fn(Vec<String>) -> Vec<ArtifactSource>,
    P: Fn(PolicySelector) -> Result<LoadedPolicy, PolicyError>,
    W: Fn(WitnessRecord) -> bool,
    L: Fn() -> Result<Vec<Option<WitnessRecord>>, String>,

    requires
        host_ready(*host),
    ensures
        witness_meets(*host, invocation, r),
{
    let read = (host.read_ledger)();
    let ghost lines_ghost = read;
    let lines = match read {
        Err(m) => {
            return Err(AssessError::Witness(m));
        },
        Ok(lines) => lines,
    };
    let records = select_assess_records(&lines);
    let ghost all = assess_records_of(lines_view(lines@));
    match invocation.command {
        WitnessInvocationCommand::Query { filters } => {
            let fs = match parse_filters(&filters) {
                Err(m) => {
                    return Err(AssessError::Witness(m));
                },
                Ok(fs) => fs,
            };
            let hits = query_records(&records, &fs);
            let code: u8 = if hits.len() > 0 {
                0
            } else {
                1
            };
            if invocation.json {
                let ghost h = hits;
                let r = print_json(&host.to_json, JsonDocument::Records(hits), code);
                assert((|d: JsonDocument|
                    d matches JsonDocument::Records(v) && records_view(v@) == query_view(
                        all,
                        crate::witness::query::filters_view(fs@),
                    ))(JsonDocument::Records(h)));
                r
            } else {
                Ok(Execution { exit_code: code, stdout: render_records(&hits) })
            }
        },
        WitnessInvocationCommand::Last => {
            let n = records.len();
            let last = if n > 0 {
                Some(records[n - 1].copy())
            } else {
                None
            };
            let code: u8 = if n > 0 {
                0
            } else {
                1
            };
            if invocation.json {
                let ghost l = last;
                let r = print_json(&host.to_json, JsonDocument::Record(last), code);
                assert((|d: JsonDocument|
                    d matches JsonDocument::Record(o) && match o {
                        Some(w) => all.len() > 0 && w@ == all.last(),
                        None => all.len() == 0,
                    })(JsonDocument::Record(l)));
                r
            } else {
                match &last {
                    Some(record) => Ok(Execution { exit_code: code, stdout: render_record(record) }),
                    None => Ok(Execution { exit_code: code, stdout: owned("no witness records\n") }),
                }
            }
        },
        WitnessInvocationCommand::Count { filters } => {
            let fs = match parse_filters(&filters) {
                Err(m) => {
                    return Err(AssessError::Witness(m));
                },
                Ok(fs) => fs,
            };
            let hits = query_records(&records, &fs);
            let n = hits.len() as u64;
            if invocation.json {
                print_json(&host.to_json, JsonDocument::Count(n), 0)
            } else {
                let mut stdout = String::new();
                push_decimal(&mut stdout, n);
                push_str(&mut stdout, "\n");
                Ok(Execution { exit_code: 0, stdout })
            }
        },
    }
}


proof fn lemma_result_printed_is_ok<J: Fn(JsonDocument) -> String>(
    to_json: J,
    result: AssessResult,
    code: u8,
    mode: RenderMode,
    status: WitnessStatus,
    r: Result<Execution, AssessError>,
)
    requires
        result_printed(to_json, result, code, mode, status, r),
    ensures
        r matches Ok(e) && e.exit_code == code,
{
}

/// A decision run always answers: whatever the policy, the artifacts and
/// the ledger give, it prints a decision or a refusal; a refusal because
/// the policy could not be loaded exits 2, otherwise the exit code is the
/// pipeline's.
pub proof fn law_decision_runs_always_answer<J, A, P, W, L>(
    host: Host<J, A, P, W, L>,
    cmd: RunCommand,
    r: Result<Execution, AssessError>,
) where
    J: Fn(JsonDocument) -> String,
    A: Fn(Vec<String>) -> Vec<ArtifactSource>,
    P: Fn(PolicySelector) -> Result<LoadedPolicy, PolicyError>,
    W: Fn(WitnessRecord) -> bool,
    L: Fn() -> Result<Vec<Option<WitnessRecord>>, String>,

    requires
        run_meets(host, cmd, r),
    ensures
        r is Ok,
{
    let p = choose|p: Result<LoadedPolicy, PolicyError>|
        #[trigger] call_ensures(host.load_policy, (cmd.policy_selector,), p) && match p {
            Err(e) => refusal_printed(
                host.to_json,
                new_envelope(policy_error_code(e), policy_error_message(e)),
                cmd.render_mode,
                refusal_status_of(cmd.no_witness),
                r,
            ),
            Ok(loaded) => exists|
                names: Vec<String>,
                sources: Vec<ArtifactSource>,
                x: (AssessResult, crate::cli::AssessExit),
            |
                strings_view(names@) == strings_view(cmd.artifacts@) && call_ensures(
                    host.read_artifacts,
                    (names,),
                    sources,
                ) && assessment_meets(sources@, loaded, x) && outcome_printed(
                    host.to_json,
                    host.append_witness,
                    cmd,
                    loaded,
                    x,
                    r,
                ),
        };
    match p {
        Err(e) => {
            let env = new_envelope(policy_error_code(e), policy_error_message(e));
            let x = choose|x: RefusalEnvelope|
                x@ == env && #[trigger] result_printed(
                    host.to_json,
                    AssessResult::Refusal(x),
                    2,
                    cmd.render_mode,
                    refusal_status_of(cmd.no_witness),
                    r,
                );
            lemma_result_printed_is_ok(
                host.to_json,
                AssessResult::Refusal(x),
                2,
                cmd.render_mode,
                refusal_status_of(cmd.no_witness),
                r,
            );
        },
        Ok(loaded) => {
            let (names, sources, x) = choose|
                names: Vec<String>,
                sources: Vec<ArtifactSource>,
                x: (AssessResult, crate::cli::AssessExit),
            |
                strings_view(names@) == strings_view(cmd.artifacts@) && call_ensures(
                    host.read_artifacts,
                    (names,),
                    sources,
                ) && assessment_meets(sources@, loaded, x) && outcome_printed(
                    host.to_json,
                    host.append_witness,
                    cmd,
                    loaded,
                    x,
                    r,
                );
            match x.0 {
                AssessResult::Refusal(_) => {},
                AssessResult::Decision(o) => {
                    if !cmd.no_witness {
                        let (rec, written) = choose|rec: WitnessRecord, written: bool|
                            rec@ == decision_record_view(
                                strings_view(cmd.artifacts@),
                                loaded.policy.policy_id@,
                                o.decision_band@,
                            ) && call_ensures(host.append_witness, (rec,), written)
                                && result_printed(
                                host.to_json,
                                x.0,
                                exit_code_of(x.1),
                                cmd.render_mode,
                                if written {
                                    WitnessStatus::Written
                                } else {
                                    WitnessStatus::NotWritten
                                },
                                r,
                            );
                    }
                },
            }
        },
    }
}


/// The host answers alike when asked alike: the same selector loads the
/// same policy, artifact names that read the same give sources that read
/// the same, and records that read the same are written alike.
pub open spec fn host_deterministic<J, A, P, W, L>(host: Host<J, A, P, W, L>) -> bool where
    J: Fn(JsonDocument) -> String,
    A: Fn(Vec<String>) -> Vec<ArtifactSource>,
    P: Fn(PolicySelector) -> Result<LoadedPolicy, PolicyError>,
    W: Fn(WitnessRecord) -> bool,
    L: Fn() -> Result<Vec<Option<WitnessRecord>>, String>,
 {
    &&& forall|s: PolicySelector, p1: Result<LoadedPolicy, PolicyError>, p2: Result<LoadedPolicy, PolicyError>|
        #[trigger] call_ensures(host.load_policy, (s,), p1) && #[trigger] call_ensures(
            host.load_policy,
            (s,),
            p2,
        ) ==> p1 == p2
    &&& forall|a1: Vec<String>, a2: Vec<String>, s1: Vec<ArtifactSource>, s2: Vec<ArtifactSource>|
        strings_view(a1@) == strings_view(a2@) && #[trigger] call_ensures(
            host.read_artifacts,
            (a1,),
            s1,
        ) && #[trigger] call_ensures(host.read_artifacts, (a2,), s2) ==> sources_view(s1@)
            == sources_view(s2@)
    &&& forall|r1: WitnessRecord, r2: WitnessRecord, w1: bool, w2: bool|
        r1@ == r2@ && #[trigger] call_ensures(host.append_witness, (r1,), w1) && #[trigger] call_ensures(
            host.append_witness,
            (r2,),
            w2,
        ) ==> w1 == w2
    &&& json_deterministic(host.to_json)
}

/// The caller's serialiser makes the same text of two results with the same
/// content.
pub open spec fn json_deterministic<J: Fn(JsonDocument) -> String>(to_json: J) -> bool {
    forall|a: AssessResult, b: AssessResult, s1: String, s2: String|
        result_view(a) == result_view(b) && #[trigger] call_ensures(
            to_json,
            (JsonDocument::Result(a),),
            s1,
        ) && #[trigger] call_ensures(to_json, (JsonDocument::Result(b),), s2) ==> s1@ == s2@
}

proof fn lemma_rendered_alike<J: Fn(JsonDocument) -> String>(
    to_json: J,
    a: AssessResult,
    b: AssessResult,
    code: u8,
    mode: RenderMode,
    status: WitnessStatus,
    r1: Result<Execution, AssessError>,
    r2: Result<Execution, AssessError>,
)
    requires
        json_deterministic(to_json),
        result_view(a) == result_view(b),
        result_printed(to_json, a, code, mode, status, r1),
        result_printed(to_json, b, code, mode, status, r2),
    ensures
        r1 matches Ok(e1) && r2 matches Ok(e2) && e1.exit_code == e2.exit_code && e1.stdout@
            == e2.stdout@,
{
    if mode == RenderMode::Json {
        let (d1, s1) = choose|d: JsonDocument, s: String|
            d == JsonDocument::Result(a) && call_ensures(to_json, (d,), s) && r1->Ok_0.stdout@
                == newline_text(s@);
        let (d2, s2) = choose|d: JsonDocument, s: String|
            d == JsonDocument::Result(b) && call_ensures(to_json, (d,), s) && r2->Ok_0.stdout@
                == newline_text(s@);
        assert(s1@ == s2@);
    }
}

/// Decision runs are deterministic: with a host that answers alike, two
/// runs of one command print the same bytes with the same exit code, in
/// every render mode, JSON included.
pub proof fn law_decision_runs_are_deterministic<J, A, P, W, L>(
    host: Host<J, A, P, W, L>,
    cmd: RunCommand,
    r1: Result<Execution, AssessError>,
    r2: Result<Execution, AssessError>,
) where
    J: Fn(JsonDocument) -> String,
    A: Fn(Vec<String>) -> Vec<ArtifactSource>,
    P: Fn(PolicySelector) -> Result<LoadedPolicy, PolicyError>,
    W: Fn(WitnessRecord) -> bool,
    L: Fn() -> Result<Vec<Option<WitnessRecord>>, String>,

    requires
        host_deterministic(host),
        run_meets(host, cmd, r1),
        run_meets(host, cmd, r2),
    ensures
        r1 matches Ok(e1) && r2 matches Ok(e2) && e1.exit_code == e2.exit_code && e1.stdout@
            == e2.stdout@,
{
    let p1 = choose|p: Result<LoadedPolicy, PolicyError>|
        #[trigger] call_ensures(host.load_policy, (cmd.policy_selector,), p) && match p {
            Err(e) => refusal_printed(
                host.to_json,
                new_envelope(policy_error_code(e), policy_error_message(e)),
                cmd.render_mode,
                refusal_status_of(cmd.no_witness),
                r1,
            ),
            Ok(loaded) => exists|
                names: Vec<String>,
                sources: Vec<ArtifactSource>,
                x: (AssessResult, crate::cli::AssessExit),
            |
                strings_view(names@) == strings_view(cmd.artifacts@) && call_ensures(
                    host.read_artifacts,
                    (names,),
                    sources,
                ) && assessment_meets(sources@, loaded, x) && outcome_printed(
                    host.to_json,
                    host.append_witness,
                    cmd,
                    loaded,
                    x,
                    r1,
                ),
        };
    let p2 = choose|p: Result<LoadedPolicy, PolicyError>|
        #[trigger] call_ensures(host.load_policy, (cmd.policy_selector,), p) && match p {
            Err(e) => refusal_printed(
                host.to_json,
                new_envelope(policy_error_code(e), policy_error_message(e)),
                cmd.render_mode,
                refusal_status_of(cmd.no_witness),
                r2,
            ),
            Ok(loaded) => exists|
                names: Vec<String>,
                sources: Vec<ArtifactSource>,
                x: (AssessResult, crate::cli::AssessExit),
            |
                strings_view(names@) == strings_view(cmd.artifacts@) && call_ensures(
                    host.read_artifacts,
                    (names,),
                    sources,
                ) && assessment_meets(sources@, loaded, x) && outcome_printed(
                    host.to_json,
                    host.append_witness,
                    cmd,
                    loaded,
                    x,
                    r2,
                ),
        };
    assert(p1 == p2);
    match p1 {
        Err(e) => {
            let env = new_envelope(policy_error_code(e), policy_error_message(e));
            let status = refusal_status_of(cmd.no_witness);
            let a = choose|x: RefusalEnvelope|
                x@ == env && #[trigger] result_printed(
                    host.to_json,
                    AssessResult::Refusal(x),
                    2,
                    cmd.render_mode,
                    status,
                    r1,
                );
            let b = choose|x: RefusalEnvelope|
                x@ == env && #[trigger] result_printed(
                    host.to_json,
                    AssessResult::Refusal(x),
                    2,
                    cmd.render_mode,
                    status,
                    r2,
                );
            lemma_rendered_alike(
                host.to_json,
                AssessResult::Refusal(a),
                AssessResult::Refusal(b),
                2,
                cmd.render_mode,
                status,
                r1,
                r2,
            );
        },
        Ok(loaded) => {
            let (n1, s1, x) = choose|
                names: Vec<String>,
                sources: Vec<ArtifactSource>,
                x: (AssessResult, crate::cli::AssessExit),
            |
                strings_view(names@) == strings_view(cmd.artifacts@) && call_ensures(
                    host.read_artifacts,
                    (names,),
                    sources,
                ) && assessment_meets(sources@, loaded, x) && outcome_printed(
                    host.to_json,
                    host.append_witness,
                    cmd,
                    loaded,
                    x,
                    r1,
                );
            let (n2, s2, y) = choose|
                names: Vec<String>,
                sources: Vec<ArtifactSource>,
                x: (AssessResult, crate::cli::AssessExit),
            |
                strings_view(names@) == strings_view(cmd.artifacts@) && call_ensures(
                    host.read_artifacts,
                    (names,),
                    sources,
                ) && assessment_meets(sources@, loaded, x) && outcome_printed(
                    host.to_json,
                    host.append_witness,
                    cmd,
                    loaded,
                    x,
                    r2,
                );
            assert(sources_view(s1@) == sources_view(s2@));
            law_assessment_is_deterministic(s1@, s2@, loaded, x, y);
            let code = exit_code_of(x.1);
            match x.0 {
                AssessResult::Refusal(_) => {
                    lemma_rendered_alike(
                        host.to_json,
                        x.0,
                        y.0,
                        code,
                        cmd.render_mode,
                        refusal_status_of(cmd.no_witness),
                        r1,
                        r2,
                    );
                },
                AssessResult::Decision(o) => {
                    let o2 = y.0->Decision_0;
                    assert(o@.decision_band == o2@.decision_band);
                    if cmd.no_witness {
                        lemma_rendered_alike(
                            host.to_json,
                            x.0,
                            y.0,
                            code,
                            cmd.render_mode,
                            WitnessStatus::Disabled,
                            r1,
                            r2,
                        );
                    } else {
                        let (rec1, w1) = choose|rec: WitnessRecord, written: bool|
                            rec@ == decision_record_view(
                                strings_view(cmd.artifacts@),
                                loaded.policy.policy_id@,
                                o.decision_band@,
                            ) && call_ensures(host.append_witness, (rec,), written)
                                && result_printed(
                                host.to_json,
                                x.0,
                                exit_code_of(x.1),
                                cmd.render_mode,
                                if written {
                                    WitnessStatus::Written
                                } else {
                                    WitnessStatus::NotWritten
                                },
                                r1,
                            );
                        let (rec2, w2) = choose|rec: WitnessRecord, written: bool|
                            rec@ == decision_record_view(
                                strings_view(cmd.artifacts@),
                                loaded.policy.policy_id@,
                                o2.decision_band@,
                            ) && call_ensures(host.append_witness, (rec,), written)
                                && result_printed(
                                host.to_json,
                                y.0,
                                exit_code_of(y.1),
                                cmd.render_mode,
                                if written {
                                    WitnessStatus::Written
                                } else {
                                    WitnessStatus::NotWritten
                                },
                                r2,
                            );
                        assert(w1 == w2);
                        let status = if w1 {
                            WitnessStatus::Written
                        } else {
                            WitnessStatus::NotWritten
                        };
                        lemma_rendered_alike(
                            host.to_json,
                            x.0,
                            y.0,
                            code,
                            cmd.render_mode,
                            status,
                            r1,
                            r2,
                        );
                    }
                },
            }
        },
    }
}

} // verus!
