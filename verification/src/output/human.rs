use vstd::prelude::*;

use super::{
    AssessOutput, AssessResult, OutputView, RenderContext, RiskFactor, RiskView,
    witness_status_text,
};
use crate::bundle::artifact::{ArtifactBasisEntry, BasisView};
use crate::refusal::RefusalEnvelope;
use crate::refusal::payload::EnvelopeView;
use crate::text::{
    decimal_text, join, join_text, owned, push_decimal, push_str, strings_view, tsv_clean,
    tsv_clean_text,
};

verus! {

/// The line for one risk factor.
pub open spec fn risk_line(f: RiskView) -> Seq<char> {
    "risk: "@ + f.code + match f.source_tool {
        Some(t) => " (source: "@ + t + ")"@,
        None => Seq::empty(),
    } + "\n"@
}

pub open spec fn risk_lines(s: Seq<RiskView>) -> Seq<char>
    decreases s.len(),
{
    if s.len() == 0 {
        Seq::empty()
    } else {
        risk_lines(s.drop_last()) + risk_line(s.last())
    }
}

/// The line for one basis entry.
pub open spec fn basis_line(e: BasisView) -> Seq<char> {
    "basis: "@ + e.tool + " ("@ + e.artifact + ")"@ + match e.outcome {
        Some(o) => " -> "@ + o,
        None => Seq::empty(),
    } + match e.refusal {
        Some(r) => " -> refusal "@ + r.code,
        None => Seq::empty(),
    } + "\n"@
}

pub open spec fn basis_lines(s: Seq<BasisView>) -> Seq<char>
    decreases s.len(),
{
    if s.len() == 0 {
        Seq::empty()
    } else {
        basis_lines(s.drop_last()) + basis_line(s.last())
    }
}

/// The human-readable report of a decision.
pub open spec fn human_output_text(o: OutputView) -> Seq<char> {
    "ASSESS "@ + o.decision_band + "\n"@ + "policy: "@ + o.policy_id + " v"@ + decimal_text(
        o.policy_version as nat,
    ) + " ["@ + o.policy_sha256 + "]\n"@ + "matched_rule: "@ + o.matched_rule + "\n"@ + risk_lines(
        o.risk_factors,
    ) + "required_tools: "@ + join_text(o.required_tools, ", "@) + "\n"@ + "observed_tools: "@
        + join_text(o.observed_tools, ", "@) + "\n"@ + basis_lines(o.epistemic_basis)
}

/// The human-readable report of a refusal.
pub open spec fn human_refusal_text(e: EnvelopeView) -> Seq<char> {
    "ASSESS REFUSAL\n"@ + "code: "@ + e.code + "\n"@ + "message: "@ + e.message + "\n"@
        + match e.next_command {
        Some(n) => "next: "@ + n + "\n"@,
        None => Seq::empty(),
    }
}

fn push_risk_line(buf: &mut String, factor: &RiskFactor)
    ensures
        final(buf)@ == old(buf)@ + risk_line(factor@),
{
    push_str(buf, "risk: ");
    push_str(buf, factor.code.as_str());
    match &factor.source_tool {
        Some(tool) => {
            push_str(buf, " (source: ");
            push_str(buf, tool.as_str());
            push_str(buf, ")");
        },
        None => {},
    }
    push_str(buf, "\n");
    assert(buf@ =~= old(buf)@ + risk_line(factor@));
}

fn push_basis_line(buf: &mut String, entry: &ArtifactBasisEntry)
    ensures
        final(buf)@ == old(buf)@ + basis_line(entry@),
{
    push_str(buf, "basis: ");
    push_str(buf, entry.tool.as_str());
    push_str(buf, " (");
    push_str(buf, entry.artifact.as_str());
    push_str(buf, ")");
    match &entry.outcome {
        Some(outcome) => {
            push_str(buf, " -> ");
            push_str(buf, outcome.as_str());
        },
        None => {},
    }
    match &entry.refusal {
        Some(refusal) => {
            push_str(buf, " -> refusal ");
            push_str(buf, refusal.code.as_str());
        },
        None => {},
    }
    push_str(buf, "\n");
    assert(buf@ =~= old(buf)@ + basis_line(entry@));
}

/// Render a successful assess decision in human-readable form.
pub fn render_output(output: &AssessOutput) -> (r: String)
    ensures
        r@ == human_output_text(output@),
{
    let mut buf = String::new();
    push_str(&mut buf, "ASSESS ");
    push_str(&mut buf, output.decision_band.as_str());
    push_str(&mut buf, "\n");
    push_str(&mut buf, "policy: ");
    push_str(&mut buf, output.policy.id.as_str());
    push_str(&mut buf, " v");
    push_decimal(&mut buf, output.policy.version as u64);
    push_str(&mut buf, " [");
    push_str(&mut buf, output.policy.sha256.as_str());
    push_str(&mut buf, "]\n");
    push_str(&mut buf, "matched_rule: ");
    push_str(&mut buf, output.matched_rule.as_str());
    push_str(&mut buf, "\n");
    let ghost head = buf@;
    let ghost risks = output@.risk_factors;
    let mut i: usize = 0;
    while i < output.risk_factors.len()
        invariant
            i <= output.risk_factors@.len(),
            risks == output@.risk_factors,
            buf@ == head + risk_lines(risks.take(i as int)),
        decreases output.risk_factors@.len() - i,
    {
        let factor: &RiskFactor = &output.risk_factors[i];
        push_risk_line(&mut buf, factor);
        assert(risks.take(i + 1).drop_last() =~= risks.take(i as int));
        assert(risks[i as int] == factor@);
        i = i + 1;
    }
    assert(risks.take(output.risk_factors@.len() as int) =~= risks);
    push_str(&mut buf, "required_tools: ");
    let required = join(&output.required_tools, ", ");
    push_str(&mut buf, required.as_str());
    push_str(&mut buf, "\n");
    push_str(&mut buf, "observed_tools: ");
    let observed = join(&output.observed_tools, ", ");
    push_str(&mut buf, observed.as_str());
    push_str(&mut buf, "\n");
    let ghost mid = buf@;
    let ghost entries = output@.epistemic_basis;
    let mut k: usize = 0;
    while k < output.epistemic_basis.len()
        invariant
            k <= output.epistemic_basis@.len(),
            entries == output@.epistemic_basis,
            buf@ == mid + basis_lines(entries.take(k as int)),
        decreases output.epistemic_basis@.len() - k,
    {
        let entry: &ArtifactBasisEntry = &output.epistemic_basis[k];
        push_basis_line(&mut buf, entry);
        assert(entries.take(k + 1).drop_last() =~= entries.take(k as int));
        assert(entries[k as int] == entry@);
        k = k + 1;
    }
    assert(entries.take(output.epistemic_basis@.len() as int) =~= entries);
    assert(buf@ =~= human_output_text(output@));
    buf
}

/// Render a refusal envelope in human-readable form.
pub fn render_refusal(envelope: &RefusalEnvelope) -> (r: String)
    ensures
        r@ == human_refusal_text(envelope@),
{
    let mut buf = String::new();
    push_str(&mut buf, "ASSESS REFUSAL\n");
    push_str(&mut buf, "code: ");
    push_str(&mut buf, envelope.refusal.code.as_str());
    push_str(&mut buf, "\n");
    push_str(&mut buf, "message: ");
    push_str(&mut buf, envelope.refusal.message.as_str());
    push_str(&mut buf, "\n");
    match &envelope.refusal.next_command {
        Some(next) => {
            push_str(&mut buf, "next: ");
            push_str(&mut buf, next.as_str());
            push_str(&mut buf, "\n");
        },
        None => {},
    }
    assert(buf@ =~= human_refusal_text(envelope@));
    buf
}

/// `-` in place of an empty value.
pub open spec fn placeholder_text(value: Seq<char>) -> Seq<char> {
    if value.len() == 0 {
        "-"@
    } else {
        value
    }
}

fn placeholder(value: &str) -> (r: String)
    ensures
        r@ == placeholder_text(value@),
{
    if crate::text::chars_of(value).len() == 0 {
        owned("-")
    } else {
        owned(value)
    }
}

fn joined_or_placeholder(values: &Vec<String>) -> (r: String)
    ensures
        r@ == placeholder_text(join_text(strings_view(values@), ","@)),
{
    let joined = join(values, ",");
    placeholder(joined.as_str())
}

/// The view of a result.
pub enum ResultView {
    Decision(OutputView),
    Refusal(EnvelopeView),
}

pub open spec fn result_view(r: AssessResult) -> ResultView {
    match r {
        AssessResult::Decision(o) => ResultView::Decision(o@),
        AssessResult::Refusal(e) => ResultView::Refusal(e@),
    }
}

/// The ten summary fields, in column order: tool, version, outcome,
/// decision, matched_rule, risk_code, required_tools, observed_tools,
/// witness, refusal_code.
pub open spec fn summary_fields(r: ResultView, witness: Seq<char>) -> Seq<Seq<char>> {
    match r {
        ResultView::Decision(o) => seq![
            o.tool,
            o.version,
            "DECISION"@,
            o.decision_band,
            o.matched_rule,
            placeholder_text(join_text(o.risk_factors.map_values(|f: RiskView| f.code), ","@)),
            placeholder_text(join_text(o.required_tools, ","@)),
            placeholder_text(join_text(o.observed_tools, ","@)),
            witness,
            "-"@,
        ],
        ResultView::Refusal(e) => seq![
            e.tool,
            e.version,
            "REFUSAL"@,
            "-"@,
            "-"@,
            "-"@,
            "-"@,
            "-"@,
            witness,
            e.code,
        ],
    }
}

/// The column names of the summary.
pub open spec fn summary_names() -> Seq<Seq<char>> {
    seq![
        "tool"@,
        "version"@,
        "outcome"@,
        "decision"@,
        "matched_rule"@,
        "risk_code"@,
        "required_tools"@,
        "observed_tools"@,
        "witness"@,
        "refusal_code"@,
    ]
}

/// `name=value` pairs of the summary separated by spaces.
pub open spec fn summary_text(f: Seq<Seq<char>>) -> Seq<char> {
    "tool="@ + f[0] + " version="@ + f[1] + " outcome="@ + f[2] + " decision="@ + f[3]
        + " matched_rule="@ + f[4] + " risk_code="@ + f[5] + " required_tools="@ + f[6]
        + " observed_tools="@ + f[7] + " witness="@ + f[8] + " refusal_code="@ + f[9]
}

/// A header line of column names and one row of values, tab separated, with
/// tabs and line breaks inside values replaced by spaces.
pub open spec fn summary_tsv_text(f: Seq<Seq<char>>) -> Seq<char> {
    join_text(summary_names(), "\t"@) + "\n"@ + join_text(
        f.map_values(|v: Seq<char>| tsv_clean_text(v)),
        "\t"@,
    )
}

fn summary_row(result: &AssessResult, context: RenderContext) -> (row: Vec<String>)
    ensures
        strings_view(row@) == summary_fields(
            result_view(*result),
            witness_status_text(context.witness_status),
        ),
{
    let mut row: Vec<String> = Vec::new();
    match result {
        AssessResult::Decision(output) => {
            row.push(owned(output.tool.as_str()));
            row.push(owned(output.version.as_str()));
            row.push(owned("DECISION"));
            row.push(owned(output.decision_band.as_str()));
            row.push(owned(output.matched_rule.as_str()));
            let mut codes: Vec<String> = Vec::new();
            let mut i: usize = 0;
            while i < output.risk_factors.len()
                invariant
                    i <= output.risk_factors@.len(),
                    codes@.len() == i,
                    forall|j: int|
                        0 <= j < i ==> (#[trigger] codes@[j])@ == output.risk_factors@[j].code@,
                decreases output.risk_factors@.len() - i,
            {
                codes.push(owned(output.risk_factors[i].code.as_str()));
                i = i + 1;
            }
            assert(strings_view(codes@) =~= output@.risk_factors.map_values(
                |f: RiskView| f.code,
            ));
            row.push(joined_or_placeholder(&codes));
            row.push(joined_or_placeholder(&output.required_tools));
            row.push(joined_or_placeholder(&output.observed_tools));
            row.push(owned(context.witness_status.as_str()));
            row.push(owned("-"));
        },
        AssessResult::Refusal(envelope) => {
            row.push(owned(envelope.tool.as_str()));
            row.push(owned(envelope.version.as_str()));
            row.push(owned("REFUSAL"));
            row.push(owned("-"));
            row.push(owned("-"));
            row.push(owned("-"));
            row.push(owned("-"));
            row.push(owned("-"));
            row.push(owned(context.witness_status.as_str()));
            row.push(owned(envelope.refusal.code.as_str()));
        },
    }
    assert(strings_view(row@) =~= summary_fields(
        result_view(*result),
        witness_status_text(context.witness_status),
    ));
    row
}

/// One line of `name=value` pairs.
pub fn render_summary(result: &AssessResult, context: RenderContext) -> (r: String)
    ensures
        r@ == summary_text(
            summary_fields(result_view(*result), witness_status_text(context.witness_status)),
        ),
{
    let row = summary_row(result, context);
    let ghost f = strings_view(row@);
    assert(f.len() == 10);
    assert(row@.len() == 10);
    let mut buf = String::new();
    push_str(&mut buf, "tool=");
    push_str(&mut buf, row[0].as_str());
    push_str(&mut buf, " version=");
    push_str(&mut buf, row[1].as_str());
    push_str(&mut buf, " outcome=");
    push_str(&mut buf, row[2].as_str());
    push_str(&mut buf, " decision=");
    push_str(&mut buf, row[3].as_str());
    push_str(&mut buf, " matched_rule=");
    push_str(&mut buf, row[4].as_str());
    push_str(&mut buf, " risk_code=");
    push_str(&mut buf, row[5].as_str());
    push_str(&mut buf, " required_tools=");
    push_str(&mut buf, row[6].as_str());
    push_str(&mut buf, " observed_tools=");
    push_str(&mut buf, row[7].as_str());
    push_str(&mut buf, " witness=");
    push_str(&mut buf, row[8].as_str());
    push_str(&mut buf, " refusal_code=");
    push_str(&mut buf, row[9].as_str());
    assert(buf@ =~= summary_text(f));
    buf
}

/// A TSV header line and one row.
pub fn render_summary_tsv(result: &AssessResult, context: RenderContext) -> (r: String)
    ensures
        r@ == summary_tsv_text(
            summary_fields(result_view(*result), witness_status_text(context.witness_status)),
        ),
{
    let row = summary_row(result, context);
    let ghost f = strings_view(row@);
    let mut names: Vec<String> = Vec::new();
    names.push(owned("tool"));
    names.push(owned("version"));
    names.push(owned("outcome"));
    names.push(owned("decision"));
    names.push(owned("matched_rule"));
    names.push(owned("risk_code"));
    names.push(owned("required_tools"));
    names.push(owned("observed_tools"));
    names.push(owned("witness"));
    names.push(owned("refusal_code"));
    assert(strings_view(names@) =~= summary_names());
    let header = join(&names, "\t");
    let mut cleaned: Vec<String> = Vec::new();
    let mut i: usize = 0;
    while i < row.len()
        invariant
            i <= row@.len(),
            f == strings_view(row@),
            cleaned@.len() == i,
            forall|j: int| 0 <= j < i ==> (#[trigger] cleaned@[j])@ == tsv_clean_text(f[j]),
        decreases row@.len() - i,
    {
        cleaned.push(tsv_clean(row[i].as_str()));
        i = i + 1;
    }
    assert(strings_view(cleaned@) =~= f.map_values(|v: Seq<char>| tsv_clean_text(v)));
    let values = join(&cleaned, "\t");
    let mut buf = String::new();
    push_str(&mut buf, header.as_str());
    push_str(&mut buf, "\n");
    push_str(&mut buf, values.as_str());
    buf
}


/// The summary says what the result is: a decision row shows `DECISION`,
/// the output's tool, contract, band and matched rule and no refusal code;
/// a refusal row shows `REFUSAL`, the envelope's tool, contract and code,
/// and no decision, rule, risk code or tools; both show the witness status.
pub proof fn law_summary_reports_the_result(result: AssessResult, witness: Seq<char>)
    ensures
        summary_fields(result_view(result), witness).len() == summary_names().len(),
        summary_fields(result_view(result), witness)[8] == witness,
        result matches AssessResult::Decision(o) ==> {
            let f = summary_fields(result_view(result), witness);
            &&& f[0] == o.tool@
            &&& f[1] == o.version@
            &&& f[2] == "DECISION"@
            &&& f[3] == o.decision_band@
            &&& f[4] == o.matched_rule@
            &&& f[9] == "-"@
        },
        result matches AssessResult::Refusal(e) ==> {
            let f = summary_fields(result_view(result), witness);
            &&& f[0] == e@.tool
            &&& f[1] == e@.version
            &&& f[2] == "REFUSAL"@
            &&& f[3] == "-"@ && f[4] == "-"@ && f[5] == "-"@ && f[6] == "-"@ && f[7] == "-"@
            &&& f[9] == e@.code
        },
{
}

/// A TSV summary cell never holds a tab or a line break, so the row always
/// splits back into its columns.
pub proof fn law_tsv_cells_hold_no_separators(f: Seq<Seq<char>>)
    ensures
        forall|i: int, j: int|
            0 <= i < f.len() && 0 <= j < f[i].len() ==> {
                let c = #[trigger] tsv_clean_text(f[i])[j];
                c != '\t' && c != '\n' && c != '\r'
            },
{
}

} // verus!
