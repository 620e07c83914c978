//! The decision pipeline: validate the policy, load the bundle, evaluate
//! the rules, and either build the decision output or the refusal that the
//! first failing step calls for, together with the process exit class.
use vstd::prelude::*;

use crate::bundle::{
    ArtifactSource, BundleError, BundleErrorView, LoadedView, bundle_error_code,
    bundle_error_detail, bundle_error_message, bundle_error_next_command,
    law_basis_records_each_report, law_load_accounts_for_every_artifact, load, load_spec,
    sources_view, strictly_sorted_by_tool,
};
use crate::bundle::artifact::{opt_refusal_view, signals_view};
use crate::cli::exit::{exit_code_of, exit_of_band};
use crate::cli::AssessExit;
use crate::evaluate::{EvalErrorView, eval_error_code, eval_error_message, evaluate, evaluate_spec};
use crate::output::human::result_view;
use crate::output::{AssessResult, basis_key, basis_in_output_order, build_output, describes_decision};
use crate::order::{key_le, key_lt, lemma_key_lt_irreflexive, lemma_key_lt_transitive};
use crate::bundle::artifact::BasisView;
use crate::bundle::loaded_bases;
use crate::text::{
    lemma_text_lt_irreflexive, lemma_text_lt_transitive, opt_view, strings_view, text_lt,
};
use crate::policy::validate::{validate, validation_message};
use crate::policy::LoadedPolicy;
use crate::policy::schema::{DecisionBand, band_text, lemma_band_text_injective};
use crate::refusal::payload::{EnvelopeView, new_envelope};
use crate::refusal::{RefusalCode, RefusalEnvelope};

verus! {

/// The refusal for a bundle that cannot be loaded: the error's code and
/// message, with its detail and suggested next command where it has them.
pub open spec fn bundle_refusal_view(e: BundleErrorView) -> EnvelopeView {
    EnvelopeView {
        detail: match bundle_error_detail(e) {
            Some(d) => d,
            None => Seq::empty(),
        },
        next_command: bundle_error_next_command(e),
        ..new_envelope(bundle_error_code(e), bundle_error_message(e))
    }
}

/// The refusal for a failed evaluation.
pub open spec fn eval_refusal_view(e: EvalErrorView) -> EnvelopeView {
    new_envelope(eval_error_code(e), eval_error_message(e))
}

/// `b` holds the loaded artifacts `l`, once each, in increasing tool order.
pub open spec fn sorted_arrangement(b: Seq<LoadedView>, l: Seq<LoadedView>) -> bool {
    &&& b.len() == l.len()
    &&& strictly_sorted_by_tool(b)
    &&& forall|x: LoadedView| b.contains(x) <==> l.contains(x)
}

/// Whether `r` is a refusal whose envelope reads `e`, with exit 2.
pub open spec fn refused_with(r: (AssessResult, AssessExit), e: EnvelopeView) -> bool {
    r.0 matches AssessResult::Refusal(x) && x@ == e && r.1 == AssessExit::Stop
}

/// What evaluating the bundle `b` yields: the refusal for an evaluation
/// error, or the output of the decision with the band's exit class.
pub open spec fn evaluation_outcome(
    r: (AssessResult, AssessExit),
    loaded: LoadedPolicy,
    b: Seq<LoadedView>,
) -> bool {
    match evaluate_spec(loaded.policy@, b) {
        Err(e) => refused_with(r, eval_refusal_view(e)),
        Ok(d) => r.0 matches AssessResult::Decision(o) && describes_decision(o@, d, b, loaded)
            && r.1 == exit_of_band(d.band),
    }
}

/// What assessing the sources under the policy yields, step by step.
pub open spec fn assessment_meets(
    sources: Seq<ArtifactSource>,
    loaded: LoadedPolicy,
    r: (AssessResult, AssessExit),
) -> bool {
    match validation_message(loaded.policy@) {
        Some(m) => refused_with(r, new_envelope(RefusalCode::BadPolicy, m)),
        None => match load_spec(sources_view(sources)) {
            Err(e) => refused_with(r, bundle_refusal_view(e)),
            Ok(l) => exists|b: Seq<LoadedView>|
                sorted_arrangement(b, l) && #[trigger] evaluation_outcome(r, loaded, b),
        },
    }
}

fn bundle_refusal(e: &BundleError) -> (r: RefusalEnvelope)
    ensures
        r@ == bundle_refusal_view(e@),
{
    let message = e.message();
    let mut r = RefusalEnvelope::new(e.refusal_code(), message.as_str());
    match e.refusal_detail() {
        Some(detail) => {
            r = r.with_detail(detail);
        },
        None => {},
    }
    match e.refusal_next_command() {
        Some(next) => {
            r = r.with_next_command(next);
        },
        None => {},
    }
    r
}

/// Assess artifacts under a loaded policy. A policy that fails validation
/// is refused with `E_BAD_POLICY`; then the bundle is loaded, and refused
/// as the first failing artifact dictates; then the rules are evaluated,
/// and an incomplete basis or an unmatched bundle is refused; otherwise the
/// decision's output is built. Refusals exit 2; a decision exits as its
/// band dictates.
pub fn assess(sources: Vec<ArtifactSource>, loaded: &LoadedPolicy) -> (r: (AssessResult, AssessExit))
    ensures
        assessment_meets(sources@, *loaded, r),
{
    match validate(&loaded.policy) {
        Err(e) => {
            let message = e.message();
            return (
                AssessResult::Refusal(RefusalEnvelope::new(RefusalCode::BadPolicy, message.as_str())),
                AssessExit::Stop,
            );
        },
        Ok(()) => {},
    }
    let ghost sv = sources@;
    let bundle = match load(sources) {
        Err(e) => {
            return (AssessResult::Refusal(bundle_refusal(&e)), AssessExit::Stop);
        },
        Ok(b) => b,
    };
    match evaluate(&loaded.policy, &bundle) {
        Err(e) => {
            let message = e.message();
            let r = (
                AssessResult::Refusal(RefusalEnvelope::new(e.refusal_code(), message.as_str())),
                AssessExit::Stop,
            );
            proof {
                let l = load_spec(sources_view(sv))->Ok_0;
                assert(sorted_arrangement(bundle@, l));
                assert(evaluation_outcome(r, *loaded, bundle@));
            }
            r
        },
        Ok(decision) => {
            let exit = AssessExit::from_decision_band(decision.decision_band);
            let output = build_output(&decision, &bundle, loaded);
            let r = (AssessResult::Decision(output), exit);
            proof {
                let l = load_spec(sources_view(sv))->Ok_0;
                assert(sorted_arrangement(bundle@, l));
                assert(evaluation_outcome(r, *loaded, bundle@));
            }
            r
        },
    }
}


/// A decision's output describes what it was decided from: this tool and
/// contract, the policy's ID, version and content hash and its required
/// tools; the name, band and risk code of one of the policy's rules; and
/// one basis entry per artifact, each recording an artifact exactly as it
/// was read (its name and its report's version, outcome, policy signals
/// and refusal).
pub proof fn law_decision_output_describes_its_inputs(
    sources: Seq<ArtifactSource>,
    loaded: LoadedPolicy,
    r: (AssessResult, AssessExit),
)
    requires
        assessment_meets(sources, loaded, r),
    ensures
        r.0 matches AssessResult::Decision(o) ==> {
            &&& o.tool@ == "assess"@
            &&& o.version@ == "assess.v0"@
            &&& o.policy.id@ == loaded.policy.policy_id@
            &&& o.policy.version == loaded.policy.policy_version
            &&& o.policy.sha256@ == loaded.sha256@
            &&& strings_view(o.required_tools@) == strings_view(loaded.policy.requires@)
            &&& exists|i: int|
                0 <= i < loaded.policy.rules@.len() && (#[trigger] loaded.policy.rules@[i]).name@
                    == o.matched_rule@ && band_text(
                    loaded.policy.rules@[i].then_clause.decision_band,
                ) == o.decision_band@ && match loaded.policy.rules@[i].then_clause.risk_code {
                    Some(c) => o.risk_factors@.len() == 1 && o.risk_factors@[0].code@ == c@,
                    None => o.risk_factors@.len() == 0,
                }
            &&& o.epistemic_basis@.len() == sources.len()
            &&& forall|k: int|
                0 <= k < o.epistemic_basis@.len() ==> exists|s: int|
                    0 <= s < sources.len() && (#[trigger] sources[s]).artifact@ == (#[trigger] o.epistemic_basis@[k]).artifact@
                        && (sources[s].report matches Ok(rep) && o.epistemic_basis@[k].version@
                        == rep.version@ && opt_view(o.epistemic_basis@[k].outcome) == opt_view(
                        rep.outcome,
                    ) && signals_view(o.epistemic_basis@[k].policy_signals@) == signals_view(
                        rep.policy_signals@,
                    ) && opt_refusal_view(o.epistemic_basis@[k].refusal) == opt_refusal_view(
                        rep.refusal,
                    ))
        },
{
    if r.0 is Decision && validation_message(loaded.policy@) is None && load_spec(
        sources_view(sources),
    ) is Ok {
        let o = r.0->Decision_0;
        let sv = sources_view(sources);
        let l = load_spec(sv)->Ok_0;
        law_load_accounts_for_every_artifact(sv);
        let b = choose|b: Seq<LoadedView>|
            sorted_arrangement(b, l) && #[trigger] evaluation_outcome(r, loaded, b);
        let d = evaluate_spec(loaded.policy@, b)->Ok_0;
        crate::evaluate::law_first_matching_rule_decides(loaded.policy@, b);
        let i = choose|i: int|
            0 <= i < loaded.policy@.rules.len() && crate::evaluate::matcher::rule_fires(
                loaded.policy@.rules[i],
                b,
            ) && d == crate::evaluate::decision_of(loaded.policy@.rules[i]) && forall|j: int|
                0 <= j < i ==> !crate::evaluate::matcher::rule_fires(
                    #[trigger] loaded.policy@.rules[j],
                    b,
                );
        assert(loaded.policy@.rules[i] == loaded.policy.rules@[i]@);
        assert(o@.risk_factors == o.risk_factors@.map_values(|f: crate::output::RiskFactor| f@));
        match loaded.policy.rules@[i].then_clause.risk_code {
            Some(c) => {
                assert(o@.risk_factors.len() == 1);
                assert(o@.risk_factors[0] == o.risk_factors@[0]@);
            },
            None => {
                assert(o@.risk_factors.len() == 0);
            },
        }
        law_basis_records_each_report(b);
        assert forall|k: int| 0 <= k < o.epistemic_basis@.len() implies exists|s: int|
            0 <= s < sources.len() && (#[trigger] sources[s]).artifact@ == (#[trigger] o.epistemic_basis@[k]).artifact@
                && (sources[s].report matches Ok(rep) && o.epistemic_basis@[k].version@
                == rep.version@ && opt_view(o.epistemic_basis@[k].outcome) == opt_view(rep.outcome)
                && signals_view(o.epistemic_basis@[k].policy_signals@) == signals_view(
                rep.policy_signals@,
            ) && opt_refusal_view(o.epistemic_basis@[k].refusal) == opt_refusal_view(
                rep.refusal,
            )) by {
            let x = o@.epistemic_basis[k];
            assert(x == o.epistemic_basis@[k]@);
            assert(o@.epistemic_basis.contains(x));
            assert(loaded_bases(b).contains(x));
            let j = choose|j: int|
                0 <= j < b.len() && x.artifact == b[j].artifact && x.tool == b[j].tool
                    && x.version == b[j].report.version && x.outcome == b[j].report.outcome
                    && x.signals == b[j].report.signals && x.refusal == b[j].report.refusal;
            assert(b.contains(b[j]));
            assert(l.contains(b[j]));
            let m = choose|m: int| 0 <= m < l.len() && l[m] == b[j];
            assert(l[m].artifact == sv[m].artifact);
            assert(sv[m] == sources[m]@);
            assert(sv[m].report == Ok::<crate::bundle::artifact::ReportView, Seq<char>>(l[m].report));
        }
    }
}

/// The exit code of an assessment follows its outcome: every refusal
/// exits 2 and carries no decision band; a decision exits with the code of
/// the band its output names.
pub proof fn law_assessment_exit_codes(
    sources: Seq<ArtifactSource>,
    loaded: LoadedPolicy,
    r: (AssessResult, AssessExit),
)
    requires
        assessment_meets(sources, loaded, r),
    ensures
        r.0 matches AssessResult::Refusal(e) ==> exit_code_of(r.1) == 2 && e@.decision_band is None,
        r.0 matches AssessResult::Decision(o) ==> forall|band: DecisionBand|
            band_text(band) == o@.decision_band ==> #[trigger] exit_code_of(r.1) == exit_code_of(
                exit_of_band(band),
            ),
{
    match validation_message(loaded.policy@) {
        Some(m) => {},
        None => match load_spec(sources_view(sources)) {
            Err(e) => {},
            Ok(l) => {
                let b = choose|b: Seq<LoadedView>|
                    sorted_arrangement(b, l) && #[trigger] evaluation_outcome(r, loaded, b);
                match evaluate_spec(loaded.policy@, b) {
                    Err(e) => {},
                    Ok(d) => {
                        assert forall|band: DecisionBand|
                            band_text(band) == r.0->Decision_0@.decision_band implies #[trigger] exit_code_of(
                            r.1,
                        ) == exit_code_of(exit_of_band(band)) by {
                            lemma_band_text_injective(band, d.band);
                        }
                    },
                }
            },
        },
    }
}


/// `s` is strictly increasing under `lt`.
pub open spec fn strictly_sorted_by<T>(s: Seq<T>, lt: spec_fn(T, T) -> bool) -> bool {
    forall|i: int, j: int| 0 <= i < j < s.len() ==> #[trigger] lt(s[i], s[j])
}

/// Two sequences strictly increasing under the same strict order, of one
/// length and with the same members, are equal.
proof fn lemma_strictly_sorted_unique<T>(a: Seq<T>, c: Seq<T>, lt: spec_fn(T, T) -> bool)
    requires
        a.len() == c.len(),
        strictly_sorted_by(a, lt),
        strictly_sorted_by(c, lt),
        forall|x: T| a.contains(x) <==> c.contains(x),
        forall|x: T| !(#[trigger] lt(x, x)),
        forall|x: T, y: T, z: T| #[trigger] lt(x, y) && #[trigger] lt(y, z) ==> lt(x, z),
    ensures
        a == c,
    decreases a.len(),
{
    if a.len() > 0 {
        let n = a.len() - 1;
        assert(a.contains(a[n]));
        assert(c.contains(c[n]));
        let j = choose|j: int| 0 <= j < c.len() && c[j] == a[n];
        let k = choose|k: int| 0 <= k < a.len() && a[k] == c[n];
        if j < n {
            assert(lt(c[j], c[n]));
            if k < n {
                assert(lt(a[k], a[n]));
                assert(lt(a[n], a[n]));
            }
        }
        assert(c[n] == a[n]);
        let a1 = a.drop_last();
        let c1 = c.drop_last();
        assert forall|x: T| a1.contains(x) <==> c1.contains(x) by {
            if a1.contains(x) {
                let i = choose|i: int| 0 <= i < a1.len() && a1[i] == x;
                assert(a[i] == x);
                assert(lt(a[i], a[n]));
                assert(a.contains(x));
                let m = choose|m: int| 0 <= m < c.len() && c[m] == x;
                assert(m != n);
                assert(c1[m] == x);
            }
            if c1.contains(x) {
                let i = choose|i: int| 0 <= i < c1.len() && c1[i] == x;
                assert(c[i] == x);
                assert(lt(c[i], c[n]));
                assert(c.contains(x));
                let m = choose|m: int| 0 <= m < a.len() && a[m] == x;
                assert(m != n);
                assert(a1[m] == x);
            }
        }
        assert(strictly_sorted_by(a1, lt));
        assert(strictly_sorted_by(c1, lt));
        lemma_strictly_sorted_unique(a1, c1, lt);
        assert(a =~= c) by {
            assert(forall|i: int| 0 <= i < n ==> a[i] == a1[i] && c[i] == c1[i]);
        }
    }
}

proof fn lemma_tool_order()
    ensures
        forall|x: LoadedView| !(#[trigger] text_lt(x.tool, x.tool)),
        forall|x: LoadedView, y: LoadedView, z: LoadedView|
            #[trigger] text_lt(x.tool, y.tool) && #[trigger] text_lt(y.tool, z.tool) ==> text_lt(
                x.tool,
                z.tool,
            ),
{
    assert forall|x: LoadedView| !(#[trigger] text_lt(x.tool, x.tool)) by {
        lemma_text_lt_irreflexive(x.tool);
    }
    assert forall|x: LoadedView, y: LoadedView, z: LoadedView|
        #[trigger] text_lt(x.tool, y.tool) && #[trigger] text_lt(y.tool, z.tool) implies text_lt(
        x.tool,
        z.tool,
    ) by {
        lemma_text_lt_transitive(x.tool, y.tool, z.tool);
    }
}

/// A loaded bundle has one arrangement in increasing tool order.
proof fn lemma_arrangement_unique(b1: Seq<LoadedView>, b2: Seq<LoadedView>, l: Seq<LoadedView>)
    requires
        sorted_arrangement(b1, l),
        sorted_arrangement(b2, l),
    ensures
        b1 == b2,
{
    let lt = |x: LoadedView, y: LoadedView| text_lt(x.tool, y.tool);
    lemma_tool_order();
    assert(strictly_sorted_by(b1, lt));
    assert(strictly_sorted_by(b2, lt));
    assert forall|x: LoadedView| !(#[trigger] lt(x, x)) by {}
    assert forall|x: LoadedView, y: LoadedView, z: LoadedView|
        #[trigger] lt(x, y) && #[trigger] lt(y, z) implies lt(x, z) by {
        lemma_text_lt_transitive(x.tool, y.tool, z.tool);
    }
    lemma_strictly_sorted_unique(b1, b2, lt);
}

/// The basis of an output is the bundle's basis entries in their one
/// output order.
proof fn lemma_basis_unique(
    required: Seq<Seq<char>>,
    o1: Seq<BasisView>,
    o2: Seq<BasisView>,
    b: Seq<LoadedView>,
)
    requires
        strictly_sorted_by_tool(b),
        o1.len() == b.len(),
        o2.len() == b.len(),
        basis_in_output_order(required, o1),
        basis_in_output_order(required, o2),
        forall|x: BasisView| #[trigger] o1.contains(x) <==> loaded_bases(b).contains(x),
        forall|x: BasisView| #[trigger] o2.contains(x) <==> loaded_bases(b).contains(x),
    ensures
        o1 == o2,
{
    let lb = loaded_bases(b);
    lemma_tool_order();
    // The bundle's entries have distinct tools, so an entry is fixed by its tool.
    assert forall|x: BasisView, y: BasisView|
        lb.contains(x) && lb.contains(y) && x.tool == y.tool implies x == y by {
        let i = choose|i: int| 0 <= i < lb.len() && lb[i] == x;
        let j = choose|j: int| 0 <= j < lb.len() && lb[j] == y;
        if i < j {
            assert(text_lt(b[i].tool, b[j].tool));
        } else if j < i {
            assert(text_lt(b[j].tool, b[i].tool));
        }
    }
    assert(lb.no_duplicates()) by {
        assert forall|i: int, j: int| 0 <= i < lb.len() && 0 <= j < lb.len() && i != j implies lb[i]
            != lb[j] by {
            if i < j {
                assert(text_lt(b[i].tool, b[j].tool));
            } else {
                assert(text_lt(b[j].tool, b[i].tool));
            }
        }
    }
    lb.unique_seq_to_set();
    let lt = |x: BasisView, y: BasisView| key_lt(basis_key(required, x), basis_key(required, y));
    assert forall|x: BasisView| !(#[trigger] lt(x, x)) by {
        lemma_key_lt_irreflexive(basis_key(required, x));
    }
    assert forall|x: BasisView, y: BasisView, z: BasisView|
        #[trigger] lt(x, y) && #[trigger] lt(y, z) implies lt(x, z) by {
        lemma_key_lt_transitive(basis_key(required, x), basis_key(required, y), basis_key(required, z));
    }
    lemma_output_strict(required, o1, lb);
    lemma_output_strict(required, o2, lb);
    assert forall|x: BasisView| o1.contains(x) <==> o2.contains(x) by {
        if o1.contains(x) {
            assert(lb.contains(x));
        }
        if o2.contains(x) {
            assert(lb.contains(x));
        }
    }
    lemma_strictly_sorted_unique(o1, o2, lt);
}

/// An output basis with the bundle's members and length has each entry
/// once, so its order is strict.
proof fn lemma_output_strict(required: Seq<Seq<char>>, o: Seq<BasisView>, lb: Seq<BasisView>)
    requires
        o.len() == lb.len(),
        lb.no_duplicates(),
        lb.to_set().len() == lb.len(),
        basis_in_output_order(required, o),
        forall|x: BasisView| #[trigger] o.contains(x) <==> lb.contains(x),
        forall|x: BasisView, y: BasisView| lb.contains(x) && lb.contains(y) && x.tool == y.tool ==> x
            == y,
    ensures
        strictly_sorted_by(
            o,
            |x: BasisView, y: BasisView| key_lt(basis_key(required, x), basis_key(required, y)),
        ),
{
    assert(o.to_set() =~= lb.to_set()) by {
        assert forall|x: BasisView| o.to_set().contains(x) <==> lb.to_set().contains(x) by {
            if o.to_set().contains(x) {
                assert(o.contains(x));
            }
            if lb.to_set().contains(x) {
                assert(lb.contains(x));
            }
        }
    }
    o.lemma_no_dup_set_cardinality();
    assert forall|i: int, j: int| 0 <= i < j < o.len() implies #[trigger] key_lt(
        basis_key(required, o[i]),
        basis_key(required, o[j]),
    ) by {
        assert(o.contains(o[i]));
        assert(o.contains(o[j]));
        assert(o[i] != o[j]);
        assert(o[i].tool != o[j].tool);
        assert(basis_key(required, o[i]) != basis_key(required, o[j]));
        assert(key_le(basis_key(required, o[i]), basis_key(required, o[j])));
    }
}

/// Assessment is deterministic: sources that read the same under the same
/// policy give the same result and the same exit class, whichever run it is.
pub proof fn law_assessment_is_deterministic(
    sources: Seq<ArtifactSource>,
    again: Seq<ArtifactSource>,
    loaded: LoadedPolicy,
    x: (AssessResult, AssessExit),
    y: (AssessResult, AssessExit),
)
    requires
        sources_view(sources) == sources_view(again),
        assessment_meets(sources, loaded, x),
        assessment_meets(again, loaded, y),
    ensures
        x.1 == y.1,
        result_view(x.0) == result_view(y.0),
{
    match validation_message(loaded.policy@) {
        Some(m) => {},
        None => match load_spec(sources_view(sources)) {
            Err(e) => {},
            Ok(l) => {
                let b1 = choose|b: Seq<LoadedView>|
                    sorted_arrangement(b, l) && #[trigger] evaluation_outcome(x, loaded, b);
                let b2 = choose|b: Seq<LoadedView>|
                    sorted_arrangement(b, l) && #[trigger] evaluation_outcome(y, loaded, b);
                lemma_arrangement_unique(b1, b2, l);
                match evaluate_spec(loaded.policy@, b1) {
                    Err(e) => {},
                    Ok(d) => {
                        let o1 = x.0->Decision_0@;
                        let o2 = y.0->Decision_0@;
                        lemma_basis_unique(
                            strings_view(loaded.policy.requires@),
                            o1.epistemic_basis,
                            o2.epistemic_basis,
                            b1,
                        );
                        assert(o1 == o2);
                    },
                }
            },
        },
    }
}

} // verus!
