pub mod matcher;

use vstd::prelude::*;

use crate::bundle::{ArtifactBundle, LoadedView};
use crate::policy::schema::{DecisionBand, PolicyFile, PolicyView, RuleView};
use crate::refusal::RefusalCode;
use crate::text::{copy_opt_string, copy_string, opt_view, strings_view};
use matcher::{matches_bundle, rule_fires};

verus! {

/// The decision for a bundle: the band, the rule that won, and that rule's
/// risk code.
#[derive(Debug, Clone, PartialEq, Eq)]
pub struct Decision {
    pub decision_band: DecisionBand,
    pub matched_rule: String,
    pub risk_code: Option<String>,
}

pub struct DecisionView {
    pub band: DecisionBand,
    pub matched_rule: Seq<char>,
    pub risk_code: Option<Seq<char>>,
}

impl View for Decision {
    type V = DecisionView;

    open spec fn view(&self) -> DecisionView {
        DecisionView {
            band: self.decision_band,
            matched_rule: self.matched_rule@,
            risk_code: opt_view(self.risk_code),
        }
    }
}

#[derive(Debug, Clone, PartialEq, Eq)]
pub enum EvalError {
    IncompleteBasis { missing: Vec<String> },
    NoMatchingRule,
}

pub enum EvalErrorView {
    IncompleteBasis { missing: Seq<Seq<char>> },
    NoMatchingRule,
}

impl View for EvalError {
    type V = EvalErrorView;

    open spec fn view(&self) -> EvalErrorView {
        match self {
            EvalError::IncompleteBasis { missing } => EvalErrorView::IncompleteBasis {
                missing: strings_view(missing@),
            },
            EvalError::NoMatchingRule => EvalErrorView::NoMatchingRule,
        }
    }
}

pub open spec fn eval_error_code(e: EvalErrorView) -> RefusalCode {
    match e {
        EvalErrorView::IncompleteBasis { .. } => RefusalCode::IncompleteBasis,
        EvalErrorView::NoMatchingRule => RefusalCode::MissingRule,
    }
}

/// How an evaluation error reads.
pub open spec fn eval_error_message(e: EvalErrorView) -> Seq<char> {
    match e {
        EvalErrorView::IncompleteBasis { missing } => "incomplete basis: missing tools "@
            + crate::text::strings_debug_text(missing),
        EvalErrorView::NoMatchingRule => "no rule matched and no default rule exists"@,
    }
}

impl EvalError {
    pub fn message(&self) -> (m: String)
        ensures
            m@ == eval_error_message(self@),
    {
        match self {
            EvalError::IncompleteBasis { missing } => {
                let mut m = crate::text::owned("incomplete basis: missing tools ");
                let shown = crate::text::strings_debug(missing);
                crate::text::push_str(&mut m, shown.as_str());
                m
            },
            EvalError::NoMatchingRule => crate::text::owned(
                "no rule matched and no default rule exists",
            ),
        }
    }

    pub fn refusal_code(&self) -> (c: RefusalCode)
        ensures
            c == eval_error_code(self@),
    {
        match self {
            EvalError::IncompleteBasis { .. } => RefusalCode::IncompleteBasis,
            EvalError::NoMatchingRule => RefusalCode::MissingRule,
        }
    }
}

/// Whether the bundle holds an artifact for `tool`.
pub open spec fn is_observed(b: Seq<LoadedView>, tool: Seq<char>) -> bool {
    exists|j: int| 0 <= j < b.len() && b[j].tool == tool
}

/// The required tools the bundle lacks, in the policy's order.
pub open spec fn missing_tools(required: Seq<Seq<char>>, b: Seq<LoadedView>) -> Seq<Seq<char>>
    decreases required.len(),
{
    if required.len() == 0 {
        Seq::empty()
    } else if is_observed(b, required.last()) {
        missing_tools(required.drop_last(), b)
    } else {
        missing_tools(required.drop_last(), b).push(required.last())
    }
}

/// The index of the first rule that fires on the bundle.
pub open spec fn first_firing(rules: Seq<RuleView>, b: Seq<LoadedView>) -> Option<int>
    decreases rules.len(),
{
    if rules.len() == 0 {
        None
    } else if rule_fires(rules[0], b) {
        Some(0)
    } else {
        match first_firing(rules.drop_first(), b) {
            Some(k) => Some(k + 1),
            None => None,
        }
    }
}

/// The decision a rule gives.
pub open spec fn decision_of(r: RuleView) -> DecisionView {
    DecisionView { band: r.band, matched_rule: r.name, risk_code: r.risk_code }
}

/// Evaluating a policy on a bundle: every required tool must be present;
/// then the first rule that fires decides.
pub open spec fn evaluate_spec(p: PolicyView, b: Seq<LoadedView>) -> Result<
    DecisionView,
    EvalErrorView,
> {
    let missing = missing_tools(p.requires, b);
    if missing.len() > 0 {
        Err(EvalErrorView::IncompleteBasis { missing })
    } else {
        match first_firing(p.rules, b) {
            Some(i) => Ok(decision_of(p.rules[i])),
            None => Err(EvalErrorView::NoMatchingRule),
        }
    }
}

/// `first_firing` is the least index of a rule that fires.
pub proof fn lemma_first_firing(rules: Seq<RuleView>, b: Seq<LoadedView>)
    ensures
        match first_firing(rules, b) {
            Some(i) => 0 <= i < rules.len() && rule_fires(rules[i], b) && forall|j: int|
                0 <= j < i ==> !rule_fires(#[trigger] rules[j], b),
            None => forall|j: int| 0 <= j < rules.len() ==> !rule_fires(#[trigger] rules[j], b),
        },
    decreases rules.len(),
{
    if rules.len() > 0 {
        lemma_first_firing(rules.drop_first(), b);
        if !rule_fires(rules[0], b) {
            match first_firing(rules.drop_first(), b) {
                Some(k) => {
                    assert forall|j: int| 0 <= j < k + 1 implies !rule_fires(#[trigger] rules[j], b) by {
                        if j > 0 {
                            assert(rules[j] == rules.drop_first()[j - 1]);
                        }
                    }
                    assert(rules[k + 1] == rules.drop_first()[k]);
                },
                None => {
                    assert forall|j: int| 0 <= j < rules.len() implies !rule_fires(#[trigger] rules[j], b) by {
                        if j > 0 {
                            assert(rules[j] == rules.drop_first()[j - 1]);
                        }
                    }
                },
            }
        }
    }
}

fn copy_rule_decision(r: &crate::policy::schema::Rule) -> (d: Decision)
    ensures
        d@ == decision_of(r@),
{
    Decision {
        decision_band: r.then_clause.decision_band,
        matched_rule: copy_string(&r.name),
        risk_code: copy_opt_string(&r.then_clause.risk_code),
    }
}

/// The required tools that the bundle lacks.
fn check_requires(policy: &PolicyFile, bundle: &ArtifactBundle) -> (r: Result<(), EvalError>)
    ensures
        match r {
            Ok(()) => missing_tools(policy@.requires, bundle@).len() == 0,
            Err(e) => e@ == (EvalErrorView::IncompleteBasis {
                missing: missing_tools(policy@.requires, bundle@),
            }) && missing_tools(policy@.requires, bundle@).len() > 0,
        },
{
    let observed = bundle.observed_tools();
    let ghost req = policy@.requires;
    let mut missing: Vec<String> = Vec::new();
    let mut i: usize = 0;
    while i < policy.requires.len()
        invariant
            i <= policy.requires@.len(),
            req == policy@.requires,
            observed@.len() == bundle@.len(),
            forall|k: int| 0 <= k < observed@.len() ==> (#[trigger] observed@[k])@ == bundle@[k].tool,
            strings_view(missing@) == missing_tools(req.take(i as int), bundle@),
        decreases policy.requires@.len() - i,
    {
        let tool = &policy.requires[i];
        let mut found = false;
        let mut k: usize = 0;
        while k < observed.len()
            invariant
                k <= observed@.len(),
                observed@.len() == bundle@.len(),
                forall|m: int| 0 <= m < observed@.len() ==> (#[trigger] observed@[m])@ == bundle@[m].tool,
                found == (exists|m: int| 0 <= m < k && bundle@[m].tool == tool@),
            decreases observed@.len() - k,
        {
            if observed[k] == *tool {
                found = true;
            }
            k = k + 1;
        }
        assert(found == is_observed(bundle@, tool@));
        assert(req.take(i + 1).drop_last() =~= req.take(i as int));
        assert(req.take(i + 1).last() == tool@);
        if !found {
            missing.push(copy_string(tool));
        }
        assert(strings_view(missing@) =~= missing_tools(req.take(i + 1), bundle@));
        i = i + 1;
    }
    assert(req.take(policy.requires@.len() as int) =~= req);
    if missing.len() == 0 {
        Ok(())
    } else {
        Err(EvalError::IncompleteBasis { missing })
    }
}

/// Evaluate a policy against an artifact bundle.
///
/// 1. Checks that all tools in `policy.requires` are present in the bundle.
/// 2. Evaluates rules in declaration order; first match wins.
/// 3. Default rule always matches when reached.
/// 4. Returns `EvalError::NoMatchingRule` if nothing matches.
pub fn evaluate(policy: &PolicyFile, bundle: &ArtifactBundle) -> (r: Result<Decision, EvalError>)
    ensures
        match evaluate_spec(policy@, bundle@) {
            Ok(d) => r matches Ok(x) && x@ == d,
            Err(e) => r matches Err(x) && x@ == e,
        },
{
    check_requires(policy, bundle)?;
    let ghost rules = policy@.rules;
    proof {
        lemma_first_firing(rules, bundle@);
    }
    let mut i: usize = 0;
    while i < policy.rules.len()
        invariant
            i <= policy.rules@.len(),
            rules == policy@.rules,
            rules.len() == policy.rules@.len(),
            missing_tools(policy@.requires, bundle@).len() == 0,
            forall|j: int| 0 <= j < i ==> !rule_fires(#[trigger] rules[j], bundle@),
        decreases policy.rules@.len() - i,
    {
        let rule = &policy.rules[i];
        assert(rules[i as int] == rule@);
        if rule.default {
            proof {
                lemma_first_firing(rules, bundle@);
                assert(rule_fires(rules[i as int], bundle@));
            }
            return Ok(copy_rule_decision(rule));
        }
        match &rule.when {
            None => {},
            Some(clause) => {
                if matches_bundle(clause, bundle) {
                    proof {
                        lemma_first_firing(rules, bundle@);
                        assert(rule_fires(rules[i as int], bundle@));
                    }
                    return Ok(copy_rule_decision(rule));
                }
            },
        }
        i = i + 1;
    }
    Err(EvalError::NoMatchingRule)
}

/// First match wins: a decision is the decision of a rule that fires on the
/// bundle, and no earlier rule fires.
pub proof fn law_first_matching_rule_decides(p: PolicyView, b: Seq<LoadedView>)
    ensures
        evaluate_spec(p, b) matches Ok(d) ==> exists|i: int|
            0 <= i < p.rules.len() && rule_fires(p.rules[i], b) && d == decision_of(p.rules[i])
                && forall|j: int| 0 <= j < i ==> !rule_fires(#[trigger] p.rules[j], b),
{
    lemma_first_firing(p.rules, b);
}

/// A non-default rule fires only when its `when` clause holds in full: for
/// each tool the clause names, the bundle has an artifact of that tool whose
/// report the tool's matcher accepts; and when it does not fire, some tool
/// the clause names has no such artifact.
pub proof fn law_firing_rules_meet_each_named_tool(r: RuleView, b: Seq<LoadedView>, i: int)
    ensures
        rule_fires(r, b) && !r.default ==> r.when is Some,
        r.when is Some && rule_fires(r, b) && !r.default && 0 <= i < r.when->Some_0.len() ==> exists|j: int|
            0 <= j < b.len() && b[j].tool == r.when->Some_0[i].0 && matcher::matcher_matches(
                r.when->Some_0[i].1,
                b[j].report,
            ),
        r.when is Some && !rule_fires(r, b) ==> exists|k: int|
            0 <= k < r.when->Some_0.len() && forall|j: int|
                0 <= j < b.len() && b[j].tool == (#[trigger] r.when->Some_0[k]).0
                    ==> !matcher::matcher_matches(r.when->Some_0[k].1, b[j].report),
{
    if let Some(w) = r.when {
        if rule_fires(r, b) && !r.default && 0 <= i < w.len() {
            assert(matcher::condition_holds(w[i], b));
        }
        if !rule_fires(r, b) {
            let k = choose|k: int| 0 <= k < w.len() && !matcher::condition_holds(#[trigger] w[k], b);
            assert(forall|j: int|
                0 <= j < b.len() && b[j].tool == w[k].0 ==> !matcher::matcher_matches(
                    w[k].1,
                    b[j].report,
                ));
        }
    }
}

/// What evaluation answers: an incomplete basis exactly when some required
/// tool has no artifact in the bundle; otherwise the band, rule name and
/// risk code of a rule that fires with no earlier rule firing; and no
/// matching rule only when no rule fires at all.
pub proof fn law_evaluation_answers(p: PolicyView, b: Seq<LoadedView>)
    ensures
        (evaluate_spec(p, b) matches Err(EvalErrorView::IncompleteBasis { .. })) <==> exists|k: int|
            0 <= k < p.requires.len() && forall|j: int|
                0 <= j < b.len() ==> b[j].tool != #[trigger] p.requires[k],
        evaluate_spec(p, b) matches Ok(d) ==> exists|i: int|
            0 <= i < p.rules.len() && rule_fires(#[trigger] p.rules[i], b) && d.band
                == p.rules[i].band && d.matched_rule == p.rules[i].name && d.risk_code
                == p.rules[i].risk_code && forall|j: int|
                0 <= j < i ==> !rule_fires(#[trigger] p.rules[j], b),
        (forall|k: int|
            0 <= k < p.requires.len() ==> exists|j: int|
                0 <= j < b.len() && b[j].tool == #[trigger] p.requires[k]) ==> ((exists|i: int|
            0 <= i < p.rules.len() && rule_fires(#[trigger] p.rules[i], b)) <==> evaluate_spec(p, b) is Ok),
        (evaluate_spec(p, b) matches Err(EvalErrorView::NoMatchingRule)) ==> forall|i: int|
            0 <= i < p.rules.len() ==> !rule_fires(#[trigger] p.rules[i], b),
{
    law_missing_tools_are_the_unobserved_requirements(p.requires, b);
    lemma_first_firing(p.rules, b);
    let m = missing_tools(p.requires, b);
    if m.len() > 0 {
        let t = m[0];
        assert(m.contains(t));
        assert(p.requires.contains(t) && !is_observed(b, t));
        let k = choose|k: int| 0 <= k < p.requires.len() && p.requires[k] == t;
        assert(!is_observed(b, p.requires[k]));
    }
    if exists|k: int|
        0 <= k < p.requires.len() && forall|j: int|
            0 <= j < b.len() ==> b[j].tool != #[trigger] p.requires[k] {
        let k = choose|k: int|
            0 <= k < p.requires.len() && forall|j: int|
                0 <= j < b.len() ==> b[j].tool != #[trigger] p.requires[k];
        assert(!is_observed(b, p.requires[k]));
        assert(m.contains(p.requires[k]));
    }
    if forall|k: int|
        0 <= k < p.requires.len() ==> exists|j: int|
            0 <= j < b.len() && b[j].tool == #[trigger] p.requires[k] {
        assert forall|k: int| 0 <= k < p.requires.len() implies is_observed(b, #[trigger] p.requires[k]) by {
            let j = choose|j: int| 0 <= j < b.len() && b[j].tool == p.requires[k];
        }
    }
}

/// The default rule always matches when reached: with every required tool
/// present, a policy that has a default rule always decides.
pub proof fn law_default_rule_always_decides(p: PolicyView, b: Seq<LoadedView>)
    requires
        matcher::has_default(p.rules),
        missing_tools(p.requires, b).len() == 0,
    ensures
        evaluate_spec(p, b) is Ok,
{
    lemma_first_firing(p.rules, b);
    let k = choose|k: int| 0 <= k < p.rules.len() && (#[trigger] p.rules[k]).default;
    assert(rule_fires(p.rules[k], b));
}

/// A refusal for an incomplete basis lists exactly the required tools that
/// the bundle lacks; and the basis is incomplete exactly when some required
/// tool is missing.
pub proof fn law_missing_tools_are_the_unobserved_requirements(
    required: Seq<Seq<char>>,
    b: Seq<LoadedView>,
)
    ensures
        forall|t: Seq<char>|
            missing_tools(required, b).contains(t) <==> (required.contains(t) && !is_observed(b, t)),
        missing_tools(required, b).len() == 0 <==> forall|i: int|
            0 <= i < required.len() ==> is_observed(b, #[trigger] required[i]),
    decreases required.len(),
{
    if required.len() > 0 {
        let prev = required.drop_last();
        law_missing_tools_are_the_unobserved_requirements(prev, b);
        assert(required =~= prev.push(required.last()));
        assert forall|t: Seq<char>| #[trigger] required.contains(t) <==> (prev.contains(t) || t
            == required.last()) by {
            if required.contains(t) {
                let i = choose|i: int| 0 <= i < required.len() && required[i] == t;
                if i < required.len() - 1 {
                    assert(prev[i] == t);
                }
            }
            if prev.contains(t) {
                let i = choose|i: int| 0 <= i < prev.len() && prev[i] == t;
                assert(required[i] == t);
            }
            if t == required.last() {
                assert(required[required.len() - 1] == t);
            }
        }
        let m = missing_tools(required, b);
        let pm = missing_tools(prev, b);
        if !is_observed(b, required.last()) {
            assert(m == pm.push(required.last()));
            assert forall|t: Seq<char>| #[trigger] m.contains(t) <==> (pm.contains(t) || t
                == required.last()) by {
                if m.contains(t) {
                    let i = choose|i: int| 0 <= i < m.len() && m[i] == t;
                    if i < pm.len() {
                        assert(pm[i] == t);
                    }
                }
                if pm.contains(t) {
                    let i = choose|i: int| 0 <= i < pm.len() && pm[i] == t;
                    assert(m[i] == t);
                }
                if t == required.last() {
                    assert(m[m.len() - 1] == t);
                }
            }
            assert(m.len() > 0);
        }
        assert((forall|i: int| 0 <= i < required.len() ==> is_observed(b, #[trigger] required[i]))
            <==> ((forall|i: int| 0 <= i < prev.len() ==> is_observed(b, #[trigger] prev[i]))
            && is_observed(b, required.last()))) by {
            if forall|i: int| 0 <= i < prev.len() ==> is_observed(b, #[trigger] prev[i]) {
                if is_observed(b, required.last()) {
                    assert forall|i: int| 0 <= i < required.len() implies is_observed(
                        b,
                        #[trigger] required[i],
                    ) by {
                        if i < prev.len() {
                            assert(required[i] == prev[i]);
                        }
                    }
                }
            }
            if forall|i: int| 0 <= i < required.len() ==> is_observed(b, #[trigger] required[i]) {
                assert forall|i: int| 0 <= i < prev.len() implies is_observed(
                    b,
                    #[trigger] prev[i],
                ) by {
                    assert(required[i] == prev[i]);
                }
                assert(is_observed(b, required[required.len() - 1]));
            }
        }
    }
}

/// Every rule of a valid policy whose band is not PROCEED carries a risk
/// code, so every such decision comes with a non-blank risk code.
pub proof fn law_valid_policy_decisions_carry_risk_codes(p: PolicyView, b: Seq<LoadedView>)
    requires
        crate::policy::validate::validation_message(p) is None,
    ensures
        evaluate_spec(p, b) matches Ok(d) ==> (d.band != DecisionBand::Proceed ==> (
        d.risk_code matches Some(c) && !crate::text::is_blank_text(c))),
{
    lemma_first_firing(p.rules, b);
    crate::policy::validate::lemma_first_lacking_risk_code(p.rules);
}

} // verus!
