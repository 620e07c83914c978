use vstd::prelude::*;

use super::PolicyError;
use super::schema::{DecisionBand, PolicyFile, Rule, RuleView, band_text};
use crate::text::{decimal_text, is_blank, is_blank_text, push_decimal, push_str};

verus! {

/// No rule but the last is marked default (so a default rule, if any, is
/// the last rule).
pub open spec fn default_is_last(rules: Seq<RuleView>) -> bool {
    forall|i: int| 0 <= i < rules.len() - 1 ==> !(#[trigger] rules[i]).default
}

/// The rule carries a risk code that is not blank.
pub open spec fn has_risk_code(r: RuleView) -> bool {
    r.risk_code matches Some(c) && !is_blank_text(c)
}

/// A rule with a band other than PROCEED must say why, in a risk code.
pub open spec fn lacks_required_risk_code(r: RuleView) -> bool {
    r.band != DecisionBand::Proceed && !has_risk_code(r)
}

/// The index of the first rule that lacks a required risk code.
pub open spec fn first_lacking_risk_code(rules: Seq<RuleView>) -> Option<int>
    decreases rules.len(),
{
    if rules.len() == 0 {
        None
    } else if lacks_required_risk_code(rules[0]) {
        Some(0)
    } else {
        match first_lacking_risk_code(rules.drop_first()) {
            Some(k) => Some(k + 1),
            None => None,
        }
    }
}

/// Why a policy is structurally invalid, checked in this order: its schema
/// version, an empty rule list, a default rule that is not last, and the
/// first non-PROCEED rule without a risk code. `None` for a valid policy.
pub open spec fn validation_message(p: super::schema::PolicyView) -> Option<Seq<char>> {
    if p.schema_version != 1 {
        Some("policy schema_version must be 1, found "@ + decimal_text(p.schema_version as nat))
    } else if p.rules.len() == 0 {
        Some("policy must define at least one rule"@)
    } else if !default_is_last(p.rules) {
        Some("policy default rule must be last"@)
    } else {
        match first_lacking_risk_code(p.rules) {
            Some(i) => Some(
                "rule `"@ + p.rules[i].name + "` requires non-empty risk_code for "@ + band_text(
                    p.rules[i].band,
                ),
            ),
            None => None,
        }
    }
}

pub proof fn lemma_first_lacking_risk_code(rules: Seq<RuleView>)
    ensures
        match first_lacking_risk_code(rules) {
            Some(i) => 0 <= i < rules.len() && lacks_required_risk_code(rules[i]) && forall|j: int|
                0 <= j < i ==> !lacks_required_risk_code(#[trigger] rules[j]),
            None => forall|j: int|
                0 <= j < rules.len() ==> !lacks_required_risk_code(#[trigger] rules[j]),
        },
    decreases rules.len(),
{
    if rules.len() > 0 {
        lemma_first_lacking_risk_code(rules.drop_first());
        if !lacks_required_risk_code(rules[0]) {
            match first_lacking_risk_code(rules.drop_first()) {
                Some(k) => {
                    assert forall|j: int| 0 <= j < k + 1 implies !lacks_required_risk_code(
                        #[trigger] rules[j],
                    ) by {
                        if j > 0 {
                            assert(rules[j] == rules.drop_first()[j - 1]);
                        }
                    }
                    assert(rules[k + 1] == rules.drop_first()[k]);
                },
                None => {
                    assert forall|j: int| 0 <= j < rules.len() implies !lacks_required_risk_code(
                        #[trigger] rules[j],
                    ) by {
                        if j > 0 {
                            assert(rules[j] == rules.drop_first()[j - 1]);
                        }
                    }
                },
            }
        }
    }
}

/// A default rule may stand only last: a policy passes validation only if
/// no rule before the last is marked default, and a policy of schema
/// version 1 with a default rule before the last is refused for exactly
/// that reason.
pub proof fn law_default_rule_only_last(p: PolicyFile)
    ensures
        validation_message(p@) is None ==> forall|i: int|
            0 <= i < p.rules@.len() - 1 ==> !(#[trigger] p.rules@[i]).default,
        p.schema_version == 1 && (exists|i: int|
            0 <= i < p.rules@.len() - 1 && (#[trigger] p.rules@[i]).default) ==> validation_message(
            p@,
        ) == Some("policy default rule must be last"@),
        default_is_last(p@.rules) <==> forall|i: int|
            0 <= i < p.rules@.len() - 1 ==> !(#[trigger] p.rules@[i]).default,
{
    assert forall|i: int| 0 <= i < p.rules@.len() implies (#[trigger] p@.rules[i]).default
        == p.rules@[i].default by {}
    if p.schema_version == 1 && (exists|i: int|
        0 <= i < p.rules@.len() - 1 && (#[trigger] p.rules@[i]).default) {
        let i = choose|i: int| 0 <= i < p.rules@.len() - 1 && (#[trigger] p.rules@[i]).default;
        assert(p@.rules[i].default);
    }
    if default_is_last(p@.rules) {
        assert forall|i: int| 0 <= i < p.rules@.len() - 1 implies !(#[trigger] p.rules@[i]).default by {
            assert(!p@.rules[i].default);
        }
    }
    if forall|i: int| 0 <= i < p.rules@.len() - 1 ==> !(#[trigger] p.rules@[i]).default {
        assert forall|i: int| 0 <= i < p@.rules.len() - 1 implies !(#[trigger] p@.rules[i]).default by {
            assert(!p.rules@[i].default);
        }
    }
}

/// What a valid policy is: schema version 1, at least one rule, and a
/// non-blank risk code on every rule whose band is not PROCEED.
pub proof fn law_valid_policy_shape(p: PolicyFile)
    ensures
        validation_message(p@) is None ==> {
            &&& p.schema_version == 1
            &&& p.rules@.len() > 0
            &&& forall|i: int|
                0 <= i < p.rules@.len() && (#[trigger] p.rules@[i]).then_clause.decision_band
                    != DecisionBand::Proceed ==> (p.rules@[i].then_clause.risk_code matches Some(c)
                    && !is_blank_text(c@))
        },
        p.schema_version != 1 ==> validation_message(p@) is Some,
        p.rules@.len() == 0 ==> validation_message(p@) is Some,
{
    lemma_first_lacking_risk_code(p@.rules);
    if validation_message(p@) is None {
        assert forall|i: int|
            0 <= i < p.rules@.len() && (#[trigger] p.rules@[i]).then_clause.decision_band
                != DecisionBand::Proceed implies (p.rules@[i].then_clause.risk_code matches Some(c)
                && !is_blank_text(c@)) by {
            assert(p@.rules[i] == p.rules@[i]@);
            assert(!lacks_required_risk_code(p@.rules[i]));
        }
    }
}

/// Whether a default rule, if there is one, is the last rule: the first
/// rule marked default stands at the end of the list.
pub fn default_rule_is_last(policy: &PolicyFile) -> (r: bool)
    ensures
        r == default_is_last(policy@.rules),
{
    let ghost rules = policy@.rules;
    let mut i: usize = 0;
    while i < policy.rules.len()
        invariant
            i <= policy.rules@.len(),
            rules == policy@.rules,
            forall|j: int| 0 <= j < i ==> !(#[trigger] rules[j]).default,
        decreases policy.rules@.len() - i,
    {
        assert(rules[i as int] == policy.rules@[i as int]@);
        if policy.rules[i].default {
            return i + 1 == policy.rules.len();
        }
        i = i + 1;
    }
    true
}

fn has_non_empty_risk_code(rule: &Rule) -> (r: bool)
    ensures
        r == has_risk_code(rule@),
{
    match &rule.then_clause.risk_code {
        Some(code) => !is_blank(code.as_str()),
        None => false,
    }
}

fn schema_violation(message: String) -> (e: PolicyError)
    ensures
        e == PolicyError::SchemaViolation(message),
{
    PolicyError::SchemaViolation(message)
}

/// Structural validation of a policy: schema version 1, at least one rule,
/// a default rule only in last place, and a non-blank risk code on every
/// rule whose band is not PROCEED.
#[verifier::loop_isolation(false)]
pub fn validate(policy: &PolicyFile) -> (r: Result<(), PolicyError>)
    ensures
        match validation_message(policy@) {
            None => r is Ok,
            Some(m) => r matches Err(PolicyError::SchemaViolation(x)) && x@ == m,
        },
{
    if policy.schema_version != 1 {
        let mut message = String::new();
        push_str(&mut message, "policy schema_version must be 1, found ");
        push_decimal(&mut message, policy.schema_version as u64);
        return Err(schema_violation(message));
    }
    if policy.rules.len() == 0 {
        let mut message = String::new();
        push_str(&mut message, "policy must define at least one rule");
        return Err(schema_violation(message));
    }
    if !default_rule_is_last(policy) {
        let mut message = String::new();
        push_str(&mut message, "policy default rule must be last");
        return Err(schema_violation(message));
    }
    let ghost rules = policy@.rules;
    proof {
        lemma_first_lacking_risk_code(rules);
    }
    let mut i: usize = 0;
    while i < policy.rules.len()
        invariant
            i <= policy.rules@.len(),
            rules == policy@.rules,
            rules.len() == policy.rules@.len(),
            forall|j: int| 0 <= j < i ==> !lacks_required_risk_code(#[trigger] rules[j]),
        decreases policy.rules@.len() - i,
    {
        let rule = &policy.rules[i];
        assert(rules[i as int] == rule@);
        if rule.then_clause.decision_band != DecisionBand::Proceed && !has_non_empty_risk_code(rule) {
            let mut message = String::new();
            push_str(&mut message, "rule `");
            push_str(&mut message, rule.name.as_str());
            push_str(&mut message, "` requires non-empty risk_code for ");
            push_str(&mut message, rule.then_clause.decision_band.as_str());
            proof {
                lemma_first_lacking_risk_code(rules);
            }
            return Err(schema_violation(message));
        }
        i = i + 1;
    }
    proof {
        lemma_first_lacking_risk_code(rules);
    }
    Ok(())
}

} // verus!
