use vstd::prelude::*;

use crate::bundle::artifact::{Signal, signals_view};
use crate::text::{opt_view, strings_view};

verus! {

/// The four action bands a decision can assign.
#[derive(Debug, Clone, Copy, PartialEq, Eq, Structural)]
pub enum DecisionBand {
    Proceed,
    ProceedWithRisk,
    Escalate,
    Block,
}

/// The wire label of a decision band.
pub open spec fn band_text(band: DecisionBand) -> Seq<char> {
    match band {
        DecisionBand::Proceed => "PROCEED"@,
        DecisionBand::ProceedWithRisk => "PROCEED_WITH_RISK"@,
        DecisionBand::Escalate => "ESCALATE"@,
        DecisionBand::Block => "BLOCK"@,
    }
}

impl DecisionBand {
    pub fn as_str(self) -> (s: &'static str)
        ensures
            s@ == band_text(self),
    {
        match self {
            DecisionBand::Proceed => "PROCEED",
            DecisionBand::ProceedWithRisk => "PROCEED_WITH_RISK",
            DecisionBand::Escalate => "ESCALATE",
            DecisionBand::Block => "BLOCK",
        }
    }
}

/// Distinct bands have distinct labels.
pub proof fn lemma_band_text_injective(a: DecisionBand, b: DecisionBand)
    ensures
        band_text(a) == band_text(b) ==> a == b,
{
    reveal_strlit("PROCEED");
    reveal_strlit("PROCEED_WITH_RISK");
    reveal_strlit("ESCALATE");
    reveal_strlit("BLOCK");
    if band_text(a) == band_text(b) && a != b {
        assert(band_text(a).len() == band_text(b).len());
        assert(band_text(a)[0] == band_text(b)[0]);
    }
}

/// Match conditions for a single tool within a `when` clause.
///
/// `signals` holds each expected policy signal as its name and its value in
/// compact JSON text.
#[derive(Debug, Clone, PartialEq, Eq)]
pub struct ToolMatcher {
    pub outcome: Option<String>,
    pub outcome_in: Option<Vec<String>>,
    pub refusal: Option<String>,
    pub signals: Vec<Signal>,
}

/// One entry of a `when` clause: the tool it names and what its report must
/// show.
#[derive(Debug, Clone, PartialEq, Eq)]
pub struct ToolCondition {
    pub tool: String,
    pub matcher: ToolMatcher,
}

/// A when clause maps tool names to their match conditions (one entry per
/// tool, in the clause's key order).
pub type WhenClause = Vec<ToolCondition>;

#[derive(Debug, Clone, PartialEq, Eq)]
pub struct ThenClause {
    pub decision_band: DecisionBand,
    pub risk_code: Option<String>,
}

#[derive(Debug, Clone, PartialEq, Eq)]
pub struct Rule {
    pub name: String,
    pub default: bool,
    pub when: Option<WhenClause>,
    pub then_clause: ThenClause,
}

#[derive(Debug, Clone, PartialEq, Eq)]
pub struct PolicyFile {
    pub schema_version: u32,
    pub policy_id: String,
    pub policy_version: u32,
    pub description: Option<String>,
    pub requires: Vec<String>,
    pub rules: Vec<Rule>,
}

/// The mathematical content of a [`ToolMatcher`].
pub struct MatcherView {
    pub outcome: Option<Seq<char>>,
    pub outcome_in: Option<Seq<Seq<char>>>,
    pub refusal: Option<Seq<char>>,
    pub signals: Seq<(Seq<char>, Seq<char>)>,
}

/// The mathematical content of a [`Rule`].
pub struct RuleView {
    pub name: Seq<char>,
    pub default: bool,
    pub when: Option<Seq<(Seq<char>, MatcherView)>>,
    pub band: DecisionBand,
    pub risk_code: Option<Seq<char>>,
}

/// The mathematical content of a [`PolicyFile`].
pub struct PolicyView {
    pub schema_version: u32,
    pub policy_id: Seq<char>,
    pub policy_version: u32,
    pub description: Option<Seq<char>>,
    pub requires: Seq<Seq<char>>,
    pub rules: Seq<RuleView>,
}

impl View for ToolMatcher {
    type V = MatcherView;

    open spec fn view(&self) -> MatcherView {
        MatcherView {
            outcome: opt_view(self.outcome),
            outcome_in: match self.outcome_in {
                Some(v) => Some(strings_view(v@)),
                None => None,
            },
            refusal: opt_view(self.refusal),
            signals: signals_view(self.signals@),
        }
    }
}

/// The view of a `when` clause: each tool name with its matcher.
pub open spec fn when_view(w: WhenClause) -> Seq<(Seq<char>, MatcherView)> {
    w@.map_values(|c: ToolCondition| (c.tool@, c.matcher@))
}

impl View for Rule {
    type V = RuleView;

    open spec fn view(&self) -> RuleView {
        RuleView {
            name: self.name@,
            default: self.default,
            when: match self.when {
                Some(w) => Some(when_view(w)),
                None => None,
            },
            band: self.then_clause.decision_band,
            risk_code: opt_view(self.then_clause.risk_code),
        }
    }
}

/// The views of a sequence of rules.
pub open spec fn rules_view(rules: Seq<Rule>) -> Seq<RuleView> {
    rules.map_values(|r: Rule| r@)
}

impl View for PolicyFile {
    type V = PolicyView;

    open spec fn view(&self) -> PolicyView {
        PolicyView {
            schema_version: self.schema_version,
            policy_id: self.policy_id@,
            policy_version: self.policy_version,
            description: opt_view(self.description),
            requires: strings_view(self.requires@),
            rules: rules_view(self.rules@),
        }
    }
}

} // verus!
