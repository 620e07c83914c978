use vstd::prelude::*;

use crate::text::{copy_opt_string, copy_string, copy_strings, opt_view, owned, strings_view};

verus! {

/// One line of the witness ledger: a record of an `assess` run.
#[derive(Debug, Clone, PartialEq, Eq)]
pub struct WitnessRecord {
    pub tool: String,
    pub command: String,
    pub inputs: Vec<String>,
    pub policy_id: Option<String>,
    pub decision_band: Option<String>,
    pub duration_ms: u64,
    /// When the run happened, as the caller's clock rendered it.
    pub ts: Option<String>,
}

pub struct WitnessView {
    pub tool: Seq<char>,
    pub command: Seq<char>,
    pub inputs: Seq<Seq<char>>,
    pub policy_id: Option<Seq<char>>,
    pub decision_band: Option<Seq<char>>,
    pub duration_ms: u64,
    pub ts: Option<Seq<char>>,
}

impl View for WitnessRecord {
    type V = WitnessView;

    open spec fn view(&self) -> WitnessView {
        WitnessView {
            tool: self.tool@,
            command: self.command@,
            inputs: strings_view(self.inputs@),
            policy_id: opt_view(self.policy_id),
            decision_band: opt_view(self.decision_band),
            duration_ms: self.duration_ms,
            ts: opt_view(self.ts),
        }
    }
}

/// A fresh record of an `assess run` over the given inputs, with nothing
/// else known yet.
pub open spec fn scaffold_view(inputs: Seq<Seq<char>>) -> WitnessView {
    WitnessView {
        tool: "assess"@,
        command: "run"@,
        inputs,
        policy_id: None,
        decision_band: None,
        duration_ms: 0,
        ts: None,
    }
}

impl WitnessRecord {
    pub fn scaffold(inputs: Vec<String>) -> (r: Self)
        ensures
            r@ == scaffold_view(strings_view(inputs@)),
    {
        WitnessRecord {
            tool: owned("assess"),
            command: owned("run"),
            inputs,
            policy_id: None,
            decision_band: None,
            duration_ms: 0,
            ts: None,
        }
    }

    pub fn with_policy_id(self, policy_id: &str) -> (r: Self)
        ensures
            r@ == (WitnessView { policy_id: Some(policy_id@), ..self@ }),
    {
        WitnessRecord { policy_id: Some(owned(policy_id)), ..self }
    }

    pub fn with_decision_band(self, decision_band: &str) -> (r: Self)
        ensures
            r@ == (WitnessView { decision_band: Some(decision_band@), ..self@ }),
    {
        WitnessRecord { decision_band: Some(owned(decision_band)), ..self }
    }

    pub fn with_duration_ms(self, duration_ms: u64) -> (r: Self)
        ensures
            r@ == (WitnessView { duration_ms, ..self@ }),
    {
        WitnessRecord { duration_ms, ..self }
    }

    pub fn with_timestamp(self, ts: &str) -> (r: Self)
        ensures
            r@ == (WitnessView { ts: Some(ts@), ..self@ }),
    {
        WitnessRecord { ts: Some(owned(ts)), ..self }
    }

    /// A copy of the record.
    pub fn copy(&self) -> (r: Self)
        ensures
            r@ == self@,
    {
        WitnessRecord {
            tool: copy_string(&self.tool),
            command: copy_string(&self.command),
            inputs: copy_strings(&self.inputs),
            policy_id: copy_opt_string(&self.policy_id),
            decision_band: copy_opt_string(&self.decision_band),
            duration_ms: self.duration_ms,
            ts: copy_opt_string(&self.ts),
        }
    }
}

} // verus!
