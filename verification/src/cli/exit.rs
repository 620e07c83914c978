use vstd::prelude::*;

use crate::policy::DecisionBand;

verus! {

/// The three process exit classes of `assess`.
#[derive(Debug, Clone, Copy, PartialEq, Eq, Structural)]
pub enum AssessExit {
    /// The bundle may proceed (exit 0).
    Proceed,
    /// The decision needs attention: proceed with risk or escalate (exit 1).
    Attention,
    /// Stop: a block decision, a refusal or a usage error (exit 2).
    Stop,
}

/// The process exit code of an exit class.
pub open spec fn exit_code_of(exit: AssessExit) -> u8 {
    match exit {
        AssessExit::Proceed => 0,
        AssessExit::Attention => 1,
        AssessExit::Stop => 2,
    }
}

/// The exit class of a decision band.
pub open spec fn exit_of_band(band: DecisionBand) -> AssessExit {
    match band {
        DecisionBand::Proceed => AssessExit::Proceed,
        DecisionBand::ProceedWithRisk => AssessExit::Attention,
        DecisionBand::Escalate => AssessExit::Attention,
        DecisionBand::Block => AssessExit::Stop,
    }
}

impl AssessExit {
    pub fn code(self) -> (c: u8)
        ensures
            c == exit_code_of(self),
    {
        match self {
            AssessExit::Proceed => 0,
            AssessExit::Attention => 1,
            AssessExit::Stop => 2,
        }
    }

    pub fn from_decision_band(decision_band: DecisionBand) -> (e: Self)
        ensures
            e == exit_of_band(decision_band),
    {
        match decision_band {
            DecisionBand::Proceed => AssessExit::Proceed,
            DecisionBand::ProceedWithRisk => AssessExit::Attention,
            DecisionBand::Escalate => AssessExit::Attention,
            DecisionBand::Block => AssessExit::Stop,
        }
    }
}

/// Exit codes are ordered by severity: only a proceed band exits 0, the
/// two bands that need attention exit 1 and a block exits 2.
pub proof fn law_exit_code_follows_band_severity(band: DecisionBand)
    ensures
        exit_code_of(exit_of_band(band)) == 0 <==> band == DecisionBand::Proceed,
        exit_code_of(exit_of_band(band)) == 1 <==> (band == DecisionBand::ProceedWithRisk
            || band == DecisionBand::Escalate),
        exit_code_of(exit_of_band(band)) == 2 <==> band == DecisionBand::Block,
{
}

} // verus!
