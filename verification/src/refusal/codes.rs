use vstd::prelude::*;

verus! {

/// The refusal codes that `assess` can emit in place of a decision.
#[derive(Debug, Clone, Copy, PartialEq, Eq, Structural)]
pub enum RefusalCode {
    BadPolicy,
    AmbiguousPolicy,
    UnknownPolicy,
    BadArtifact,
    DuplicateTool,
    IncompleteBasis,
    MissingRule,
}

/// The wire label of a refusal code.
pub open spec fn refusal_code_text(code: RefusalCode) -> Seq<char> {
    match code {
        RefusalCode::BadPolicy => "E_BAD_POLICY"@,
        RefusalCode::AmbiguousPolicy => "E_AMBIGUOUS_POLICY"@,
        RefusalCode::UnknownPolicy => "E_UNKNOWN_POLICY"@,
        RefusalCode::BadArtifact => "E_BAD_ARTIFACT"@,
        RefusalCode::DuplicateTool => "E_DUPLICATE_TOOL"@,
        RefusalCode::IncompleteBasis => "E_INCOMPLETE_BASIS"@,
        RefusalCode::MissingRule => "E_MISSING_RULE"@,
    }
}

impl RefusalCode {
    /// Every refusal code, each once.
    pub const ALL: [RefusalCode; 7] = [
        RefusalCode::BadPolicy,
        RefusalCode::AmbiguousPolicy,
        RefusalCode::UnknownPolicy,
        RefusalCode::BadArtifact,
        RefusalCode::DuplicateTool,
        RefusalCode::IncompleteBasis,
        RefusalCode::MissingRule,
    ];

    pub fn as_str(self) -> (s: &'static str)
        ensures
            s@ == refusal_code_text(self),
    {
        match self {
            RefusalCode::BadPolicy => "E_BAD_POLICY",
            RefusalCode::AmbiguousPolicy => "E_AMBIGUOUS_POLICY",
            RefusalCode::UnknownPolicy => "E_UNKNOWN_POLICY",
            RefusalCode::BadArtifact => "E_BAD_ARTIFACT",
            RefusalCode::DuplicateTool => "E_DUPLICATE_TOOL",
            RefusalCode::IncompleteBasis => "E_INCOMPLETE_BASIS",
            RefusalCode::MissingRule => "E_MISSING_RULE",
        }
    }
}

/// Distinct refusal codes have distinct labels, so a label identifies its code.
pub proof fn lemma_refusal_code_text_injective(a: RefusalCode, b: RefusalCode)
    ensures
        refusal_code_text(a) == refusal_code_text(b) ==> a == b,
{
    reveal_strlit("E_BAD_POLICY");
    reveal_strlit("E_AMBIGUOUS_POLICY");
    reveal_strlit("E_UNKNOWN_POLICY");
    reveal_strlit("E_BAD_ARTIFACT");
    reveal_strlit("E_DUPLICATE_TOOL");
    reveal_strlit("E_INCOMPLETE_BASIS");
    reveal_strlit("E_MISSING_RULE");
    if refusal_code_text(a) == refusal_code_text(b) && a != b {
        let x = refusal_code_text(a);
        let y = refusal_code_text(b);
        assert(x.len() == y.len());
        assert(x[2] == y[2]);
        assert(x[3] == y[3]);
        assert(x[4] == y[4]);
    }
}

} // verus!
