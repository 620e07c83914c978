pub mod loader;
pub mod schema;
pub mod validate;

use vstd::prelude::*;

use crate::refusal::RefusalCode;
use crate::text::copy_string;

pub use schema::{DecisionBand, PolicyFile, Rule, ThenClause, ToolCondition, ToolMatcher, WhenClause};

verus! {

/// Why a policy cannot be used.
#[derive(Debug, Clone, PartialEq, Eq)]
pub enum PolicyError {
    /// The policy file could not be read.
    Io(String),
    /// The policy file is not well-formed YAML of a policy.
    YamlParse(String),
    /// The policy violates the structural rules of `policy.v0`.
    SchemaViolation(String),
    /// No policy with this ID is on the search path, among the builtins or
    /// in the user policy directory.
    NotFound { id: String },
}

/// The refusal code a policy error is reported under: an unknown ID is
/// `E_UNKNOWN_POLICY`, everything else `E_BAD_POLICY`.
pub open spec fn policy_error_code(e: PolicyError) -> RefusalCode {
    match e {
        PolicyError::NotFound { .. } => RefusalCode::UnknownPolicy,
        _ => RefusalCode::BadPolicy,
    }
}

/// How a policy error reads.
pub open spec fn policy_error_message(e: PolicyError) -> Seq<char> {
    match e {
        PolicyError::Io(text) => text@,
        PolicyError::YamlParse(text) => text@,
        PolicyError::SchemaViolation(text) => text@,
        PolicyError::NotFound { id } => "policy `"@ + id@
            + "` not found in ASSESS_POLICY_PATH, builtin policies, or ~/.cmdrvl/config/assess/policies/"@,
    }
}

impl PolicyError {
    /// The refusal code this error is reported under.
    pub fn refusal_code(&self) -> (c: RefusalCode)
        ensures
            c == policy_error_code(*self),
    {
        match self {
            PolicyError::NotFound { .. } => RefusalCode::UnknownPolicy,
            _ => RefusalCode::BadPolicy,
        }
    }

    /// The human-readable description of the error.
    pub fn message(&self) -> (m: String)
        ensures
            m@ == policy_error_message(*self),
    {
        match self {
            PolicyError::Io(text) => copy_string(text),
            PolicyError::YamlParse(text) => copy_string(text),
            PolicyError::SchemaViolation(text) => copy_string(text),
            PolicyError::NotFound { id } => {
                let mut m = crate::text::owned("policy `");
                crate::text::push_str(&mut m, id.as_str());
                crate::text::push_str(
                    &mut m,
                    "` not found in ASSESS_POLICY_PATH, builtin policies, or ~/.cmdrvl/config/assess/policies/",
                );
                m
            },
        }
    }
}

/// A policy together with the content hash of the bytes it was read from
/// (`sha256:` followed by the lowercase hex digest) and where it was found.
#[derive(Debug, Clone, PartialEq, Eq)]
pub struct LoadedPolicy {
    pub policy: PolicyFile,
    pub sha256: String,
    pub source: loader::PolicySource,
}

pub fn scaffold_status() -> (s: &'static str)
    ensures
        s@ == "policy scaffold ready"@,
{
    "policy scaffold ready"
}

} // verus!
