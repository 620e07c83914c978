use vstd::prelude::*;

use crate::text::{copy_opt_string, copy_string, opt_view};

verus! {

/// One policy signal: its name and its value as compact JSON text.
#[derive(Debug, Clone, PartialEq, Eq)]
pub struct Signal {
    pub name: String,
    pub value: String,
}

/// The views of a sequence of signals: name and JSON text of each.
pub open spec fn signals_view(s: Seq<Signal>) -> Seq<(Seq<char>, Seq<char>)> {
    s.map_values(|x: Signal| (x.name@, x.value@))
}

/// An upstream refusal recorded in an artifact report.
#[derive(Debug, Clone, PartialEq, Eq)]
pub struct ArtifactRefusal {
    pub code: String,
    pub message: Option<String>,
}

/// A spine report artifact as `assess` reads it.
#[derive(Debug, Clone, PartialEq, Eq)]
pub struct ArtifactReport {
    pub tool: Option<String>,
    pub version: String,
    pub outcome: Option<String>,
    pub refusal: Option<ArtifactRefusal>,
    pub policy_signals: Vec<Signal>,
}

/// One artifact of the epistemic basis: where it came from, the canonical
/// tool it stands for, and what it reported.
#[derive(Debug, Clone, PartialEq, Eq)]
pub struct ArtifactBasisEntry {
    pub artifact: String,
    pub tool: String,
    pub version: String,
    pub outcome: Option<String>,
    pub policy_signals: Vec<Signal>,
    pub refusal: Option<ArtifactRefusal>,
}

pub struct RefusalView {
    pub code: Seq<char>,
    pub message: Option<Seq<char>>,
}

pub struct ReportView {
    pub tool: Option<Seq<char>>,
    pub version: Seq<char>,
    pub outcome: Option<Seq<char>>,
    pub refusal: Option<RefusalView>,
    pub signals: Seq<(Seq<char>, Seq<char>)>,
}

pub struct BasisView {
    pub artifact: Seq<char>,
    pub tool: Seq<char>,
    pub version: Seq<char>,
    pub outcome: Option<Seq<char>>,
    pub signals: Seq<(Seq<char>, Seq<char>)>,
    pub refusal: Option<RefusalView>,
}

impl View for ArtifactRefusal {
    type V = RefusalView;

    open spec fn view(&self) -> RefusalView {
        RefusalView { code: self.code@, message: opt_view(self.message) }
    }
}

pub open spec fn opt_refusal_view(r: Option<ArtifactRefusal>) -> Option<RefusalView> {
    match r {
        Some(x) => Some(x@),
        None => None,
    }
}

impl View for ArtifactReport {
    type V = ReportView;

    open spec fn view(&self) -> ReportView {
        ReportView {
            tool: opt_view(self.tool),
            version: self.version@,
            outcome: opt_view(self.outcome),
            refusal: opt_refusal_view(self.refusal),
            signals: signals_view(self.policy_signals@),
        }
    }
}

impl View for ArtifactBasisEntry {
    type V = BasisView;

    open spec fn view(&self) -> BasisView {
        BasisView {
            artifact: self.artifact@,
            tool: self.tool@,
            version: self.version@,
            outcome: opt_view(self.outcome),
            signals: signals_view(self.policy_signals@),
            refusal: opt_refusal_view(self.refusal),
        }
    }
}

/// The views of a sequence of basis entries.
pub open spec fn entries_view(s: Seq<ArtifactBasisEntry>) -> Seq<BasisView> {
    s.map_values(|e: ArtifactBasisEntry| e@)
}

/// The basis entry recording a report read from `artifact` as `tool`.
pub open spec fn basis_of(artifact: Seq<char>, tool: Seq<char>, r: ReportView) -> BasisView {
    BasisView {
        artifact,
        tool,
        version: r.version,
        outcome: r.outcome,
        signals: r.signals,
        refusal: r.refusal,
    }
}

pub fn copy_signals(s: &Vec<Signal>) -> (r: Vec<Signal>)
    ensures
        signals_view(r@) == signals_view(s@),
{
    let mut r: Vec<Signal> = Vec::new();
    let mut i: usize = 0;
    while i < s.len()
        invariant
            i <= s.len(),
            r.len() == i,
            forall|j: int|
                0 <= j < i ==> (#[trigger] r@[j]).name@ == s@[j].name@ && r@[j].value@
                    == s@[j].value@,
        decreases s.len() - i,
    {
        r.push(Signal { name: copy_string(&s[i].name), value: copy_string(&s[i].value) });
        i = i + 1;
    }
    assert(signals_view(r@) =~= signals_view(s@));
    r
}

pub fn copy_refusal(r: &Option<ArtifactRefusal>) -> (c: Option<ArtifactRefusal>)
    ensures
        opt_refusal_view(c) == opt_refusal_view(*r),
{
    match r {
        Some(x) => Some(
            ArtifactRefusal { code: copy_string(&x.code), message: copy_opt_string(&x.message) },
        ),
        None => None,
    }
}

impl ArtifactReport {
    /// An owned copy of this report.
    pub fn copy(&self) -> (r: ArtifactReport)
        ensures
            r@ == self@,
    {
        ArtifactReport {
            tool: copy_opt_string(&self.tool),
            version: copy_string(&self.version),
            outcome: copy_opt_string(&self.outcome),
            refusal: copy_refusal(&self.refusal),
            policy_signals: copy_signals(&self.policy_signals),
        }
    }
}

impl ArtifactBasisEntry {
    /// An owned copy of this entry.
    pub fn copy(&self) -> (r: ArtifactBasisEntry)
        ensures
            r@ == self@,
    {
        ArtifactBasisEntry {
            artifact: copy_string(&self.artifact),
            tool: copy_string(&self.tool),
            version: copy_string(&self.version),
            outcome: copy_opt_string(&self.outcome),
            policy_signals: copy_signals(&self.policy_signals),
            refusal: copy_refusal(&self.refusal),
        }
    }
}

} // verus!
