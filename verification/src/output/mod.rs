pub mod human;

use vstd::prelude::*;

use crate::bundle::artifact::{ArtifactBasisEntry, BasisView, entries_view};
use crate::bundle::{ArtifactBundle, LoadedView, loaded_bases, loaded_basis, loaded_tools};
use crate::evaluate::Decision;
use crate::order::{EntryKey, Keyed, key_le, sort_by_key};
use crate::policy::LoadedPolicy;
use crate::policy::schema::band_text;
use crate::refusal::RefusalEnvelope;
use crate::text::{copy_string, copy_strings, opt_view, owned, strings_view};

verus! {

broadcast use vstd::seq_lib::group_to_multiset_ensures;

/// Policy reference embedded in the assess output.
#[derive(Debug, Clone, PartialEq, Eq)]
pub struct PolicyRef {
    pub id: String,
    pub version: u32,
    pub sha256: String,
}

/// A risk factor identified during assessment.
#[derive(Debug, Clone, PartialEq, Eq)]
pub struct RiskFactor {
    pub code: String,
    pub source_tool: Option<String>,
    pub detail: Option<String>,
}

/// Full assess.v0 output for a successful decision (its `refusal` member is
/// always null and is written by the serializer).
#[derive(Debug, Clone, PartialEq, Eq)]
pub struct AssessOutput {
    pub tool: String,
    pub version: String,
    pub decision_band: String,
    pub policy: PolicyRef,
    pub matched_rule: String,
    pub required_tools: Vec<String>,
    pub observed_tools: Vec<String>,
    pub risk_factors: Vec<RiskFactor>,
    pub epistemic_basis: Vec<ArtifactBasisEntry>,
}

/// Unified output type for assess: either a decision or a refusal.
#[derive(Debug, Clone, PartialEq, Eq)]
pub enum AssessResult {
    Decision(AssessOutput),
    Refusal(RefusalEnvelope),
}

#[derive(Debug, Clone, Copy, PartialEq, Eq, Structural)]
pub enum RenderMode {
    Human,
    Json,
    Summary,
    SummaryTsv,
}

#[derive(Debug, Clone, Copy, PartialEq, Eq, Structural)]
pub enum WitnessStatus {
    Written,
    Disabled,
    NotWritten,
}

pub open spec fn witness_status_text(s: WitnessStatus) -> Seq<char> {
    match s {
        WitnessStatus::Written => "written"@,
        WitnessStatus::Disabled => "disabled"@,
        WitnessStatus::NotWritten => "not_written"@,
    }
}

impl WitnessStatus {
    pub fn as_str(self) -> (s: &'static str)
        ensures
            s@ == witness_status_text(self),
    {
        match self {
            WitnessStatus::Written => "written",
            WitnessStatus::Disabled => "disabled",
            WitnessStatus::NotWritten => "not_written",
        }
    }
}

#[derive(Debug, Clone, Copy, PartialEq, Eq, Structural)]
pub struct RenderContext {
    pub witness_status: WitnessStatus,
}

impl Default for RenderContext {
    fn default() -> (r: Self)
        ensures
            r.witness_status == WitnessStatus::NotWritten,
    {
        RenderContext { witness_status: WitnessStatus::NotWritten }
    }
}

impl RenderContext {
    pub fn with_witness_status(witness_status: WitnessStatus) -> (r: Self)
        ensures
            r.witness_status == witness_status,
    {
        RenderContext { witness_status }
    }
}

pub struct RiskView {
    pub code: Seq<char>,
    pub source_tool: Option<Seq<char>>,
    pub detail: Option<Seq<char>>,
}

impl View for RiskFactor {
    type V = RiskView;

    open spec fn view(&self) -> RiskView {
        RiskView {
            code: self.code@,
            source_tool: opt_view(self.source_tool),
            detail: opt_view(self.detail),
        }
    }
}

pub struct OutputView {
    pub tool: Seq<char>,
    pub version: Seq<char>,
    pub decision_band: Seq<char>,
    pub policy_id: Seq<char>,
    pub policy_version: u32,
    pub policy_sha256: Seq<char>,
    pub matched_rule: Seq<char>,
    pub required_tools: Seq<Seq<char>>,
    pub observed_tools: Seq<Seq<char>>,
    pub risk_factors: Seq<RiskView>,
    pub epistemic_basis: Seq<BasisView>,
}

impl View for AssessOutput {
    type V = OutputView;

    open spec fn view(&self) -> OutputView {
        OutputView {
            tool: self.tool@,
            version: self.version@,
            decision_band: self.decision_band@,
            policy_id: self.policy.id@,
            policy_version: self.policy.version,
            policy_sha256: self.policy.sha256@,
            matched_rule: self.matched_rule@,
            required_tools: strings_view(self.required_tools@),
            observed_tools: strings_view(self.observed_tools@),
            risk_factors: self.risk_factors@.map_values(|f: RiskFactor| f@),
            epistemic_basis: entries_view(self.epistemic_basis@),
        }
    }
}

/// The required tools that are observed, in the policy's order.
pub open spec fn required_and_observed(required: Seq<Seq<char>>, observed: Seq<Seq<char>>) -> Seq<
    Seq<char>,
>
    decreases required.len(),
{
    if required.len() == 0 {
        Seq::empty()
    } else if observed.contains(required.last()) {
        required_and_observed(required.drop_last(), observed).push(required.last())
    } else {
        required_and_observed(required.drop_last(), observed)
    }
}

/// The observed tools that are not required, in observed order.
pub open spec fn observed_not_required(observed: Seq<Seq<char>>, required: Seq<Seq<char>>) -> Seq<
    Seq<char>,
>
    decreases observed.len(),
{
    if observed.len() == 0 {
        Seq::empty()
    } else if required.contains(observed.last()) {
        observed_not_required(observed.drop_last(), required)
    } else {
        observed_not_required(observed.drop_last(), required).push(observed.last())
    }
}

/// Observed tools as the output lists them: the required ones first, in the
/// policy's order, then the others in increasing order.
pub open spec fn ordered_observed(required: Seq<Seq<char>>, observed: Seq<Seq<char>>) -> Seq<
    Seq<char>,
> {
    required_and_observed(required, observed) + observed_not_required(observed, required)
}

/// The rank of a tool in the output order: the last position at which the
/// policy requires it, or `usize::MAX` for a tool it does not require.
pub open spec fn tool_rank(required: Seq<Seq<char>>, tool: Seq<char>) -> int
    decreases required.len(),
{
    if required.len() == 0 {
        usize::MAX as int
    } else if required.last() == tool {
        required.len() - 1
    } else {
        tool_rank(required.drop_last(), tool)
    }
}

/// The sort key of a basis entry in the output.
pub open spec fn basis_key(required: Seq<Seq<char>>, e: BasisView) -> EntryKey {
    (tool_rank(required, e.tool), e.tool, e.artifact)
}

/// Basis entries ordered by required-tool rank, then tool, then artifact.
pub open spec fn basis_in_output_order(required: Seq<Seq<char>>, s: Seq<BasisView>) -> bool {
    forall|i: int, j: int|
        0 <= i < j < s.len() ==> key_le(
            basis_key(required, #[trigger] s[i]),
            basis_key(required, #[trigger] s[j]),
        )
}

proof fn lemma_tool_rank_of_required(required: Seq<Seq<char>>, tool: Seq<char>)
    ensures
        required.contains(tool) ==> 0 <= tool_rank(required, tool) < required.len() && required[tool_rank(required, tool)] == tool,
        !required.contains(tool) ==> tool_rank(required, tool) == usize::MAX as int,
    decreases required.len(),
{
    if required.len() > 0 {
        let prev = required.drop_last();
        lemma_tool_rank_of_required(prev, tool);
        if required.last() != tool {
            if required.contains(tool) {
                let k = choose|k: int| 0 <= k < required.len() && required[k] == tool;
                assert(prev[k] == tool);
            }
            if prev.contains(tool) {
                let k = choose|k: int| 0 <= k < prev.len() && prev[k] == tool;
                assert(required[k] == tool);
            }
        } else {
            assert(required[required.len() - 1] == tool);
        }
    }
}

/// The basis order of the output lists the artifacts of required tools
/// first; among those, tools the policy requires earlier (by last mention)
/// come first; the other artifacts follow in increasing tool order.
pub proof fn law_basis_order_puts_required_tools_first(required: Seq<Seq<char>>, s: Seq<BasisView>)
    requires
        required.len() <= usize::MAX,
        basis_in_output_order(required, s),
    ensures
        forall|i: int, j: int|
            0 <= i < j < s.len() && required.contains((#[trigger] s[j]).tool) ==> required.contains(
                (#[trigger] s[i]).tool,
            ),
        forall|i: int, j: int|
            0 <= i < j < s.len() && !required.contains((#[trigger] s[i]).tool) ==> !required.contains(
                (#[trigger] s[j]).tool,
            ) && (s[i].tool == s[j].tool || crate::text::text_lt(s[i].tool, s[j].tool)),
{
    assert forall|i: int, j: int|
        0 <= i < j < s.len() && required.contains((#[trigger] s[j]).tool) implies required.contains(
        (#[trigger] s[i]).tool,
    ) by {
        lemma_tool_rank_of_required(required, s[i].tool);
        lemma_tool_rank_of_required(required, s[j].tool);
        assert(key_le(basis_key(required, s[i]), basis_key(required, s[j])));
    }
    assert forall|i: int, j: int|
        0 <= i < j < s.len() && !required.contains((#[trigger] s[i]).tool) implies !required.contains(
        (#[trigger] s[j]).tool,
    ) && (s[i].tool == s[j].tool || crate::text::text_lt(s[i].tool, s[j].tool)) by {
        lemma_tool_rank_of_required(required, s[i].tool);
        lemma_tool_rank_of_required(required, s[j].tool);
        assert(key_le(basis_key(required, s[i]), basis_key(required, s[j])));
    }
}

/// The observed tools as the output lists them are exactly the bundle's
/// tools, with every required one before every other.
pub proof fn law_observed_tools_list_required_first(required: Seq<Seq<char>>, observed: Seq<Seq<char>>)
    ensures
        forall|t: Seq<char>| #[trigger] ordered_observed(required, observed).contains(t) <==> observed.contains(t),
        forall|i: int, j: int|
            0 <= i < j < ordered_observed(required, observed).len() && required.contains(
                #[trigger] ordered_observed(required, observed)[j],
            ) ==> required.contains(#[trigger] ordered_observed(required, observed)[i]),
{
    lemma_required_and_observed(required, observed);
    lemma_observed_not_required(observed, required);
    let a = required_and_observed(required, observed);
    let c = observed_not_required(observed, required);
    let o = ordered_observed(required, observed);
    assert(o == a + c);
    assert forall|t: Seq<char>| #[trigger] o.contains(t) <==> observed.contains(t) by {
        if o.contains(t) {
            let k = choose|k: int| 0 <= k < o.len() && o[k] == t;
            if k < a.len() {
                assert(a[k] == t);
                assert(a.contains(t));
            } else {
                assert(c[k - a.len()] == t);
                assert(c.contains(t));
            }
        }
        if observed.contains(t) {
            if required.contains(t) {
                assert(a.contains(t));
                let k = choose|k: int| 0 <= k < a.len() && a[k] == t;
                assert(o[k] == t);
                assert(o.contains(t));
            } else {
                assert(c.contains(t));
                let k = choose|k: int| 0 <= k < c.len() && c[k] == t;
                assert(o[a.len() + k] == t);
                assert(o.contains(t));
            }
        }
    }
    assert forall|i: int, j: int|
        0 <= i < j < o.len() && required.contains(#[trigger] o[j]) implies required.contains(
        #[trigger] o[i],
    ) by {
        if j >= a.len() {
            assert(c[j - a.len()] == o[j]);
            assert(c.contains(o[j]));
        }
        assert(i < a.len());
        assert(a[i] == o[i]);
        assert(a.contains(o[i]));
    }
}

proof fn lemma_required_and_observed(required: Seq<Seq<char>>, observed: Seq<Seq<char>>)
    ensures
        forall|t: Seq<char>| #[trigger] required_and_observed(required, observed).contains(t) <==> (
        required.contains(t) && observed.contains(t)),
    decreases required.len(),
{
    if required.len() > 0 {
        let prev = required.drop_last();
        lemma_required_and_observed(prev, observed);
        let a = required_and_observed(required, observed);
        let pa = required_and_observed(prev, observed);
        assert forall|t: Seq<char>| #[trigger] required.contains(t) <==> (prev.contains(t) || t
            == required.last()) by {
            if required.contains(t) {
                let k = choose|k: int| 0 <= k < required.len() && required[k] == t;
                if k < prev.len() {
                    assert(prev[k] == t);
                }
            }
            if prev.contains(t) {
                let k = choose|k: int| 0 <= k < prev.len() && prev[k] == t;
                assert(required[k] == t);
            }
            if t == required.last() {
                assert(required[required.len() - 1] == t);
            }
        }
        if observed.contains(required.last()) {
            assert(a == pa.push(required.last()));
            assert forall|t: Seq<char>| #[trigger] a.contains(t) <==> (pa.contains(t) || t
                == required.last()) by {
                if a.contains(t) {
                    let k = choose|k: int| 0 <= k < a.len() && a[k] == t;
                    if k < pa.len() {
                        assert(pa[k] == t);
                    }
                }
                if pa.contains(t) {
                    let k = choose|k: int| 0 <= k < pa.len() && pa[k] == t;
                    assert(a[k] == t);
                }
                if t == required.last() {
                    assert(a[a.len() - 1] == t);
                }
            }
        }
    }
}

proof fn lemma_observed_not_required(observed: Seq<Seq<char>>, required: Seq<Seq<char>>)
    ensures
        forall|t: Seq<char>| #[trigger] observed_not_required(observed, required).contains(t) <==> (
        observed.contains(t) && !required.contains(t)),
    decreases observed.len(),
{
    if observed.len() > 0 {
        let prev = observed.drop_last();
        lemma_observed_not_required(prev, required);
        let c = observed_not_required(observed, required);
        let pc = observed_not_required(prev, required);
        assert forall|t: Seq<char>| #[trigger] observed.contains(t) <==> (prev.contains(t) || t
            == observed.last()) by {
            if observed.contains(t) {
                let k = choose|k: int| 0 <= k < observed.len() && observed[k] == t;
                if k < prev.len() {
                    assert(prev[k] == t);
                }
            }
            if prev.contains(t) {
                let k = choose|k: int| 0 <= k < prev.len() && prev[k] == t;
                assert(observed[k] == t);
            }
            if t == observed.last() {
                assert(observed[observed.len() - 1] == t);
            }
        }
        if !required.contains(observed.last()) {
            assert(c == pc.push(observed.last()));
            assert forall|t: Seq<char>| #[trigger] c.contains(t) <==> (pc.contains(t) || t
                == observed.last()) by {
                if c.contains(t) {
                    let k = choose|k: int| 0 <= k < c.len() && c[k] == t;
                    if k < pc.len() {
                        assert(pc[k] == t);
                    }
                }
                if pc.contains(t) {
                    let k = choose|k: int| 0 <= k < pc.len() && pc[k] == t;
                    assert(c[k] == t);
                }
                if t == observed.last() {
                    assert(c[c.len() - 1] == t);
                }
            }
        }
    }
}

/// The risk factors a decision carries: one for its risk code, if any.
pub open spec fn risk_factors_of(risk_code: Option<Seq<char>>) -> Seq<RiskView> {
    match risk_code {
        Some(code) => seq![RiskView { code, source_tool: None, detail: None }],
        None => Seq::empty(),
    }
}

proof fn lemma_tool_rank_range(required: Seq<Seq<char>>, tool: Seq<char>)
    requires
        required.len() <= usize::MAX,
    ensures
        0 <= tool_rank(required, tool) <= usize::MAX,
    decreases required.len(),
{
    if required.len() > 0 {
        lemma_tool_rank_range(required.drop_last(), tool);
    }
}

fn rank_of(required: &Vec<String>, tool: &String) -> (r: usize)
    ensures
        r as int == tool_rank(strings_view(required@), tool@),
{
    let ghost views = strings_view(required@);
    let mut rank: usize = usize::MAX;
    let mut i: usize = 0;
    while i < required.len()
        invariant
            i <= required@.len(),
            views == strings_view(required@),
            rank as int == tool_rank(views.take(i as int), tool@),
        decreases required@.len() - i,
    {
        assert(views.take(i + 1).drop_last() =~= views.take(i as int));
        if required[i] == *tool {
            rank = i;
        }
        i = i + 1;
    }
    assert(views.take(required@.len() as int) =~= views);
    rank
}

fn contains_text(list: &Vec<String>, x: &String) -> (r: bool)
    ensures
        r == strings_view(list@).contains(x@),
{
    let ghost views = strings_view(list@);
    let mut i: usize = 0;
    while i < list.len()
        invariant
            i <= list@.len(),
            views == strings_view(list@),
            forall|j: int| 0 <= j < i ==> views[j] != x@,
        decreases list@.len() - i,
    {
        if list[i] == *x {
            assert(views[i as int] == x@);
            return true;
        }
        i = i + 1;
    }
    false
}

/// The observed tools of the bundle, required ones first in the policy's
/// order, then the others.
fn ordered_observed_tools(bundle: &ArtifactBundle, required_tools: &Vec<String>) -> (r: Vec<String>)
    ensures
        strings_view(r@) == ordered_observed(
            strings_view(required_tools@),
            loaded_tools(bundle@),
        ),
{
    let observed = bundle.observed_tools();
    let ghost obs = loaded_tools(bundle@);
    let ghost req = strings_view(required_tools@);
    assert(strings_view(observed@) =~= obs);
    let mut ordered: Vec<String> = Vec::new();
    let mut i: usize = 0;
    while i < required_tools.len()
        invariant
            i <= required_tools@.len(),
            req == strings_view(required_tools@),
            strings_view(observed@) == obs,
            strings_view(ordered@) == required_and_observed(req.take(i as int), obs),
        decreases required_tools@.len() - i,
    {
        assert(req.take(i + 1).drop_last() =~= req.take(i as int));
        if contains_text(&observed, &required_tools[i]) {
            ordered.push(copy_string(&required_tools[i]));
        }
        assert(strings_view(ordered@) =~= required_and_observed(req.take(i + 1), obs));
        i = i + 1;
    }
    assert(req.take(required_tools@.len() as int) =~= req);
    let ghost head = strings_view(ordered@);
    let mut k: usize = 0;
    while k < observed.len()
        invariant
            k <= observed@.len(),
            req == strings_view(required_tools@),
            strings_view(observed@) == obs,
            strings_view(ordered@) == head + observed_not_required(obs.take(k as int), req),
        decreases observed@.len() - k,
    {
        assert(obs.take(k + 1).drop_last() =~= obs.take(k as int));
        assert(obs.take(k + 1).last() == obs[k as int]);
        assert(obs[k as int] == observed@[k as int]@);
        let ghost before = strings_view(ordered@);
        let needed = !contains_text(required_tools, &observed[k]);
        if needed {
            ordered.push(copy_string(&observed[k]));
            assert(strings_view(ordered@) =~= before.push(obs[k as int]));
            assert(observed_not_required(obs.take(k + 1), req) == observed_not_required(
                obs.take(k as int),
                req,
            ).push(obs[k as int]));
        } else {
            assert(observed_not_required(obs.take(k + 1), req) == observed_not_required(
                obs.take(k as int),
                req,
            ));
        }
        assert(strings_view(ordered@) =~= head + observed_not_required(obs.take(k + 1), req));
        k = k + 1;
    }
    assert(obs.take(observed@.len() as int) =~= obs);
    ordered
}

/// The bundle's basis ordered for output: by the rank of each tool among the
/// required tools, then by tool, then by artifact.
fn ordered_basis(bundle: &ArtifactBundle, required_tools: &Vec<String>) -> (r: Vec<
    ArtifactBasisEntry,
>)
    ensures
        r@.len() == bundle@.len(),
        basis_in_output_order(
            strings_view(required_tools@),
            entries_view(r@),
        ),
        forall|x: BasisView|
            #[trigger] entries_view(r@).contains(x) <==> loaded_bases(bundle@).contains(x),
{
    let basis = bundle.basis();
    let ghost req = strings_view(required_tools@);
    let ghost src = loaded_bases(bundle@);
    let mut items: Vec<Keyed<ArtifactBasisEntry>> = Vec::new();
    let mut i: usize = 0;
    while i < basis.len()
        invariant
            i <= basis@.len(),
            basis@.len() == bundle@.len(),
            forall|a: int| 0 <= a < basis@.len() ==> (#[trigger] basis@[a])@ == loaded_basis(bundle@[a]),
            src == loaded_bases(bundle@),
            req == strings_view(required_tools@),
            items@.len() == i,
            forall|a: int|
                0 <= a < i ==> (#[trigger] items@[a]).payload@ == src[a] && items@[a].key()
                    == basis_key(req, src[a]),
        decreases basis@.len() - i,
    {
        let entry = basis[i].copy();
        let rank = rank_of(required_tools, &entry.tool);
        let item = Keyed {
            rank,
            tool: copy_string(&entry.tool),
            artifact: copy_string(&entry.artifact),
            payload: entry,
        };
        items.push(item);
        i = i + 1;
    }
    let ghost staged = items@;
    let sorted = sort_by_key(items);
    let ghost sorted_items = sorted@;
    proof {
        assert forall|a: int| 0 <= a < sorted_items.len() implies exists|k: int|
            0 <= k < staged.len() && #[trigger] sorted_items[a] == staged[k] by {
            assert(sorted_items.to_multiset().contains(sorted_items[a]));
            assert(staged.contains(sorted_items[a]));
        }
        vstd::seq_lib::to_multiset_len(sorted_items);
        vstd::seq_lib::to_multiset_len(staged);
    }
    let mut out: Vec<ArtifactBasisEntry> = Vec::new();
    let mut n: usize = 0;
    while n < sorted.len()
        invariant
            n <= sorted@.len(),
            sorted@ == sorted_items,
            out@.len() == n,
            forall|a: int| 0 <= a < n ==> (#[trigger] out@[a])@ == sorted_items[a].payload@,
        decreases sorted@.len() - n,
    {
        let e = sorted[n].payload.copy();
        out.push(e);
        n = n + 1;
    }
    proof {
        let views = entries_view(out@);
        assert forall|a: int| 0 <= a < sorted_items.len() implies sorted_items[a].key() == basis_key(
            req,
            #[trigger] views[a],
        ) by {
            let k = choose|k: int| 0 <= k < staged.len() && sorted_items[a] == staged[k];
            assert(views[a] == src[k]);
        }
        assert forall|a: int, b: int| 0 <= a < b < views.len() implies key_le(
            basis_key(req, #[trigger] views[a]),
            basis_key(req, #[trigger] views[b]),
        ) by {
            assert(sorted_items[a].key() == basis_key(req, views[a]));
            assert(sorted_items[b].key() == basis_key(req, views[b]));
        }
        assert forall|x: BasisView| #[trigger] views.contains(x) <==> src.contains(x) by {
            if views.contains(x) {
                let a = choose|a: int| 0 <= a < views.len() && views[a] == x;
                let k = choose|k: int| 0 <= k < staged.len() && sorted_items[a] == staged[k];
                assert(src[k] == x);
            }
            if src.contains(x) {
                let k = choose|k: int| 0 <= k < src.len() && src[k] == x;
                assert(staged.to_multiset().contains(staged[k]));
                assert(sorted_items.contains(staged[k]));
                let a = choose|a: int| 0 <= a < sorted_items.len() && sorted_items[a] == staged[k];
                assert(views[a] == x);
            }
        }
    }
    out
}

/// The output of a decision over a bundle under a loaded policy: the tool
/// and contract version, the band's label, the policy's identity and
/// content hash, the matched rule, the required tools, the observed tools
/// with the required ones first in policy order, the decision's risk code
/// as the only risk factor, and every basis entry of the bundle, required
/// tools first in policy order, then by tool and artifact.
pub open spec fn describes_decision(
    o: OutputView,
    d: crate::evaluate::DecisionView,
    bundle: Seq<LoadedView>,
    loaded: LoadedPolicy,
) -> bool {
    &&& o.tool == "assess"@
    &&& o.version == "assess.v0"@
    &&& o.decision_band == band_text(d.band)
    &&& o.policy_id == loaded.policy.policy_id@
    &&& o.policy_version == loaded.policy.policy_version
    &&& o.policy_sha256 == loaded.sha256@
    &&& o.matched_rule == d.matched_rule
    &&& o.required_tools == strings_view(loaded.policy.requires@)
    &&& o.observed_tools == ordered_observed(
        strings_view(loaded.policy.requires@),
        loaded_tools(bundle),
    )
    &&& o.risk_factors == risk_factors_of(d.risk_code)
    &&& o.epistemic_basis.len() == bundle.len()
    &&& basis_in_output_order(strings_view(loaded.policy.requires@), o.epistemic_basis)
    &&& forall|x: BasisView| #[trigger] o.epistemic_basis.contains(x) <==> loaded_bases(bundle).contains(x)
}

/// Build a full `AssessOutput` from a decision, the artifact bundle, and the
/// loaded policy.
pub fn build_output(decision: &Decision, bundle: &ArtifactBundle, loaded: &LoadedPolicy) -> (r:
    AssessOutput)
    ensures
        describes_decision(r@, decision@, bundle@, *loaded),
{
    let required_tools = copy_strings(&loaded.policy.requires);
    let mut risk_factors: Vec<RiskFactor> = Vec::new();
    match &decision.risk_code {
        Some(code) => {
            risk_factors.push(
                RiskFactor { code: copy_string(code), source_tool: None, detail: None },
            );
        },
        None => {},
    }
    let observed_tools = ordered_observed_tools(bundle, &required_tools);
    let epistemic_basis = ordered_basis(bundle, &required_tools);
    let r = AssessOutput {
        tool: owned("assess"),
        version: owned("assess.v0"),
        decision_band: owned(decision.decision_band.as_str()),
        policy: PolicyRef {
            id: copy_string(&loaded.policy.policy_id),
            version: loaded.policy.policy_version,
            sha256: copy_string(&loaded.sha256),
        },
        matched_rule: copy_string(&decision.matched_rule),
        required_tools,
        observed_tools,
        risk_factors,
        epistemic_basis,
    };
    assert(r@.risk_factors =~= risk_factors_of(opt_view(decision.risk_code)));
    r
}

/// What a render mode produces for a result, where the library renders it:
/// JSON output is serialised by the caller, so it has no text here.
pub open spec fn rendered_text(r: human::ResultView, mode: RenderMode, witness: Seq<char>) -> Option<
    Seq<char>,
> {
    match mode {
        RenderMode::Json => None,
        RenderMode::Human => match r {
            human::ResultView::Decision(o) => Some(human::human_output_text(o)),
            human::ResultView::Refusal(e) => Some(human::human_refusal_text(e)),
        },
        RenderMode::Summary => Some(human::summary_text(human::summary_fields(r, witness))),
        RenderMode::SummaryTsv => Some(human::summary_tsv_text(human::summary_fields(r, witness))),
    }
}

/// Render a result in the given mode with the default context. JSON is
/// left to the caller, which serialises the value itself: `None` then.
pub fn render(result: &AssessResult, render_mode: RenderMode) -> (r: Option<String>)
    ensures
        opt_view(r) == rendered_text(
            human::result_view(*result),
            render_mode,
            witness_status_text(WitnessStatus::NotWritten),
        ),
{
    render_with_context(result, render_mode, RenderContext::default())
}

/// Render a result in the given mode. JSON is left to the caller: `None` then.
pub fn render_with_context(result: &AssessResult, render_mode: RenderMode, context: RenderContext)
    -> (r: Option<String>)
    ensures
        opt_view(r) == rendered_text(
            human::result_view(*result),
            render_mode,
            witness_status_text(context.witness_status),
        ),
{
    match render_mode {
        RenderMode::Json => None,
        RenderMode::Human => match result {
            AssessResult::Decision(output) => Some(human::render_output(output)),
            AssessResult::Refusal(envelope) => Some(human::render_refusal(envelope)),
        },
        RenderMode::Summary => Some(human::render_summary(result, context)),
        RenderMode::SummaryTsv => Some(human::render_summary_tsv(result, context)),
    }
}

} // verus!
