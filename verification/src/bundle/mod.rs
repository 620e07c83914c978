pub mod artifact;
pub mod derive;

use vstd::prelude::*;

use crate::order::{Keyed, key_le, sort_by_key};
use crate::refusal::{DetailField, RefusalCode};
use crate::refusal::payload::detail_view;
use crate::text::{
    copy_string, lemma_text_lt_irreflexive, opt_view, option_debug, push_str,
    starts_with, text_lt,
};

pub use artifact::{ArtifactBasisEntry, ArtifactRefusal, ArtifactReport, Signal};
use artifact::{
    BasisView, ReportView, basis_of, copy_refusal, copy_signals, opt_refusal_view, signals_view,
};
use derive::{canonical_tool, canonical_tool_of};

verus! {

broadcast use vstd::seq_lib::group_to_multiset_ensures;

/// An artifact as the caller read it: its name (the path it was read from)
/// and either the parsed report or the reason it could not be read or parsed.
#[derive(Debug, PartialEq, Eq)]
pub struct ArtifactSource {
    pub artifact: String,
    pub report: Result<ArtifactReport, String>,
}

pub struct SourceView {
    pub artifact: Seq<char>,
    pub report: Result<ReportView, Seq<char>>,
}

impl View for ArtifactSource {
    type V = SourceView;

    open spec fn view(&self) -> SourceView {
        SourceView {
            artifact: self.artifact@,
            report: match self.report {
                Ok(r) => Ok(r@),
                Err(m) => Err(m@),
            },
        }
    }
}

pub open spec fn sources_view(s: Seq<ArtifactSource>) -> Seq<SourceView> {
    s.map_values(|x: ArtifactSource| x@)
}

/// An artifact of a bundle: where it came from, its canonical tool, and its
/// report.
pub struct LoadedView {
    pub artifact: Seq<char>,
    pub tool: Seq<char>,
    pub report: ReportView,
}

/// The basis entry of a loaded artifact.
pub open spec fn loaded_basis(l: LoadedView) -> BasisView {
    basis_of(l.artifact, l.tool, l.report)
}

#[derive(Debug, Clone, PartialEq, Eq)]
pub enum BundleError {
    BadArtifact { path: String, message: String },
    DuplicateTool { tool: String, first: String, second: String },
    VerifyConstraintsArtifact { path: String, version: String },
}

pub enum BundleErrorView {
    BadArtifact { path: Seq<char>, message: Seq<char> },
    DuplicateTool { tool: Seq<char>, first: Seq<char>, second: Seq<char> },
    VerifyConstraintsArtifact { path: Seq<char>, version: Seq<char> },
}

impl View for BundleError {
    type V = BundleErrorView;

    open spec fn view(&self) -> BundleErrorView {
        match self {
            BundleError::BadArtifact { path, message } => BundleErrorView::BadArtifact {
                path: path@,
                message: message@,
            },
            BundleError::DuplicateTool { tool, first, second } => BundleErrorView::DuplicateTool {
                tool: tool@,
                first: first@,
                second: second@,
            },
            BundleError::VerifyConstraintsArtifact { path, version } =>
                BundleErrorView::VerifyConstraintsArtifact { path: path@, version: version@ },
        }
    }
}

/// The refusal code each bundle error is reported under.
pub open spec fn bundle_error_code(e: BundleErrorView) -> RefusalCode {
    match e {
        BundleErrorView::BadArtifact { .. } => RefusalCode::BadArtifact,
        BundleErrorView::DuplicateTool { .. } => RefusalCode::DuplicateTool,
        BundleErrorView::VerifyConstraintsArtifact { .. } => RefusalCode::BadArtifact,
    }
}

/// How a bundle error reads.
pub open spec fn bundle_error_message(e: BundleErrorView) -> Seq<char> {
    match e {
        BundleErrorView::BadArtifact { path, message } => "invalid artifact "@ + path + ": "@
            + message,
        BundleErrorView::DuplicateTool { tool, first, second } => "duplicate canonical tool `"@
            + tool + "` for artifacts "@ + first + " and "@ + second,
        BundleErrorView::VerifyConstraintsArtifact { path, version } => "invalid artifact "@ + path
            + ": "@ + version + " is a compiled verify constraint set, not a verify report"@,
    }
}

impl BundleError {
    pub fn message(&self) -> (m: String)
        ensures
            m@ == bundle_error_message(self@),
    {
        let mut m = String::new();
        match self {
            BundleError::BadArtifact { path, message } => {
                push_str(&mut m, "invalid artifact ");
                push_str(&mut m, path.as_str());
                push_str(&mut m, ": ");
                push_str(&mut m, message.as_str());
            },
            BundleError::DuplicateTool { tool, first, second } => {
                push_str(&mut m, "duplicate canonical tool `");
                push_str(&mut m, tool.as_str());
                push_str(&mut m, "` for artifacts ");
                push_str(&mut m, first.as_str());
                push_str(&mut m, " and ");
                push_str(&mut m, second.as_str());
            },
            BundleError::VerifyConstraintsArtifact { path, version } => {
                push_str(&mut m, "invalid artifact ");
                push_str(&mut m, path.as_str());
                push_str(&mut m, ": ");
                push_str(&mut m, version.as_str());
                push_str(&mut m, " is a compiled verify constraint set, not a verify report");
            },
        }
        assert(m@ =~= bundle_error_message(self@));
        m
    }

    pub fn refusal_code(&self) -> (c: RefusalCode)
        ensures
            c == bundle_error_code(self@),
    {
        match self {
            BundleError::BadArtifact { .. } => RefusalCode::BadArtifact,
            BundleError::DuplicateTool { .. } => RefusalCode::DuplicateTool,
            BundleError::VerifyConstraintsArtifact { .. } => RefusalCode::BadArtifact,
        }
    }
}

/// The detail a refusal for this error carries: for a compiled constraint
/// set, the artifact, the version received and the report version expected.
pub open spec fn bundle_error_detail(e: BundleErrorView) -> Option<Seq<(Seq<char>, Seq<char>)>> {
    match e {
        BundleErrorView::VerifyConstraintsArtifact { path, version } => Some(
            seq![
                ("artifact"@, path),
                ("received_version"@, version),
                ("expected_version"@, "verify.report.v1"@),
            ],
        ),
        _ => None,
    }
}

/// The command a refusal for this error suggests: for a compiled constraint
/// set, running `verify` on it first and assessing the report it writes.
pub open spec fn bundle_error_next_command(e: BundleErrorView) -> Option<Seq<char>> {
    match e {
        BundleErrorView::VerifyConstraintsArtifact { path, .. } => Some(
            "verify run "@ + path
                + " <DATASET> --json > verify.report.json && assess verify.report.json --policy <POLICY>"@,
        ),
        _ => None,
    }
}

impl BundleError {
    pub fn refusal_detail(&self) -> (d: Option<Vec<DetailField>>)
        ensures
            match d {
                Some(v) => bundle_error_detail(self@) == Some(detail_view(v@)),
                None => bundle_error_detail(self@) is None,
            },
    {
        match self {
            BundleError::VerifyConstraintsArtifact { path, version } => {
                let mut v: Vec<DetailField> = Vec::new();
                v.push(DetailField { key: crate::text::owned("artifact"), value: copy_string(path) });
                v.push(
                    DetailField {
                        key: crate::text::owned("received_version"),
                        value: copy_string(version),
                    },
                );
                v.push(
                    DetailField {
                        key: crate::text::owned("expected_version"),
                        value: crate::text::owned("verify.report.v1"),
                    },
                );
                assert(detail_view(v@) =~= bundle_error_detail(self@)->Some_0);
                Some(v)
            },
            _ => None,
        }
    }

    pub fn refusal_next_command(&self) -> (c: Option<String>)
        ensures
            crate::text::opt_view(c) == bundle_error_next_command(self@),
    {
        match self {
            BundleError::VerifyConstraintsArtifact { path, .. } => {
                let mut c = String::new();
                push_str(&mut c, "verify run ");
                push_str(&mut c, path.as_str());
                push_str(
                    &mut c,
                    " <DATASET> --json > verify.report.json && assess verify.report.json --policy <POLICY>",
                );
                Some(c)
            },
            _ => None,
        }
    }
}

/// Versions of compiled `verify` constraint sets start with this; such a
/// file is the input of `verify`, not a report `assess` can use.
pub open spec fn constraints_version_prefix() -> Seq<char> {
    "verify.constraint."@
}

pub open spec fn is_constraints_version(version: Seq<char>) -> bool {
    constraints_version_prefix().len() <= version.len() && version.take(
        constraints_version_prefix().len() as int,
    ) == constraints_version_prefix()
}

/// The message of a report whose canonical tool cannot be derived.
pub open spec fn underivable_tool_message(r: ReportView) -> Seq<char> {
    "cannot derive canonical tool from tool="@ + crate::text::option_debug_text(r.tool)
        + " version="@ + r.version
}

/// What one source contributes: its canonical tool, or why it is refused.
pub open spec fn resolve_source(s: SourceView) -> Result<Seq<char>, BundleErrorView> {
    match s.report {
        Err(message) => Err(BundleErrorView::BadArtifact { path: s.artifact, message }),
        Ok(r) => if is_constraints_version(r.version) {
            Err(BundleErrorView::VerifyConstraintsArtifact { path: s.artifact, version: r.version })
        } else {
            match canonical_tool_of(r.tool, r.version) {
                Some(tool) => Ok(tool),
                None => Err(
                    BundleErrorView::BadArtifact {
                        path: s.artifact,
                        message: underivable_tool_message(r),
                    },
                ),
            }
        },
    }
}

/// The index of the first loaded artifact that has canonical tool `tool`.
pub open spec fn first_with_tool(prev: Seq<LoadedView>, tool: Seq<char>) -> int {
    choose|j: int| 0 <= j < prev.len() && prev[j].tool == tool
}

/// Loading the sources in order: the first source that is refused decides
/// the error; a source whose canonical tool an earlier source already has is
/// a duplicate; otherwise every source is loaded, in input order.
pub open spec fn load_spec(s: Seq<SourceView>) -> Result<Seq<LoadedView>, BundleErrorView>
    decreases s.len(),
{
    if s.len() == 0 {
        Ok(Seq::empty())
    } else {
        match load_spec(s.drop_last()) {
            Err(e) => Err(e),
            Ok(prev) => match resolve_source(s.last()) {
                Err(e) => Err(e),
                Ok(tool) => if exists|j: int| 0 <= j < prev.len() && prev[j].tool == tool {
                    Err(
                        BundleErrorView::DuplicateTool {
                            tool,
                            first: prev[first_with_tool(prev, tool)].artifact,
                            second: s.last().artifact,
                        },
                    )
                } else {
                    Ok(
                        prev.push(
                            LoadedView {
                                artifact: s.last().artifact,
                                tool,
                                report: s.last().report->Ok_0,
                            },
                        ),
                    )
                },
            },
        }
    }
}

/// The basis entries of loaded artifacts.
pub open spec fn loaded_bases(l: Seq<LoadedView>) -> Seq<BasisView> {
    l.map_values(|x: LoadedView| loaded_basis(x))
}

/// The canonical tools of loaded artifacts.
pub open spec fn loaded_tools(l: Seq<LoadedView>) -> Seq<Seq<char>> {
    l.map_values(|x: LoadedView| x.tool)
}

/// No two loaded artifacts share a canonical tool.
pub open spec fn distinct_tools(l: Seq<LoadedView>) -> bool {
    forall|i: int, j: int| 0 <= i < j < l.len() ==> l[i].tool != l[j].tool
}

/// Loaded artifacts in strictly increasing tool order.
pub open spec fn strictly_sorted_by_tool(l: Seq<LoadedView>) -> bool {
    forall|i: int, j: int| 0 <= i < j < l.len() ==> text_lt(l[i].tool, l[j].tool)
}

/// A successful load never holds two artifacts for one canonical tool.
pub proof fn lemma_load_spec_distinct(s: Seq<SourceView>)
    ensures
        load_spec(s) is Ok ==> distinct_tools(load_spec(s)->Ok_0),
    decreases s.len(),
{
    if s.len() > 0 {
        lemma_load_spec_distinct(s.drop_last());
    }
}

/// A set of spine report artifacts with distinct canonical tools.
#[derive(Debug)]
pub struct ArtifactBundle {
    basis: Vec<ArtifactBasisEntry>,
    reports: Vec<ArtifactReport>,
}

impl View for ArtifactBundle {
    type V = Seq<LoadedView>;

    /// The artifacts of the bundle in increasing tool order.
    closed spec fn view(&self) -> Seq<LoadedView> {
        Seq::new(
            self.basis@.len(),
            |i: int|
                LoadedView {
                    artifact: self.basis@[i].artifact@,
                    tool: self.basis@[i].tool@,
                    report: self.reports@[i]@,
                },
        )
    }
}

impl ArtifactBundle {
    proof fn lemma_view_sorted(&self)
        requires
            self.well_formed(),
        ensures
            strictly_sorted_by_tool(self@),
    {
        assert forall|i: int, j: int| 0 <= i < j < self@.len() implies text_lt(
            self@[i].tool,
            self@[j].tool,
        ) by {
            assert(self@[i].tool == self.basis@[i].tool@);
            assert(self@[j].tool == self.basis@[j].tool@);
        }
    }

    #[verifier::type_invariant]
    closed spec fn well_formed(&self) -> bool {
        &&& self.basis@.len() == self.reports@.len()
        &&& forall|i: int|
            0 <= i < self.basis@.len() ==> #[trigger] self.basis@[i]@ == basis_of(
                self.basis@[i].artifact@,
                self.basis@[i].tool@,
                self.reports@[i]@,
            )
        &&& forall|i: int, j: int|
            0 <= i < j < self.basis@.len() ==> text_lt(
                #[trigger] self.basis@[i].tool@,
                #[trigger] self.basis@[j].tool@,
            )
    }

    /// The epistemic basis: one entry per artifact, in increasing tool order.
    pub fn basis(&self) -> (b: &[ArtifactBasisEntry])
        ensures
            b@.len() == self@.len(),
            forall|i: int| 0 <= i < b@.len() ==> (#[trigger] b@[i])@ == loaded_basis(self@[i]),
            forall|i: int|
                0 <= i < b@.len() ==> {
                    &&& (#[trigger] b@[i]).artifact@ == self@[i].artifact
                    &&& b@[i].tool@ == self@[i].tool
                    &&& b@[i].version@ == self@[i].report.version
                    &&& opt_view(b@[i].outcome) == self@[i].report.outcome
                    &&& signals_view(b@[i].policy_signals@) == self@[i].report.signals
                    &&& opt_refusal_view(b@[i].refusal) == self@[i].report.refusal
                },
            strictly_sorted_by_tool(self@),
    {
        proof {
            use_type_invariant(self);
            self.lemma_view_sorted();
        }
        let b = self.basis.as_slice();
        proof {
            assert forall|i: int| 0 <= i < b@.len() implies {
                &&& (#[trigger] b@[i]).artifact@ == self@[i].artifact
                &&& b@[i].tool@ == self@[i].tool
                &&& b@[i].version@ == self@[i].report.version
                &&& opt_view(b@[i].outcome) == self@[i].report.outcome
                &&& signals_view(b@[i].policy_signals@) == self@[i].report.signals
                &&& opt_refusal_view(b@[i].refusal) == self@[i].report.refusal
            } by {
                assert(self.basis@[i]@ == basis_of(
                    self.basis@[i].artifact@,
                    self.basis@[i].tool@,
                    self.reports@[i]@,
                ));
                assert(b@[i] == self.basis@[i]);
            }
        }
        b
    }

    /// The canonical tools of the bundle, in increasing order.
    pub fn observed_tools(&self) -> (tools: Vec<String>)
        ensures
            tools@.len() == self@.len(),
            forall|i: int| 0 <= i < tools@.len() ==> (#[trigger] tools@[i])@ == self@[i].tool,
            strictly_sorted_by_tool(self@),
    {
        proof {
            use_type_invariant(self);
            self.lemma_view_sorted();
        }
        let mut tools: Vec<String> = Vec::new();
        let mut i: usize = 0;
        while i < self.basis.len()
            invariant
                i <= self.basis@.len(),
                self.basis@.len() == self.reports@.len(),
                tools@.len() == i,
                forall|j: int| 0 <= j < i ==> (#[trigger] tools@[j])@ == self.basis@[j].tool@,
            decreases self.basis@.len() - i,
        {
            tools.push(copy_string(&self.basis[i].tool));
            i = i + 1;
        }
        tools
    }

    /// The report of the artifact whose canonical tool is `canonical_tool`.
    pub fn get(&self, canonical_tool: &str) -> (r: Option<&ArtifactReport>)
        ensures
            match r {
                Some(report) => exists|i: int|
                    0 <= i < self@.len() && self@[i].tool == canonical_tool@ && report@
                        == self@[i].report,
                None => forall|i: int| 0 <= i < self@.len() ==> self@[i].tool != canonical_tool@,
            },
            strictly_sorted_by_tool(self@),
    {
        proof {
            use_type_invariant(self);
            self.lemma_view_sorted();
        }
        let mut i: usize = 0;
        while i < self.basis.len()
            invariant
                i <= self.basis@.len(),
                self.basis@.len() == self.reports@.len(),
                strictly_sorted_by_tool(self@),
                forall|j: int| 0 <= j < i ==> self.basis@[j].tool@ != canonical_tool@,
            decreases self.basis@.len() - i,
        {
            if crate::text::same_text(self.basis[i].tool.as_str(), canonical_tool) {
                assert(self@[i as int].tool == canonical_tool@);
                return Some(&self.reports[i]);
            }
            i = i + 1;
        }
        None
    }
}

/// What one artifact source contributes, checked and copied.
fn resolve_one(source: &ArtifactSource) -> (r: Result<(String, ArtifactReport), BundleError>)
    ensures
        match resolve_source(source@) {
            Ok(tool) => r matches Ok((t, report)) && t@ == tool && report@ == source@.report->Ok_0,
            Err(e) => r matches Err(x) && x@ == e,
        },
{
    match &source.report {
        Err(message) => Err(
            BundleError::BadArtifact {
                path: copy_string(&source.artifact),
                message: copy_string(message),
            },
        ),
        Ok(report) => {
            if starts_with(report.version.as_str(), "verify.constraint.") {
                return Err(
                    BundleError::VerifyConstraintsArtifact {
                        path: copy_string(&source.artifact),
                        version: copy_string(&report.version),
                    },
                );
            }
            let explicit: Option<&str> = match &report.tool {
                Some(t) => Some(t.as_str()),
                None => None,
            };
            match canonical_tool(explicit, report.version.as_str()) {
                Some(tool) => Ok((tool, report.copy())),
                None => {
                    let mut message = String::new();
                    push_str(&mut message, "cannot derive canonical tool from tool=");
                    let shown = option_debug(&report.tool);
                    push_str(&mut message, shown.as_str());
                    push_str(&mut message, " version=");
                    push_str(&mut message, report.version.as_str());
                    assert(message@ =~= underivable_tool_message(report@));
                    Err(
                        BundleError::BadArtifact {
                            path: copy_string(&source.artifact),
                            message,
                        },
                    )
                },
            }
        },
    }
}

type Staged = Keyed<(ArtifactBasisEntry, ArtifactReport)>;

spec fn staged_view(k: Staged) -> LoadedView {
    LoadedView { artifact: k.artifact@, tool: k.tool@, report: k.payload.1@ }
}

spec fn staged_ok(k: Staged) -> bool {
    &&& k.rank == 0
    &&& k.payload.0@ == basis_of(k.artifact@, k.tool@, k.payload.1@)
    &&& k.payload.0.artifact@ == k.artifact@
    &&& k.payload.0.tool@ == k.tool@
}

/// Builds the bundle from the artifacts in the order given.
///
/// Refused when an artifact could not be read or parsed, is a compiled
/// `verify` constraint set, has no derivable canonical tool, or shares its
/// canonical tool with an earlier artifact; the first such artifact decides
/// the error. Otherwise every artifact is in the bundle, which lists them in
/// increasing tool order.
pub fn load(sources: Vec<ArtifactSource>) -> (r: Result<ArtifactBundle, BundleError>)
    ensures
        match load_spec(sources_view(sources@)) {
            Err(e) => r matches Err(x) && x@ == e,
            Ok(loaded) => r matches Ok(bundle) && bundle@.len() == loaded.len()
                && strictly_sorted_by_tool(bundle@) && (forall|x: LoadedView|
                bundle@.contains(x) <==> loaded.contains(x)),
        },
{
    let ghost sv = sources_view(sources@);
    let mut staged: Vec<Staged> = Vec::new();
    let mut i: usize = 0;
    assert(sv.take(0) =~= Seq::<SourceView>::empty());
    assert(staged@.map_values(|k: Staged| staged_view(k)) =~= Seq::<LoadedView>::empty());
    while i < sources.len()
        invariant
            i <= sources@.len(),
            sv == sources_view(sources@),
            load_spec(sv.take(i as int)) == Ok::<Seq<LoadedView>, BundleErrorView>(
                staged@.map_values(|k: Staged| staged_view(k)),
            ),
            forall|j: int| 0 <= j < staged@.len() ==> staged_ok(#[trigger] staged@[j]),
        decreases sources@.len() - i,
    {
        let ghost prev = staged@.map_values(|k: Staged| staged_view(k));
        assert(sv.take(i + 1).drop_last() =~= sv.take(i as int));
        assert(sv.take(i + 1).last() == sources@[i as int]@);
        proof {
            lemma_load_spec_distinct(sv.take(i as int));
        }
        let (tool, report) = match resolve_one(&sources[i]) {
            Ok(pair) => pair,
            Err(e) => {
                proof {
                    assert(load_spec(sv.take(i + 1)) is Err);
                    lemma_load_spec_prefix_err(sv, i as int + 1);
                }
                return Err(e);
            },
        };
        let mut j: usize = 0;
        while j < staged.len()
            invariant
                j <= staged@.len(),
                i < sources@.len(),
                sv == sources_view(sources@),
                load_spec(sv.take(i as int)) == Ok::<Seq<LoadedView>, BundleErrorView>(prev),
                resolve_source(sv.take(i + 1).last()) == Ok::<Seq<char>, BundleErrorView>(tool@),
                sv.take(i + 1).drop_last() == sv.take(i as int),
                sv.take(i + 1).last() == sources@[i as int]@,
                distinct_tools(prev),
                prev == staged@.map_values(|k: Staged| staged_view(k)),
                forall|m: int| 0 <= m < j ==> prev[m].tool != tool@,
            decreases staged@.len() - j,
        {
            if staged[j].tool == tool {
                assert(prev[j as int].tool == tool@);
                proof {
                    assert(load_spec(sv.take(i as int)) == Ok::<Seq<LoadedView>, BundleErrorView>(prev));
                    assert(resolve_source(sv.take(i + 1).last()) == Ok::<Seq<char>, BundleErrorView>(tool@));
                    assert(exists|m: int| 0 <= m < prev.len() && prev[m].tool == tool@);
                    let f = first_with_tool(prev, tool@);
                    assert(prev[f].tool == tool@);
                    if f != j as int {
                        if f < j {
                            assert(prev[f].tool != prev[j as int].tool);
                        } else {
                            assert(prev[j as int].tool != prev[f].tool);
                        }
                    }
                    assert(load_spec(sv.take(i + 1)) is Err);
                    lemma_load_spec_prefix_err(sv, i as int + 1);
                }
                return Err(
                    BundleError::DuplicateTool {
                        tool,
                        first: copy_string(&staged[j].artifact),
                        second: copy_string(&sources[i].artifact),
                    },
                );
            }
            j = j + 1;
        }
        let entry = ArtifactBasisEntry {
            artifact: copy_string(&sources[i].artifact),
            tool: copy_string(&tool),
            version: copy_string(&report.version),
            outcome: crate::text::copy_opt_string(&report.outcome),
            policy_signals: copy_signals(&report.policy_signals),
            refusal: copy_refusal(&report.refusal),
        };
        let item = Keyed {
            rank: 0,
            tool,
            artifact: copy_string(&sources[i].artifact),
            payload: (entry, report),
        };
        staged.push(item);
        assert(staged@.map_values(|k: Staged| staged_view(k)) =~= prev.push(staged_view(item)));
        i = i + 1;
    }
    assert(sv.take(sources@.len() as int) =~= sv);
    let ghost loaded = staged@.map_values(|k: Staged| staged_view(k));
    proof {
        lemma_load_spec_distinct(sv);
    }
    let ghost staged_items = staged@;
    let sorted = sort_by_key(staged);
    // Split the sorted items into the basis and the reports.
    let ghost sorted_items = sorted@;
    proof {
        assert(sorted_items.to_multiset() == staged_items.to_multiset());
        lemma_staged_no_duplicates(staged_items);
        staged_items.lemma_multiset_has_no_duplicates();
        sorted_items.lemma_multiset_has_no_duplicates_conv();
        assert forall|a: int| 0 <= a < sorted_items.len() implies staged_ok(
            #[trigger] sorted_items[a],
        ) && loaded.contains(staged_view(sorted_items[a])) by {
            assert(sorted_items.to_multiset().contains(sorted_items[a]));
            assert(staged_items.contains(sorted_items[a]));
            let k = choose|k: int| 0 <= k < staged_items.len() && staged_items[k] == sorted_items[a];
            assert(loaded[k] == staged_view(sorted_items[a]));
        }
        assert forall|a: int, b: int| 0 <= a < b < sorted_items.len() implies text_lt(
            #[trigger] sorted_items[a].tool@,
            #[trigger] sorted_items[b].tool@,
        ) by {
            assert(key_le(sorted_items[a].key(), sorted_items[b].key()));
            assert(sorted_items.to_multiset().contains(sorted_items[a]));
            assert(sorted_items.to_multiset().contains(sorted_items[b]));
            assert(staged_items.contains(sorted_items[a]));
            assert(staged_items.contains(sorted_items[b]));
            let ka = choose|k: int| 0 <= k < staged_items.len() && staged_items[k] == sorted_items[a];
            let kb = choose|k: int| 0 <= k < staged_items.len() && staged_items[k] == sorted_items[b];
            assert(sorted_items[a] != sorted_items[b]);
            assert(ka != kb);
            assert(loaded[ka].tool != loaded[kb].tool);
            lemma_text_lt_irreflexive(sorted_items[a].tool@);
        }
        assert forall|x: LoadedView| loaded.contains(x) implies exists|a: int|
            0 <= a < sorted_items.len() && staged_view(sorted_items[a]) == x by {
            let k = choose|k: int| 0 <= k < loaded.len() && loaded[k] == x;
            assert(staged_items.to_multiset().contains(staged_items[k]));
            assert(sorted_items.contains(staged_items[k]));
        }
    }
    let mut basis: Vec<ArtifactBasisEntry> = Vec::new();
    let mut reports: Vec<ArtifactReport> = Vec::new();
    let mut n: usize = 0;
    while n < sorted.len()
        invariant
            n <= sorted@.len(),
            sorted@ == sorted_items,
            basis@.len() == n,
            reports@.len() == n,
            forall|a: int| 0 <= a < n ==> (#[trigger] basis@[a])@ == sorted_items[a].payload.0@,
            forall|a: int| 0 <= a < n ==> (#[trigger] reports@[a])@ == sorted_items[a].payload.1@,
        decreases sorted@.len() - n,
    {
        let entry = sorted[n].payload.0.copy();
        let report = sorted[n].payload.1.copy();
        basis.push(entry);
        reports.push(report);
        assert(basis@[n as int]@ == sorted_items[n as int].payload.0@);
        assert(reports@[n as int]@ == sorted_items[n as int].payload.1@);
        n = n + 1;
    }
    let bundle = ArtifactBundle { basis, reports };
    proof {
        assert(bundle@ =~= sorted_items.map_values(|k: Staged| staged_view(k)));
        assert forall|x: LoadedView| #[trigger] bundle@.contains(x) <==> loaded.contains(x) by {
            if bundle@.contains(x) {
                let a = choose|a: int| 0 <= a < bundle@.len() && bundle@[a] == x;
                assert(bundle@[a] == staged_view(sorted_items[a]));
            }
            if loaded.contains(x) {
                let a = choose|a: int|
                    0 <= a < sorted_items.len() && staged_view(sorted_items[a]) == x;
                assert(bundle@[a] == x);
            }
        }
        vstd::seq_lib::to_multiset_len(sorted_items);
        vstd::seq_lib::to_multiset_len(staged_items);
        assert(sorted_items.len() == staged_items.len());
    }
    Ok(bundle)
}

/// Staged items with distinct tools are distinct.
proof fn lemma_staged_no_duplicates(s: Seq<Staged>)
    requires
        distinct_tools(s.map_values(|k: Staged| staged_view(k))),
    ensures
        s.no_duplicates(),
{
    assert forall|i: int, j: int| 0 <= i < s.len() && 0 <= j < s.len() && i != j implies s[i]
        != s[j] by {
        let v = s.map_values(|k: Staged| staged_view(k));
        if i < j {
            assert(v[i].tool != v[j].tool);
        } else {
            assert(v[j].tool != v[i].tool);
        }
    }
}

/// The epistemic basis records each loaded artifact as it was read: for
/// every artifact there is an entry with its name, its canonical tool, and
/// its report's version, outcome, policy signals and refusal; and every
/// entry is such a record of some artifact.
pub proof fn law_basis_records_each_report(bundle: Seq<LoadedView>)
    ensures
        loaded_bases(bundle).len() == bundle.len(),
        forall|j: int|
            0 <= j < bundle.len() ==> {
                let x = #[trigger] loaded_bases(bundle)[j];
                &&& x.artifact == bundle[j].artifact
                &&& x.tool == bundle[j].tool
                &&& x.version == bundle[j].report.version
                &&& x.outcome == bundle[j].report.outcome
                &&& x.signals == bundle[j].report.signals
                &&& x.refusal == bundle[j].report.refusal
            },
        forall|x: BasisView|
            #[trigger] loaded_bases(bundle).contains(x) ==> exists|j: int|
                0 <= j < bundle.len() && x.artifact == bundle[j].artifact && x.tool
                    == bundle[j].tool && x.version == bundle[j].report.version && x.outcome
                    == bundle[j].report.outcome && x.signals == bundle[j].report.signals
                    && x.refusal == bundle[j].report.refusal,
{
    assert forall|x: BasisView| #[trigger] loaded_bases(bundle).contains(x) implies exists|j: int|
        0 <= j < bundle.len() && x.artifact == bundle[j].artifact && x.tool == bundle[j].tool
            && x.version == bundle[j].report.version && x.outcome == bundle[j].report.outcome
            && x.signals == bundle[j].report.signals && x.refusal == bundle[j].report.refusal by {
        let j = choose|j: int| 0 <= j < loaded_bases(bundle).len() && loaded_bases(bundle)[j] == x;
        assert(loaded_bases(bundle)[j] == loaded_basis(bundle[j]));
    }
}

/// A load succeeds only on usable reports: every source parsed, none is a
/// compiled verify constraint set (a version starting with
/// `verify.constraint.`), each has a canonical tool, and no two share one.
pub proof fn law_loaded_sources_are_usable_reports(s: Seq<ArtifactSource>)
    ensures
        load_spec(sources_view(s)) is Ok ==> forall|i: int|
            0 <= i < s.len() ==> ((#[trigger] s[i]).report matches Ok(rep) && !(rep.version@.len()
                >= "verify.constraint."@.len() && rep.version@.take(
                "verify.constraint."@.len() as int,
            ) == "verify.constraint."@) && canonical_tool_of(opt_view(rep.tool), rep.version@) is Some),
        load_spec(sources_view(s)) is Ok ==> forall|i: int, j: int|
            0 <= i < j < s.len() ==> canonical_tool_of(
                opt_view((#[trigger] s[i]).report->Ok_0.tool),
                s[i].report->Ok_0.version@,
            ) != canonical_tool_of(
                opt_view((#[trigger] s[j]).report->Ok_0.tool),
                s[j].report->Ok_0.version@,
            ),
{
    let sv = sources_view(s);
    law_load_accounts_for_every_artifact(sv);
    if load_spec(sv) is Ok {
        assert forall|i: int| 0 <= i < s.len() implies ((#[trigger] s[i]).report matches Ok(rep)
            && !(rep.version@.len() >= "verify.constraint."@.len() && rep.version@.take(
            "verify.constraint."@.len() as int,
        ) == "verify.constraint."@) && canonical_tool_of(opt_view(rep.tool), rep.version@) is Some) by {
            assert(sv[i] == s[i]@);
            assert(resolve_source(sv[i]) is Ok);
        }
        assert forall|i: int, j: int| 0 <= i < j < s.len() implies canonical_tool_of(
            opt_view((#[trigger] s[i]).report->Ok_0.tool),
            s[i].report->Ok_0.version@,
        ) != canonical_tool_of(
            opt_view((#[trigger] s[j]).report->Ok_0.tool),
            s[j].report->Ok_0.version@,
        ) by {
            assert(sv[i] == s[i]@);
            assert(sv[j] == s[j]@);
            assert(resolve_source(sv[i]) is Ok);
            assert(resolve_source(sv[j]) is Ok);
            assert(resolve_source(sv[i])->Ok_0 != resolve_source(sv[j])->Ok_0);
        }
    }
}

/// Every source resolves to its own canonical tool.
pub open spec fn all_resolve_distinctly(s: Seq<SourceView>) -> bool {
    &&& forall|i: int| 0 <= i < s.len() ==> resolve_source(#[trigger] s[i]) is Ok
    &&& forall|i: int, j: int|
        0 <= i < j < s.len() ==> resolve_source(#[trigger] s[i])->Ok_0 != resolve_source(
            #[trigger] s[j],
        )->Ok_0
}

/// Every input is accounted for, and one artifact per tool: the sources load
/// exactly when each resolves to a canonical tool and no two share one; the
/// loaded artifacts are then the sources, in order, each under its tool.
pub proof fn law_load_accounts_for_every_artifact(s: Seq<SourceView>)
    ensures
        load_spec(s) is Ok <==> all_resolve_distinctly(s),
        load_spec(s) matches Ok(l) ==> l.len() == s.len() && forall|i: int|
            0 <= i < s.len() ==> (#[trigger] l[i]).artifact == s[i].artifact && Ok::<
                Seq<char>,
                BundleErrorView,
            >(l[i].tool) == resolve_source(s[i]) && s[i].report == Ok::<ReportView, Seq<char>>(
                l[i].report,
            ),
    decreases s.len(),
{
    if s.len() > 0 {
        let prev = s.drop_last();
        law_load_accounts_for_every_artifact(prev);
        assert forall|i: int| 0 <= i < prev.len() implies #[trigger] prev[i] == s[i] by {}
        if all_resolve_distinctly(s) {
            assert(all_resolve_distinctly(prev));
            let l = load_spec(prev)->Ok_0;
            let t = resolve_source(s.last())->Ok_0;
            assert(resolve_source(s[s.len() - 1]) is Ok);
            if exists|j: int| 0 <= j < l.len() && l[j].tool == t {
                let j = choose|j: int| 0 <= j < l.len() && l[j].tool == t;
                assert(resolve_source(s[j])->Ok_0 == t);
                assert(resolve_source(s[s.len() - 1])->Ok_0 == t);
            }
        }
        if load_spec(s) is Ok {
            let l = load_spec(prev)->Ok_0;
            let t = resolve_source(s.last())->Ok_0;
            assert forall|i: int, j: int| 0 <= i < j < s.len() implies resolve_source(
                #[trigger] s[i],
            )->Ok_0 != resolve_source(#[trigger] s[j])->Ok_0 by {
                if j == s.len() - 1 {
                    assert(l[i].tool != t);
                    assert(prev[i] == s[i]);
                } else {
                    assert(prev[i] == s[i]);
                    assert(prev[j] == s[j]);
                }
            }
            assert forall|i: int| 0 <= i < s.len() implies resolve_source(#[trigger] s[i]) is Ok by {
                if i < s.len() - 1 {
                    assert(prev[i] == s[i]);
                }
            }
        }
    }
}

/// Once a prefix of the sources is refused, every longer prefix is refused
/// with the same error.
proof fn lemma_load_spec_prefix_err(s: Seq<SourceView>, n: int)
    requires
        0 <= n <= s.len(),
        load_spec(s.take(n)) is Err,
    ensures
        load_spec(s) == load_spec(s.take(n)),
    decreases s.len() - n,
{
    if n < s.len() {
        assert(s.take(n + 1).drop_last() =~= s.take(n));
        lemma_load_spec_prefix_err(s, n + 1);
    } else {
        assert(s.take(n) =~= s);
    }
}

} // verus!
