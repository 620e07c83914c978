use vstd::prelude::*;

use crate::bundle::artifact::{ArtifactReport, ReportView, Signal};
use crate::bundle::{ArtifactBundle, LoadedView, strictly_sorted_by_tool};
use crate::policy::schema::{MatcherView, PolicyFile, RuleView, ToolMatcher, WhenClause, when_view};
use crate::text::lemma_text_lt_irreflexive;

verus! {

/// The value of the first signal named `name`.
pub open spec fn signal_lookup(signals: Seq<(Seq<char>, Seq<char>)>, name: Seq<char>) -> Option<
    Seq<char>,
>
    decreases signals.len(),
{
    if signals.len() == 0 {
        None
    } else if signals[0].0 == name {
        Some(signals[0].1)
    } else {
        signal_lookup(signals.drop_first(), name)
    }
}

/// A tool matcher accepts a report when every condition it states holds:
/// the exact `outcome`, an outcome among `outcome_in`, the upstream refusal
/// code `refusal`, and each expected signal with exactly the expected value.
pub open spec fn matcher_matches(m: MatcherView, r: ReportView) -> bool {
    &&& (m.outcome matches Some(o) ==> r.outcome == Some(o))
    &&& (m.outcome_in matches Some(list) ==> (r.outcome matches Some(x) && list.contains(x)))
    &&& (m.refusal matches Some(code) ==> (r.refusal matches Some(rf) && rf.code == code))
    &&& forall|i: int|
        0 <= i < m.signals.len() ==> signal_lookup(r.signals, #[trigger] m.signals[i].0) == Some(
            m.signals[i].1,
        )
}

/// A `when` clause matches a bundle when each tool it names is in the bundle
/// and that tool's report satisfies the tool's matcher.
pub open spec fn when_matches(w: Seq<(Seq<char>, MatcherView)>, b: Seq<LoadedView>) -> bool {
    forall|i: int| 0 <= i < w.len() ==> condition_holds(#[trigger] w[i], b)
}

/// The bundle holds the condition's tool with a report its matcher accepts.
pub open spec fn condition_holds(c: (Seq<char>, MatcherView), b: Seq<LoadedView>) -> bool {
    exists|j: int| 0 <= j < b.len() && b[j].tool == c.0 && matcher_matches(c.1, b[j].report)
}

/// A rule fires on a bundle when it is the default rule or its `when`
/// clause matches; a non-default rule without a `when` clause never fires.
pub open spec fn rule_fires(r: RuleView, b: Seq<LoadedView>) -> bool {
    r.default || (r.when matches Some(w) && when_matches(w, b))
}

/// Whether some rule is marked default.
pub open spec fn has_default(rules: Seq<RuleView>) -> bool {
    exists|i: int| 0 <= i < rules.len() && (#[trigger] rules[i]).default
}

/// Whether the policy has a default rule.
pub fn has_default_rule(policy: &PolicyFile) -> (r: bool)
    ensures
        r == has_default(policy@.rules),
{
    let mut i: usize = 0;
    while i < policy.rules.len()
        invariant
            i <= policy.rules@.len(),
            forall|j: int| 0 <= j < i ==> !policy.rules@[j].default,
        decreases policy.rules@.len() - i,
    {
        if policy.rules[i].default {
            assert(policy@.rules[i as int].default);
            return true;
        }
        i = i + 1;
    }
    proof {
        if has_default(policy@.rules) {
            let k = choose|k: int| 0 <= k < policy@.rules.len() && (#[trigger] policy@.rules[k]).default;
            assert(policy.rules@[k].default);
        }
    }
    false
}

fn signal_value_matches(signals: &Vec<Signal>, name: &String, value: &String) -> (r: bool)
    ensures
        r == (signal_lookup(crate::bundle::artifact::signals_view(signals@), name@) == Some(
            value@,
        )),
{
    let ghost all = crate::bundle::artifact::signals_view(signals@);
    let mut i: usize = 0;
    assert(all.skip(0) =~= all);
    while i < signals.len()
        invariant
            i <= signals@.len(),
            all == crate::bundle::artifact::signals_view(signals@),
            signal_lookup(all, name@) == signal_lookup(all.skip(i as int), name@),
        decreases signals@.len() - i,
    {
        assert(all.skip(i as int)[0] == all[i as int]);
        if signals[i].name == *name {
            return signals[i].value == *value;
        }
        assert(all.skip(i as int).drop_first() =~= all.skip(i + 1));
        i = i + 1;
    }
    false
}

fn contains_string(list: &Vec<String>, x: &String) -> (r: bool)
    ensures
        r == crate::text::strings_view(list@).contains(x@),
{
    let ghost views = crate::text::strings_view(list@);
    let mut i: usize = 0;
    while i < list.len()
        invariant
            i <= list@.len(),
            views == crate::text::strings_view(list@),
            forall|j: int| 0 <= j < i ==> views[j] != x@,
        decreases list@.len() - i,
    {
        if list[i] == *x {
            assert(views[i as int] == x@);
            return true;
        }
        i = i + 1;
    }
    false
}

proof fn lemma_signal_lookup_found(s: Seq<(Seq<char>, Seq<char>)>, n: Seq<char>)
    ensures
        signal_lookup(s, n) matches Some(v) ==> exists|j: int|
            0 <= j < s.len() && (#[trigger] s[j]).0 == n && s[j].1 == v,
    decreases s.len(),
{
    if s.len() > 0 && s[0].0 != n {
        lemma_signal_lookup_found(s.drop_first(), n);
        if signal_lookup(s, n) is Some {
            let v = signal_lookup(s, n)->Some_0;
            let j = choose|j: int|
                0 <= j < s.drop_first().len() && (#[trigger] s.drop_first()[j]).0 == n
                    && s.drop_first()[j].1 == v;
            assert(s[j + 1] == s.drop_first()[j]);
        }
    }
}

proof fn lemma_signal_lookup_single_value(s: Seq<(Seq<char>, Seq<char>)>, n: Seq<char>, v: Seq<char>)
    requires
        exists|j: int| 0 <= j < s.len() && (#[trigger] s[j]).0 == n,
        forall|j: int| 0 <= j < s.len() && (#[trigger] s[j]).0 == n ==> s[j].1 == v,
    ensures
        signal_lookup(s, n) == Some(v),
    decreases s.len(),
{
    if s[0].0 != n {
        let j = choose|j: int| 0 <= j < s.len() && (#[trigger] s[j]).0 == n;
        assert(s.drop_first()[j - 1] == s[j]);
        assert forall|k: int| 0 <= k < s.drop_first().len() && (#[trigger] s.drop_first()[k]).0 == n
            implies s.drop_first()[k].1 == v by {
            assert(s.drop_first()[k] == s[k + 1]);
        }
        lemma_signal_lookup_single_value(s.drop_first(), n, v);
    }
}

/// What a tool matcher demands of a report it accepts: the exact outcome
/// it names; an outcome among those `outcome_in` lists; an upstream refusal
/// with exactly the code it names (a report refused with any other code,
/// or not refused, is rejected); and each expected policy signal present
/// with exactly the expected value.
pub proof fn law_accepted_reports_meet_every_condition(m: ToolMatcher, r: ArtifactReport)
    ensures
        matcher_matches(m@, r@) ==> {
            &&& (m.outcome matches Some(o) ==> r.outcome matches Some(x) && x@ == o@)
            &&& (m.outcome_in matches Some(list) ==> r.outcome matches Some(x) && exists|k: int|
                0 <= k < list@.len() && (#[trigger] list@[k])@ == x@)
            &&& (m.refusal matches Some(c) ==> r.refusal matches Some(rf) && rf.code@ == c@)
            &&& forall|i: int|
                0 <= i < m.signals@.len() ==> exists|j: int|
                    0 <= j < r.policy_signals@.len() && (#[trigger] r.policy_signals@[j]).name@
                        == (#[trigger] m.signals@[i]).name@ && r.policy_signals@[j].value@
                        == m.signals@[i].value@
        },
{
    if matcher_matches(m@, r@) {
        let rs = crate::bundle::artifact::signals_view(r.policy_signals@);
        if m.outcome_in is Some {
            let list = m.outcome_in->Some_0;
            let x = r.outcome->Some_0;
            assert(crate::text::strings_view(list@).contains(x@));
            let k = choose|k: int|
                0 <= k < crate::text::strings_view(list@).len() && crate::text::strings_view(
                    list@,
                )[k] == x@;
            assert(list@[k]@ == x@);
        }
        assert forall|i: int| 0 <= i < m.signals@.len() implies exists|j: int|
            0 <= j < r.policy_signals@.len() && (#[trigger] r.policy_signals@[j]).name@
                == (#[trigger] m.signals@[i]).name@ && r.policy_signals@[j].value@
                == m.signals@[i].value@ by {
            assert(m@.signals[i] == (m.signals@[i].name@, m.signals@[i].value@));
            assert(signal_lookup(r@.signals, m@.signals[i].0) == Some(m@.signals[i].1));
            assert(r@.signals == rs);
            lemma_signal_lookup_found(rs, m.signals@[i].name@);
            let j = choose|j: int|
                0 <= j < rs.len() && (#[trigger] rs[j]).0 == m.signals@[i].name@ && rs[j].1
                    == m.signals@[i].value@;
            assert(rs[j] == (r.policy_signals@[j].name@, r.policy_signals@[j].value@));
        }
    }
}

/// A tool matcher accepts every report that meets each of its conditions:
/// the outcome it names, an outcome `outcome_in` lists, the refusal code
/// it names, and each expected signal present with the expected value (as
/// the only value under that name).
pub proof fn law_reports_meeting_every_condition_are_accepted(m: ToolMatcher, r: ArtifactReport)
    requires
        m.outcome matches Some(o) ==> r.outcome matches Some(x) && x@ == o@,
        m.outcome_in matches Some(list) ==> r.outcome matches Some(x) && exists|k: int|
            0 <= k < list@.len() && (#[trigger] list@[k])@ == x@,
        m.refusal matches Some(c) ==> r.refusal matches Some(rf) && rf.code@ == c@,
        forall|i: int|
            0 <= i < m.signals@.len() ==> exists|j: int|
                0 <= j < r.policy_signals@.len() && (#[trigger] r.policy_signals@[j]).name@
                    == (#[trigger] m.signals@[i]).name@,
        forall|i: int, j: int|
            0 <= i < m.signals@.len() && 0 <= j < r.policy_signals@.len() && (#[trigger] r.policy_signals@[j]).name@
                == (#[trigger] m.signals@[i]).name@ ==> r.policy_signals@[j].value@
                == m.signals@[i].value@,
    ensures
        matcher_matches(m@, r@),
{
    let rs = crate::bundle::artifact::signals_view(r.policy_signals@);
    if m.outcome_in is Some {
        let list = m.outcome_in->Some_0;
        let x = r.outcome->Some_0;
        let k = choose|k: int| 0 <= k < list@.len() && (#[trigger] list@[k])@ == x@;
        assert(crate::text::strings_view(list@)[k] == x@);
    }
    assert forall|i: int| 0 <= i < m@.signals.len() implies signal_lookup(
        r@.signals,
        #[trigger] m@.signals[i].0,
    ) == Some(m@.signals[i].1) by {
        let n = m.signals@[i].name@;
        let v = m.signals@[i].value@;
        assert(m@.signals[i] == (n, v));
        let j0 = choose|j: int|
            0 <= j < r.policy_signals@.len() && (#[trigger] r.policy_signals@[j]).name@ == m.signals@[i].name@;
        assert(rs[j0].0 == n);
        assert forall|j: int| 0 <= j < rs.len() && (#[trigger] rs[j]).0 == n implies rs[j].1 == v by {
            assert(rs[j] == (r.policy_signals@[j].name@, r.policy_signals@[j].value@));
        }
        lemma_signal_lookup_single_value(rs, n, v);
    }
}

/// Whether a tool matcher accepts a report.
pub fn matcher_accepts(matcher: &ToolMatcher, report: &ArtifactReport) -> (r: bool)
    ensures
        r == matcher_matches(matcher@, report@),
{
    match &matcher.outcome {
        Some(o) => match &report.outcome {
            Some(x) => {
                if *x != *o {
                    return false;
                }
            },
            None => {
                return false;
            },
        },
        None => {},
    }
    match &matcher.outcome_in {
        Some(list) => match &report.outcome {
            Some(x) => {
                if !contains_string(list, x) {
                    return false;
                }
            },
            None => {
                return false;
            },
        },
        None => {},
    }
    match &matcher.refusal {
        Some(code) => match &report.refusal {
            Some(rf) => {
                if rf.code != *code {
                    return false;
                }
            },
            None => {
                return false;
            },
        },
        None => {},
    }
    let mut i: usize = 0;
    while i < matcher.signals.len()
        invariant
            i <= matcher.signals@.len(),
            forall|j: int|
                0 <= j < i ==> signal_lookup(report@.signals, #[trigger] matcher@.signals[j].0)
                    == Some(matcher@.signals[j].1),
        decreases matcher.signals@.len() - i,
    {
        if !signal_value_matches(
            &report.policy_signals,
            &matcher.signals[i].name,
            &matcher.signals[i].value,
        ) {
            assert(matcher@.signals[i as int] == (
                matcher.signals@[i as int].name@,
                matcher.signals@[i as int].value@,
            ));
            assert(signal_lookup(report@.signals, matcher@.signals[i as int].0) != Some(
                matcher@.signals[i as int].1,
            ));
            return false;
        }
        i = i + 1;
    }
    true
}

/// Whether every tool named by the `when` clause is in the bundle with a
/// report its matcher accepts.
pub fn matches_bundle(clause: &WhenClause, bundle: &ArtifactBundle) -> (r: bool)
    ensures
        r == when_matches(when_view(*clause), bundle@),
{
    let ghost w = when_view(*clause);
    let mut i: usize = 0;
    while i < clause.len()
        invariant
            i <= clause@.len(),
            w == when_view(*clause),
            forall|k: int| 0 <= k < i ==> condition_holds(#[trigger] w[k], bundle@),
        decreases clause@.len() - i,
    {
        let condition = &clause[i];
        match bundle.get(condition.tool.as_str()) {
            None => {
                assert(w[i as int].0 == condition.tool@);
                return false;
            },
            Some(report) => {
                if !matcher_accepts(&condition.matcher, report) {
                    proof {
                        let t = condition.tool@;
                        assert(w[i as int] == (t, condition.matcher@));
                        let j0 = choose|j: int|
                            0 <= j < bundle@.len() && bundle@[j].tool == t && report@
                                == bundle@[j].report;
                        assert forall|j: int|
                            0 <= j < bundle@.len() && bundle@[j].tool == t implies !matcher_matches(
                            condition.matcher@,
                            bundle@[j].report,
                        ) by {
                            if j != j0 {
                                lemma_text_lt_irreflexive(t);
                                assert(strictly_sorted_by_tool(bundle@));
                            }
                        }
                    }
                    return false;
                }
                proof {
                    let t = condition.tool@;
                    assert(w[i as int] == (t, condition.matcher@));
                }
            },
        }
        i = i + 1;
    }
    assert(w.len() == clause@.len());
    assert(when_matches(w, bundle@));
    true
}

} // verus!
