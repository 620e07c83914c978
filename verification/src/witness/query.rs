use vstd::prelude::*;

use super::ledger::records_view;
use super::record::{WitnessRecord, WitnessView};
use crate::text::{decimal_text, owned, push_decimal, push_str, same_text};

verus! {

/// The ways the witness ledger can be read.
#[derive(Debug, Clone, Copy, PartialEq, Eq, Structural)]
pub enum WitnessQueryMode {
    Query,
    Last,
    Count,
}

/// Every query mode, in the order the CLI lists them.
pub fn supported_modes() -> (r: [WitnessQueryMode; 3])
    ensures
        r@ == seq![WitnessQueryMode::Query, WitnessQueryMode::Last, WitnessQueryMode::Count],
{
    let r = [WitnessQueryMode::Query, WitnessQueryMode::Last, WitnessQueryMode::Count];
    assert(r@ =~= seq![WitnessQueryMode::Query, WitnessQueryMode::Last, WitnessQueryMode::Count]);
    r
}


/// A condition a ledger query puts on records.
#[derive(Debug, Clone, PartialEq, Eq)]
pub enum WitnessFilter {
    /// `policy=<id>`: the run used this policy.
    Policy(String),
    /// `input=<path>`: the run read this artifact.
    Input(String),
    /// `decision=<band>`: the run decided this band.
    Decision(String),
}

pub enum FilterView {
    Policy(Seq<char>),
    Input(Seq<char>),
    Decision(Seq<char>),
}

pub open spec fn filter_view(f: WitnessFilter) -> FilterView {
    match f {
        WitnessFilter::Policy(v) => FilterView::Policy(v@),
        WitnessFilter::Input(v) => FilterView::Input(v@),
        WitnessFilter::Decision(v) => FilterView::Decision(v@),
    }
}

pub open spec fn filters_view(s: Seq<WitnessFilter>) -> Seq<FilterView> {
    s.map_values(|f: WitnessFilter| filter_view(f))
}

/// The index of the first `=` in a text.
pub open spec fn first_equals(t: Seq<char>) -> Option<int>
    decreases t.len(),
{
    if t.len() == 0 {
        None
    } else {
        match first_equals(t.drop_last()) {
            Some(i) => Some(i),
            None => if t.last() == '=' {
                Some(t.len() - 1)
            } else {
                None
            },
        }
    }
}

/// A filter as written on the command line: `key=value`, split at the
/// first `=`, with key `policy`, `input` or `decision`.
pub open spec fn parse_filter_text(t: Seq<char>) -> Option<FilterView> {
    match first_equals(t) {
        Some(k) => {
            let key = t.take(k);
            let value = t.skip(k + 1);
            if key == "policy"@ {
                Some(FilterView::Policy(value))
            } else if key == "input"@ {
                Some(FilterView::Input(value))
            } else if key == "decision"@ {
                Some(FilterView::Decision(value))
            } else {
                None
            }
        },
        None => None,
    }
}

/// How an unusable filter is reported.
pub open spec fn invalid_filter_message(t: Seq<char>) -> Seq<char> {
    "assess: witness: invalid filter `"@ + t
        + "`; expected policy=<id>, input=<path> or decision=<band>"@
}

/// The filters of a query, or the report of the first one that is unusable.
pub open spec fn parse_filters_text(s: Seq<Seq<char>>) -> Result<Seq<FilterView>, Seq<char>>
    decreases s.len(),
{
    if s.len() == 0 {
        Ok(Seq::empty())
    } else {
        match parse_filters_text(s.drop_last()) {
            Err(m) => Err(m),
            Ok(prev) => match parse_filter_text(s.last()) {
                Some(f) => Ok(prev.push(f)),
                None => Err(invalid_filter_message(s.last())),
            },
        }
    }
}

proof fn lemma_first_equals(t: Seq<char>)
    ensures
        match first_equals(t) {
            Some(i) => 0 <= i < t.len() && t[i] == '=' && forall|j: int| 0 <= j < i ==> t[j] != '=',
            None => forall|j: int| 0 <= j < t.len() ==> t[j] != '=',
        },
    decreases t.len(),
{
    if t.len() > 0 {
        lemma_first_equals(t.drop_last());
        assert(forall|j: int| 0 <= j < t.len() - 1 ==> t.drop_last()[j] == t[j]);
    }
}

proof fn lemma_first_equals_is(t: Seq<char>, k: int)
    requires
        0 <= k < t.len(),
        t[k] == '=',
        forall|j: int| 0 <= j < k ==> t[j] != '=',
    ensures
        first_equals(t) == Some(k),
{
    lemma_first_equals(t);
    match first_equals(t) {
        Some(i) => {
            if i < k {
                assert(t[i] == '=');
            } else if i > k {
                assert(t[k] != '=');
            }
        },
        None => {
            assert(t[k] != '=');
        },
    }
}

/// A filter is read by splitting at its first `=`: the key before it names
/// the filter (`policy`, `input` or `decision`, anything else is refused)
/// and everything after it, further `=` included, is the value; a text
/// without `=` is no filter.
pub proof fn law_filter_splits_at_first_equals(key: Seq<char>, value: Seq<char>, bare: Seq<char>)
    requires
        forall|j: int| 0 <= j < key.len() ==> key[j] != '=',
    ensures
        parse_filter_text(key + seq!['='] + value) == (if key == "policy"@ {
            Some(FilterView::Policy(value))
        } else if key == "input"@ {
            Some(FilterView::Input(value))
        } else if key == "decision"@ {
            Some(FilterView::Decision(value))
        } else {
            None
        }),
        (forall|j: int| 0 <= j < bare.len() ==> bare[j] != '=') ==> parse_filter_text(bare) is None,
{
    let t = key + seq!['='] + value;
    let k = key.len() as int;
    assert(t[k] == '=');
    assert forall|j: int| 0 <= j < k implies t[j] != '=' by {
        assert(t[j] == key[j]);
    }
    lemma_first_equals_is(t, k);
    assert(t.take(k) =~= key);
    assert(t.skip(k + 1) =~= value);
    lemma_first_equals(bare);
}

fn text_from(v: &Vec<char>, from: usize, to: usize) -> (r: String)
    requires
        from <= to <= v@.len(),
    ensures
        r@ == v@.subrange(from as int, to as int),
{
    let mut r = String::new();
    let mut i = from;
    while i < to
        invariant
            from <= i <= to,
            to <= v@.len(),
            r@ == v@.subrange(from as int, i as int),
        decreases to - i,
    {
        crate::text::push_char(&mut r, v[i]);
        assert(v@.subrange(from as int, i + 1) =~= v@.subrange(from as int, i as int).push(
            v@[i as int],
        ));
        i = i + 1;
    }
    r
}

/// Read one filter.
pub fn parse_filter(text: &str) -> (r: Option<WitnessFilter>)
    ensures
        match r {
            Some(f) => parse_filter_text(text@) == Some(filter_view(f)),
            None => parse_filter_text(text@) is None,
        },
{
    let v = crate::text::chars_of(text);
    let mut k: usize = 0;
    while k < v.len() && v[k] != '='
        invariant
            k <= v@.len(),
            v@ == text@,
            forall|j: int| 0 <= j < k ==> v@[j] != '=',
        decreases v@.len() - k,
    {
        k = k + 1;
    }
    if k == v.len() {
        proof {
            lemma_first_equals(text@);
        }
        return None;
    }
    proof {
        lemma_first_equals_is(text@, k as int);
    }
    let key = text_from(&v, 0, k);
    let value = text_from(&v, k + 1, v.len());
    assert(v@.subrange(0, k as int) =~= text@.take(k as int));
    assert(v@.subrange(k + 1, v@.len() as int) =~= text@.skip(k + 1));
    if same_text(key.as_str(), "policy") {
        Some(WitnessFilter::Policy(value))
    } else if same_text(key.as_str(), "input") {
        Some(WitnessFilter::Input(value))
    } else if same_text(key.as_str(), "decision") {
        Some(WitnessFilter::Decision(value))
    } else {
        None
    }
}

/// Read the filters of a query; the first unusable one is reported.
pub fn parse_filters(filters: &Vec<String>) -> (r: Result<Vec<WitnessFilter>, String>)
    ensures
        match r {
            Ok(v) => parse_filters_text(crate::text::strings_view(filters@)) == Ok::<
                Seq<FilterView>,
                Seq<char>,
            >(filters_view(v@)),
            Err(m) => parse_filters_text(crate::text::strings_view(filters@)) == Err::<
                Seq<FilterView>,
                Seq<char>,
            >(m@),
        },
{
    let ghost all = crate::text::strings_view(filters@);
    let mut out: Vec<WitnessFilter> = Vec::new();
    let mut i: usize = 0;
    assert(all.take(0) =~= Seq::<Seq<char>>::empty());
    assert(filters_view(out@) =~= Seq::<FilterView>::empty());
    while i < filters.len()
        invariant
            i <= filters@.len(),
            all == crate::text::strings_view(filters@),
            parse_filters_text(all.take(i as int)) == Ok::<Seq<FilterView>, Seq<char>>(
                filters_view(out@),
            ),
        decreases filters@.len() - i,
    {
        assert(all.take(i + 1).drop_last() =~= all.take(i as int));
        assert(all.take(i + 1).last() == filters@[i as int]@);
        match parse_filter(filters[i].as_str()) {
            Some(f) => {
                let ghost before = out@;
                let ghost fv = filter_view(f);
                out.push(f);
                assert(out@ == before.push(f));
                assert(filters_view(out@) =~= filters_view(before).push(fv));
            },
            None => {
                let mut m = owned("assess: witness: invalid filter `");
                push_str(&mut m, filters[i].as_str());
                push_str(&mut m, "`; expected policy=<id>, input=<path> or decision=<band>");
                proof {
                    let rest = all.skip(i + 1);
                    lemma_parse_error_persists(all, i as int + 1);
                }
                return Err(m);
            },
        }
        i = i + 1;
    }
    assert(all.take(filters@.len() as int) =~= all);
    Ok(out)
}

proof fn lemma_parse_error_persists(s: Seq<Seq<char>>, n: int)
    requires
        0 <= n <= s.len(),
        parse_filters_text(s.take(n)) is Err,
    ensures
        parse_filters_text(s) == parse_filters_text(s.take(n)),
    decreases s.len() - n,
{
    if n < s.len() {
        assert(s.take(n + 1).drop_last() =~= s.take(n));
        lemma_parse_error_persists(s, n + 1);
    } else {
        assert(s.take(n) =~= s);
    }
}

/// A record meets a filter.
pub open spec fn meets(r: WitnessView, f: FilterView) -> bool {
    match f {
        FilterView::Policy(v) => r.policy_id == Some(v),
        FilterView::Input(v) => r.inputs.contains(v),
        FilterView::Decision(v) => r.decision_band == Some(v),
    }
}

pub open spec fn meets_all(r: WitnessView, fs: Seq<FilterView>) -> bool {
    forall|i: int| 0 <= i < fs.len() ==> meets(r, #[trigger] fs[i])
}

/// The records that meet every filter, in ledger order.
pub open spec fn query_view(records: Seq<WitnessView>, fs: Seq<FilterView>) -> Seq<WitnessView>
    decreases records.len(),
{
    if records.len() == 0 {
        Seq::empty()
    } else if meets_all(records.last(), fs) {
        query_view(records.drop_last(), fs).push(records.last())
    } else {
        query_view(records.drop_last(), fs)
    }
}

fn meets_filter(r: &WitnessRecord, f: &WitnessFilter) -> (b: bool)
    ensures
        b == meets(r@, filter_view(*f)),
{
    match f {
        WitnessFilter::Policy(v) => match &r.policy_id {
            Some(p) => same_text(p.as_str(), v.as_str()),
            None => false,
        },
        WitnessFilter::Decision(v) => match &r.decision_band {
            Some(d) => same_text(d.as_str(), v.as_str()),
            None => false,
        },
        WitnessFilter::Input(v) => {
            let ghost inputs = r@.inputs;
            let mut i: usize = 0;
            while i < r.inputs.len()
                invariant
                    i <= r.inputs@.len(),
                    inputs == r@.inputs,
                    inputs.len() == r.inputs@.len(),
                    filter_view(*f) == FilterView::Input(v@),
                    forall|j: int| 0 <= j < i ==> inputs[j] != v@,
                decreases r.inputs@.len() - i,
            {
                assert(inputs[i as int] == r.inputs@[i as int]@);
                if same_text(r.inputs[i].as_str(), v.as_str()) {
                    assert(inputs[i as int] == v@);
                    assert(inputs.contains(v@));
                    assert(filter_view(*f) == FilterView::Input(v@));
                    assert(r@.inputs.contains(v@));
                    return true;
                }
                i = i + 1;
            }
            false
        },
    }
}

fn meets_filters(r: &WitnessRecord, fs: &Vec<WitnessFilter>) -> (b: bool)
    ensures
        b == meets_all(r@, filters_view(fs@)),
{
    let mut i: usize = 0;
    while i < fs.len()
        invariant
            i <= fs@.len(),
            forall|j: int| 0 <= j < i ==> meets(r@, #[trigger] filters_view(fs@)[j]),
        decreases fs@.len() - i,
    {
        if !meets_filter(r, &fs[i]) {
            assert(!meets(r@, filters_view(fs@)[i as int]));
            return false;
        }
        i = i + 1;
    }
    true
}

/// The records that meet every filter, in ledger order.
pub fn query_records(records: &Vec<WitnessRecord>, fs: &Vec<WitnessFilter>) -> (r: Vec<
    WitnessRecord,
>)
    ensures
        records_view(r@) == query_view(records_view(records@), filters_view(fs@)),
{
    let ghost all = records_view(records@);
    let ghost fv = filters_view(fs@);
    let mut out: Vec<WitnessRecord> = Vec::new();
    let mut i: usize = 0;
    while i < records.len()
        invariant
            i <= records@.len(),
            all == records_view(records@),
            fv == filters_view(fs@),
            records_view(out@) == query_view(all.take(i as int), fv),
        decreases records@.len() - i,
    {
        assert(all.take(i + 1).drop_last() =~= all.take(i as int));
        if meets_filters(&records[i], fs) {
            out.push(records[i].copy());
            assert(records_view(out@) =~= query_view(all.take(i + 1), fv));
        }
        i = i + 1;
    }
    assert(all.take(records@.len() as int) =~= all);
    out
}

/// One record as a line: its time, band, policy, how many inputs it read
/// and how long it took; `-` where a value is missing.
pub open spec fn record_line(r: WitnessView) -> Seq<char> {
    (match r.ts {
        Some(t) => t,
        None => "-"@,
    }) + " "@ + (match r.decision_band {
        Some(b) => b,
        None => "-"@,
    }) + " policy="@ + (match r.policy_id {
        Some(p) => p,
        None => "-"@,
    }) + " inputs="@ + decimal_text(r.inputs.len()) + " duration_ms="@ + decimal_text(
        r.duration_ms as nat,
    ) + "\n"@
}

pub open spec fn record_lines(s: Seq<WitnessView>) -> Seq<char>
    decreases s.len(),
{
    if s.len() == 0 {
        Seq::empty()
    } else {
        record_lines(s.drop_last()) + record_line(s.last())
    }
}

fn push_opt(buf: &mut String, v: &Option<String>)
    ensures
        final(buf)@ == old(buf)@ + match *v {
            Some(t) => t@,
            None => "-"@,
        },
{
    match v {
        Some(t) => push_str(buf, t.as_str()),
        None => push_str(buf, "-"),
    }
}

/// Render one record as a line.
pub fn render_record(record: &WitnessRecord) -> (r: String)
    ensures
        r@ == record_line(record@),
{
    let mut r = String::new();
    push_opt(&mut r, &record.ts);
    push_str(&mut r, " ");
    push_opt(&mut r, &record.decision_band);
    push_str(&mut r, " policy=");
    push_opt(&mut r, &record.policy_id);
    push_str(&mut r, " inputs=");
    push_decimal(&mut r, record.inputs.len() as u64);
    push_str(&mut r, " duration_ms=");
    push_decimal(&mut r, record.duration_ms);
    push_str(&mut r, "\n");
    assert(r@ =~= record_line(record@));
    r
}

/// Render records one line each, in order.
pub fn render_records(records: &Vec<WitnessRecord>) -> (r: String)
    ensures
        r@ == record_lines(records_view(records@)),
{
    let ghost all = records_view(records@);
    let mut r = String::new();
    let mut i: usize = 0;
    while i < records.len()
        invariant
            i <= records@.len(),
            all == records_view(records@),
            r@ == record_lines(all.take(i as int)),
        decreases records@.len() - i,
    {
        assert(all.take(i + 1).drop_last() =~= all.take(i as int));
        let line = render_record(&records[i]);
        push_str(&mut r, line.as_str());
        i = i + 1;
    }
    assert(all.take(records@.len() as int) =~= all);
    r
}

/// What a filter asks of a record, stated field by field: `policy=<id>`
/// that the run used that policy, `input=<path>` that the path is one of
/// the run's inputs, `decision=<band>` that the run decided that band.
pub proof fn law_filters_ask_what_they_name(r: WitnessRecord, v: String)
    ensures
        meets(r@, FilterView::Policy(v@)) <==> (r.policy_id matches Some(p) && p@ == v@),
        meets(r@, FilterView::Input(v@)) <==> exists|j: int|
            0 <= j < r.inputs@.len() && (#[trigger] r.inputs@[j])@ == v@,
        meets(r@, FilterView::Decision(v@)) <==> (r.decision_band matches Some(d) && d@ == v@),
{
    if meets(r@, FilterView::Input(v@)) {
        let j = choose|j: int| 0 <= j < r@.inputs.len() && r@.inputs[j] == v@;
        assert(r.inputs@[j]@ == v@);
    }
    if exists|j: int| 0 <= j < r.inputs@.len() && (#[trigger] r.inputs@[j])@ == v@ {
        let j = choose|j: int| 0 <= j < r.inputs@.len() && (#[trigger] r.inputs@[j])@ == v@;
        assert(r@.inputs[j] == v@);
    }
}

/// A query answers exactly the ledger's records that meet every filter: a
/// record is returned if and only if it is in the ledger and, for each
/// filter, has the policy, has the input among its inputs, or has the
/// decision the filter names.
pub proof fn law_query_returns_every_matching_record(
    records: Seq<WitnessView>,
    fs: Seq<FilterView>,
    r: WitnessView,
)
    ensures
        query_view(records, fs).contains(r) <==> records.contains(r) && forall|i: int|
            0 <= i < fs.len() ==> match #[trigger] fs[i] {
                FilterView::Policy(v) => r.policy_id == Some(v),
                FilterView::Input(v) => exists|j: int| 0 <= j < r.inputs.len() && r.inputs[j] == v,
                FilterView::Decision(v) => r.decision_band == Some(v),
            },
{
    assert(meets_all(r, fs) <==> forall|i: int|
        0 <= i < fs.len() ==> match #[trigger] fs[i] {
            FilterView::Policy(v) => r.policy_id == Some(v),
            FilterView::Input(v) => exists|j: int| 0 <= j < r.inputs.len() && r.inputs[j] == v,
            FilterView::Decision(v) => r.decision_band == Some(v),
        }) by {
        assert forall|i: int| 0 <= i < fs.len() implies (meets(r, #[trigger] fs[i]) <==> match fs[i] {
            FilterView::Policy(v) => r.policy_id == Some(v),
            FilterView::Input(v) => exists|j: int| 0 <= j < r.inputs.len() && r.inputs[j] == v,
            FilterView::Decision(v) => r.decision_band == Some(v),
        }) by {}
    }
    lemma_query_contains(records, fs, r);
}

proof fn lemma_query_contains(records: Seq<WitnessView>, fs: Seq<FilterView>, r: WitnessView)
    ensures
        query_view(records, fs).contains(r) <==> records.contains(r) && meets_all(r, fs),
    decreases records.len(),
{
    if records.len() > 0 {
        let prev = records.drop_last();
        let last = records.last();
        lemma_query_contains(prev, fs, r);
        let q = query_view(prev, fs);
        if meets_all(last, fs) {
            assert(query_view(records, fs) == q.push(last));
            if q.push(last).contains(r) && !q.contains(r) {
                let k = choose|k: int| 0 <= k < q.push(last).len() && q.push(last)[k] == r;
                assert(k == q.len());
                assert(records[records.len() - 1] == r);
            }
            if q.contains(r) {
                let k = choose|k: int| 0 <= k < q.len() && q[k] == r;
                assert(q.push(last)[k] == r);
            }
            if r == last {
                assert(q.push(last)[q.len() as int] == r);
            }
        }
        if records.contains(r) && !prev.contains(r) {
            let k = choose|k: int| 0 <= k < records.len() && records[k] == r;
            if k < records.len() - 1 {
                assert(prev[k] == r);
            }
        }
        if prev.contains(r) {
            let k = choose|k: int| 0 <= k < prev.len() && prev[k] == r;
            assert(records[k] == r);
        }
    }
}

/// Queries keep ledger order and split over the ledger: querying two runs
/// of records one after the other answers the first run's matches followed
/// by the second's.
pub proof fn law_query_splits_over_ledger(a: Seq<WitnessView>, b: Seq<WitnessView>, fs: Seq<FilterView>)
    ensures
        query_view(a + b, fs) == query_view(a, fs) + query_view(b, fs),
    decreases b.len(),
{
    if b.len() == 0 {
        assert(a + b =~= a);
        assert(query_view(a, fs) + query_view(b, fs) =~= query_view(a, fs));
    } else {
        law_query_splits_over_ledger(a, b.drop_last(), fs);
        assert((a + b).drop_last() =~= a + b.drop_last());
        assert((a + b).last() == b.last());
        if meets_all(b.last(), fs) {
            assert(query_view(a, fs) + query_view(b.drop_last(), fs).push(b.last()) =~= (query_view(
                a,
                fs,
            ) + query_view(b.drop_last(), fs)).push(b.last()));
        }
    }
}

/// A query never returns more records than the ledger holds, and each
/// returned record meets every filter.
pub proof fn law_query_results_meet_filters(records: Seq<WitnessView>, fs: Seq<FilterView>)
    ensures
        query_view(records, fs).len() <= records.len(),
        forall|i: int|
            0 <= i < query_view(records, fs).len() ==> meets_all(
                #[trigger] query_view(records, fs)[i],
                fs,
            ),
    decreases records.len(),
{
    if records.len() > 0 {
        law_query_results_meet_filters(records.drop_last(), fs);
    }
}

} // verus!
