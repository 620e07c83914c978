use vstd::prelude::*;

use super::record::{WitnessRecord, WitnessView};
use crate::paths::{EnvSnapshot, default_witness_of, default_witness_path};
use crate::text::same_text;

verus! {

/// The records of `assess` runs among the readable lines of a ledger, in
/// ledger order. A line the caller could not read or decode is `None` and
/// is skipped, as are records written by other tools.
pub open spec fn assess_records_of(lines: Seq<Option<WitnessView>>) -> Seq<WitnessView>
    decreases lines.len(),
{
    if lines.len() == 0 {
        Seq::empty()
    } else {
        let rest = assess_records_of(lines.drop_last());
        match lines.last() {
            Some(r) => if r.tool == "assess"@ {
                rest.push(r)
            } else {
                rest
            },
            None => rest,
        }
    }
}

pub open spec fn lines_view(lines: Seq<Option<WitnessRecord>>) -> Seq<Option<WitnessView>> {
    lines.map_values(
        |l: Option<WitnessRecord>|
            match l {
                Some(r) => Some(r@),
                None => None,
            },
    )
}

pub open spec fn records_view(records: Seq<WitnessRecord>) -> Seq<WitnessView> {
    records.map_values(|r: WitnessRecord| r@)
}

/// Keep the `assess` records of a ledger's decoded lines, in order.
pub fn select_assess_records(lines: &Vec<Option<WitnessRecord>>) -> (r: Vec<WitnessRecord>)
    ensures
        records_view(r@) == assess_records_of(lines_view(lines@)),
{
    let ghost all = lines_view(lines@);
    let mut kept: Vec<WitnessRecord> = Vec::new();
    let mut i: usize = 0;
    while i < lines.len()
        invariant
            i <= lines@.len(),
            all == lines_view(lines@),
            records_view(kept@) == assess_records_of(all.take(i as int)),
        decreases lines@.len() - i,
    {
        assert(all.take(i + 1).drop_last() =~= all.take(i as int));
        match &lines[i] {
            Some(record) => {
                if same_text(record.tool.as_str(), "assess") {
                    kept.push(record.copy());
                    assert(records_view(kept@) =~= assess_records_of(all.take(i + 1)));
                }
            },
            None => {},
        }
        i = i + 1;
    }
    assert(all.take(lines@.len() as int) =~= all);
    kept
}

/// Every selected record was written by `assess`, and no more records come
/// out than lines went in.
pub proof fn law_selected_records_are_assess(lines: Seq<Option<WitnessView>>)
    ensures
        forall|i: int|
            0 <= i < assess_records_of(lines).len() ==> (#[trigger] assess_records_of(lines)[i]).tool
                == "assess"@,
        assess_records_of(lines).len() <= lines.len(),
    decreases lines.len(),
{
    if lines.len() > 0 {
        law_selected_records_are_assess(lines.drop_last());
    }
}

/// Selection keeps ledger order and splits over the ledger: the `assess`
/// records of two stretches of lines, one after the other, are those of
/// the first followed by those of the second; a single line contributes
/// its record exactly when it decoded and was written by `assess`.
pub proof fn law_selection_keeps_every_assess_record(
    a: Seq<Option<WitnessView>>,
    b: Seq<Option<WitnessView>>,
    line: Option<WitnessView>,
)
    ensures
        assess_records_of(a + b) == assess_records_of(a) + assess_records_of(b),
        assess_records_of(seq![line]) == (match line {
            Some(w) => if w.tool == "assess"@ {
                seq![w]
            } else {
                Seq::empty()
            },
            None => Seq::empty(),
        }),
    decreases b.len(),
{
    assert(seq![line].drop_last() =~= Seq::<Option<WitnessView>>::empty());
    assert(assess_records_of(Seq::<Option<WitnessView>>::empty()) =~= Seq::<WitnessView>::empty());
    assert(seq![line].last() == line);
    if line is Some {
        assert(Seq::<WitnessView>::empty().push(line->Some_0) =~= seq![line->Some_0]);
    }
    if b.len() == 0 {
        assert(a + b =~= a);
        assert(assess_records_of(a) + assess_records_of(b) =~= assess_records_of(a));
    } else {
        law_selection_keeps_every_assess_record(a, b.drop_last(), line);
        assert((a + b).drop_last() =~= a + b.drop_last());
        assert((a + b).last() == b.last());
        let ra = assess_records_of(a);
        let rb = assess_records_of(b.drop_last());
        match b.last() {
            Some(r) => {
                if r.tool == "assess"@ {
                    assert(ra + rb.push(r) =~= (ra + rb).push(r));
                }
            },
            None => {},
        }
    }
}

/// The ledger this process reads and appends to.
pub fn witness_ledger_path(env: &EnvSnapshot) -> (r: String)
    ensures
        r@ == default_witness_of(*env),
{
    default_witness_path(env)
}

} // verus!
