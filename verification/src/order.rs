//! Ordering of artifact entries by (rank, tool, artifact) and a stable
//! insertion sort on that key.
use vstd::prelude::*;
use vstd::multiset::Multiset;

use crate::text::{
    lemma_text_lt_asymmetric, lemma_text_lt_irreflexive, lemma_text_lt_total,
    lemma_text_lt_transitive, str_less, text_lt,
};

verus! {

broadcast use vstd::seq_lib::group_to_multiset_ensures;

/// The sort key of an entry: a rank, then the tool name, then the artifact
/// name.
pub type EntryKey = (int, Seq<char>, Seq<char>);

/// Strict lexicographic order on entry keys.
pub open spec fn key_lt(a: EntryKey, b: EntryKey) -> bool {
    ||| a.0 < b.0
    ||| (a.0 == b.0 && text_lt(a.1, b.1))
    ||| (a.0 == b.0 && a.1 == b.1 && text_lt(a.2, b.2))
}

pub open spec fn key_le(a: EntryKey, b: EntryKey) -> bool {
    a == b || key_lt(a, b)
}

pub proof fn lemma_key_lt_irreflexive(a: EntryKey)
    ensures
        !key_lt(a, a),
{
    lemma_text_lt_irreflexive(a.1);
    lemma_text_lt_irreflexive(a.2);
}

pub proof fn lemma_key_lt_transitive(a: EntryKey, b: EntryKey, c: EntryKey)
    requires
        key_lt(a, b),
        key_lt(b, c),
    ensures
        key_lt(a, c),
{
    if a.0 == b.0 && b.0 == c.0 {
        if text_lt(a.1, b.1) && text_lt(b.1, c.1) {
            lemma_text_lt_transitive(a.1, b.1, c.1);
        }
        if a.1 == b.1 && b.1 == c.1 {
            lemma_text_lt_irreflexive(a.1);
            lemma_text_lt_transitive(a.2, b.2, c.2);
        }
    }
}

pub proof fn lemma_key_total(a: EntryKey, b: EntryKey)
    ensures
        a == b || key_lt(a, b) || key_lt(b, a),
{
    lemma_text_lt_total(a.1, b.1);
    lemma_text_lt_total(a.2, b.2);
}

/// An item to be ordered: its key parts and what it carries.
pub struct Keyed<P> {
    pub rank: usize,
    pub tool: String,
    pub artifact: String,
    pub payload: P,
}

impl<P> Keyed<P> {
    pub open spec fn key(&self) -> EntryKey {
        (self.rank as int, self.tool@, self.artifact@)
    }
}

/// Every earlier item's key is at most every later item's key.
pub open spec fn keys_sorted<P>(s: Seq<Keyed<P>>) -> bool {
    forall|i: int, j: int| 0 <= i < j < s.len() ==> key_le(#[trigger] s[i].key(), #[trigger] s[j].key())
}

fn keyed_less<P>(a: &Keyed<P>, b: &Keyed<P>) -> (r: bool)
    ensures
        r == key_lt(a.key(), b.key()),
{
    if a.rank < b.rank {
        true
    } else if a.rank > b.rank {
        false
    } else if str_less(a.tool.as_str(), b.tool.as_str()) {
        true
    } else if str_less(b.tool.as_str(), a.tool.as_str()) {
        proof {
            lemma_text_lt_asymmetric(b.tool@, a.tool@);
        }
        false
    } else {
        proof {
            lemma_text_lt_total(a.tool@, b.tool@);
        }
        str_less(a.artifact.as_str(), b.artifact.as_str())
    }
}

/// Sorts items by key, keeping items with equal keys in their input order.
pub fn sort_by_key<P>(items: Vec<Keyed<P>>) -> (r: Vec<Keyed<P>>)
    ensures
        keys_sorted(r@),
        r@.to_multiset() == items@.to_multiset(),
{
    let mut sorted: Vec<Keyed<P>> = Vec::new();
    let mut rest = items;
    let ghost all = rest@;
    // Take items from the back of `rest`; the multiset of both together stays
    // that of the input.
    while rest.len() > 0
        invariant
            keys_sorted(sorted@),
            sorted@.to_multiset().add(rest@.to_multiset()) == all.to_multiset(),
        decreases rest.len(),
    {
        let ghost before = rest@;
        let item = rest.pop().unwrap();
        proof {
            assert(before =~= rest@.push(item));
            vstd::seq_lib::to_multiset_build(rest@, item);
        }
        let mut pos: usize = 0;
        while pos < sorted.len() && !keyed_less(&item, &sorted[pos])
            invariant
                pos <= sorted.len(),
                forall|j: int| 0 <= j < pos ==> !key_lt(item.key(), #[trigger] sorted@[j].key()),
            decreases sorted.len() - pos,
        {
            pos = pos + 1;
        }
        let ghost old_sorted = sorted@;
        proof {
            assert forall|j: int| 0 <= j < pos implies key_le(#[trigger] old_sorted[j].key(), item.key()) by {
                lemma_key_total(old_sorted[j].key(), item.key());
            }
            assert forall|j: int| pos <= j < old_sorted.len() implies key_lt(item.key(), #[trigger] old_sorted[j].key()) by {
                if j > pos {
                    assert(key_le(old_sorted[pos as int].key(), old_sorted[j].key()));
                    if old_sorted[pos as int].key() != old_sorted[j].key() {
                        lemma_key_lt_transitive(item.key(), old_sorted[pos as int].key(), old_sorted[j].key());
                    }
                }
            }
        }
        sorted.insert(pos, item);
        proof {
            vstd::seq_lib::to_multiset_insert(old_sorted, pos as int, item);
            assert(sorted@ == old_sorted.insert(pos as int, item));
            assert forall|i: int, j: int| 0 <= i < j < sorted@.len() implies key_le(#[trigger] sorted@[i].key(), #[trigger] sorted@[j].key()) by {
                if j < pos {
                    assert(sorted@[i] == old_sorted[i]);
                    assert(sorted@[j] == old_sorted[j]);
                } else if j == pos {
                    assert(sorted@[i] == old_sorted[i]);
                } else if i == pos {
                    assert(sorted@[j] == old_sorted[j - 1]);
                } else if i < pos {
                    assert(sorted@[i] == old_sorted[i]);
                    assert(sorted@[j] == old_sorted[j - 1]);
                    assert(key_le(old_sorted[i].key(), item.key()));
                    assert(key_lt(item.key(), old_sorted[j - 1].key()));
                    if old_sorted[i].key() != item.key() {
                        lemma_key_lt_transitive(old_sorted[i].key(), item.key(), old_sorted[j - 1].key());
                    }
                } else {
                    assert(sorted@[i] == old_sorted[i - 1]);
                    assert(sorted@[j] == old_sorted[j - 1]);
                }
            }
            assert(sorted@.to_multiset().add(rest@.to_multiset()) =~= all.to_multiset());
        }
    }
    proof {
        assert(rest@.to_multiset() =~= Multiset::empty());
        assert(sorted@.to_multiset().add(Multiset::empty()) =~= sorted@.to_multiset());
    }
    sorted
}

} // verus!
