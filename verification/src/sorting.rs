use vstd::prelude::*;
use crate::binding::IndexedBindGroupEntry;

verus! {

/// Where a stable insertion by slot index places `e` in `s`: just after the
/// last element whose index is at most `e.index`.
pub open spec fn insert_position(s: Seq<IndexedBindGroupEntry>, e: IndexedBindGroupEntry) -> int
    decreases s.len(),
{
    if s.len() == 0 {
        0
    } else if s.last().index <= e.index {
        s.len() as int
    } else {
        insert_position(s.drop_last(), e)
    }
}

/// Stable insertion of `e` into `s` by slot index.
pub open spec fn sorted_insert(s: Seq<IndexedBindGroupEntry>, e: IndexedBindGroupEntry) -> Seq<
    IndexedBindGroupEntry,
> {
    s.insert(insert_position(s, e), e)
}

/// Stable insertion sort of the entries by slot index: the canonical order
/// of a finished bind group.
pub open spec fn sort_by_index(s: Seq<IndexedBindGroupEntry>) -> Seq<IndexedBindGroupEntry>
    decreases s.len(),
{
    if s.len() == 0 {
        Seq::empty()
    } else {
        sorted_insert(sort_by_index(s.drop_last()), s.last())
    }
}

/// The entries appear in ascending slot-index order.
pub open spec fn sorted_by_index(s: Seq<IndexedBindGroupEntry>) -> bool {
    forall|i: int, j: int| 0 <= i < j < s.len() ==> s[i].index <= s[j].index
}

/// No two entries occupy the same slot index.
pub open spec fn distinct_slot_indices(s: Seq<IndexedBindGroupEntry>) -> bool {
    forall|i: int, j: int| 0 <= i < j < s.len() ==> s[i].index != s[j].index
}

/// The insertion position is within bounds, everything at or after it has a
/// strictly larger slot index than `e`, and anything just before it has an
/// index at most `e.index`.
pub proof fn lemma_insert_position_facts(s: Seq<IndexedBindGroupEntry>, e: IndexedBindGroupEntry)
    ensures
        0 <= insert_position(s, e) <= s.len(),
        forall|j: int| insert_position(s, e) <= j < s.len() ==> s[j].index > e.index,
        insert_position(s, e) > 0 ==> s[insert_position(s, e) - 1].index <= e.index,
    decreases s.len(),
{
    if s.len() == 0 {
    } else if s.last().index <= e.index {
    } else {
        lemma_insert_position_facts(s.drop_last(), e);
        assert forall|j: int| insert_position(s, e) <= j < s.len() implies s[j].index
            > e.index by {
            if j < s.len() - 1 {
                assert(s[j] == s.drop_last()[j]);
            } else {
                assert(s[j] == s.last());
            }
        }
        if insert_position(s, e) > 0 {
            assert(s[insert_position(s, e) - 1] == s.drop_last()[insert_position(s, e) - 1]);
        }
    }
}

/// Inserting into a sequence sorted by slot index keeps it sorted.
pub proof fn lemma_sorted_insert_sorted(s: Seq<IndexedBindGroupEntry>, e: IndexedBindGroupEntry)
    requires
        sorted_by_index(s),
    ensures
        sorted_by_index(sorted_insert(s, e)),
{
    lemma_insert_position_facts(s, e);
    let p = insert_position(s, e);
    let t = sorted_insert(s, e);
    s.insert_ensures(p, e);
    assert forall|i: int, j: int| 0 <= i < j < t.len() implies t[i].index <= t[j].index by {
        if i < p && j < p {
        } else if i < p && j == p {
            if p > 0 {
                assert(t[i] == s[i]);
                assert(s[i].index <= s[p - 1].index);
            }
        } else if i == p && j > p {
            assert(t[j] == s[j - 1]);
        } else if i < p && j > p {
            assert(t[i] == s[i]);
            assert(t[j] == s[j - 1]);
        } else if i > p && j > p {
            assert(t[i] == s[i - 1]);
            assert(t[j] == s[j - 1]);
        }
    }
}

/// Sorting by slot index yields a sequence in ascending slot-index order.
pub proof fn lemma_sort_by_index_sorted(s: Seq<IndexedBindGroupEntry>)
    ensures
        sorted_by_index(sort_by_index(s)),
    decreases s.len(),
{
    if s.len() == 0 {
    } else {
        lemma_sort_by_index_sorted(s.drop_last());
        lemma_sorted_insert_sorted(sort_by_index(s.drop_last()), s.last());
    }
}

/// Sorting by slot index permutes the entries: the sorted sequence holds
/// exactly the entries that were added, with multiplicity.
pub proof fn lemma_sort_by_index_multiset(s: Seq<IndexedBindGroupEntry>)
    ensures
        sort_by_index(s).to_multiset() == s.to_multiset(),
    decreases s.len(),
{
    broadcast use vstd::seq_lib::group_to_multiset_ensures;
    broadcast use vstd::seq_lib::to_multiset_insert;

    if s.len() == 0 {
    } else {
        lemma_sort_by_index_multiset(s.drop_last());
        let rest = sort_by_index(s.drop_last());
        lemma_insert_position_facts(rest, s.last());
        assert(sort_by_index(s).to_multiset() == rest.to_multiset().insert(s.last()));
        assert(s =~= s.drop_last().push(s.last()));
        assert(s.to_multiset() =~= s.drop_last().to_multiset().insert(s.last()));
    }
}

/// Sorting keeps the slot indices distinct if they were distinct when added.
pub proof fn lemma_sort_by_index_distinct(s: Seq<IndexedBindGroupEntry>)
    requires
        distinct_slot_indices(s),
    ensures
        distinct_slot_indices(sort_by_index(s)),
{
    broadcast use vstd::seq_lib::group_to_multiset_ensures;

    lemma_sort_by_index_multiset(s);
    let t = sort_by_index(s);
    assert(s.no_duplicates());
    s.lemma_multiset_has_no_duplicates();
    t.lemma_multiset_has_no_duplicates_conv();
    assert forall|i: int, j: int| 0 <= i < j < t.len() implies t[i].index != t[j].index by {
        if t[i].index == t[j].index {
            assert(t[i] != t[j]);
            assert(t.contains(t[i]));
            assert(t.contains(t[j]));
            assert(t.to_multiset().count(t[i]) > 0);
            assert(t.to_multiset().count(t[j]) > 0);
            assert(s.to_multiset().count(t[i]) > 0);
            assert(s.to_multiset().count(t[j]) > 0);
            assert(s.contains(t[i]));
            assert(s.contains(t[j]));
            let a = choose|a: int| 0 <= a < s.len() && s[a] == t[i];
            let b = choose|b: int| 0 <= b < s.len() && s[b] == t[j];
            assert(a != b);
            assert(s[a].index != s[b].index);
        }
    }
}

/// Two sequences sorted by slot index that hold the same entries, the slot
/// indices being distinct, are the same sequence.
pub proof fn lemma_sorted_distinct_unique(
    x: Seq<IndexedBindGroupEntry>,
    y: Seq<IndexedBindGroupEntry>,
)
    requires
        sorted_by_index(x),
        sorted_by_index(y),
        distinct_slot_indices(x),
        x.to_multiset() == y.to_multiset(),
    ensures
        x == y,
    decreases x.len(),
{
    broadcast use vstd::seq_lib::group_to_multiset_ensures;

    assert(x.len() == x.to_multiset().len());
    assert(y.len() == y.to_multiset().len());
    if x.len() == 0 {
        assert(y.len() == 0);
        assert(x =~= y);
    } else {
        assert(y.len() == x.len());
        assert(x.contains(x[0]));
        assert(y.contains(y[0]));
        assert(x.to_multiset().count(x[0]) > 0);
        assert(y.to_multiset().count(y[0]) > 0);
        assert(x.to_multiset().count(y[0]) > 0);
        assert(y.to_multiset().count(x[0]) > 0);
        assert(x.contains(y[0]));
        assert(y.contains(x[0]));
        let i = choose|i: int| 0 <= i < x.len() && x[i] == y[0];
        let j = choose|j: int| 0 <= j < y.len() && y[j] == x[0];
        assert(x[0].index <= x[i].index);
        assert(y[0].index <= y[j].index);
        assert(x[0].index == y[0].index);
        if i != 0 {
            assert(x[0].index != x[i].index);
        }
        assert(x[0] == y[0]);
        assert(x.drop_first() =~= x.remove(0));
        assert(y.drop_first() =~= y.remove(0));
        assert(x.drop_first().to_multiset() =~= x.to_multiset().remove(x[0]));
        assert(y.drop_first().to_multiset() =~= y.to_multiset().remove(y[0]));
        lemma_sorted_distinct_unique(x.drop_first(), y.drop_first());
        assert(x =~= Seq::<IndexedBindGroupEntry>::empty().push(x[0]) + x.drop_first());
        assert(y =~= Seq::<IndexedBindGroupEntry>::empty().push(y[0]) + y.drop_first());
        assert(x =~= y);
    }
}

/// Inserts `e` into `out`, which is sorted by slot index, keeping the order
/// and matching the specification-level stable insertion.
pub(crate) fn sorted_insert_exec(out: &mut Vec<IndexedBindGroupEntry>, e: IndexedBindGroupEntry)
    ensures
        final(out)@ == sorted_insert(old(out)@, e),
{
    let ghost s = out@;
    let mut p: usize = out.len();
    while p > 0 && out[p - 1].index > e.index
        invariant
            p <= out.len(),
            out@ == s,
            forall|j: int| p <= j < s.len() ==> s[j].index > e.index,
        decreases p,
    {
        p = p - 1;
    }
    proof {
        lemma_insert_position_facts(s, e);
        let pos = insert_position(s, e);
        if p < pos {
            assert(s[pos - 1].index > e.index);
        }
        if p > pos {
            assert(s[p - 1].index > e.index);
        }
        assert(p == pos);
    }
    out.insert(p, e);
}

/// Sorts the accumulated entries by slot index, returning exactly the
/// specification-level insertion sort of the input.
pub(crate) fn sort_entries(v: Vec<IndexedBindGroupEntry>) -> (out: Vec<IndexedBindGroupEntry>)
    ensures
        out@ == sort_by_index(v@),
{
    let mut out: Vec<IndexedBindGroupEntry> = Vec::new();
    proof {
        assert(v@.take(0) =~= Seq::<IndexedBindGroupEntry>::empty());
    }
    let mut i: usize = 0;
    while i < v.len()
        invariant
            i <= v.len(),
            out@ == sort_by_index(v@.take(i as int)),
        decreases v.len() - i,
    {
        let e = v[i];
        sorted_insert_exec(&mut out, e);
        proof {
            assert(v@.take(i + 1).drop_last() =~= v@.take(i as int));
            assert(v@.take(i + 1).last() == v@[i as int]);
        }
        i = i + 1;
    }
    proof {
        assert(v@.take(v@.len() as int) =~= v@);
    }
    out
}

} // verus!
