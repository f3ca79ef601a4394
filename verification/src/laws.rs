use vstd::prelude::*;
use crate::binding::{
    binding_words, entries_words, lemma_binding_words_strip, strip_dynamic_index,
    IndexedBindGroupEntry,
};
use crate::builder::BindGroup;
use crate::hashing::ahash_of;
use crate::sorting::{
    distinct_slot_indices, lemma_sort_by_index_distinct, lemma_sort_by_index_multiset,
    lemma_sort_by_index_sorted, lemma_sorted_distinct_unique, sort_by_index,
};

verus! {

/// The shape of a finished bind group does not depend on insertion order:
/// two add-order sequences holding the same entries (as a multiset, in any
/// order), with slot indices unique within a build, sort to the same entry
/// sequence.
pub proof fn lemma_sorted_entries_canonical(
    s1: Seq<IndexedBindGroupEntry>,
    s2: Seq<IndexedBindGroupEntry>,
)
    requires
        s1.to_multiset() == s2.to_multiset(),
        distinct_slot_indices(s1),
    ensures
        sort_by_index(s1) == sort_by_index(s2),
{
    lemma_sort_by_index_sorted(s1);
    lemma_sort_by_index_sorted(s2);
    lemma_sort_by_index_multiset(s1);
    lemma_sort_by_index_multiset(s2);
    lemma_sort_by_index_distinct(s1);
    lemma_sorted_distinct_unique(sort_by_index(s1), sort_by_index(s2));
}

/// Finishing is a function of the add-order entry sequence alone: two bind
/// groups built from the same sequence of added entries agree on identity,
/// sorted entries, and dynamic-offset indices.
pub proof fn lemma_finish_deterministic(g1: BindGroup, g2: BindGroup, added: Seq<
    IndexedBindGroupEntry,
>)
    requires
        g1.is_built_from(added),
        g2.is_built_from(added),
    ensures
        g1.id == g2.id,
        g1.indexed_bindings@ == g2.indexed_bindings@,
        g1.dynamic_uniform_indices is Some <==> g2.dynamic_uniform_indices is Some,
        (g1.dynamic_uniform_indices is Some && g2.dynamic_uniform_indices is Some)
            ==> g1.dynamic_uniform_indices->Some_0@ == g2.dynamic_uniform_indices->Some_0@,
{
}

/// The identity hash ignores dynamic-offset indices: two add-order entry
/// sequences whose bindings agree once each dynamic-offset index is
/// stripped feed the hasher the same words, so they hash to the same
/// identity.
pub proof fn lemma_identity_ignores_dynamic_indices(
    s1: Seq<IndexedBindGroupEntry>,
    s2: Seq<IndexedBindGroupEntry>,
)
    requires
        s1.len() == s2.len(),
        forall|i: int|
            0 <= i < s1.len() ==> strip_dynamic_index(s1[i].entry) == strip_dynamic_index(
                s2[i].entry,
            ),
    ensures
        entries_words(s1) == entries_words(s2),
        ahash_of(entries_words(s1)) == ahash_of(entries_words(s2)),
    decreases s1.len(),
{
    if s1.len() == 0 {
        assert(entries_words(s1) =~= entries_words(s2));
    } else {
        assert(forall|i: int|
            0 <= i < s1.drop_last().len() ==> strip_dynamic_index(s1.drop_last()[i].entry)
                == strip_dynamic_index(s2.drop_last()[i].entry));
        lemma_identity_ignores_dynamic_indices(s1.drop_last(), s2.drop_last());
        lemma_binding_words_strip(s1.last().entry);
        lemma_binding_words_strip(s2.last().entry);
        assert(strip_dynamic_index(s1[s1.len() - 1].entry) == strip_dynamic_index(
            s2[s2.len() - 1].entry,
        ));
        assert(binding_words(s1.last().entry) == binding_words(s2.last().entry));
    }
}

} // verus!
