//! Construction of GPU bind-group descriptors: ordered collections of
//! resource bindings (buffers, textures, samplers) attached to a pipeline.
//!
//! A [`BindGroupBuilder`] accumulates slot-indexed resource bindings and a
//! running content hash; [`BindGroupBuilder::finish`] sorts the entries by
//! slot index and produces an immutable [`BindGroup`] whose identity is the
//! accumulated hash. The hash covers each binding's kind, handle and byte
//! range, and deliberately excludes both the slot index and any
//! dynamic-offset index.
//!
//! The sorted entry sequence does not depend on the order bindings were
//! added (see [`lemma_sorted_entries_canonical`]), but the identity hash is
//! fed in add order and therefore does: callers that want equal identities
//! for equal binding sets must add bindings in the same order.

mod binding;
mod builder;
mod hashing;
mod laws;
mod sorting;

pub use binding::{
    binding_words, dynamic_index_of, entries_words, strip_dynamic_index, BindGroupId, BufferId,
    BufferRange, IndexedBindGroupEntry, RenderResourceBinding, SamplerId, TextureId,
};
pub use builder::{dynamic_indices, BindGroup, BindGroupBuilder};
pub use hashing::{ahash_of, hasher_words};
pub use laws::{
    lemma_finish_deterministic, lemma_identity_ignores_dynamic_indices,
    lemma_sorted_entries_canonical,
};
pub use sorting::{
    distinct_slot_indices, lemma_sort_by_index_distinct, lemma_sort_by_index_multiset,
    lemma_sort_by_index_sorted, lemma_sorted_distinct_unique, sort_by_index, sorted_by_index,
    sorted_insert,
};
