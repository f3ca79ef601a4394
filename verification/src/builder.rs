use vstd::prelude::*;
use crate::binding::{
    binding_words, dynamic_index_of, entries_words, BindGroupId, BufferId, BufferRange,
    IndexedBindGroupEntry, RenderResourceBinding, SamplerId, TextureId, BUFFER_TAG, SAMPLER_TAG,
    TEXTURE_TAG,
};
use crate::hashing::{
    ahash_of, hasher_finish, hasher_words, hasher_write_u64, new_hasher,
};
use crate::sorting::{lemma_sort_by_index_sorted, sort_by_index, sort_entries, sorted_by_index};

verus! {

/// The dynamic-offset indices recorded while adding `s`, in add order: one
/// for each buffer binding that carries a dynamic-offset index.
pub open spec fn dynamic_indices(s: Seq<IndexedBindGroupEntry>) -> Seq<u32>
    decreases s.len(),
{
    if s.len() == 0 {
        Seq::empty()
    } else {
        dynamic_indices(s.drop_last()) + match dynamic_index_of(s.last().entry) {
            Some(d) => seq![d],
            None => Seq::empty(),
        }
    }
}

/// An immutable bind group: a content-derived identity, the entries sorted
/// by slot index, and, if any buffer binding carried a dynamic-offset index,
/// those indices in the order the bindings were added.
#[derive(Clone, Eq, PartialEq, Debug)]
pub struct BindGroup {
    pub id: BindGroupId,
    pub indexed_bindings: Vec<IndexedBindGroupEntry>,
    pub dynamic_uniform_indices: Option<Vec<u32>>,
}

impl BindGroup {
    /// How a finished bind group relates to the add-order entry sequence of
    /// the builder that produced it.
    pub open spec fn is_built_from(self, added: Seq<IndexedBindGroupEntry>) -> bool {
        &&& self.id.0 == ahash_of(entries_words(added))
        &&& self.indexed_bindings@ == sort_by_index(added)
        &&& (self.dynamic_uniform_indices is Some <==> dynamic_indices(added).len() != 0)
        &&& (self.dynamic_uniform_indices matches Some(v) ==> v@ == dynamic_indices(added))
    }

    /// Starts a builder with no bindings.
    pub fn build() -> (builder: BindGroupBuilder)
        ensures
            builder.wf(),
            builder@ == Seq::<IndexedBindGroupEntry>::empty(),
    {
        BindGroupBuilder::default()
    }
}

/// Accumulates slot-indexed resource bindings, the dynamic-offset indices of
/// dynamic buffer bindings, and a running identity hash.
pub struct BindGroupBuilder {
    pub indexed_bindings: Vec<IndexedBindGroupEntry>,
    pub dynamic_uniform_indices: Vec<u32>,
    pub hasher: bevy_utils::AHasher,
}

impl Default for BindGroupBuilder {
    /// An empty builder: no entries, no dynamic-offset indices, a fresh
    /// fixed-key hasher.
    fn default() -> (builder: Self)
        ensures
            builder.wf(),
            builder@ == Seq::<IndexedBindGroupEntry>::empty(),
    {
        BindGroupBuilder {
            indexed_bindings: Vec::new(),
            dynamic_uniform_indices: Vec::new(),
            hasher: new_hasher(),
        }
    }
}

impl View for BindGroupBuilder {
    type V = Seq<IndexedBindGroupEntry>;

    /// The entries added so far, in add order.
    open spec fn view(&self) -> Seq<IndexedBindGroupEntry> {
        self.indexed_bindings@
    }
}

impl BindGroupBuilder {
    /// The hasher has been fed exactly the words of the entries added so
    /// far, and the recorded dynamic-offset indices are those of the added
    /// entries, in add order.
    pub open spec fn wf(self) -> bool {
        &&& hasher_words(self.hasher) == entries_words(self.indexed_bindings@)
        &&& self.dynamic_uniform_indices@ == dynamic_indices(self.indexed_bindings@)
    }

    /// Appends one slot-indexed binding: records its dynamic-offset index if
    /// it has one, feeds the binding's identity words to the hasher, and
    /// stores the entry.
    pub fn add_binding(self, index: u32, binding: RenderResourceBinding) -> (result: Self)
        requires
            self.wf(),
        ensures
            result.wf(),
            result@ == self@.push(IndexedBindGroupEntry { index, entry: binding }),
    {
        let mut result = self;
        let ghost entries0 = result.indexed_bindings@;
        if let RenderResourceBinding::Buffer { dynamic_index: Some(dynamic_index), .. } =
            &binding {
            result.dynamic_uniform_indices.push(*dynamic_index);
        }
        result.hash_binding(&binding);
        result.indexed_bindings.push(IndexedBindGroupEntry { index, entry: binding });
        proof {
            let entry = IndexedBindGroupEntry { index, entry: binding };
            let entries1 = entries0.push(entry);
            assert(entries1.drop_last() =~= entries0);
            assert(entries_words(entries1) == entries_words(entries0) + binding_words(binding));
            assert(dynamic_indices(entries1) == dynamic_indices(entries0) + match dynamic_index_of(
                binding,
            ) {
                Some(d) => seq![d],
                None => Seq::<u32>::empty(),
            });
            assert(result.dynamic_uniform_indices@ == dynamic_indices(entries1));
        }
        result
    }

    /// Adds a texture binding at `index`.
    pub fn add_texture(self, index: u32, texture: TextureId) -> (result: Self)
        requires
            self.wf(),
        ensures
            result.wf(),
            result@ == self@.push(
                IndexedBindGroupEntry { index, entry: RenderResourceBinding::Texture(texture) },
            ),
    {
        self.add_binding(index, RenderResourceBinding::Texture(texture))
    }

    /// Adds a sampler binding at `index`.
    pub fn add_sampler(self, index: u32, sampler: SamplerId) -> (result: Self)
        requires
            self.wf(),
        ensures
            result.wf(),
            result@ == self@.push(
                IndexedBindGroupEntry { index, entry: RenderResourceBinding::Sampler(sampler) },
            ),
    {
        self.add_binding(index, RenderResourceBinding::Sampler(sampler))
    }

    /// Adds a buffer binding at `index` covering `range`, with no
    /// dynamic-offset index.
    pub fn add_buffer(self, index: u32, buffer: BufferId, range: BufferRange) -> (result: Self)
        requires
            self.wf(),
        ensures
            result.wf(),
            result@ == self@.push(
                IndexedBindGroupEntry {
                    index,
                    entry: RenderResourceBinding::Buffer { buffer, range, dynamic_index: None },
                },
            ),
    {
        self.add_binding(
            index,
            RenderResourceBinding::Buffer { buffer, range, dynamic_index: None },
        )
    }

    /// Adds a buffer binding at `index` covering `range` whose offset is
    /// chosen per draw through `dynamic_index`.
    pub fn add_dynamic_buffer(
        self,
        index: u32,
        buffer: BufferId,
        range: BufferRange,
        dynamic_index: u32,
    ) -> (result: Self)
        requires
            self.wf(),
        ensures
            result.wf(),
            result@ == self@.push(
                IndexedBindGroupEntry {
                    index,
                    entry: RenderResourceBinding::Buffer {
                        buffer,
                        range,
                        dynamic_index: Some(dynamic_index),
                    },
                },
            ),
    {
        self.add_binding(
            index,
            RenderResourceBinding::Buffer { buffer, range, dynamic_index: Some(dynamic_index) },
        )
    }

    /// Finishes the builder: the identity is the digest of the fed words,
    /// the entries are sorted by slot index, and the dynamic-offset indices
    /// are present exactly when at least one was recorded.
    pub fn finish(self) -> (group: BindGroup)
        requires
            self.wf(),
        ensures
            group.is_built_from(self@),
            sorted_by_index(group.indexed_bindings@),
    {
        let BindGroupBuilder { indexed_bindings, dynamic_uniform_indices, hasher } = self;
        let id_value = hasher_finish(&hasher);
        let sorted = sort_entries(indexed_bindings);
        proof {
            lemma_sort_by_index_sorted(self.indexed_bindings@);
        }
        BindGroup {
            id: BindGroupId(id_value),
            indexed_bindings: sorted,
            dynamic_uniform_indices: if dynamic_uniform_indices.len() == 0 {
                None
            } else {
                Some(dynamic_uniform_indices)
            },
        }
    }

    /// Feeds one binding's identity words to the running hasher: a kind tag,
    /// the handle, and for buffers the byte range — never the slot index or
    /// a dynamic-offset index.
    fn hash_binding(&mut self, binding: &RenderResourceBinding)
        ensures
            hasher_words(final(self).hasher) == hasher_words(old(self).hasher) + binding_words(
                *binding,
            ),
            final(self).indexed_bindings == old(self).indexed_bindings,
            final(self).dynamic_uniform_indices == old(self).dynamic_uniform_indices,
    {
        let ghost words0 = hasher_words(self.hasher);
        match binding {
            RenderResourceBinding::Buffer { buffer, range, dynamic_index: _ } => {
                hasher_write_u64(&mut self.hasher, BUFFER_TAG);
                hasher_write_u64(&mut self.hasher, buffer.0);
                hasher_write_u64(&mut self.hasher, range.start);
                hasher_write_u64(&mut self.hasher, range.end);
                proof {
                    assert(hasher_words(self.hasher) =~= words0 + binding_words(*binding));
                }
            },
            RenderResourceBinding::Texture(texture) => {
                hasher_write_u64(&mut self.hasher, TEXTURE_TAG);
                hasher_write_u64(&mut self.hasher, texture.0);
                proof {
                    assert(hasher_words(self.hasher) =~= words0 + binding_words(*binding));
                }
            },
            RenderResourceBinding::Sampler(sampler) => {
                hasher_write_u64(&mut self.hasher, SAMPLER_TAG);
                hasher_write_u64(&mut self.hasher, sampler.0);
                proof {
                    assert(hasher_words(self.hasher) =~= words0 + binding_words(*binding));
                }
            },
        }
    }
}

} // verus!
