use vstd::prelude::*;

verus! {

/// Identity of a finished bind group: the digest of the word stream that the
/// builder fed to its hasher.
#[derive(Hash, Eq, PartialEq, Debug, Copy, Clone, Structural)]
pub struct BindGroupId(pub u64);

/// Opaque engine-assigned handle of a GPU buffer.
#[derive(Hash, Eq, PartialEq, Debug, Copy, Clone, Structural)]
pub struct BufferId(pub u64);

/// Opaque engine-assigned handle of a GPU texture.
#[derive(Hash, Eq, PartialEq, Debug, Copy, Clone, Structural)]
pub struct TextureId(pub u64);

/// Opaque engine-assigned handle of a GPU sampler.
#[derive(Hash, Eq, PartialEq, Debug, Copy, Clone, Structural)]
pub struct SamplerId(pub u64);

/// Half-open byte range `start..end` within a buffer.
#[derive(Hash, Eq, PartialEq, Debug, Copy, Clone, Structural)]
pub struct BufferRange {
    pub start: u64,
    pub end: u64,
}

/// A single resource bound into a bind group. The `dynamic_index` of a
/// buffer binding is not part of the binding's identity.
#[derive(Hash, Eq, PartialEq, Debug, Copy, Clone)]
pub enum RenderResourceBinding {
    Buffer { buffer: BufferId, range: BufferRange, dynamic_index: Option<u32> },
    Texture(TextureId),
    Sampler(SamplerId),
}

/// A resource binding together with the bind-group slot index it occupies.
#[derive(Eq, PartialEq, Debug, Copy, Clone)]
pub struct IndexedBindGroupEntry {
    pub index: u32,
    pub entry: RenderResourceBinding,
}

/// Tag word fed to the hasher ahead of a buffer binding's fields.
pub const BUFFER_TAG: u64 = 0;

/// Tag word fed to the hasher ahead of a texture binding's handle.
pub const TEXTURE_TAG: u64 = 1;

/// Tag word fed to the hasher ahead of a sampler binding's handle.
pub const SAMPLER_TAG: u64 = 2;

/// The words a single binding contributes to the identity hash: a kind tag,
/// the handle, and for buffers the byte range. Neither the slot index nor a
/// dynamic-offset index is included.
pub open spec fn binding_words(b: RenderResourceBinding) -> Seq<u64> {
    match b {
        RenderResourceBinding::Buffer { buffer, range, dynamic_index } =>
            seq![BUFFER_TAG, buffer.0, range.start, range.end],
        RenderResourceBinding::Texture(texture) => seq![TEXTURE_TAG, texture.0],
        RenderResourceBinding::Sampler(sampler) => seq![SAMPLER_TAG, sampler.0],
    }
}

/// The words a whole add-order sequence of entries feeds to the hasher:
/// the concatenation of each entry's binding words, in add order.
pub open spec fn entries_words(s: Seq<IndexedBindGroupEntry>) -> Seq<u64>
    decreases s.len(),
{
    if s.len() == 0 {
        Seq::empty()
    } else {
        entries_words(s.drop_last()) + binding_words(s.last().entry)
    }
}

/// The dynamic-offset index a binding carries, if any.
pub open spec fn dynamic_index_of(b: RenderResourceBinding) -> Option<u32> {
    match b {
        RenderResourceBinding::Buffer { buffer, range, dynamic_index } => dynamic_index,
        RenderResourceBinding::Texture(texture) => None,
        RenderResourceBinding::Sampler(sampler) => None,
    }
}

/// The same binding with any dynamic-offset index removed: the part of a
/// binding that its identity hash is allowed to depend on.
pub open spec fn strip_dynamic_index(b: RenderResourceBinding) -> RenderResourceBinding {
    match b {
        RenderResourceBinding::Buffer { buffer, range, dynamic_index } =>
            RenderResourceBinding::Buffer { buffer, range, dynamic_index: None },
        RenderResourceBinding::Texture(texture) => RenderResourceBinding::Texture(texture),
        RenderResourceBinding::Sampler(sampler) => RenderResourceBinding::Sampler(sampler),
    }
}

/// A binding's hash words depend only on its identity-relevant part.
pub proof fn lemma_binding_words_strip(b: RenderResourceBinding)
    ensures
        binding_words(b) == binding_words(strip_dynamic_index(b)),
{
}

} // verus!
