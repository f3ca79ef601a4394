use bind_group::{
    BindGroup, BindGroupBuilder, BufferId, BufferRange, IndexedBindGroupEntry,
    RenderResourceBinding, SamplerId, TextureId,
};

fn range(start: u64, end: u64) -> BufferRange {
    BufferRange { start, end }
}

#[test]
fn entries_sorted_regardless_of_add_order() {
    let ascending = BindGroup::build()
        .add_buffer(0, BufferId(10), range(0, 64))
        .add_texture(1, TextureId(11))
        .add_sampler(2, SamplerId(12))
        .finish();
    let scrambled = BindGroup::build()
        .add_sampler(2, SamplerId(12))
        .add_buffer(0, BufferId(10), range(0, 64))
        .add_texture(1, TextureId(11))
        .finish();
    for group in [&ascending, &scrambled] {
        for window in group.indexed_bindings.windows(2) {
            assert!(window[0].index <= window[1].index);
        }
    }
    assert_eq!(ascending.indexed_bindings, scrambled.indexed_bindings);
}

#[test]
fn dynamic_offsets_absent_without_dynamic_buffers() {
    let group = BindGroup::build()
        .add_buffer(0, BufferId(1), range(0, 16))
        .add_texture(1, TextureId(2))
        .finish();
    assert!(group.dynamic_uniform_indices.is_none());
}

#[test]
fn dynamic_offsets_present_and_non_empty_with_dynamic_buffers() {
    let group = BindGroup::build()
        .add_texture(0, TextureId(3))
        .add_dynamic_buffer(1, BufferId(4), range(0, 32), 9)
        .finish();
    let dynamic = group.dynamic_uniform_indices.expect("dynamic offsets must be present");
    assert!(!dynamic.is_empty());
    assert_eq!(dynamic, vec![9]);
}

#[test]
fn identical_call_sequences_yield_equal_groups() {
    let first = BindGroup::build()
        .add_binding(3, RenderResourceBinding::Texture(TextureId(7)))
        .add_binding(
            1,
            RenderResourceBinding::Buffer {
                buffer: BufferId(8),
                range: range(16, 48),
                dynamic_index: Some(2),
            },
        )
        .finish();
    let second = BindGroupBuilder::default()
        .add_binding(3, RenderResourceBinding::Texture(TextureId(7)))
        .add_binding(
            1,
            RenderResourceBinding::Buffer {
                buffer: BufferId(8),
                range: range(16, 48),
                dynamic_index: Some(2),
            },
        )
        .finish();
    assert_eq!(first.id, second.id);
    assert_eq!(first.indexed_bindings, second.indexed_bindings);
    assert_eq!(first.dynamic_uniform_indices, second.dynamic_uniform_indices);
}

#[test]
fn texture_and_buffer_build_sorted_entries() {
    let group = BindGroup::build()
        .add_texture(2, TextureId(21))
        .add_buffer(0, BufferId(22), range(0, 64))
        .finish();
    assert_eq!(
        group.indexed_bindings,
        vec![
            IndexedBindGroupEntry {
                index: 0,
                entry: RenderResourceBinding::Buffer {
                    buffer: BufferId(22),
                    range: range(0, 64),
                    dynamic_index: None,
                },
            },
            IndexedBindGroupEntry { index: 2, entry: RenderResourceBinding::Texture(TextureId(21)) },
        ]
    );
    assert!(group.dynamic_uniform_indices.is_none());
}

#[test]
fn dynamic_offsets_keep_add_order() {
    let group = BindGroup::build()
        .add_dynamic_buffer(0, BufferId(31), range(0, 64), 5)
        .add_dynamic_buffer(1, BufferId(32), range(0, 32), 7)
        .finish();
    assert_eq!(group.dynamic_uniform_indices, Some(vec![5, 7]));
}

#[test]
fn dynamic_offsets_keep_add_order_even_against_slot_order() {
    let group = BindGroup::build()
        .add_dynamic_buffer(4, BufferId(33), range(0, 8), 11)
        .add_dynamic_buffer(1, BufferId(34), range(8, 16), 3)
        .finish();
    assert_eq!(group.dynamic_uniform_indices, Some(vec![11, 3]));
    assert_eq!(group.indexed_bindings[0].index, 1);
    assert_eq!(group.indexed_bindings[1].index, 4);
}

#[test]
fn dynamic_index_value_does_not_change_identity() {
    let with_five = BindGroup::build()
        .add_dynamic_buffer(0, BufferId(41), range(0, 64), 5)
        .finish();
    let with_nine = BindGroup::build()
        .add_dynamic_buffer(0, BufferId(41), range(0, 64), 9)
        .finish();
    assert_eq!(with_five.id, with_nine.id);
    assert_ne!(with_five.dynamic_uniform_indices, with_nine.dynamic_uniform_indices);
}

#[test]
fn dynamic_index_presence_does_not_change_identity() {
    let plain = BindGroup::build().add_buffer(0, BufferId(42), range(0, 64)).finish();
    let dynamic = BindGroup::build()
        .add_dynamic_buffer(0, BufferId(42), range(0, 64), 1)
        .finish();
    assert_eq!(plain.id, dynamic.id);
    assert!(plain.dynamic_uniform_indices.is_none());
    assert!(dynamic.dynamic_uniform_indices.is_some());
}

#[test]
fn binding_kind_changes_identity() {
    let texture = BindGroup::build().add_texture(0, TextureId(50)).finish();
    let sampler = BindGroup::build().add_sampler(0, SamplerId(50)).finish();
    assert_ne!(texture.id, sampler.id);
}

#[test]
fn buffer_range_changes_identity() {
    let narrow = BindGroup::build().add_buffer(0, BufferId(51), range(0, 32)).finish();
    let wide = BindGroup::build().add_buffer(0, BufferId(51), range(0, 64)).finish();
    assert_ne!(narrow.id, wide.id);
}

#[test]
fn resource_handle_changes_identity() {
    let first = BindGroup::build().add_texture(0, TextureId(60)).finish();
    let second = BindGroup::build().add_texture(0, TextureId(61)).finish();
    assert_ne!(first.id, second.id);
}

#[test]
fn empty_builder_finishes_with_no_entries() {
    let group = BindGroup::build().finish();
    assert!(group.indexed_bindings.is_empty());
    assert!(group.dynamic_uniform_indices.is_none());
}
