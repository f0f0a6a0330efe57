use gentoo_render::buffer::Buffer;
use gentoo_render::buffer::DescriptorBufferInfo;
use gentoo_render::descriptor_set::DescriptorPool;
use gentoo_render::descriptor_set::DescriptorSetLayout;
use gentoo_render::descriptor_set::DescriptorSetWriter;

#[test]
fn buffer_overrun_is_rejected_not_truncated() {
    // Capacity 4; an attempt to write 5 elements must be refused and must
    // leave the contents untouched.
    let mut buffer: Buffer<u32> = Buffer::new(4, 4, 1, true);
    buffer.map();
    assert!(buffer.try_write_to_buffer(&vec![1, 2, 3, 4]));
    assert_eq!(buffer.contents, vec![1, 2, 3, 4]);
    assert!(!buffer.try_write_to_buffer(&vec![9, 9, 9, 9, 9]));
    assert_eq!(buffer.contents, vec![1, 2, 3, 4]);
}

#[test]
fn unmapped_buffer_rejects_writes() {
    let mut buffer: Buffer<u32> = Buffer::new(4, 4, 1, true);
    assert!(!buffer.is_mapped());
    assert!(!buffer.try_write_to_buffer(&vec![1]));
    assert_eq!(buffer.contents, Vec::<u32>::new());
    buffer.map();
    assert!(buffer.is_mapped());
    assert!(buffer.try_write_to_buffer(&vec![1]));
    assert_eq!(buffer.contents, vec![1]);
}

#[test]
fn shorter_write_keeps_the_tail() {
    let mut buffer: Buffer<u16> = Buffer::new(8, 2, 1, true);
    buffer.map();
    buffer.write_to_buffer(&vec![1, 2, 3, 4]);
    buffer.write_to_buffer(&vec![7, 8]);
    assert_eq!(buffer.contents, vec![7, 8, 3, 4]);
}

#[test]
fn alignment_rounds_element_size_up() {
    assert_eq!(Buffer::<u8>::get_alignment(1, 1), 1);
    assert_eq!(Buffer::<u8>::get_alignment(28, 64), 64);
    assert_eq!(Buffer::<u8>::get_alignment(64, 64), 64);
    assert_eq!(Buffer::<u8>::get_alignment(65, 64), 128);
    assert_eq!(Buffer::<u8>::get_alignment(200, 256), 256);
}

#[test]
fn buffer_sizing_and_descriptor_range() {
    // A uniform buffer of one 72-byte element on a device with a 64-byte
    // minimum offset alignment occupies two alignment units.
    let buffer: Buffer<u8> = Buffer::new(1, 72, 64, false);
    assert_eq!(buffer.alignment_size, 128);
    assert_eq!(buffer.buffer_size, 128);
    assert_eq!(
        buffer.descriptor_info(),
        DescriptorBufferInfo { offset: 0, range: 128 }
    );
    let per_frame: Buffer<u8> = Buffer::new(2, 72, 64, false);
    assert_eq!(per_frame.buffer_size, 256);
}

#[test]
fn non_coherent_buffers_need_a_flush() {
    let mut coherent: Buffer<u8> = Buffer::new(1, 4, 1, true);
    coherent.map();
    assert!(!coherent.flush());
    let mut non_coherent: Buffer<u8> = Buffer::new(1, 4, 1, false);
    non_coherent.map();
    assert!(non_coherent.flush());
}

#[test]
fn layout_builder_tracks_binding_indices() {
    let builder = DescriptorSetLayout::new();
    assert!(!builder.has_binding(0));
    let builder = builder.add_binding(0, 6, 0x1F, 1);
    assert!(builder.has_binding(0));
    assert!(!builder.has_binding(1));
    let builder = builder.add_binding(1, 1, 0x10, 1);
    let layout = builder.build();
    assert!(layout.has_binding(0));
    assert!(layout.has_binding(1));
    assert!(!layout.has_binding(2));
    assert_eq!(layout.binding_count(), 2);
    assert_eq!(layout.bindings[0].binding, 0);
    assert_eq!(layout.bindings[0].descriptor_type, 6);
    assert_eq!(layout.bindings[0].stage_flags, 0x1F);
    assert_eq!(layout.bindings[0].descriptor_count, 1);
}

#[test]
fn pool_builder_accumulates_declarations() {
    let builder = DescriptorPool::new();
    assert_eq!(builder.max_sets, 1000);
    assert_eq!(builder.pool_flags, 0);
    assert!(builder.pool_sizes.is_empty());
    let pool = DescriptorPool::new()
        .set_max_sets(2)
        .add_pool_size(6, 2)
        .add_pool_size(1, 8)
        .set_pool_flags(4)
        .build();
    assert_eq!(pool.max_sets, 2);
    assert_eq!(pool.pool_flags, 4);
    assert_eq!(pool.pool_sizes.len(), 2);
    assert_eq!(pool.pool_sizes[0].descriptor_type, 6);
    assert_eq!(pool.pool_sizes[0].descriptor_count, 2);
    assert_eq!(pool.pool_sizes[1].descriptor_type, 1);
    assert_eq!(pool.pool_sizes[1].descriptor_count, 8);
}

#[test]
fn writer_pairs_buffers_with_declared_bindings() {
    let layout = DescriptorSetLayout::new().add_binding(0, 6, 0x1F, 1).build();
    let buffer: Buffer<u8> = Buffer::new(1, 64, 64, true);
    let writes = DescriptorSetWriter::new(layout)
        .write_to_buffer(0, buffer.descriptor_info())
        .build();
    assert_eq!(writes.len(), 1);
    assert_eq!(writes[0].binding, 0);
    assert_eq!(writes[0].buffer_info, DescriptorBufferInfo { offset: 0, range: 64 });
}
