use candle_vllm::kv_layout::{
    buffer_elements, bytes_per_block, bytes_per_block_for_element_size, head_offset, layer_seeds,
    packed_byte_size, slot_id, ElementType,
};

#[test]
fn test_bytes_per_block_compressed_smaller() {
    let uncompressed = bytes_per_block(8, 128, 16, ElementType::F16, None);
    let compressed = bytes_per_block(8, 128, 16, ElementType::F16, Some(3));
    assert!(
        compressed < uncompressed,
        "compressed bytes ({compressed}) should be < uncompressed ({uncompressed})"
    );
    let ratio = uncompressed as f32 / compressed as f32;
    assert!(ratio > 2.0, "expected > 2× size reduction, got {ratio:.2}");
}

#[test]
fn bytes_per_block_values() {
    // 16 slots x 8 heads = 128 vectors; f16: 128 coordinates x 2 bytes, keys and values.
    assert_eq!(bytes_per_block(8, 128, 16, ElementType::F16, None), 128 * 128 * 2 * 2);
    // 3 bits x 128 coordinates = 48 bytes + 4-byte norm, keys and values.
    assert_eq!(bytes_per_block(8, 128, 16, ElementType::F16, Some(3)), 128 * 2 * 52);
    assert_eq!(bytes_per_block(8, 128, 16, ElementType::F32, None), 128 * 128 * 2 * 4);
    assert_eq!(bytes_per_block_for_element_size(1, 10, 2, 1, Some(3)), 2 * 2 * (4 + 4));
}

#[test]
fn element_sizes() {
    let expected = [
        (ElementType::U8, 1),
        (ElementType::U32, 4),
        (ElementType::I16, 2),
        (ElementType::I32, 4),
        (ElementType::I64, 8),
        (ElementType::BF16, 2),
        (ElementType::F16, 2),
        (ElementType::F32, 4),
        (ElementType::F64, 8),
        (ElementType::F8E4M3, 1),
        (ElementType::F6E2M3, 0),
        (ElementType::F6E3M2, 0),
        (ElementType::F4, 0),
        (ElementType::F8E8M0, 1),
    ];
    for (element, size) in expected {
        assert_eq!(element.size_in_bytes(), size, "{element:?}");
    }
}

#[test]
fn bytes_per_block_follows_element_size() {
    assert_eq!(bytes_per_block(2, 64, 16, ElementType::U8, None), 32 * 64 * 2);
    assert_eq!(bytes_per_block(2, 64, 16, ElementType::F64, None), 32 * 64 * 2 * 8);
    assert_eq!(bytes_per_block(2, 64, 16, ElementType::F4, None), 0);
    // F16 at a size that would overflow at eight bytes per element.
    let heads = usize::MAX / (16 * 128 * 2 * 2);
    assert_eq!(bytes_per_block(heads, 128, 16, ElementType::F16, None), heads * 16 * 128 * 2 * 2);
}

#[test]
fn packed_sizes_round_up_to_bytes() {
    assert_eq!(packed_byte_size(128, 4), 64);
    assert_eq!(packed_byte_size(100, 3), 38);
    assert_eq!(packed_byte_size(0, 4), 0);
    assert_eq!(packed_byte_size(1, 1), 1);
}

#[test]
fn slot_ids_and_offsets() {
    assert_eq!(slot_id(3, 5, 16), 53);
    assert_eq!(slot_id(0, 0, 16), 0);
    assert_eq!(buffer_elements(2, 16, 4, 128), 2 * 16 * 4 * 128);
    // block index 1, slot 2, head 3 of a buffer with 16 slots of 4 heads of 128.
    assert_eq!(head_offset(1, 2, 3, 2, 16, 4, 128), 16 * 4 * 128 + 2 * 4 * 128 + 3 * 128);
    assert_eq!(head_offset(0, 0, 0, 1, 1, 1, 1), 0);
}

#[test]
fn seeds_differ_per_layer() {
    assert_eq!(layer_seeds(0), (0x5A5A_5A5A, 0xA5A5_A5A5));
    assert_eq!(layer_seeds(1), (0x5A5A_5A5A + 0x1111_1111, 0xA5A5_A5A5 + 0x2222_2222));
    assert_ne!(layer_seeds(2).0, layer_seeds(3).0);
}
