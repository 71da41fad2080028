//! Arithmetic of the compressed KV-cache layout: slot ids, the row-major layout of
//! decompressed buffers, per-layer quantizer seeds and the bytes a KV block occupies.

use vstd::prelude::*;

verus! {

/// The element types a KV-cache tensor can hold, one for each `DType` of candle.
#[derive(Clone, Copy, Debug, PartialEq, Eq, Structural)]
pub enum ElementType {
    U8,
    U32,
    I16,
    I32,
    I64,
    BF16,
    F16,
    F32,
    F64,
    F8E4M3,
    F6E2M3,
    F6E3M2,
    F4,
    F8E8M0,
}

/// The bytes one element of type `e` occupies. The sub-byte float types (six and four bits
/// wide) count as 0 bytes.
pub open spec fn element_size(e: ElementType) -> int {
    match e {
        ElementType::U8 => 1,
        ElementType::U32 => 4,
        ElementType::I16 => 2,
        ElementType::I32 => 4,
        ElementType::I64 => 8,
        ElementType::BF16 => 2,
        ElementType::F16 => 2,
        ElementType::F32 => 4,
        ElementType::F64 => 8,
        ElementType::F8E4M3 => 1,
        ElementType::F6E2M3 => 0,
        ElementType::F6E3M2 => 0,
        ElementType::F4 => 0,
        ElementType::F8E8M0 => 1,
    }
}

impl ElementType {
    /// The size of one element in bytes, i.e. 1 for `U8`, 4 for `F32`.
    pub fn size_in_bytes(&self) -> (r: usize)
        ensures
            r == element_size(*self),
    {
        match self {
            ElementType::U8 => 1,
            ElementType::U32 => 4,
            ElementType::I16 => 2,
            ElementType::I32 => 4,
            ElementType::I64 => 8,
            ElementType::BF16 => 2,
            ElementType::F16 => 2,
            ElementType::F32 => 4,
            ElementType::F64 => 8,
            ElementType::F8E4M3 => 1,
            ElementType::F6E2M3 => 0,
            ElementType::F6E3M2 => 0,
            ElementType::F4 => 0,
            ElementType::F8E8M0 => 1,
        }
    }
}

/// If `x1 * m + y1 == x2 * m + y2` with both remainders below `m`, the pairs are equal.
pub proof fn lemma_mixed_radix_unique(x1: int, y1: int, x2: int, y2: int, m: int)
    requires
        m > 0,
        0 <= y1 < m,
        0 <= y2 < m,
        x1 * m + y1 == x2 * m + y2,
    ensures
        x1 == x2,
        y1 == y2,
{
    if x1 < x2 {
        assert(x1 * m + m <= x2 * m) by (nonlinear_arith)
            requires
                x1 < x2,
                m > 0,
        ;
    } else if x2 < x1 {
        assert(x2 * m + m <= x1 * m) by (nonlinear_arith)
            requires
                x2 < x1,
                m > 0,
        ;
    }
}

/// If `x < n` and `y < m` then `x * m + y < n * m`.
pub proof fn lemma_mixed_radix_bound(x: int, y: int, n: int, m: int)
    requires
        0 <= x < n,
        0 <= y < m,
    ensures
        0 <= x * m + y < n * m,
{
    assert(x * m + m <= n * m) by (nonlinear_arith)
        requires
            x < n,
            0 <= y < m,
    ;
    assert(0 <= x * m) by (nonlinear_arith)
        requires
            0 <= x,
            0 <= y < m,
    ;
}

/// The id of the token slot `slot_in_block` of block `block_id`.
pub open spec fn slot_id_spec(block_id: int, slot_in_block: int, block_size: int) -> int {
    block_id * block_size + slot_in_block
}

/// The id under which a token slot is stored: `block_id * block_size + slot_in_block`.
pub fn slot_id(block_id: usize, slot_in_block: usize, block_size: usize) -> (id: u64)
    requires
        block_id * block_size + slot_in_block <= usize::MAX,
        block_id * block_size + slot_in_block <= u64::MAX,
    ensures
        id == slot_id_spec(block_id as int, slot_in_block as int, block_size as int),
{
    (block_id * block_size + slot_in_block) as u64
}

/// Distinct slots of distinct or equal blocks have distinct ids when every slot index is
/// below the block size.
pub proof fn lemma_slot_ids_distinct(b1: int, s1: int, b2: int, s2: int, block_size: int)
    requires
        0 <= s1 < block_size,
        0 <= s2 < block_size,
        (b1, s1) != (b2, s2),
    ensures
        slot_id_spec(b1, s1, block_size) != slot_id_spec(b2, s2, block_size),
{
    if slot_id_spec(b1, s1, block_size) == slot_id_spec(b2, s2, block_size) {
        lemma_mixed_radix_unique(b1, s1, b2, s2, block_size);
    }
}

/// The position, in a decompressed buffer for `n` blocks laid out as
/// `[block_idx, slot, head, head_dim_elem]` with every dimension contiguous, of element `e`
/// of head `h` of slot `slot` of the `bi`-th requested block.
pub open spec fn buffer_offset(
    bi: int,
    slot: int,
    h: int,
    e: int,
    block_size: int,
    num_kv_heads: int,
    head_dim: int,
) -> int {
    ((bi * block_size + slot) * num_kv_heads + h) * head_dim + e
}

/// The number of elements of a decompressed buffer for `n` blocks.
pub open spec fn buffer_len(n: int, block_size: int, num_kv_heads: int, head_dim: int) -> int {
    n * block_size * num_kv_heads * head_dim
}

/// The layout of a decompressed buffer is a bijection: every element of every head of every
/// slot of every requested block has its own position, and all positions lie in the buffer.
pub proof fn lemma_buffer_layout(
    bi: int,
    slot: int,
    h: int,
    e: int,
    bi2: int,
    slot2: int,
    h2: int,
    e2: int,
    n: int,
    block_size: int,
    num_kv_heads: int,
    head_dim: int,
)
    requires
        0 <= bi < n,
        0 <= slot < block_size,
        0 <= h < num_kv_heads,
        0 <= e < head_dim,
        0 <= bi2 < n,
        0 <= slot2 < block_size,
        0 <= h2 < num_kv_heads,
        0 <= e2 < head_dim,
    ensures
        0 <= buffer_offset(bi, slot, h, e, block_size, num_kv_heads, head_dim) < buffer_len(
            n,
            block_size,
            num_kv_heads,
            head_dim,
        ),
        (bi, slot, h, e) != (bi2, slot2, h2, e2) ==> buffer_offset(
            bi,
            slot,
            h,
            e,
            block_size,
            num_kv_heads,
            head_dim,
        ) != buffer_offset(bi2, slot2, h2, e2, block_size, num_kv_heads, head_dim),
{
    lemma_mixed_radix_bound(bi, slot, n, block_size);
    lemma_mixed_radix_bound(bi * block_size + slot, h, n * block_size, num_kv_heads);
    lemma_mixed_radix_bound(
        (bi * block_size + slot) * num_kv_heads + h,
        e,
        n * block_size * num_kv_heads,
        head_dim,
    );
    let o1 = buffer_offset(bi, slot, h, e, block_size, num_kv_heads, head_dim);
    let o2 = buffer_offset(bi2, slot2, h2, e2, block_size, num_kv_heads, head_dim);
    if o1 == o2 {
        lemma_mixed_radix_bound(bi2, slot2, n, block_size);
        lemma_mixed_radix_bound(bi2 * block_size + slot2, h2, n * block_size, num_kv_heads);
        lemma_mixed_radix_unique(
            (bi * block_size + slot) * num_kv_heads + h,
            e,
            (bi2 * block_size + slot2) * num_kv_heads + h2,
            e2,
            head_dim,
        );
        lemma_mixed_radix_unique(
            bi * block_size + slot,
            h,
            bi2 * block_size + slot2,
            h2,
            num_kv_heads,
        );
        lemma_mixed_radix_unique(bi, slot, bi2, slot2, block_size);
    }
}

/// The number of `f32` elements of a decompressed buffer for `n` blocks.
pub fn buffer_elements(n: usize, block_size: usize, num_kv_heads: usize, head_dim: usize) -> (r:
    usize)
    requires
        block_size * num_kv_heads <= usize::MAX,
        block_size * num_kv_heads * head_dim <= usize::MAX,
        buffer_len(n as int, block_size as int, num_kv_heads as int, head_dim as int) <= usize::MAX,
    ensures
        r == buffer_len(n as int, block_size as int, num_kv_heads as int, head_dim as int),
{
    let stride = block_size * num_kv_heads * head_dim;
    proof {
        assert(n * stride == n * block_size * num_kv_heads * head_dim) by (nonlinear_arith)
            requires
                stride == block_size * num_kv_heads * head_dim,
        ;
    }
    n * stride
}

/// Where the first element of head `h` of slot `slot` of the `bi`-th requested block goes in
/// a decompressed buffer of `n` blocks; that head's `head_dim` elements follow it.
pub fn head_offset(
    bi: usize,
    slot: usize,
    h: usize,
    n: usize,
    block_size: usize,
    num_kv_heads: usize,
    head_dim: usize,
) -> (out: usize)
    requires
        bi < n,
        slot < block_size,
        h < num_kv_heads,
        head_dim > 0,
        block_size * num_kv_heads <= usize::MAX,
        block_size * num_kv_heads * head_dim <= usize::MAX,
        buffer_len(n as int, block_size as int, num_kv_heads as int, head_dim as int) <= usize::MAX,
    ensures
        out == buffer_offset(
            bi as int,
            slot as int,
            h as int,
            0,
            block_size as int,
            num_kv_heads as int,
            head_dim as int,
        ),
        out + head_dim <= buffer_len(
            n as int,
            block_size as int,
            num_kv_heads as int,
            head_dim as int,
        ),
{
    let ghost bs = block_size as int;
    let ghost k = num_kv_heads as int;
    let ghost d = head_dim as int;
    proof {
        lemma_buffer_layout(
            bi as int,
            slot as int,
            h as int,
            d - 1,
            bi as int,
            slot as int,
            h as int,
            d - 1,
            n as int,
            bs,
            k,
            d,
        );
        assert(bi * (bs * k * d) + slot * k * d + h * d == ((bi * bs + slot) * k + h) * d)
            by (nonlinear_arith);
        assert(slot * k <= bs * k) by (nonlinear_arith)
            requires
                slot < bs,
                0 <= k,
        ;
        assert(slot * k * d <= bs * k * d) by (nonlinear_arith)
            requires
                slot * k <= bs * k,
                0 <= d,
        ;
        assert(0 <= bi * (bs * k * d)) by (nonlinear_arith)
            requires
                0 <= bs * k * d,
        ;
        assert(0 <= slot * k * d) by (nonlinear_arith)
            requires
                0 <= slot,
                0 <= k,
                0 <= d,
        ;
        assert(0 <= h * d) by (nonlinear_arith)
            requires
                0 <= h,
                0 <= d,
        ;
        assert(0 <= bs * k * d) by (nonlinear_arith)
            requires
                0 <= bs,
                0 <= k,
                0 <= d,
        ;
    }
    let stride = block_size * num_kv_heads * head_dim;
    bi * stride + slot * num_kv_heads * head_dim + h * head_dim
}

/// The byte size of `count` quantization indices of `bit_width` bits each, packed
/// contiguously: the number of bits rounded up to whole bytes.
pub open spec fn packed_bytes(count: int, bit_width: int) -> int {
    (count * bit_width + 7) / 8
}

/// The packed byte size of `count` indices at `bit_width` bits each.
pub fn packed_byte_size(count: usize, bit_width: u8) -> (r: usize)
    requires
        count * bit_width <= usize::MAX,
    ensures
        r == packed_bytes(count as int, bit_width as int),
{
    let bits = count * (bit_width as usize);
    bits / 8 + if bits % 8 == 0 {
        0
    } else {
        1
    }
}

/// The bytes one physical KV block occupies, for block-count profiling: `block_size *
/// num_kv_heads` key vectors and as many value vectors. Uncompressed, each vector holds
/// `head_dim` elements of `element_size` bytes; compressed at `bits` bits per coordinate,
/// each vector holds a 4-byte norm and its bit-packed indices.
pub open spec fn block_bytes(
    num_kv_heads: int,
    head_dim: int,
    block_size: int,
    element_size: int,
    compression_bits: Option<u8>,
) -> int {
    let num_vectors = block_size * num_kv_heads;
    match compression_bits {
        Some(bits) => num_vectors * 2 * (4 + packed_bytes(head_dim, bits as int)),
        None => num_vectors * head_dim * 2 * element_size,
    }
}

/// Bytes per physical KV block for an element type of `element_size` bytes; with
/// `compression_bits`, the size of the compressed block instead.
pub fn bytes_per_block_for_element_size(
    num_kv_heads: usize,
    head_dim: usize,
    block_size: usize,
    element_size: usize,
    compression_bits: Option<u8>,
) -> (r: usize)
    requires
        block_size * num_kv_heads <= usize::MAX,
        compression_bits matches Some(bits) ==> head_dim * bits <= usize::MAX,
        compression_bits is None ==> block_size * num_kv_heads * head_dim * 2 <= usize::MAX,
        block_bytes(
            num_kv_heads as int,
            head_dim as int,
            block_size as int,
            element_size as int,
            compression_bits,
        ) <= usize::MAX,
    ensures
        r == block_bytes(
            num_kv_heads as int,
            head_dim as int,
            block_size as int,
            element_size as int,
            compression_bits,
        ),
{
    let num_vectors = block_size * num_kv_heads;
    match compression_bits {
        Some(bits) => {
            let packed = packed_byte_size(head_dim, bits);
            let compressed_vec_bytes = 4 + packed;
            proof {
                assert(num_vectors * 2 <= num_vectors * 2 * compressed_vec_bytes) by (nonlinear_arith)
                    requires
                        compressed_vec_bytes >= 1,
                        num_vectors >= 0,
                ;
            }
            num_vectors * 2 * compressed_vec_bytes
        },
        None => {
            proof {
                assert(num_vectors * head_dim <= num_vectors * head_dim * 2) by (nonlinear_arith)
                    requires
                        num_vectors * head_dim >= 0,
                ;
            }
            num_vectors * head_dim * 2 * element_size
        },
    }
}

/// Bytes per physical KV block for block-count profiling, with elements of type `element`
/// when uncompressed; with `compression_bits` (the bits per coordinate of the compression
/// configuration) the size of the compressed block, which does not depend on `element`.
pub fn bytes_per_block(
    num_kv_heads: usize,
    head_dim: usize,
    block_size: usize,
    element: ElementType,
    compression_bits: Option<u8>,
) -> (r: usize)
    requires
        block_size * num_kv_heads <= usize::MAX,
        compression_bits matches Some(bits) ==> head_dim * bits <= usize::MAX,
        compression_bits is None ==> block_size * num_kv_heads * head_dim * 2 <= usize::MAX,
        block_bytes(
            num_kv_heads as int,
            head_dim as int,
            block_size as int,
            element_size(element),
            compression_bits,
        ) <= usize::MAX,
    ensures
        r == block_bytes(
            num_kv_heads as int,
            head_dim as int,
            block_size as int,
            element_size(element),
            compression_bits,
        ),
{
    let element_size = element.size_in_bytes();
    bytes_per_block_for_element_size(num_kv_heads, head_dim, block_size, element_size, compression_bits)
}

/// The seed of the key quantizer of layer `layer`: each layer gets a distinct rotation.
pub open spec fn key_seed_spec(layer: u64) -> u64 {
    vstd::wrapping::u64_specs::wrapping_add(0x5A5A_5A5A, (layer * 0x1111_1111) as u64)
}

/// The seed of the value quantizer of layer `layer`.
pub open spec fn val_seed_spec(layer: u64) -> u64 {
    vstd::wrapping::u64_specs::wrapping_add(0xA5A5_A5A5, (layer * 0x2222_2222) as u64)
}

/// The key and value quantizer seeds of layer `layer`, derived deterministically from the
/// layer index.
pub fn layer_seeds(layer: u64) -> (seeds: (u64, u64))
    requires
        layer * 0x2222_2222 <= u64::MAX,
    ensures
        seeds.0 == key_seed_spec(layer),
        seeds.1 == val_seed_spec(layer),
{
    let key_seed = 0x5A5A_5A5A_u64.wrapping_add(layer * 0x1111_1111);
    let val_seed = 0xA5A5_A5A5_u64.wrapping_add(layer * 0x2222_2222);
    (key_seed, val_seed)
}

/// Distinct layers get distinct key seeds and distinct value seeds.
pub proof fn lemma_layer_seeds_distinct(a: u64, b: u64)
    requires
        a != b,
        a * 0x2222_2222 <= u64::MAX,
        b * 0x2222_2222 <= u64::MAX,
    ensures
        key_seed_spec(a) != key_seed_spec(b),
        val_seed_spec(a) != val_seed_spec(b),
{
    assert(a * 0x1111_1111 != b * 0x1111_1111) by (nonlinear_arith)
        requires
            a != b,
    ;
    assert(a * 0x2222_2222 != b * 0x2222_2222) by (nonlinear_arith)
        requires
            a != b,
    ;
}

} // verus!
