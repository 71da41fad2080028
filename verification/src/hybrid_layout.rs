//! Layer and dimension planning of the hybrid Qwen3.5 model, which interleaves
//! full-attention layers with gated-delta-net (linear attention) layers: the hybrid
//! configuration derived from GGUF metadata, which layers hold a KV cache and which a
//! recurrent-state slot, the gated-delta-net dimensions and the batch checks of its
//! forward pass.

use vstd::prelude::*;
use crate::text::str_eq;
use crate::gguf_metadata::GgufDims;
use crate::kv_layout::ElementType;

verus! {

/// The hybrid-attention part of the model configuration, as derived from GGUF metadata.
#[derive(Clone, Copy, Debug, PartialEq, Eq, Structural)]
pub struct HybridAttentionConfig {
    pub full_attention_interval: usize,
    pub conv_kernel_size: usize,
    pub linear_num_heads: usize,
    pub linear_num_value_heads: usize,
    pub linear_key_head_dim: usize,
    pub linear_value_head_dim: usize,
}

/// The hybrid configuration of GGUF metadata: the key heads of the linear layers are the
/// SSM groups, their value heads the SSM time-step rank, their value head dimension the
/// SSM state size, and their key head dimension the SSM inner size divided among the groups.
pub fn hybrid_attention_config(
    full_attention_interval: usize,
    conv_kernel_size: usize,
    ssm_group_count: usize,
    ssm_state_size: usize,
    ssm_time_step_rank: usize,
    ssm_inner_size: usize,
) -> (c: HybridAttentionConfig)
    requires
        ssm_group_count > 0,
    ensures
        c == (HybridAttentionConfig {
            full_attention_interval,
            conv_kernel_size,
            linear_num_heads: ssm_group_count,
            linear_num_value_heads: ssm_time_step_rank,
            linear_key_head_dim: ssm_inner_size / ssm_group_count,
            linear_value_head_dim: ssm_state_size,
        }),
{
    HybridAttentionConfig {
        full_attention_interval,
        conv_kernel_size,
        linear_num_heads: ssm_group_count,
        linear_num_value_heads: ssm_time_step_rank,
        linear_key_head_dim: ssm_inner_size / ssm_group_count,
        linear_value_head_dim: ssm_state_size,
    }
}

/// The beginning-of-sequence token of the Qwen3.5 vocabulary.
pub const QWEN3_5_BOS_TOKEN_ID: u32 = 151644;

/// The end-of-sequence token of the Qwen3.5 vocabulary.
pub const QWEN3_5_EOS_TOKEN_ID: u32 = 151645;

/// The integer and flag part of the configuration of a hybrid Qwen3.5 model read from GGUF
/// metadata (its floating-point settings, norm epsilon and rotary base and factor, are kept
/// apart).
#[derive(Clone, Copy, Debug, PartialEq, Eq, Structural)]
pub struct GgufModelConfig {
    pub hidden_size: usize,
    pub head_dim: usize,
    pub num_hidden_layers: usize,
    pub num_attention_heads: usize,
    pub num_key_value_heads: usize,
    pub max_seq_len: usize,
    pub max_position_embeddings: usize,
    pub bos_token_id: u32,
    pub eos_token_id: u32,
    pub tie_word_embeddings: bool,
    pub attention_bias: bool,
    /// The KV cache holds 8-bit elements.
    pub fp8_kvcache: bool,
    pub hybrid: HybridAttentionConfig,
}

/// The configuration of a hybrid Qwen3.5 model with dimensions `dims` and KV-cache
/// elements of type `kv_cache_element`: the hidden size is the embedding length, the
/// layers are the blocks, the context length bounds both the sequence and the positions,
/// embeddings are not tied, attention has no bias, and the cache counts as 8-bit when its
/// elements are `U8`.
pub fn gguf_model_config(dims: &GgufDims, kv_cache_element: ElementType) -> (c: GgufModelConfig)
    requires
        dims.ssm_group_count > 0,
    ensures
        c == (GgufModelConfig {
            hidden_size: dims.embedding_length,
            head_dim: dims.head_dim,
            num_hidden_layers: dims.block_count,
            num_attention_heads: dims.head_count,
            num_key_value_heads: dims.head_count_kv,
            max_seq_len: dims.context_length,
            max_position_embeddings: dims.context_length,
            bos_token_id: QWEN3_5_BOS_TOKEN_ID,
            eos_token_id: QWEN3_5_EOS_TOKEN_ID,
            tie_word_embeddings: false,
            attention_bias: false,
            fp8_kvcache: kv_cache_element == ElementType::U8,
            hybrid: HybridAttentionConfig {
                full_attention_interval: dims.full_attention_interval,
                conv_kernel_size: dims.ssm_conv_kernel,
                linear_num_heads: dims.ssm_group_count,
                linear_num_value_heads: dims.ssm_time_step_rank,
                linear_key_head_dim: dims.ssm_inner_size / dims.ssm_group_count,
                linear_value_head_dim: dims.ssm_state_size,
            },
        }),
{
    let fp8_kvcache = match kv_cache_element {
        ElementType::U8 => true,
        _ => false,
    };
    GgufModelConfig {
        hidden_size: dims.embedding_length,
        head_dim: dims.head_dim,
        num_hidden_layers: dims.block_count,
        num_attention_heads: dims.head_count,
        num_key_value_heads: dims.head_count_kv,
        max_seq_len: dims.context_length,
        max_position_embeddings: dims.context_length,
        bos_token_id: QWEN3_5_BOS_TOKEN_ID,
        eos_token_id: QWEN3_5_EOS_TOKEN_ID,
        tie_word_embeddings: false,
        attention_bias: false,
        fp8_kvcache,
        hybrid: hybrid_attention_config(
            dims.full_attention_interval,
            dims.ssm_conv_kernel,
            dims.ssm_group_count,
            dims.ssm_state_size,
            dims.ssm_time_step_rank,
            dims.ssm_inner_size,
        ),
    }
}

/// The attention head dimension of GGUF metadata: the key length when present, else the
/// embedding length divided among the heads.
pub fn gguf_head_dim(key_length: Option<usize>, embedding_length: usize, head_count: usize) -> (d:
    usize)
    requires
        key_length is None ==> head_count > 0,
    ensures
        d == (match key_length {
            Some(k) => k,
            None => embedding_length / head_count,
        }),
{
    match key_length {
        Some(k) => k,
        None => embedding_length / head_count,
    }
}

/// The dimensions of a gated-delta-net layer.
#[derive(Clone, Copy, Debug, PartialEq, Eq, Structural)]
pub struct GdnDims {
    pub num_k_heads: usize,
    pub num_v_heads: usize,
    pub head_k_dim: usize,
    pub head_v_dim: usize,
    /// `num_k_heads * head_k_dim`.
    pub key_dim: usize,
    /// `num_v_heads * head_v_dim`.
    pub value_dim: usize,
    /// `num_v_heads / num_k_heads`: value heads served by one key head.
    pub kv_group_size: usize,
    /// `2 * key_dim + value_dim`: channels of the causal convolution (query, key, value).
    pub d_conv: usize,
}

/// The gated-delta-net dimensions of a hybrid configuration.
pub fn gdn_dims(h: &HybridAttentionConfig) -> (d: GdnDims)
    requires
        h.linear_num_heads > 0,
        2 * (h.linear_num_heads * h.linear_key_head_dim) + h.linear_num_value_heads
            * h.linear_value_head_dim <= usize::MAX,
    ensures
        d.num_k_heads == h.linear_num_heads,
        d.num_v_heads == h.linear_num_value_heads,
        d.head_k_dim == h.linear_key_head_dim,
        d.head_v_dim == h.linear_value_head_dim,
        d.key_dim == h.linear_num_heads * h.linear_key_head_dim,
        d.value_dim == h.linear_num_value_heads * h.linear_value_head_dim,
        d.kv_group_size == h.linear_num_value_heads / h.linear_num_heads,
        d.d_conv == 2 * d.key_dim + d.value_dim,
{
    proof {
        let a = h.linear_num_heads as int;
        let b = h.linear_key_head_dim as int;
        let c = h.linear_num_value_heads as int;
        let e = h.linear_value_head_dim as int;
        assert(0 <= a * b) by (nonlinear_arith)
            requires
                0 <= a,
                0 <= b,
        ;
        assert(0 <= c * e) by (nonlinear_arith)
            requires
                0 <= c,
                0 <= e,
        ;
    }
    let key_dim = h.linear_num_heads * h.linear_key_head_dim;
    let value_dim = h.linear_num_value_heads * h.linear_value_head_dim;
    GdnDims {
        num_k_heads: h.linear_num_heads,
        num_v_heads: h.linear_num_value_heads,
        head_k_dim: h.linear_key_head_dim,
        head_v_dim: h.linear_value_head_dim,
        key_dim,
        value_dim,
        kv_group_size: h.linear_num_value_heads / h.linear_num_heads,
        d_conv: key_dim * 2 + value_dim,
    }
}

impl GdnDims {
    /// The `(start, len)` channel ranges of the query, key and value projections within
    /// the fused projection (and the convolution output): `[0, key_dim)`,
    /// `[key_dim, 2 * key_dim)` and `[2 * key_dim, 2 * key_dim + value_dim)`.
    pub fn qkv_ranges(&self) -> (r: ((usize, usize), (usize, usize), (usize, usize)))
        requires
            self.d_conv == 2 * self.key_dim + self.value_dim,
        ensures
            r.0 == (0usize, self.key_dim),
            r.1 == (self.key_dim, self.key_dim),
            r.2 == ((2 * self.key_dim) as usize, self.value_dim),
            r.2.0 + r.2.1 == self.d_conv,
    {
        ((0, self.key_dim), (self.key_dim, self.key_dim), (self.key_dim * 2, self.value_dim))
    }
}

/// The query, key and value ranges tile the convolution channels: every channel below
/// `d_conv` belongs to exactly one of them.
pub proof fn lemma_qkv_ranges_tile(key_dim: int, value_dim: int, c: int)
    requires
        0 <= key_dim,
        0 <= value_dim,
        0 <= c < 2 * key_dim + value_dim,
    ensures
        (c < key_dim) as int + (key_dim <= c < 2 * key_dim) as int + (2 * key_dim <= c) as int
            == 1,
{
}

/// How a decoder layer attends.
#[derive(Clone, Copy, Debug, PartialEq, Eq, Structural)]
pub enum LayerKind {
    /// Softmax attention over a paged KV cache.
    FullAttention,
    /// Gated delta net with its own slot `gdn_layer_idx` in the recurrent-state cache.
    LinearAttention { gdn_layer_idx: usize },
}

/// Whether layer `i` uses full attention: its configured type is `full_attention`, or it has
/// no configured type.
pub open spec fn is_full_layer(layer_types: Seq<Seq<char>>, i: int) -> bool {
    i >= layer_types.len() || layer_types[i] == "full_attention"@
}

/// The number of linear-attention layers among the first `i` layers.
pub open spec fn linear_layers_before(layer_types: Seq<Seq<char>>, i: int) -> nat
    decreases i,
{
    if i <= 0 {
        0
    } else if is_full_layer(layer_types, i - 1) {
        linear_layers_before(layer_types, i - 1)
    } else {
        linear_layers_before(layer_types, i - 1) + 1
    }
}

/// The number of full-attention layers among the first `i` layers.
pub open spec fn full_layers_before(layer_types: Seq<Seq<char>>, i: int) -> nat
    decreases i,
{
    if i <= 0 {
        0
    } else if is_full_layer(layer_types, i - 1) {
        full_layers_before(layer_types, i - 1) + 1
    } else {
        full_layers_before(layer_types, i - 1)
    }
}

/// The kind of layer `i`: linear layers are numbered in layer order.
pub open spec fn layer_kind_spec(layer_types: Seq<Seq<char>>, i: int) -> LayerKind {
    if is_full_layer(layer_types, i) {
        LayerKind::FullAttention
    } else {
        LayerKind::LinearAttention { gdn_layer_idx: linear_layers_before(layer_types, i) as usize }
    }
}

/// The views of a list of strings.
pub open spec fn string_views(v: Seq<String>) -> Seq<Seq<char>> {
    v.map_values(|s: String| s@)
}

/// The kind of each of the `block_count` layers, given the configured layer types (layers
/// beyond the configured ones use full attention).
pub fn plan_layers(block_count: usize, layer_types: &Vec<String>) -> (kinds: Vec<LayerKind>)
    ensures
        kinds@.len() == block_count,
        forall|i: int|
            0 <= i < block_count ==> #[trigger] kinds@[i] == layer_kind_spec(
                string_views(layer_types@),
                i,
            ),
{
    let ghost types = string_views(layer_types@);
    let mut kinds: Vec<LayerKind> = Vec::new();
    let mut gdn_layer_idx: usize = 0;
    let mut layer_idx: usize = 0;
    while layer_idx < block_count
        invariant
            types == string_views(layer_types@),
            layer_idx <= block_count,
            kinds@.len() == layer_idx,
            gdn_layer_idx == linear_layers_before(types, layer_idx as int),
            gdn_layer_idx <= layer_idx,
            forall|i: int| 0 <= i < layer_idx ==> #[trigger] kinds@[i] == layer_kind_spec(types, i),
        decreases block_count - layer_idx,
    {
        let full = if layer_idx < layer_types.len() {
            str_eq(layer_types[layer_idx].as_str(), "full_attention")
        } else {
            true
        };
        if full {
            kinds.push(LayerKind::FullAttention);
        } else {
            kinds.push(LayerKind::LinearAttention { gdn_layer_idx });
            gdn_layer_idx = gdn_layer_idx + 1;
        }
        layer_idx = layer_idx + 1;
    }
    kinds
}

/// The number of full-attention layers among the first `i` of `kinds`.
pub open spec fn full_kinds_before(kinds: Seq<LayerKind>, i: int) -> nat
    decreases i,
{
    if i <= 0 {
        0
    } else if kinds[i - 1] is FullAttention {
        full_kinds_before(kinds, i - 1) + 1
    } else {
        full_kinds_before(kinds, i - 1)
    }
}

/// The KV cache each layer reads during a forward pass: full-attention layers take the
/// caches in layer order, linear-attention layers take none.
pub fn kv_cache_indices(kinds: &Vec<LayerKind>) -> (idx: Vec<Option<usize>>)
    ensures
        idx@.len() == kinds@.len(),
        forall|i: int|
            0 <= i < kinds@.len() ==> #[trigger] idx@[i] == (if kinds@[i] is FullAttention {
                Some(full_kinds_before(kinds@, i) as usize)
            } else {
                None
            }),
{
    let n = kinds.len();
    let mut idx: Vec<Option<usize>> = Vec::new();
    let mut kv_cache_idx: usize = 0;
    let mut i: usize = 0;
    while i < n
        invariant
            n == kinds@.len(),
            i <= n,
            idx@.len() == i,
            kv_cache_idx == full_kinds_before(kinds@, i as int),
            kv_cache_idx <= i,
            forall|j: int|
                0 <= j < i ==> #[trigger] idx@[j] == (if kinds@[j] is FullAttention {
                    Some(full_kinds_before(kinds@, j) as usize)
                } else {
                    None
                }),
        decreases n - i,
    {
        match kinds[i] {
            LayerKind::FullAttention => {
                idx.push(Some(kv_cache_idx));
                kv_cache_idx = kv_cache_idx + 1;
            },
            LayerKind::LinearAttention { .. } => {
                idx.push(None);
            },
        }
        i = i + 1;
    }
    idx
}

/// Counting layers of one kind is monotone: earlier layers have seen no more of them.
proof fn lemma_full_kinds_monotone(kinds: Seq<LayerKind>, i: int, j: int)
    requires
        0 <= i <= j,
    ensures
        full_kinds_before(kinds, i) <= full_kinds_before(kinds, j),
        i < j && kinds[i] is FullAttention ==> full_kinds_before(kinds, i) < full_kinds_before(
            kinds,
            j,
        ),
    decreases j - i,
{
    if i < j {
        lemma_full_kinds_monotone(kinds, i, j - 1);
    }
}

/// Every full-attention layer reads its own KV cache: two distinct full-attention layers
/// get distinct caches, and the caches used are exactly `0..` the number of such layers.
pub proof fn lemma_kv_caches_distinct(kinds: Seq<LayerKind>, i: int, j: int)
    requires
        0 <= i < j < kinds.len(),
        kinds[i] is FullAttention,
        kinds[j] is FullAttention,
    ensures
        full_kinds_before(kinds, i) < full_kinds_before(kinds, j),
        full_kinds_before(kinds, j) < full_kinds_before(kinds, kinds.len() as int),
{
    lemma_full_kinds_monotone(kinds, i, j);
    lemma_full_kinds_monotone(kinds, j, kinds.len() as int);
}

/// Monotonicity of the count of linear layers.
proof fn lemma_linear_layers_monotone(types: Seq<Seq<char>>, i: int, j: int)
    requires
        0 <= i <= j,
    ensures
        linear_layers_before(types, i) <= linear_layers_before(types, j),
        i < j && !is_full_layer(types, i) ==> linear_layers_before(types, i)
            < linear_layers_before(types, j),
    decreases j - i,
{
    if i < j {
        lemma_linear_layers_monotone(types, i, j - 1);
    }
}

/// Every linear-attention layer owns its own recurrent-state slot: distinct linear layers
/// get distinct slots, all below the number of linear layers, which is the number of slots
/// the state cache is sized for.
pub proof fn lemma_gdn_slots_distinct(types: Seq<Seq<char>>, block_count: int, i: int, j: int)
    requires
        0 <= i < j < block_count,
        !is_full_layer(types, i),
        !is_full_layer(types, j),
    ensures
        linear_layers_before(types, i) < linear_layers_before(types, j),
        linear_layers_before(types, j) < linear_layers_before(types, block_count),
{
    lemma_linear_layers_monotone(types, i, j);
    lemma_linear_layers_monotone(types, j, block_count);
}

/// Every layer is of exactly one kind: the full-attention and linear-attention layers
/// among the first `n` number `n` together.
pub proof fn lemma_layer_counts(types: Seq<Seq<char>>, n: int)
    requires
        0 <= n,
    ensures
        linear_layers_before(types, n) + full_layers_before(types, n) == n,
    decreases n,
{
    if n > 0 {
        lemma_layer_counts(types, n - 1);
    }
}

/// The dimensions of the recurrent-state (mamba) cache.
#[derive(Clone, Copy, Debug, PartialEq, Eq, Structural)]
pub struct MambaCacheDims {
    pub num_layers: usize,
    pub max_seqs: usize,
    pub d_conv: usize,
    pub conv_kernel_size: usize,
    pub num_heads: usize,
    pub head_k_dim: usize,
    pub head_v_dim: usize,
}

/// The recurrent-state cache of a model with `num_gdn_layers` linear layers: one state
/// per linear layer for one sequence, or a minimal placeholder when the model has none.
pub fn mamba_cache_dims(num_gdn_layers: usize, d: &GdnDims, conv_kernel_size: usize) -> (m:
    MambaCacheDims)
    ensures
        num_gdn_layers > 0 ==> m == (MambaCacheDims {
            num_layers: num_gdn_layers,
            max_seqs: 1,
            d_conv: d.d_conv,
            conv_kernel_size,
            num_heads: d.num_v_heads,
            head_k_dim: d.head_k_dim,
            head_v_dim: d.head_v_dim,
        }),
        num_gdn_layers == 0 ==> m == (MambaCacheDims {
            num_layers: 0,
            max_seqs: 1,
            d_conv: 1,
            conv_kernel_size: 2,
            num_heads: 1,
            head_k_dim: 1,
            head_v_dim: 1,
        }),
{
    if num_gdn_layers > 0 {
        MambaCacheDims {
            num_layers: num_gdn_layers,
            max_seqs: 1,
            d_conv: d.d_conv,
            conv_kernel_size,
            num_heads: d.num_v_heads,
            head_k_dim: d.head_k_dim,
            head_v_dim: d.head_v_dim,
        }
    } else {
        MambaCacheDims {
            num_layers: 0,
            max_seqs: 1,
            d_conv: 1,
            conv_kernel_size: 2,
            num_heads: 1,
            head_k_dim: 1,
            head_v_dim: 1,
        }
    }
}

/// The rows to keep from the hidden states of a batch, one per sequence: the last token of
/// each, found one before its cumulative end.
pub fn last_token_indices(seq_ends: &Vec<u32>) -> (idx: Vec<u32>)
    requires
        forall|i: int| 0 <= i < seq_ends@.len() ==> #[trigger] seq_ends@[i] >= 1,
    ensures
        idx@.len() == seq_ends@.len(),
        forall|i: int| 0 <= i < seq_ends@.len() ==> #[trigger] idx@[i] == seq_ends@[i] - 1,
{
    let mut idx: Vec<u32> = Vec::new();
    let mut i: usize = 0;
    while i < seq_ends.len()
        invariant
            i <= seq_ends@.len(),
            idx@.len() == i,
            forall|j: int| 0 <= j < seq_ends@.len() ==> #[trigger] seq_ends@[j] >= 1,
            forall|j: int| 0 <= j < i ==> #[trigger] idx@[j] == seq_ends@[j] - 1,
        decreases seq_ends@.len() - i,
    {
        idx.push(seq_ends[i] - 1);
        i = i + 1;
    }
    idx
}

/// Why a batch cannot run through a gated-delta-net layer.
#[derive(Clone, Copy, Debug, PartialEq, Eq, Structural)]
pub enum GdnBatchError {
    /// The batch names no sequence slot.
    NoSequenceSlots,
    /// In decoding, each sequence contributes one token, so tokens and slots must match.
    DecodeMismatch { tokens: usize, slots: usize },
}

/// Check a batch before a gated-delta-net layer processes it: it needs at least one
/// sequence slot, and when decoding exactly one token per slot.
pub fn check_gdn_batch(slot_count: usize, token_count: usize, is_prefill: bool) -> (r: Result<
    (),
    GdnBatchError,
>)
    ensures
        slot_count == 0 ==> r == Err::<(), GdnBatchError>(GdnBatchError::NoSequenceSlots),
        slot_count > 0 && !is_prefill && token_count != slot_count ==> r == Err::<
            (),
            GdnBatchError,
        >(GdnBatchError::DecodeMismatch { tokens: token_count, slots: slot_count }),
        slot_count > 0 && (is_prefill || token_count == slot_count) ==> r == Ok::<
            (),
            GdnBatchError,
        >(()),
{
    if slot_count == 0 {
        return Err(GdnBatchError::NoSequenceSlots);
    }
    if !is_prefill && token_count != slot_count {
        return Err(GdnBatchError::DecodeMismatch { tokens: token_count, slots: slot_count });
    }
    Ok(())
}

/// How the key heads are repeated to match the value heads: unchanged when their numbers
/// agree, else each key head is broadcast to `kv_group_size` consecutive value heads,
/// giving `(seq_len, num_k_heads, kv_group_size, head_k_dim)` before it is reshaped to
/// `(seq_len, num_v_heads, head_k_dim)`. `None` means no repetition.
pub fn repeat_kv_broadcast_shape(seq_len: usize, d: &GdnDims) -> (r: Option<(usize, usize, usize, usize)>)
    ensures
        d.num_k_heads == d.num_v_heads ==> r is None,
        d.num_k_heads != d.num_v_heads ==> r == Some(
            (seq_len, d.num_k_heads, d.kv_group_size, d.head_k_dim),
        ),
{
    if d.num_k_heads == d.num_v_heads {
        None
    } else {
        Some((seq_len, d.num_k_heads, d.kv_group_size, d.head_k_dim))
    }
}

} // verus!
