use candle_vllm::hybrid_layout::{
    check_gdn_batch, gdn_dims, gguf_head_dim, hybrid_attention_config, kv_cache_indices,
    last_token_indices, mamba_cache_dims, plan_layers, repeat_kv_broadcast_shape, GdnBatchError,
    HybridAttentionConfig, LayerKind, MambaCacheDims,
};

fn hybrid() -> HybridAttentionConfig {
    hybrid_attention_config(4, 4, 16, 128, 32, 2048)
}

#[test]
fn hybrid_config_from_gguf_metadata() {
    assert_eq!(
        hybrid(),
        HybridAttentionConfig {
            full_attention_interval: 4,
            conv_kernel_size: 4,
            linear_num_heads: 16,
            linear_num_value_heads: 32,
            linear_key_head_dim: 128,
            linear_value_head_dim: 128,
        }
    );
    assert_eq!(gguf_head_dim(Some(256), 2048, 16), 256);
    assert_eq!(gguf_head_dim(None, 2048, 16), 128);
}

#[test]
fn gdn_dimensions() {
    let d = gdn_dims(&hybrid());
    assert_eq!(d.key_dim, 16 * 128);
    assert_eq!(d.value_dim, 32 * 128);
    assert_eq!(d.kv_group_size, 2);
    assert_eq!(d.d_conv, 2 * 16 * 128 + 32 * 128);
    assert_eq!(d.qkv_ranges(), ((0, 2048), (2048, 2048), (4096, 4096)));
    assert_eq!(repeat_kv_broadcast_shape(5, &d), Some((5, 16, 2, 128)));
    let same = gdn_dims(&hybrid_attention_config(4, 4, 8, 64, 8, 512));
    assert_eq!(repeat_kv_broadcast_shape(5, &same), None);
}

#[test]
fn layer_plan_numbers_linear_layers_in_order() {
    let types: Vec<String> = ["linear_attention", "linear_attention", "linear_attention", "full_attention", "linear_attention"]
        .iter()
        .map(|s| s.to_string())
        .collect();
    let kinds = plan_layers(7, &types);
    assert_eq!(
        kinds,
        vec![
            LayerKind::LinearAttention { gdn_layer_idx: 0 },
            LayerKind::LinearAttention { gdn_layer_idx: 1 },
            LayerKind::LinearAttention { gdn_layer_idx: 2 },
            LayerKind::FullAttention,
            LayerKind::LinearAttention { gdn_layer_idx: 3 },
            LayerKind::FullAttention,
            LayerKind::FullAttention,
        ]
    );
    assert_eq!(kv_cache_indices(&kinds), vec![None, None, None, Some(0), None, Some(1), Some(2)]);
    assert!(plan_layers(0, &types).is_empty());
}

#[test]
fn mamba_cache_sizing() {
    let d = gdn_dims(&hybrid());
    assert_eq!(
        mamba_cache_dims(3, &d, 4),
        MambaCacheDims { num_layers: 3, max_seqs: 1, d_conv: d.d_conv, conv_kernel_size: 4, num_heads: 32, head_k_dim: 128, head_v_dim: 128 }
    );
    assert_eq!(
        mamba_cache_dims(0, &d, 4),
        MambaCacheDims { num_layers: 0, max_seqs: 1, d_conv: 1, conv_kernel_size: 2, num_heads: 1, head_k_dim: 1, head_v_dim: 1 }
    );
}

#[test]
fn last_tokens_and_batch_checks() {
    assert_eq!(last_token_indices(&vec![3, 7, 12]), vec![2, 6, 11]);
    assert!(last_token_indices(&vec![]).is_empty());
    assert_eq!(check_gdn_batch(0, 4, true), Err(GdnBatchError::NoSequenceSlots));
    assert_eq!(check_gdn_batch(2, 3, false), Err(GdnBatchError::DecodeMismatch { tokens: 3, slots: 2 }));
    assert_eq!(check_gdn_batch(2, 3, true), Ok(()));
    assert_eq!(check_gdn_batch(2, 2, false), Ok(()));
}
