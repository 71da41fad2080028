use candle_vllm::gguf_metadata::{
    read_gguf_dims, GgufDims, GgufMetadata, MetadataEntry, MetadataError, MetadataKey,
};
use candle_vllm::hybrid_layout::{gguf_model_config, GgufModelConfig, HybridAttentionConfig};
use candle_vllm::kv_layout::ElementType;

fn full() -> GgufMetadata {
    GgufMetadata {
        architecture: MetadataEntry::Str,
        head_count: MetadataEntry::U32(16),
        head_count_kv: MetadataEntry::U32(2),
        embedding_length: MetadataEntry::U32(2048),
        key_length: MetadataEntry::U32(256),
        context_length: MetadataEntry::U32(32768),
        block_count: MetadataEntry::U32(24),
        layer_norm_rms_epsilon: MetadataEntry::F32,
        rope_dimension_count: MetadataEntry::U32(64),
        full_attention_interval: MetadataEntry::U32(4),
        ssm_conv_kernel: MetadataEntry::U32(4),
        ssm_state_size: MetadataEntry::U32(128),
        ssm_group_count: MetadataEntry::U32(16),
        ssm_time_step_rank: MetadataEntry::U32(32),
        ssm_inner_size: MetadataEntry::U32(4096),
    }
}

#[test]
fn complete_metadata_gives_its_dimensions() {
    assert_eq!(
        read_gguf_dims(&full()),
        Ok(GgufDims {
            head_count: 16,
            head_count_kv: 2,
            embedding_length: 2048,
            head_dim: 256,
            context_length: 32768,
            block_count: 24,
            partial_rotary_dim: Some(64),
            full_attention_interval: 4,
            ssm_conv_kernel: 4,
            ssm_state_size: 128,
            ssm_group_count: 16,
            ssm_time_step_rank: 32,
            ssm_inner_size: 4096,
        })
    );
}

#[test]
fn optional_keys_take_their_defaults() {
    let mut md = full();
    md.key_length = MetadataEntry::Absent;
    md.rope_dimension_count = MetadataEntry::U32(128);
    md.ssm_inner_size = MetadataEntry::Other;
    let d = read_gguf_dims(&md).unwrap();
    assert_eq!(d.head_dim, 2048 / 16);
    assert_eq!(d.partial_rotary_dim, None);
    assert_eq!(d.ssm_inner_size, 2048);
    md.rope_dimension_count = MetadataEntry::Absent;
    assert_eq!(read_gguf_dims(&md).unwrap().partial_rotary_dim, None);
}

#[test]
fn first_missing_or_mistyped_key_is_reported() {
    let mut md = full();
    md.ssm_time_step_rank = MetadataEntry::Absent;
    md.block_count = MetadataEntry::Absent;
    assert_eq!(read_gguf_dims(&md), Err(MetadataError::Missing(MetadataKey::BlockCount)));
    let mut md = full();
    md.key_length = MetadataEntry::F32;
    assert_eq!(read_gguf_dims(&md), Err(MetadataError::WrongType(MetadataKey::KeyLength)));
    let mut md = full();
    md.layer_norm_rms_epsilon = MetadataEntry::U32(1);
    assert_eq!(read_gguf_dims(&md), Err(MetadataError::WrongType(MetadataKey::LayerNormRmsEpsilon)));
    let mut md = full();
    md.architecture = MetadataEntry::Absent;
    md.head_count = MetadataEntry::Absent;
    assert_eq!(read_gguf_dims(&md), Err(MetadataError::Missing(MetadataKey::Architecture)));
    let mut md = full();
    md.ssm_time_step_rank = MetadataEntry::Str;
    assert_eq!(read_gguf_dims(&md), Err(MetadataError::WrongType(MetadataKey::SsmTimeStepRank)));
}

#[test]
fn model_config_from_dimensions() {
    let d = read_gguf_dims(&full()).unwrap();
    let c = gguf_model_config(&d, ElementType::BF16);
    assert_eq!(
        c,
        GgufModelConfig {
            hidden_size: 2048,
            head_dim: 256,
            num_hidden_layers: 24,
            num_attention_heads: 16,
            num_key_value_heads: 2,
            max_seq_len: 32768,
            max_position_embeddings: 32768,
            bos_token_id: 151644,
            eos_token_id: 151645,
            tie_word_embeddings: false,
            attention_bias: false,
            fp8_kvcache: false,
            hybrid: HybridAttentionConfig {
                full_attention_interval: 4,
                conv_kernel_size: 4,
                linear_num_heads: 16,
                linear_num_value_heads: 32,
                linear_key_head_dim: 256,
                linear_value_head_dim: 128,
            },
        }
    );
    assert!(gguf_model_config(&d, ElementType::U8).fp8_kvcache);
}
