//! The model dimensions read from the metadata of a GGUF checkpoint of the hybrid Qwen3.5
//! model: which keys are required, which have defaults, and which error a missing or
//! mistyped key gives.

use vstd::prelude::*;

verus! {

/// One metadata entry, as far as reading the dimensions depends on it.
#[derive(Clone, Copy, Debug, PartialEq, Eq, Structural)]
pub enum MetadataEntry {
    /// The key is not in the metadata.
    Absent,
    /// A `u32` value.
    U32(u32),
    /// An `f32` value.
    F32,
    /// A string value.
    Str,
    /// A value of any other type.
    Other,
}

/// The metadata entries the dimensions are read from; all but the architecture are looked
/// up under the architecture's prefix.
#[derive(Clone, Copy, Debug, PartialEq, Eq, Structural)]
pub struct GgufMetadata {
    pub architecture: MetadataEntry,
    pub head_count: MetadataEntry,
    pub head_count_kv: MetadataEntry,
    pub embedding_length: MetadataEntry,
    pub key_length: MetadataEntry,
    pub context_length: MetadataEntry,
    pub block_count: MetadataEntry,
    pub layer_norm_rms_epsilon: MetadataEntry,
    pub rope_dimension_count: MetadataEntry,
    pub full_attention_interval: MetadataEntry,
    pub ssm_conv_kernel: MetadataEntry,
    pub ssm_state_size: MetadataEntry,
    pub ssm_group_count: MetadataEntry,
    pub ssm_time_step_rank: MetadataEntry,
    pub ssm_inner_size: MetadataEntry,
}

/// The metadata keys whose absence or type can make reading fail.
#[derive(Clone, Copy, Debug, PartialEq, Eq, Structural)]
pub enum MetadataKey {
    Architecture,
    HeadCount,
    HeadCountKv,
    EmbeddingLength,
    KeyLength,
    ContextLength,
    BlockCount,
    LayerNormRmsEpsilon,
    RopeDimensionCount,
    FullAttentionInterval,
    SsmConvKernel,
    SsmStateSize,
    SsmGroupCount,
    SsmTimeStepRank,
}

/// Why the dimensions could not be read.
#[derive(Clone, Copy, Debug, PartialEq, Eq, Structural)]
pub enum MetadataError {
    /// A required key is absent.
    Missing(MetadataKey),
    /// A key holds a value of the wrong type.
    WrongType(MetadataKey),
}

/// The dimensions of the model, as read from its metadata.
#[derive(Clone, Copy, Debug, PartialEq, Eq, Structural)]
pub struct GgufDims {
    pub head_count: usize,
    pub head_count_kv: usize,
    pub embedding_length: usize,
    pub head_dim: usize,
    pub context_length: usize,
    pub block_count: usize,
    /// The rotary dimension when it differs from the head dimension (partial rotary
    /// embedding); `None` when absent or equal to the head dimension.
    pub partial_rotary_dim: Option<usize>,
    pub full_attention_interval: usize,
    pub ssm_conv_kernel: usize,
    pub ssm_state_size: usize,
    pub ssm_group_count: usize,
    pub ssm_time_step_rank: usize,
    pub ssm_inner_size: usize,
}

/// The fault of a required `u32` entry under key `k`, if any.
pub open spec fn u32_fault(e: MetadataEntry, k: MetadataKey) -> Option<MetadataError> {
    match e {
        MetadataEntry::Absent => Some(MetadataError::Missing(k)),
        MetadataEntry::U32(_) => None,
        _ => Some(MetadataError::WrongType(k)),
    }
}

/// The fault of an optional `u32` entry under key `k`: only a value of another type.
pub open spec fn optional_u32_fault(e: MetadataEntry, k: MetadataKey) -> Option<MetadataError> {
    match e {
        MetadataEntry::Absent => None,
        MetadataEntry::U32(_) => None,
        _ => Some(MetadataError::WrongType(k)),
    }
}

/// The fault of a required string entry under key `k`, if any.
pub open spec fn str_fault(e: MetadataEntry, k: MetadataKey) -> Option<MetadataError> {
    match e {
        MetadataEntry::Absent => Some(MetadataError::Missing(k)),
        MetadataEntry::Str => None,
        _ => Some(MetadataError::WrongType(k)),
    }
}

/// The fault of a required `f32` entry under key `k`, if any.
pub open spec fn f32_fault(e: MetadataEntry, k: MetadataKey) -> Option<MetadataError> {
    match e {
        MetadataEntry::Absent => Some(MetadataError::Missing(k)),
        MetadataEntry::F32 => None,
        _ => Some(MetadataError::WrongType(k)),
    }
}

/// `a` if it is a fault, else `b`.
pub open spec fn first_of(a: Option<MetadataError>, b: Option<MetadataError>) -> Option<
    MetadataError,
> {
    if a is Some {
        a
    } else {
        b
    }
}

/// The first fault met when the entries are read in order: the architecture, the head
/// counts, the embedding length, the key length, the context length, the block count, the
/// norm epsilon, the rotary dimension, then the full-attention interval and the SSM
/// parameters. The key length and the rotary dimension may be absent; the SSM inner size
/// is never a fault.
pub open spec fn first_fault(md: GgufMetadata) -> Option<MetadataError> {
    first_of(str_fault(md.architecture, MetadataKey::Architecture),
    first_of(u32_fault(md.head_count, MetadataKey::HeadCount),
    first_of(u32_fault(md.head_count_kv, MetadataKey::HeadCountKv),
    first_of(u32_fault(md.embedding_length, MetadataKey::EmbeddingLength),
    first_of(optional_u32_fault(md.key_length, MetadataKey::KeyLength),
    first_of(u32_fault(md.context_length, MetadataKey::ContextLength),
    first_of(u32_fault(md.block_count, MetadataKey::BlockCount),
    first_of(f32_fault(md.layer_norm_rms_epsilon, MetadataKey::LayerNormRmsEpsilon),
    first_of(optional_u32_fault(md.rope_dimension_count, MetadataKey::RopeDimensionCount),
    first_of(u32_fault(md.full_attention_interval, MetadataKey::FullAttentionInterval),
    first_of(u32_fault(md.ssm_conv_kernel, MetadataKey::SsmConvKernel),
    first_of(u32_fault(md.ssm_state_size, MetadataKey::SsmStateSize),
    first_of(u32_fault(md.ssm_group_count, MetadataKey::SsmGroupCount),
    u32_fault(md.ssm_time_step_rank, MetadataKey::SsmTimeStepRank))))))))))))))
}

/// The value of a `u32` entry, `default` for any other entry.
pub open spec fn u32_or(e: MetadataEntry, default: usize) -> usize {
    match e {
        MetadataEntry::U32(v) => v as usize,
        _ => default,
    }
}

/// The head dimension: the key length when present, else the embedding length divided
/// among the heads.
pub open spec fn head_dim_of(md: GgufMetadata) -> usize {
    u32_or(md.key_length, (u32_or(md.embedding_length, 0) / u32_or(md.head_count, 0)) as usize)
}

/// The dimensions read from metadata without faults. The SSM inner size defaults to the
/// embedding length.
pub open spec fn dims_of(md: GgufMetadata) -> GgufDims {
    GgufDims {
        head_count: u32_or(md.head_count, 0),
        head_count_kv: u32_or(md.head_count_kv, 0),
        embedding_length: u32_or(md.embedding_length, 0),
        head_dim: head_dim_of(md),
        context_length: u32_or(md.context_length, 0),
        block_count: u32_or(md.block_count, 0),
        partial_rotary_dim: match md.rope_dimension_count {
            MetadataEntry::U32(v) => if v as usize != head_dim_of(md) {
                Some(v as usize)
            } else {
                None
            },
            _ => None,
        },
        full_attention_interval: u32_or(md.full_attention_interval, 0),
        ssm_conv_kernel: u32_or(md.ssm_conv_kernel, 0),
        ssm_state_size: u32_or(md.ssm_state_size, 0),
        ssm_group_count: u32_or(md.ssm_group_count, 0),
        ssm_time_step_rank: u32_or(md.ssm_time_step_rank, 0),
        ssm_inner_size: u32_or(md.ssm_inner_size, u32_or(md.embedding_length, 0)),
    }
}

/// The head dimension would be derived by dividing by a head count of zero.
pub open spec fn divides_by_zero(md: GgufMetadata) -> bool {
    &&& md.architecture is Str
    &&& md.head_count == MetadataEntry::U32(0)
    &&& md.head_count_kv is U32
    &&& md.embedding_length is U32
    &&& md.key_length is Absent
}

/// The value of a required `u32` entry under key `k`.
fn required_u32(e: MetadataEntry, k: MetadataKey) -> (r: Result<usize, MetadataError>)
    ensures
        match u32_fault(e, k) {
            Some(f) => r == Err::<usize, MetadataError>(f),
            None => r == Ok::<usize, MetadataError>(u32_or(e, 0)),
        },
{
    match e {
        MetadataEntry::Absent => Err(MetadataError::Missing(k)),
        MetadataEntry::U32(v) => Ok(v as usize),
        _ => Err(MetadataError::WrongType(k)),
    }
}

/// The value of an optional `u32` entry under key `k`.
fn optional_u32(e: MetadataEntry, k: MetadataKey) -> (r: Result<Option<usize>, MetadataError>)
    ensures
        match optional_u32_fault(e, k) {
            Some(f) => r == Err::<Option<usize>, MetadataError>(f),
            None => r == Ok::<Option<usize>, MetadataError>(
                match e {
                    MetadataEntry::U32(v) => Some(v as usize),
                    _ => None,
                },
            ),
        },
{
    match e {
        MetadataEntry::Absent => Ok(None),
        MetadataEntry::U32(v) => Ok(Some(v as usize)),
        _ => Err(MetadataError::WrongType(k)),
    }
}

/// Read the model dimensions from its metadata entries, reading them in the order of
/// `first_fault` and failing with the first missing or mistyped entry.
pub fn read_gguf_dims(md: &GgufMetadata) -> (r: Result<GgufDims, MetadataError>)
    requires
        !divides_by_zero(*md),
    ensures
        match first_fault(*md) {
            Some(f) => r == Err::<GgufDims, MetadataError>(f),
            None => r == Ok::<GgufDims, MetadataError>(dims_of(*md)),
        },
{
    match md.architecture {
        MetadataEntry::Str => {},
        MetadataEntry::Absent => {
            return Err(MetadataError::Missing(MetadataKey::Architecture));
        },
        _ => {
            return Err(MetadataError::WrongType(MetadataKey::Architecture));
        },
    }
    let head_count = match required_u32(md.head_count, MetadataKey::HeadCount) {
        Ok(v) => v,
        Err(f) => {
            return Err(f);
        },
    };
    let head_count_kv = match required_u32(md.head_count_kv, MetadataKey::HeadCountKv) {
        Ok(v) => v,
        Err(f) => {
            return Err(f);
        },
    };
    let embedding_length = match required_u32(md.embedding_length, MetadataKey::EmbeddingLength) {
        Ok(v) => v,
        Err(f) => {
            return Err(f);
        },
    };
    let head_dim = match optional_u32(md.key_length, MetadataKey::KeyLength) {
        Ok(Some(v)) => v,
        Ok(None) => embedding_length / head_count,
        Err(f) => {
            return Err(f);
        },
    };
    let context_length = match required_u32(md.context_length, MetadataKey::ContextLength) {
        Ok(v) => v,
        Err(f) => {
            return Err(f);
        },
    };
    let block_count = match required_u32(md.block_count, MetadataKey::BlockCount) {
        Ok(v) => v,
        Err(f) => {
            return Err(f);
        },
    };
    match md.layer_norm_rms_epsilon {
        MetadataEntry::F32 => {},
        MetadataEntry::Absent => {
            return Err(MetadataError::Missing(MetadataKey::LayerNormRmsEpsilon));
        },
        _ => {
            return Err(MetadataError::WrongType(MetadataKey::LayerNormRmsEpsilon));
        },
    }
    let partial_rotary_dim = match optional_u32(
        md.rope_dimension_count,
        MetadataKey::RopeDimensionCount,
    ) {
        Ok(Some(v)) => if v != head_dim {
            Some(v)
        } else {
            None
        },
        Ok(None) => None,
        Err(f) => {
            return Err(f);
        },
    };
    let full_attention_interval = match required_u32(
        md.full_attention_interval,
        MetadataKey::FullAttentionInterval,
    ) {
        Ok(v) => v,
        Err(f) => {
            return Err(f);
        },
    };
    let ssm_conv_kernel = match required_u32(md.ssm_conv_kernel, MetadataKey::SsmConvKernel) {
        Ok(v) => v,
        Err(f) => {
            return Err(f);
        },
    };
    let ssm_state_size = match required_u32(md.ssm_state_size, MetadataKey::SsmStateSize) {
        Ok(v) => v,
        Err(f) => {
            return Err(f);
        },
    };
    let ssm_group_count = match required_u32(md.ssm_group_count, MetadataKey::SsmGroupCount) {
        Ok(v) => v,
        Err(f) => {
            return Err(f);
        },
    };
    let ssm_time_step_rank = match required_u32(md.ssm_time_step_rank, MetadataKey::SsmTimeStepRank) {
        Ok(v) => v,
        Err(f) => {
            return Err(f);
        },
    };
    let ssm_inner_size = match md.ssm_inner_size {
        MetadataEntry::U32(v) => v as usize,
        _ => embedding_length,
    };
    Ok(
        GgufDims {
            head_count,
            head_count_kv,
            embedding_length,
            head_dim,
            context_length,
            block_count,
            partial_rotary_dim,
            full_attention_interval,
            ssm_conv_kernel,
            ssm_state_size,
            ssm_group_count,
            ssm_time_step_rank,
            ssm_inner_size,
        },
    )
}

} // verus!
