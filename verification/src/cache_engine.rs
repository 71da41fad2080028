//! Sizing of the paged KV cache: the cache configuration's block counts, the number of
//! blocks to allocate on a device, the shapes of the per-layer key and value block tensors,
//! and the dimensions of the compressed store when compression is enabled.

use vstd::prelude::*;
use candle_core::DType;

verus! {

#[verifier::external_type_specification]
#[verifier::external_body]
pub struct ExDType(DType);

/// Cache configuration. `C` is the compression configuration.
pub struct CacheConfig<C> {
    pub block_size: usize,
    /// Set after profiling init.
    pub num_gpu_blocks: Option<usize>,
    /// Set after profiling init.
    pub num_cpu_blocks: Option<usize>,
    pub fully_init: bool,
    pub dtype: DType,
    /// In MB.
    pub kvcache_mem_gpu: usize,
    pub mamba_cache_budget_bytes: usize,
    /// Optional compression configuration.
    pub compression: Option<C>,
}

/// The configuration after its GPU block count is set to `n`: it becomes fully initialised
/// when the CPU block count was already set.
pub open spec fn with_gpu_blocks<C>(c: CacheConfig<C>, n: usize) -> CacheConfig<C> {
    CacheConfig {
        num_gpu_blocks: Some(n),
        fully_init: c.fully_init || c.num_cpu_blocks is Some,
        ..c
    }
}

/// The configuration after its CPU block count is set to `n`: it becomes fully initialised
/// when the GPU block count was already set.
pub open spec fn with_cpu_blocks<C>(c: CacheConfig<C>, n: usize) -> CacheConfig<C> {
    CacheConfig {
        num_cpu_blocks: Some(n),
        fully_init: c.fully_init || c.num_gpu_blocks is Some,
        ..c
    }
}

/// A configuration is consistent when it claims full initialisation only once both block
/// counts are known.
pub open spec fn init_consistent<C>(c: CacheConfig<C>) -> bool {
    c.fully_init ==> c.num_gpu_blocks is Some && c.num_cpu_blocks is Some
}

impl<C> CacheConfig<C> {
    /// Record the number of GPU blocks found by profiling.
    pub fn set_num_gpu_blocks(&mut self, num_gpu_blocks: usize)
        ensures
            *final(self) == with_gpu_blocks(*old(self), num_gpu_blocks),
    {
        if self.num_cpu_blocks.is_some() {
            self.fully_init = true;
        }
        self.num_gpu_blocks = Some(num_gpu_blocks);
    }

    /// Record the number of CPU blocks found by profiling.
    pub fn set_num_cpu_blocks(&mut self, num_cpu_blocks: usize)
        ensures
            *final(self) == with_cpu_blocks(*old(self), num_cpu_blocks),
    {
        if self.num_gpu_blocks.is_some() {
            self.fully_init = true;
        }
        self.num_cpu_blocks = Some(num_cpu_blocks);
    }
}

/// Once both block counts are set, in either order, the configuration is fully initialised
/// and holds the counts last set.
pub proof fn lemma_fully_init_after_both<C>(c: CacheConfig<C>, gpu: usize, cpu: usize)
    ensures
        with_cpu_blocks(with_gpu_blocks(c, gpu), cpu).fully_init,
        with_gpu_blocks(with_cpu_blocks(c, cpu), gpu).fully_init,
        with_cpu_blocks(with_gpu_blocks(c, gpu), cpu).num_gpu_blocks == Some(gpu),
        with_cpu_blocks(with_gpu_blocks(c, gpu), cpu).num_cpu_blocks == Some(cpu),
        with_gpu_blocks(with_cpu_blocks(c, cpu), gpu).num_gpu_blocks == Some(gpu),
        with_gpu_blocks(with_cpu_blocks(c, cpu), gpu).num_cpu_blocks == Some(cpu),
{
}

/// Setting block counts keeps a configuration consistent: it never claims full
/// initialisation while a block count is missing.
pub proof fn lemma_setters_keep_consistency<C>(c: CacheConfig<C>, n: usize)
    requires
        init_consistent(c),
    ensures
        init_consistent(with_gpu_blocks(c, n)),
        init_consistent(with_cpu_blocks(c, n)),
{
}

/// The number of cache blocks to allocate on a device: the configured number (32 when
/// unset), except on the CPU of a build without CUDA, which gets a single dummy block.
pub open spec fn cache_blocks_spec(configured: Option<usize>, cuda_build: bool, device_is_cpu: bool) -> usize {
    if !cuda_build && device_is_cpu {
        1
    } else {
        match configured {
            Some(n) => n,
            None => 32,
        }
    }
}

/// The number of cache blocks to allocate on a device.
pub fn num_cache_blocks(configured: Option<usize>, cuda_build: bool, device_is_cpu: bool) -> (n:
    usize)
    ensures
        n == cache_blocks_spec(configured, cuda_build, device_is_cpu),
        (cuda_build || !device_is_cpu) && configured is Some ==> n == configured->0,
        (cuda_build || !device_is_cpu) && configured is None ==> n == 32,
        !cuda_build && device_is_cpu ==> n == 1,
{
    if cuda_build {
        match configured {
            Some(n) => n,
            None => 32,
        }
    } else if device_is_cpu {
        1
    } else {
        match configured {
            Some(n) => n,
            None => 32,
        }
    }
}

/// The configured block count is honoured on every device that holds a real cache: with a
/// CUDA build, or on any device but the CPU, the cache gets exactly the configured number of
/// blocks when one is set, and 32 when none is. Only a build without CUDA running on the CPU
/// gets the single placeholder block, whatever is configured.
pub proof fn lemma_configured_blocks_honoured(configured: Option<usize>, cuda_build: bool, device_is_cpu: bool)
    ensures
        (cuda_build || !device_is_cpu) ==> forall|n: usize|
            configured == Some(n) ==> cache_blocks_spec(configured, cuda_build, device_is_cpu) == n,
        (cuda_build || !device_is_cpu) && configured is None ==> cache_blocks_spec(
            configured,
            cuda_build,
            device_is_cpu,
        ) == 32,
        cache_blocks_spec(configured, cuda_build, device_is_cpu) == 1 ==> (!cuda_build
            && device_is_cpu) || configured == Some(1usize),
        !cuda_build && device_is_cpu ==> cache_blocks_spec(configured, cuda_build, device_is_cpu)
            == 1,
{
}

/// What the KV cache reads of a model's configuration.
#[derive(Clone, Copy, Debug, PartialEq, Eq, Structural)]
pub struct KvCacheGeometry {
    pub num_attention_heads: usize,
    pub num_key_value_heads: Option<usize>,
    pub head_dim: Option<usize>,
    pub hidden_size: usize,
    /// Dimension of one key head.
    pub k_head_dim: usize,
    /// Dimension of one value head.
    pub v_head_dim: usize,
    /// Number of layers that hold a KV cache.
    pub kv_cache_num_layers: usize,
}

impl KvCacheGeometry {
    /// KV heads held by one shard: the KV heads (the attention heads when unset) divided
    /// among `num_shards`.
    pub open spec fn kv_heads_per_shard_spec(self, num_shards: usize) -> usize {
        match self.num_key_value_heads {
            Some(h) => h / num_shards,
            None => self.num_attention_heads / num_shards,
        }
    }

    /// The head dimension: the configured one, else the hidden size divided among the
    /// attention heads.
    pub open spec fn head_dim_spec(self) -> usize {
        match self.head_dim {
            Some(d) => d,
            None => self.hidden_size / self.num_attention_heads,
        }
    }

    /// KV heads held by one shard.
    pub fn kv_heads_per_shard(&self, num_shards: usize) -> (n: usize)
        requires
            num_shards > 0,
        ensures
            n == self.kv_heads_per_shard_spec(num_shards),
    {
        match self.num_key_value_heads {
            Some(h) => h / num_shards,
            None => self.num_attention_heads / num_shards,
        }
    }

    /// The head dimension used by the flash layout and by compression.
    pub fn resolved_head_dim(&self) -> (d: usize)
        requires
            self.head_dim is None ==> self.num_attention_heads > 0,
        ensures
            d == self.head_dim_spec(),
    {
        match self.head_dim {
            Some(d) => d,
            None => self.hidden_size / self.num_attention_heads,
        }
    }

    /// Shape of one block of the key cache in the standard paged-attention layout:
    /// `(num_kv_heads, k_head_dim / x, block_size, x)` with `x = 16 / element_size`
    /// elements in 16 bytes.
    pub fn key_block_shape(&self, element_size: usize, block_size: usize, num_shards: usize) -> (s:
        (usize, usize, usize, usize))
        requires
            0 < element_size <= 16,
            num_shards > 0,
        ensures
            s.0 == self.kv_heads_per_shard_spec(num_shards),
            s.1 == self.k_head_dim / (16usize / element_size),
            s.2 == block_size,
            s.3 == 16usize / element_size,
    {
        let x = 16 / element_size;
        assert(x >= 1) by (nonlinear_arith)
            requires
                0 < element_size <= 16,
                x == 16usize / element_size,
        ;
        (self.kv_heads_per_shard(num_shards), self.k_head_dim / x, block_size, x)
    }

    /// Shape of one block of the value cache in the standard layout:
    /// `(num_kv_heads, v_head_dim, block_size)`.
    pub fn value_block_shape(&self, block_size: usize, num_shards: usize) -> (s: (usize, usize, usize))
        requires
            num_shards > 0,
        ensures
            s.0 == self.kv_heads_per_shard_spec(num_shards),
            s.1 == self.v_head_dim,
            s.2 == block_size,
    {
        (self.kv_heads_per_shard(num_shards), self.v_head_dim, block_size)
    }

    /// Shape of one key (or value) block in the flash-attention layout:
    /// `(block_size, num_kv_heads, head_dim)`.
    pub fn flash_block_shape(&self, block_size: usize, num_shards: usize) -> (s: (usize, usize, usize))
        requires
            num_shards > 0,
            self.head_dim is None ==> self.num_attention_heads > 0,
        ensures
            s.0 == block_size,
            s.1 == self.kv_heads_per_shard_spec(num_shards),
            s.2 == self.head_dim_spec(),
    {
        (block_size, self.kv_heads_per_shard(num_shards), self.resolved_head_dim())
    }
}

/// The shape of the per-layer key and value cache tensors.
pub open spec fn key_cache_shape(
    g: KvCacheGeometry,
    num_blocks: usize,
    block_size: usize,
    element_size: usize,
    num_shards: usize,
    flash: bool,
) -> Seq<usize> {
    if flash {
        seq![num_blocks, block_size, g.kv_heads_per_shard_spec(num_shards), g.head_dim_spec()]
    } else {
        seq![
            num_blocks,
            g.kv_heads_per_shard_spec(num_shards),
            g.k_head_dim / (16usize / element_size),
            block_size,
            16usize / element_size,
        ]
    }
}

/// Both layouts of the per-layer cache tensors, element by element. In the standard layout
/// each 16-byte group holds `16 / element_size` elements, so the key head dimension is
/// split into `k_head_dim / x` groups of `x`; the flash layout keeps whole heads.
pub proof fn lemma_cache_shapes(
    g: KvCacheGeometry,
    num_blocks: usize,
    block_size: usize,
    element_size: usize,
    num_shards: usize,
    flash: bool,
)
    requires
        !flash ==> 0 < element_size <= 16,
    ensures
        ({
            let k = key_cache_shape(g, num_blocks, block_size, element_size, num_shards, flash);
            let v = value_cache_shape(g, num_blocks, block_size, num_shards, flash);
            let x: int = 16int / (element_size as int);
            &&& flash ==> k.len() == 4 && k[0] == num_blocks && k[1] == block_size && k[2]
                == g.kv_heads_per_shard_spec(num_shards) && k[3] == g.head_dim_spec()
            &&& flash ==> v == k
            &&& !flash ==> k.len() == 5 && k[0] == num_blocks && k[1]
                == g.kv_heads_per_shard_spec(num_shards) && k[2] as int == g.k_head_dim as int / x
                && k[3] == block_size && k[4] as int == x && 1 <= x <= 16
            &&& !flash ==> v.len() == 4 && v[0] == num_blocks && v[1]
                == g.kv_heads_per_shard_spec(num_shards) && v[2] == g.v_head_dim && v[3]
                == block_size
        }),
{
    if !flash {
        assert(1 <= 16int / (element_size as int) <= 16) by (nonlinear_arith)
            requires
                0 < element_size <= 16,
        ;
    }
}

/// The shape of the per-layer value cache tensor.
pub open spec fn value_cache_shape(
    g: KvCacheGeometry,
    num_blocks: usize,
    block_size: usize,
    num_shards: usize,
    flash: bool,
) -> Seq<usize> {
    if flash {
        seq![num_blocks, block_size, g.kv_heads_per_shard_spec(num_shards), g.head_dim_spec()]
    } else {
        seq![num_blocks, g.kv_heads_per_shard_spec(num_shards), g.v_head_dim, block_size]
    }
}

/// How the KV cache of one device is allocated: one zero-filled key tensor and one
/// value tensor of the given shapes for each of `num_layers` layers.
pub struct KvCacheAllocation {
    pub num_layers: usize,
    pub num_blocks: usize,
    pub key_shape: Vec<usize>,
    pub value_shape: Vec<usize>,
}

/// The KV cache allocation for a device: the number of blocks (see `num_cache_blocks`) and
/// the tensor shapes of the flash-attention layout when `flash` is set, else of the
/// standard paged-attention layout for elements of `element_size` bytes.
pub fn kv_cache_allocation(
    g: &KvCacheGeometry,
    block_size: usize,
    configured_blocks: Option<usize>,
    element_size: usize,
    num_shards: usize,
    cuda_build: bool,
    flash: bool,
    device_is_cpu: bool,
) -> (a: KvCacheAllocation)
    requires
        num_shards > 0,
        flash ==> (g.head_dim is None ==> g.num_attention_heads > 0),
        !flash ==> 0 < element_size <= 16,
    ensures
        a.num_layers == g.kv_cache_num_layers,
        a.num_blocks == cache_blocks_spec(configured_blocks, cuda_build, device_is_cpu),
        a.key_shape@ == key_cache_shape(*g, a.num_blocks, block_size, element_size, num_shards, flash),
        a.value_shape@ == value_cache_shape(*g, a.num_blocks, block_size, num_shards, flash),
{
    let num_blocks = num_cache_blocks(configured_blocks, cuda_build, device_is_cpu);
    if flash {
        let s = g.flash_block_shape(block_size, num_shards);
        let key_shape = vec![num_blocks, s.0, s.1, s.2];
        let value_shape = vec![num_blocks, s.0, s.1, s.2];
        KvCacheAllocation { num_layers: g.kv_cache_num_layers, num_blocks, key_shape, value_shape }
    } else {
        let k = g.key_block_shape(element_size, block_size, num_shards);
        let v = g.value_block_shape(block_size, num_shards);
        let key_shape = vec![num_blocks, k.0, k.1, k.2, k.3];
        let value_shape = vec![num_blocks, v.0, v.1, v.2];
        KvCacheAllocation { num_layers: g.kv_cache_num_layers, num_blocks, key_shape, value_shape }
    }
}

/// The dimensions of the compressed KV store: one layer cache per KV-cache layer.
#[derive(Clone, Copy, Debug, PartialEq, Eq, Structural)]
pub struct CompressedStoreDims {
    pub num_layers: usize,
    pub num_kv_heads: usize,
    pub head_dim: usize,
    pub block_size: usize,
    pub bits: u8,
}

/// What the cache engine sets up: the number of GPU blocks, whether the flash-attention
/// layout is used, and the compressed store's dimensions when compression is enabled.
#[derive(Clone, Copy, Debug, PartialEq, Eq, Structural)]
pub struct CacheEnginePlan {
    pub num_gpu_blocks: usize,
    pub flash_layout: bool,
    pub compressed: Option<CompressedStoreDims>,
}

/// The cache engine's set-up for a model of geometry `g` sharded `num_shards` ways, with
/// `compression_bits` when compression is configured.
pub fn plan_cache_engine(
    g: &KvCacheGeometry,
    block_size: usize,
    configured_gpu_blocks: Option<usize>,
    compression_bits: Option<u8>,
    num_shards: usize,
    cuda_build: bool,
    flash_build: bool,
    device_is_cpu: bool,
) -> (p: CacheEnginePlan)
    requires
        num_shards > 0,
        compression_bits is Some && g.head_dim is None ==> g.num_attention_heads > 0,
    ensures
        p.num_gpu_blocks == cache_blocks_spec(configured_gpu_blocks, cuda_build, device_is_cpu),
        p.flash_layout == flash_build,
        p.compressed == (match compression_bits {
            Some(bits) => Some(
                CompressedStoreDims {
                    num_layers: g.kv_cache_num_layers,
                    num_kv_heads: g.kv_heads_per_shard_spec(num_shards),
                    head_dim: g.head_dim_spec(),
                    block_size,
                    bits,
                },
            ),
            None => None,
        }),
{
    let num_gpu_blocks = num_cache_blocks(configured_gpu_blocks, cuda_build, device_is_cpu);
    let compressed = match compression_bits {
        Some(bits) => Some(
            CompressedStoreDims {
                num_layers: g.kv_cache_num_layers,
                num_kv_heads: g.kv_heads_per_shard(num_shards),
                head_dim: g.resolved_head_dim(),
                block_size,
                bits,
            },
        ),
        None => None,
    };
    CacheEnginePlan { num_gpu_blocks, flash_layout: flash_build, compressed }
}

} // verus!
