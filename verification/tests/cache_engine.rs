use candle_core::DType;
use candle_vllm::cache_engine::{
    kv_cache_allocation, num_cache_blocks, plan_cache_engine, CacheConfig, CompressedStoreDims,
    KvCacheGeometry,
};

fn config() -> CacheConfig<u8> {
    CacheConfig {
        block_size: 16,
        num_gpu_blocks: None,
        num_cpu_blocks: None,
        fully_init: false,
        dtype: DType::BF16,
        kvcache_mem_gpu: 4096,
        mamba_cache_budget_bytes: 0,
        compression: Some(3),
    }
}

fn geometry() -> KvCacheGeometry {
    KvCacheGeometry {
        num_attention_heads: 32,
        num_key_value_heads: Some(8),
        head_dim: None,
        hidden_size: 4096,
        k_head_dim: 128,
        v_head_dim: 128,
        kv_cache_num_layers: 28,
    }
}

#[test]
fn fully_initialised_once_both_counts_are_set() {
    let mut c = config();
    c.set_num_gpu_blocks(100);
    assert!(!c.fully_init);
    c.set_num_cpu_blocks(20);
    assert!(c.fully_init);
    assert_eq!(c.num_gpu_blocks, Some(100));
    assert_eq!(c.num_cpu_blocks, Some(20));

    let mut d = config();
    d.set_num_cpu_blocks(5);
    assert!(!d.fully_init);
    d.set_num_gpu_blocks(7);
    assert!(d.fully_init);
    assert_eq!(d.block_size, 16);
    assert_eq!(d.compression, Some(3));
}

#[test]
fn block_count_per_device() {
    assert_eq!(num_cache_blocks(Some(100), false, false), 100);
    assert_eq!(num_cache_blocks(None, false, false), 32);
    assert_eq!(num_cache_blocks(Some(100), false, true), 1);
    assert_eq!(num_cache_blocks(Some(100), true, true), 100);
    assert_eq!(num_cache_blocks(None, true, true), 32);
}

#[test]
fn geometry_dimensions() {
    let g = geometry();
    assert_eq!(g.kv_heads_per_shard(2), 4);
    assert_eq!(g.resolved_head_dim(), 128);
    // bf16: 16 bytes hold 8 elements.
    assert_eq!(g.key_block_shape(2, 16, 1), (8, 16, 16, 8));
    assert_eq!(g.value_block_shape(16, 1), (8, 128, 16));
    assert_eq!(g.flash_block_shape(16, 2), (16, 4, 128));
    let mha = KvCacheGeometry { num_key_value_heads: None, head_dim: Some(64), ..g };
    assert_eq!(mha.kv_heads_per_shard(4), 8);
    assert_eq!(mha.resolved_head_dim(), 64);
}

#[test]
fn allocation_shapes() {
    let g = geometry();
    let a = kv_cache_allocation(&g, 16, Some(100), 2, 1, false, false, false);
    assert_eq!(a.num_layers, 28);
    assert_eq!(a.num_blocks, 100);
    assert_eq!(a.key_shape, vec![100, 8, 16, 16, 8]);
    assert_eq!(a.value_shape, vec![100, 8, 128, 16]);
    let f = kv_cache_allocation(&g, 16, None, 2, 2, false, true, true);
    assert_eq!(f.num_blocks, 1);
    assert_eq!(f.key_shape, vec![1, 16, 4, 128]);
    assert_eq!(f.value_shape, vec![1, 16, 4, 128]);
}

#[test]
fn engine_plan() {
    let g = geometry();
    let p = plan_cache_engine(&g, 16, Some(64), Some(3), 2, false, true, false);
    assert_eq!(p.num_gpu_blocks, 64);
    assert!(p.flash_layout);
    assert_eq!(
        p.compressed,
        Some(CompressedStoreDims { num_layers: 28, num_kv_heads: 4, head_dim: 128, block_size: 16, bits: 3 })
    );
    let q = plan_cache_engine(&g, 16, Some(64), None, 1, false, false, true);
    assert_eq!(q.num_gpu_blocks, 1);
    assert!(!q.flash_layout);
    assert_eq!(q.compressed, None);
}
