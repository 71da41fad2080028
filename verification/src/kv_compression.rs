//! Bookkeeping of the compressed KV cache of one transformer layer: which token slots
//! hold compressed key/value vectors, the checks made before a slot is stored, and where
//! each head's coordinates lie in a flat per-slot vector.
//!
//! The cache is generic over the quantizer `Q` that compresses vectors and over the
//! compressed vector representation `V`; the cache only stores and finds them.

use vstd::prelude::*;
use std::collections::HashMap;
use crate::kv_layout::{key_seed_spec, layer_seeds, lemma_slot_ids_distinct, slot_id, slot_id_spec, val_seed_spec};

verus! {

broadcast use vstd::std_specs::hash::group_hash_axioms;

/// `n` is a power of two.
pub open spec fn is_pow2(n: nat) -> bool
    decreases n,
{
    if n == 0 {
        false
    } else if n == 1 {
        true
    } else {
        n % 2 == 0 && is_pow2(n / 2)
    }
}

/// Whether `n` is a power of two (as `usize::is_power_of_two`).
pub fn is_power_of_two(n: usize) -> (b: bool)
    ensures
        b == is_pow2(n as nat),
{
    if n == 0 {
        return false;
    }
    let mut m = n;
    while m > 1 && m % 2 == 0
        invariant
            m > 0,
            is_pow2(m as nat) == is_pow2(n as nat),
        decreases m,
    {
        m = m / 2;
    }
    m == 1
}

/// When compression is applied, without the free-block fraction of the memory-pressure
/// policy (a floating-point threshold).
#[derive(Clone, Copy, Debug, PartialEq, Eq, Structural)]
pub enum CompressionTrigger {
    /// Always compress.
    Always,
    /// Compress once the context holds at least this many tokens.
    ThresholdTokens(usize),
    /// Compress when the fraction of free blocks falls below the policy's threshold.
    MemoryPressure,
    /// Never compress.
    Disabled,
}

/// Whether to compress with `trigger` at context length `ctx_len` with `total_blocks`
/// blocks: `Some` with the answer, or `None` when it rests on comparing the free-block
/// fraction with the memory-pressure threshold (there are blocks, and the policy is
/// memory pressure).
pub fn compression_verdict(trigger: CompressionTrigger, ctx_len: usize, total_blocks: usize) -> (r:
    Option<bool>)
    ensures
        r == match trigger {
            CompressionTrigger::Always => Some(true),
            CompressionTrigger::ThresholdTokens(n) => Some(ctx_len >= n),
            CompressionTrigger::MemoryPressure => if total_blocks == 0 {
                Some(false)
            } else {
                None
            },
            CompressionTrigger::Disabled => Some(false),
        },
{
    match trigger {
        CompressionTrigger::Always => Some(true),
        CompressionTrigger::ThresholdTokens(n) => Some(ctx_len >= n),
        CompressionTrigger::MemoryPressure => if total_blocks == 0 {
            Some(false)
        } else {
            None
        },
        CompressionTrigger::Disabled => Some(false),
    }
}

/// Errors of the compressed KV cache.
#[derive(Clone, Copy, Debug, PartialEq, Eq, Structural)]
pub enum KvCompressionError {
    /// The quantizer requires the head dimension to be a power of two.
    HeadDimNotPowerOfTwo { head_dim: usize },
    /// The flat key or value vector of a slot does not hold `num_kv_heads * head_dim`
    /// coordinates.
    SlotLength { expected: usize, keys: usize, vals: usize },
}

/// Why storing a slot failed: the flat vectors had the wrong length, or compressing one
/// head's vector failed with the compressor's error.
#[derive(Debug)]
pub enum PushError<E> {
    Length(KvCompressionError),
    Compress(E),
}

/// The arguments of the compression call for head `h` of a slot with heads of `dim`
/// coordinates: the quantizer, whether it is the key vector, the head and its range.
pub open spec fn head_call<'a, Q>(q: &'a Q, is_key: bool, h: usize, dim: usize) -> (
    &'a Q,
    bool,
    usize,
    usize,
    usize,
) {
    (q, is_key, h, (h * dim) as usize, (h * dim + dim) as usize)
}

/// Compressing the key vector (with `kq`) or the value vector (with `vq`) of some head
/// below `heads` can fail with `e`.
pub open spec fn compression_failed<Q, V, E, F: Fn(&Q, bool, usize, usize, usize) -> Result<V, E>>(
    compress: F,
    kq: Q,
    vq: Q,
    heads: usize,
    dim: usize,
    e: E,
) -> bool {
    exists|h: usize|
        #![trigger compress.ensures(head_call(&kq, true, h, dim), Err(e))]
        #![trigger compress.ensures(head_call(&vq, false, h, dim), Err(e))]
        h < heads && (compress.ensures(head_call(&kq, true, h, dim), Err(e))
            || compress.ensures(head_call(&vq, false, h, dim), Err(e)))
}

/// Compressed key and value vectors for one token slot, one per KV head.
pub struct CompressedSlot<V> {
    /// Compressed key vectors, one per KV head.
    pub keys: Vec<V>,
    /// Compressed value vectors, one per KV head.
    pub vals: Vec<V>,
}

/// Compressed KV cache for one transformer layer. Slots are stored under
/// `slot_id = block_id * block_size + slot_in_block` as they are filled.
pub struct CompressedLayerCache<Q, V> {
    slots: HashMap<u64, CompressedSlot<V>>,
    tq_key: Q,
    tq_val: Q,
    num_kv_heads: usize,
    head_dim: usize,
    block_size: usize,
}

impl<Q, V> CompressedLayerCache<Q, V> {
    /// The stored slots, by slot id.
    pub closed spec fn slot_map(&self) -> Map<u64, CompressedSlot<V>> {
        self.slots@
    }

    /// The number of KV heads of one slot.
    pub closed spec fn heads(&self) -> usize {
        self.num_kv_heads
    }

    /// The dimension of one head vector.
    pub closed spec fn dim(&self) -> usize {
        self.head_dim
    }

    /// The number of token slots of one block.
    pub closed spec fn slots_per_block(&self) -> usize {
        self.block_size
    }

    /// The quantizer of key vectors.
    pub closed spec fn key_quantizer_spec(&self) -> Q {
        self.tq_key
    }

    /// The quantizer of value vectors.
    pub closed spec fn val_quantizer_spec(&self) -> Q {
        self.tq_val
    }

    /// Check that the quantizer can work with heads of `head_dim` coordinates.
    pub fn check_head_dim(head_dim: usize) -> (r: Result<(), KvCompressionError>)
        ensures
            r is Ok <==> is_pow2(head_dim as nat),
            r is Err ==> r == Err::<(), KvCompressionError>(
                KvCompressionError::HeadDimNotPowerOfTwo { head_dim },
            ),
    {
        if !is_power_of_two(head_dim) {
            return Err(KvCompressionError::HeadDimNotPowerOfTwo { head_dim });
        }
        Ok(())
    }

    /// Create an empty cache for one layer, compressing keys with `tq_key` and values with
    /// `tq_val`. Fails when `head_dim` is not a power of two.
    pub fn new(num_kv_heads: usize, head_dim: usize, block_size: usize, tq_key: Q, tq_val: Q) -> (r:
        Result<Self, KvCompressionError>)
        ensures
            r is Ok <==> is_pow2(head_dim as nat),
            r is Err ==> r->Err_0 == (KvCompressionError::HeadDimNotPowerOfTwo { head_dim }),
            r matches Ok(c) ==> {
                &&& c.slot_map() == Map::<u64, CompressedSlot<V>>::empty()
                &&& c.heads() == num_kv_heads
                &&& c.dim() == head_dim
                &&& c.slots_per_block() == block_size
                &&& c.key_quantizer_spec() == tq_key
                &&& c.val_quantizer_spec() == tq_val
            },
    {
        match Self::check_head_dim(head_dim) {
            Err(e) => Err(e),
            Ok(()) => Ok(
                CompressedLayerCache {
                    slots: HashMap::new(),
                    tq_key,
                    tq_val,
                    num_kv_heads,
                    head_dim,
                    block_size,
                },
            ),
        }
    }

    /// The number of coordinates of one slot's flat key (or value) vector.
    pub fn expected_vector_len(&self) -> (n: usize)
        requires
            self.heads() * self.dim() <= usize::MAX,
        ensures
            n == self.heads() * self.dim(),
    {
        self.num_kv_heads * self.head_dim
    }

    /// Check the lengths of one slot's flat key and value vectors before compressing them.
    pub fn check_slot_lengths(&self, keys_len: usize, vals_len: usize) -> (r: Result<
        (),
        KvCompressionError,
    >)
        requires
            self.heads() * self.dim() <= usize::MAX,
        ensures
            r is Ok <==> keys_len == self.heads() * self.dim() && vals_len == self.heads()
                * self.dim(),
            r is Err ==> r->Err_0 == (KvCompressionError::SlotLength {
                expected: (self.heads() * self.dim()) as usize,
                keys: keys_len,
                vals: vals_len,
            }),
    {
        let expected = self.expected_vector_len();
        if keys_len != expected || vals_len != expected {
            return Err(KvCompressionError::SlotLength { expected, keys: keys_len, vals: vals_len });
        }
        Ok(())
    }

    /// The range `start..end` of head `h`'s coordinates in a slot's flat vector.
    pub fn head_range(&self, h: usize) -> (r: (usize, usize))
        requires
            h < self.heads(),
            self.heads() * self.dim() <= usize::MAX,
        ensures
            r.0 == h * self.dim(),
            r.1 == r.0 + self.dim(),
            r.1 <= self.heads() * self.dim(),
    {
        proof {
            assert((h + 1) * self.dim() <= self.heads() * self.dim()) by (nonlinear_arith)
                requires
                    h + 1 <= self.heads(),
            ;
            assert((h + 1) * self.dim() == h * self.dim() + self.dim()) by (nonlinear_arith);
        }
        let start = h * self.head_dim;
        (start, start + self.head_dim)
    }

    /// Store the compressed vectors of token slot `slot_in_block` of block `block_id`,
    /// replacing whatever that slot held. The number of filled slots grows by one when that
    /// slot was empty and stays the same when it was already filled.
    pub fn insert_slot(&mut self, block_id: usize, slot_in_block: usize, slot: CompressedSlot<V>)
        requires
            block_id * old(self).slots_per_block() + slot_in_block <= usize::MAX,
            block_id * old(self).slots_per_block() + slot_in_block <= u64::MAX,
        ensures
            final(self).slot_map() == old(self).slot_map().insert(
                slot_id_spec(
                    block_id as int,
                    slot_in_block as int,
                    old(self).slots_per_block() as int,
                ) as u64,
                slot,
            ),
            final(self).slot_map().len() == old(self).slot_map().len() + if old(
                self,
            ).slot_map().contains_key(
                slot_id_spec(
                    block_id as int,
                    slot_in_block as int,
                    old(self).slots_per_block() as int,
                ) as u64,
            ) {
                0int
            } else {
                1int
            },
            final(self).heads() == old(self).heads(),
            final(self).dim() == old(self).dim(),
            final(self).slots_per_block() == old(self).slots_per_block(),
            final(self).key_quantizer_spec() == old(self).key_quantizer_spec(),
            final(self).val_quantizer_spec() == old(self).val_quantizer_spec(),
    {
        let id = slot_id(block_id, slot_in_block, self.block_size);
        proof {
            assert(self.slots@.dom().finite());
            if self.slots@.contains_key(id) {
                assert(self.slots@.dom().insert(id) =~= self.slots@.dom());
            }
        }
        self.slots.insert(id, slot);
    }

    /// Compress and store one token slot's key and value vectors for all heads. `keys_len`
    /// and `vals_len` are the lengths of the flat vectors; `compress(q, is_key, h, start,
    /// end)` compresses coordinates `start..end` of the key (`is_key`) or value vector with
    /// quantizer `q`. Heads are compressed in order, key before value; the first failure is
    /// returned and leaves the cache unchanged.
    pub fn push_slot<E, F>(
        &mut self,
        block_id: usize,
        slot_in_block: usize,
        keys_len: usize,
        vals_len: usize,
        compress: F,
    ) -> (r: Result<(), PushError<E>>) where F: Fn(&Q, bool, usize, usize, usize) -> Result<V, E>
        requires
            old(self).heads() * old(self).dim() <= usize::MAX,
            keys_len == old(self).heads() * old(self).dim() && vals_len == old(self).heads()
                * old(self).dim() ==> block_id * old(self).slots_per_block() + slot_in_block
                <= usize::MAX && block_id * old(self).slots_per_block() + slot_in_block
                <= u64::MAX,
            forall|q: &Q, is_key: bool, h: usize, start: usize, end: usize|
                compress.requires((q, is_key, h, start, end)),
        ensures
            final(self).heads() == old(self).heads(),
            final(self).dim() == old(self).dim(),
            final(self).slots_per_block() == old(self).slots_per_block(),
            final(self).key_quantizer_spec() == old(self).key_quantizer_spec(),
            final(self).val_quantizer_spec() == old(self).val_quantizer_spec(),
            !(keys_len == old(self).heads() * old(self).dim() && vals_len == old(self).heads()
                * old(self).dim()) ==> (r matches Err(PushError::Length(e)) && e == (
            KvCompressionError::SlotLength {
                expected: (old(self).heads() * old(self).dim()) as usize,
                keys: keys_len,
                vals: vals_len,
            })),
            r matches Err(PushError::Length(_)) ==> !(keys_len == old(self).heads() * old(
                self,
            ).dim() && vals_len == old(self).heads() * old(self).dim()),
            keys_len == old(self).heads() * old(self).dim() && vals_len == old(self).heads()
                * old(self).dim() && (forall|e: E|
                !#[trigger] compression_failed(
                    compress,
                    old(self).key_quantizer_spec(),
                    old(self).val_quantizer_spec(),
                    old(self).heads(),
                    old(self).dim(),
                    e,
                )) ==> r is Ok,
            r is Err ==> final(self).slot_map() == old(self).slot_map(),
            r matches Err(PushError::Compress(e)) ==> compression_failed(
                compress,
                old(self).key_quantizer_spec(),
                old(self).val_quantizer_spec(),
                old(self).heads(),
                old(self).dim(),
                e,
            ),
            r is Ok ==> keys_len == old(self).heads() * old(self).dim() && vals_len == old(
                self,
            ).heads() * old(self).dim(),
            r is Ok ==> ({
                let id = slot_id_spec(
                    block_id as int,
                    slot_in_block as int,
                    old(self).slots_per_block() as int,
                ) as u64;
                &&& final(self).slot_map() == old(self).slot_map().insert(
                    id,
                    final(self).slot_map()[id],
                )
                &&& final(self).slot_map().len() == old(self).slot_map().len() + if old(
                    self,
                ).slot_map().contains_key(id) {
                    0int
                } else {
                    1int
                }
                &&& final(self).slot_map()[id].keys.len() == old(self).heads()
                &&& final(self).slot_map()[id].vals.len() == old(self).heads()
                &&& forall|h: usize|
                    h < old(self).heads() ==> compress.ensures(
                        head_call(&old(self).key_quantizer_spec(), true, h, old(self).dim()),
                        Ok(#[trigger] final(self).slot_map()[id].keys[h as int]),
                    ) && compress.ensures(
                        head_call(&old(self).val_quantizer_spec(), false, h, old(self).dim()),
                        Ok(final(self).slot_map()[id].vals[h as int]),
                    )
            }),
    {
        match self.check_slot_lengths(keys_len, vals_len) {
            Err(e) => {
                return Err(PushError::Length(e));
            },
            Ok(()) => {},
        }
        let heads = self.num_kv_heads;
        let mut ck: Vec<V> = Vec::new();
        let mut cv: Vec<V> = Vec::new();
        let mut h: usize = 0;
        while h < heads
            invariant
                heads == self.heads(),
                heads * self.dim() <= usize::MAX,
                *self == *old(self),
                keys_len == heads * self.dim(),
                vals_len == heads * self.dim(),
                h <= heads,
                ck@.len() == h,
                cv@.len() == h,
                forall|q: &Q, is_key: bool, hh: usize, start: usize, end: usize|
                    compress.requires((q, is_key, hh, start, end)),
                forall|i: usize|
                    i < h ==> compress.ensures(
                        head_call(&self.key_quantizer_spec(), true, i, self.dim()),
                        Ok(#[trigger] ck@[i as int]),
                    ) && compress.ensures(
                        head_call(&self.val_quantizer_spec(), false, i, self.dim()),
                        Ok(cv@[i as int]),
                    ),
            decreases heads - h,
        {
            let (start, end) = self.head_range(h);
            match compress(&self.tq_key, true, h, start, end) {
                Ok(k) => {
                    ck.push(k);
                },
                Err(e) => {
                    assert(compress.ensures(
                        head_call(&old(self).key_quantizer_spec(), true, h, old(self).dim()),
                        Err(e),
                    ));
                    assert(compression_failed(
                        compress,
                        old(self).key_quantizer_spec(),
                        old(self).val_quantizer_spec(),
                        old(self).heads(),
                        old(self).dim(),
                        e,
                    ));
                    return Err(PushError::Compress(e));
                },
            }
            match compress(&self.tq_val, false, h, start, end) {
                Ok(v) => {
                    cv.push(v);
                },
                Err(e) => {
                    assert(compress.ensures(
                        head_call(&old(self).val_quantizer_spec(), false, h, old(self).dim()),
                        Err(e),
                    ));
                    assert(compression_failed(
                        compress,
                        old(self).key_quantizer_spec(),
                        old(self).val_quantizer_spec(),
                        old(self).heads(),
                        old(self).dim(),
                        e,
                    ));
                    return Err(PushError::Compress(e));
                },
            }
            h = h + 1;
        }
        let ghost id = slot_id_spec(block_id as int, slot_in_block as int, self.block_size as int) as u64;
        let slot = CompressedSlot { keys: ck, vals: cv };
        self.insert_slot(block_id, slot_in_block, slot);
        assert(self.slot_map()[id] == slot);
        Ok(())
    }

    /// The compressed vectors stored under `id`, if that slot has been filled.
    pub fn get_slot(&self, id: u64) -> (r: Option<&CompressedSlot<V>>)
        ensures
            self.slot_map().contains_key(id) ==> r == Some(&self.slot_map()[id]),
            !self.slot_map().contains_key(id) ==> r is None,
    {
        self.slots.get(&id)
    }

    /// Number of filled (compressed) token slots.
    pub fn filled_slots(&self) -> (n: usize)
        ensures
            n == self.slot_map().len(),
    {
        self.slots.len()
    }

    /// The head dimension this cache was initialised for.
    pub fn head_dim(&self) -> (d: usize)
        ensures
            d == self.dim(),
    {
        self.head_dim
    }

    /// The number of KV heads of one slot.
    pub fn num_kv_heads(&self) -> (n: usize)
        ensures
            n == self.heads(),
    {
        self.num_kv_heads
    }

    /// The number of token slots of one block.
    pub fn block_size(&self) -> (n: usize)
        ensures
            n == self.slots_per_block(),
    {
        self.block_size
    }

    /// The quantizer of key vectors.
    pub fn key_quantizer(&self) -> (q: &Q)
        ensures
            *q == self.key_quantizer_spec(),
    {
        &self.tq_key
    }

    /// The quantizer of value vectors.
    pub fn val_quantizer(&self) -> (q: &Q)
        ensures
            *q == self.val_quantizer_spec(),
    {
        &self.tq_val
    }

    /// All stored slots, by slot id.
    pub fn slots(&self) -> (m: &HashMap<u64, CompressedSlot<V>>)
        ensures
            m@ == self.slot_map(),
    {
        &self.slots
    }
}

/// Why a compressed store could not be created: the head dimension is not a power of two,
/// or making a quantizer failed with the maker's error.
#[derive(Debug)]
pub enum StoreError<E> {
    Layout(KvCompressionError),
    Quantizer(E),
}

/// Making the key (`make(seed, true)`) or the value quantizer (`make(seed, false)`) of some
/// layer below `num_layers` from its seed can fail with `e`.
pub open spec fn quantizer_failed<Q, E, F: Fn(u64, bool) -> Result<Q, E>>(
    make: F,
    num_layers: usize,
    e: E,
) -> bool {
    exists|layer: u64|
        #![trigger make.ensures((key_seed_spec(layer), true), Err(e))]
        #![trigger make.ensures((val_seed_spec(layer), false), Err(e))]
        layer < num_layers && (make.ensures((key_seed_spec(layer), true), Err(e)) || make.ensures(
            (val_seed_spec(layer), false),
            Err(e),
        ))
}

/// The compressed KV caches of all transformer layers, one per layer.
pub struct CompressedStore<Q, V> {
    pub layers: Vec<CompressedLayerCache<Q, V>>,
}

impl<Q, V> CompressedStore<Q, V> {
    /// Create a store with one empty cache per layer. The quantizers of layer `l` are made
    /// by `make(seed, is_key)` from the layer's seeds (`layer_seeds`), the key quantizer
    /// first; each layer thus gets its own rotation. The head dimension is checked for each layer before its
    /// quantizers are made, and the first failure is returned.
    pub fn new<E, F>(
        num_layers: usize,
        num_kv_heads: usize,
        head_dim: usize,
        block_size: usize,
        make: F,
    ) -> (r: Result<Self, StoreError<E>>) where F: Fn(u64, bool) -> Result<Q, E>
        requires
            num_layers == 0 || (num_layers - 1) * 0x2222_2222 <= u64::MAX,
            forall|seed: u64, is_key: bool| make.requires((seed, is_key)),
        ensures
            (num_layers > 0 && !is_pow2(head_dim as nat)) <==> r == Err::<Self, StoreError<E>>(
                StoreError::Layout(KvCompressionError::HeadDimNotPowerOfTwo { head_dim }),
            ),
            r matches Err(StoreError::Quantizer(e)) ==> quantizer_failed(make, num_layers, e),
            (num_layers == 0 || is_pow2(head_dim as nat)) && (forall|e: E|
                !#[trigger] quantizer_failed(make, num_layers, e)) ==> r is Ok,
            r matches Ok(store) ==> {
                &&& store.layers@.len() == num_layers
                &&& forall|i: int|
                    0 <= i < num_layers ==> {
                        let c = #[trigger] store.layers@[i];
                        &&& c.slot_map() == Map::<u64, CompressedSlot<V>>::empty()
                        &&& c.heads() == num_kv_heads
                        &&& c.dim() == head_dim
                        &&& c.slots_per_block() == block_size
                        &&& make.ensures((key_seed_spec(i as u64), true), Ok(c.key_quantizer_spec()))
                        &&& make.ensures((val_seed_spec(i as u64), false), Ok(c.val_quantizer_spec()))
                    }
            },
    {
        let mut layers: Vec<CompressedLayerCache<Q, V>> = Vec::new();
        let mut i: usize = 0;
        while i < num_layers
            invariant
                i <= num_layers,
                num_layers == 0 || (num_layers - 1) * 0x2222_2222 <= u64::MAX,
                forall|seed: u64, is_key: bool| make.requires((seed, is_key)),
                i > 0 ==> is_pow2(head_dim as nat),
                layers@.len() == i,
                forall|k: int|
                    0 <= k < i ==> {
                        let c = #[trigger] layers@[k];
                        &&& c.slot_map() == Map::<u64, CompressedSlot<V>>::empty()
                        &&& c.heads() == num_kv_heads
                        &&& c.dim() == head_dim
                        &&& c.slots_per_block() == block_size
                        &&& make.ensures((key_seed_spec(k as u64), true), Ok(c.key_quantizer_spec()))
                        &&& make.ensures((val_seed_spec(k as u64), false), Ok(c.val_quantizer_spec()))
                    },
            decreases num_layers - i,
        {
            let layer = i as u64;
            assert(layer * 0x2222_2222 <= u64::MAX) by (nonlinear_arith)
                requires
                    layer <= num_layers - 1,
                    (num_layers - 1) * 0x2222_2222 <= u64::MAX,
            ;
            let (key_seed, val_seed) = layer_seeds(layer);
            match CompressedLayerCache::<Q, V>::check_head_dim(head_dim) {
                Ok(()) => {},
                Err(e) => {
                    return Err(StoreError::Layout(e));
                },
            }
            let tq_key = match make(key_seed, true) {
                Ok(q) => q,
                Err(e) => {
                    assert(make.ensures((key_seed_spec(layer), true), Err(e)));
                    assert(quantizer_failed(make, num_layers, e));
                    return Err(StoreError::Quantizer(e));
                },
            };
            let tq_val = match make(val_seed, false) {
                Ok(q) => q,
                Err(e) => {
                    assert(make.ensures((val_seed_spec(layer), false), Err(e)));
                    assert(quantizer_failed(make, num_layers, e));
                    return Err(StoreError::Quantizer(e));
                },
            };
            match CompressedLayerCache::<Q, V>::new(num_kv_heads, head_dim, block_size, tq_key, tq_val) {
                Ok(c) => {
                    layers.push(c);
                },
                Err(e) => {
                    return Err(StoreError::Layout(e));
                },
            }
            i = i + 1;
        }
        Ok(CompressedStore { layers })
    }
}

/// Reading a slot gives back what was last stored there: after storing `slot` at
/// `(block_id, slot_in_block)`, that position reads `slot`, and every other position of
/// every block reads what it read before.
pub proof fn lemma_slot_read_after_write<V>(
    m: Map<u64, CompressedSlot<V>>,
    block_size: int,
    block_id: int,
    slot_in_block: int,
    slot: CompressedSlot<V>,
    other_block: int,
    other_slot: int,
)
    requires
        0 <= block_id,
        0 <= other_block,
        0 <= slot_in_block < block_size,
        0 <= other_slot < block_size,
        slot_id_spec(block_id, slot_in_block, block_size) <= u64::MAX,
        slot_id_spec(other_block, other_slot, block_size) <= u64::MAX,
    ensures
        ({
            let w = m.insert(slot_id_spec(block_id, slot_in_block, block_size) as u64, slot);
            let id = slot_id_spec(other_block, other_slot, block_size) as u64;
            &&& (other_block, other_slot) == (block_id, slot_in_block) ==> w.contains_key(id)
                && w[id] == slot
            &&& (other_block, other_slot) != (block_id, slot_in_block) ==> (w.contains_key(id)
                == m.contains_key(id) && (m.contains_key(id) ==> w[id] == m[id]))
        }),
{
    assert(0 <= block_id * block_size) by (nonlinear_arith)
        requires
            0 <= block_id,
            0 <= block_size,
    ;
    assert(0 <= other_block * block_size) by (nonlinear_arith)
        requires
            0 <= other_block,
            0 <= block_size,
    ;
    if (other_block, other_slot) != (block_id, slot_in_block) {
        lemma_slot_ids_distinct(block_id, slot_in_block, other_block, other_slot, block_size);
    }
}

/// The coordinate ranges of the heads of a slot tile its flat vector: the ranges of distinct
/// heads do not overlap, and coordinate `c` lies in the range of head `c / dim`.
pub proof fn lemma_head_ranges_tile(heads: int, dim: int, h1: int, h2: int, c: int)
    requires
        dim > 0,
        0 <= h1 < heads,
        0 <= h2 < heads,
        0 <= c < heads * dim,
    ensures
        h1 != h2 ==> (h1 + 1) * dim <= h2 * dim || (h2 + 1) * dim <= h1 * dim,
        0 <= c / dim < heads,
        (c / dim) * dim <= c < (c / dim) * dim + dim,
{
    if h1 < h2 {
        assert((h1 + 1) * dim <= h2 * dim) by (nonlinear_arith)
            requires
                h1 + 1 <= h2,
                dim > 0,
        ;
    } else if h2 < h1 {
        assert((h2 + 1) * dim <= h1 * dim) by (nonlinear_arith)
            requires
                h2 + 1 <= h1,
                dim > 0,
        ;
    }
    assert(0 <= c / dim < heads) by (nonlinear_arith)
        requires
            dim > 0,
            0 <= c < heads * dim,
    ;
    assert((c / dim) * dim <= c < (c / dim) * dim + dim) by (nonlinear_arith)
        requires
            dim > 0,
            0 <= c,
    ;
}

} // verus!
