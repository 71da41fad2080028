use candle_vllm::kv_compression::{
    compression_verdict, is_power_of_two, CompressedLayerCache, CompressedSlot, CompressedStore,
    CompressionTrigger, KvCompressionError, PushError, StoreError,
};
use candle_vllm::kv_layout::layer_seeds;

#[test]
fn power_of_two() {
    for n in [0usize, 1, 2, 3, 4, 6, 64, 96, 128, 1 << 40, usize::MAX] {
        assert_eq!(is_power_of_two(n), n.is_power_of_two(), "n = {n}");
    }
}

#[test]
fn head_dim_must_be_power_of_two() {
    let r = CompressedLayerCache::<(), u8>::new(4, 96, 16, (), ());
    assert_eq!(r.err(), Some(KvCompressionError::HeadDimNotPowerOfTwo { head_dim: 96 }));
    let c = CompressedLayerCache::<(), u8>::new(4, 128, 16, (), ()).unwrap();
    assert_eq!(c.filled_slots(), 0);
    assert_eq!(c.head_dim(), 128);
}

#[test]
fn slot_storage_reads_back_what_was_written() {
    let mut c = CompressedLayerCache::<(), u8>::new(2, 4, 16, (), ()).unwrap();
    assert_eq!(c.check_slot_lengths(8, 8), Ok(()));
    assert_eq!(c.check_slot_lengths(8, 7), Err(KvCompressionError::SlotLength { expected: 8, keys: 8, vals: 7 }));
    assert_eq!(c.head_range(1), (4, 8));
    c.insert_slot(1, 3, CompressedSlot { keys: vec![1, 2], vals: vec![3, 4] });
    c.insert_slot(0, 3, CompressedSlot { keys: vec![5, 6], vals: vec![7, 8] });
    assert_eq!(c.filled_slots(), 2);
    assert_eq!(c.get_slot(19).unwrap().keys, vec![1, 2]);
    assert_eq!(c.get_slot(3).unwrap().vals, vec![7, 8]);
    assert!(c.get_slot(4).is_none());
    c.insert_slot(1, 3, CompressedSlot { keys: vec![9, 9], vals: vec![9, 9] });
    assert_eq!(c.filled_slots(), 2);
    assert_eq!(c.get_slot(19).unwrap().keys, vec![9, 9]);
}

#[test]
fn filled_slots_count_each_slot_once() {
    let mut c = CompressedLayerCache::<(), u8>::new(1, 2, 16, (), ()).unwrap();
    c.insert_slot(0, 16, CompressedSlot { keys: vec![1], vals: vec![1] });
    assert_eq!(c.filled_slots(), 1);
    // Block 1, slot 0 is the same slot id as block 0, slot 16.
    c.insert_slot(1, 0, CompressedSlot { keys: vec![2], vals: vec![2] });
    assert_eq!(c.filled_slots(), 1);
    assert_eq!(c.get_slot(16).unwrap().keys, vec![2]);
    c.insert_slot(1, 1, CompressedSlot { keys: vec![3], vals: vec![3] });
    assert_eq!(c.filled_slots(), 2);
}

#[test]
fn push_slot_compresses_every_head_and_stores_the_slot() {
    let mut c = CompressedLayerCache::<u8, (bool, usize, usize, usize)>::new(3, 4, 16, 1, 2).unwrap();
    let r: Result<(), PushError<String>> =
        c.push_slot(1, 2, 12, 12, |q: &u8, is_key: bool, h: usize, start: usize, end: usize| {
            assert_eq!(*q, if is_key { 1 } else { 2 });
            Ok((is_key, h, start, end))
        });
    assert!(r.is_ok());
    assert_eq!(c.filled_slots(), 1);
    let slot = c.get_slot(18).unwrap();
    assert_eq!(slot.keys, vec![(true, 0, 0, 4), (true, 1, 4, 8), (true, 2, 8, 12)]);
    assert_eq!(slot.vals, vec![(false, 0, 0, 4), (false, 1, 4, 8), (false, 2, 8, 12)]);
}

#[test]
fn push_slot_failures_leave_the_cache_unchanged() {
    let mut c = CompressedLayerCache::<(), usize>::new(2, 4, 16, (), ()).unwrap();
    let ok = |_: &(), _: bool, h: usize, _: usize, _: usize| -> Result<usize, String> { Ok(h) };
    assert!(c.push_slot(0, 0, 8, 8, ok).is_ok());
    match c.push_slot(0, 1, 8, 7, ok) {
        Err(PushError::Length(e)) => {
            assert_eq!(e, KvCompressionError::SlotLength { expected: 8, keys: 8, vals: 7 })
        }
        other => panic!("unexpected {other:?}"),
    }
    let fail_val_1 = |_: &(), is_key: bool, h: usize, _: usize, _: usize| -> Result<usize, String> {
        if !is_key && h == 1 {
            Err("compress val h=1".to_string())
        } else {
            Ok(h)
        }
    };
    match c.push_slot(0, 1, 8, 8, fail_val_1) {
        Err(PushError::Compress(e)) => assert_eq!(e, "compress val h=1"),
        other => panic!("unexpected {other:?}"),
    }
    assert_eq!(c.filled_slots(), 1);
    assert!(c.get_slot(1).is_none());
    assert_eq!(c.get_slot(0).unwrap().keys, vec![0, 1]);
}

#[test]
fn compression_verdicts() {
    assert_eq!(compression_verdict(CompressionTrigger::Always, 0, 0), Some(true));
    assert_eq!(compression_verdict(CompressionTrigger::ThresholdTokens(4096), 4095, 10), Some(false));
    assert_eq!(compression_verdict(CompressionTrigger::ThresholdTokens(4096), 4096, 10), Some(true));
    assert_eq!(compression_verdict(CompressionTrigger::MemoryPressure, 1, 0), Some(false));
    assert_eq!(compression_verdict(CompressionTrigger::MemoryPressure, 1, 10), None);
    assert_eq!(compression_verdict(CompressionTrigger::Disabled, 1 << 20, 10), Some(false));
}

#[test]
fn store_makes_one_cache_per_layer_with_its_seeds() {
    let make = |seed: u64, is_key: bool| -> Result<(u64, bool), String> { Ok((seed, is_key)) };
    let store = CompressedStore::<(u64, bool), u8>::new(3, 2, 64, 16, make).ok().unwrap();
    assert_eq!(store.layers.len(), 3);
    for (i, layer) in store.layers.iter().enumerate() {
        let (k, v) = layer_seeds(i as u64);
        assert_eq!(*layer.key_quantizer(), (k, true));
        assert_eq!(*layer.val_quantizer(), (v, false));
        assert_eq!(layer.filled_slots(), 0);
        assert_eq!(layer.head_dim(), 64);
        assert_eq!(layer.block_size(), 16);
    }
    assert_eq!(CompressedStore::<(u64, bool), u8>::new(0, 2, 96, 16, make).ok().unwrap().layers.len(), 0);
}

#[test]
fn store_reports_the_first_failure() {
    let make = |seed: u64, _: bool| -> Result<u64, String> { Ok(seed) };
    match CompressedStore::<u64, u8>::new(2, 2, 96, 16, make) {
        Err(StoreError::Layout(e)) => assert_eq!(e, KvCompressionError::HeadDimNotPowerOfTwo { head_dim: 96 }),
        _ => panic!("expected a layout error"),
    }
    let (_, val_seed_1) = layer_seeds(1);
    let fail = move |seed: u64, is_key: bool| -> Result<u64, String> {
        if !is_key && seed == val_seed_1 {
            Err(format!("val init {seed}"))
        } else {
            Ok(seed)
        }
    };
    match CompressedStore::<u64, u8>::new(3, 2, 64, 16, fail) {
        Err(StoreError::Quantizer(e)) => assert_eq!(e, format!("val init {val_seed_1}")),
        _ => panic!("expected a quantizer error"),
    }
}
