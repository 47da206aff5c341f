use std::sync::{Arc, Mutex};

use tachyon_core::archetype::{archetype_name, Archetype};
use tachyon_core::identity::identity_annihilation;
use tachyon_core::ring::SpmcRingBuffer;
use tachyon_core::wire::{IntentVectorWireV2, TachyonEngine, INTENT_VECTOR_WIRE_BYTES};
use tachyon_core::INTENT_DIMENSIONS;

#[test]
fn ring_buffer_supports_single_producer_multi_consumer() {
    let ring = Arc::new(Mutex::new(SpmcRingBuffer::<u64, 128>::new()));
    let expected_sum: u64 = (0..64).sum();

    for value in 0..64 {
        ring.lock().expect("lock").push(value).expect("ring has capacity");
    }

    let consumers: Vec<Arc<Mutex<SpmcRingBuffer<u64, 128>>>> = (0..4).map(|_| Arc::clone(&ring)).collect();
    let mut sums = [0u64; 4];
    let mut popped = Vec::new();
    let mut done = false;
    while !done {
        done = true;
        for (k, consumer) in consumers.iter().enumerate() {
            if let Some(value) = consumer.lock().expect("lock").pop() {
                sums[k] += value;
                popped.push(value);
                done = false;
            }
        }
    }

    let consumed_sum: u64 = sums.iter().sum();
    assert_eq!(consumed_sum, expected_sum);
    assert_eq!(consumed_sum, 2016);
    assert_eq!(popped, (0..64).collect::<Vec<u64>>());
}

#[test]
fn ring_keeps_one_slot_empty() {
    let mut ring = SpmcRingBuffer::<u32, 4>::new();
    assert_eq!(ring.pop(), None);
    assert_eq!(ring.push(1), Ok(()));
    assert_eq!(ring.push(2), Ok(()));
    assert_eq!(ring.push(3), Ok(()));
    assert_eq!(ring.push(4), Err(4));
    assert_eq!(ring.pop(), Some(1));
    assert_eq!(ring.push(5), Ok(()));
    assert_eq!(ring.pop(), Some(2));
    assert_eq!(ring.pop(), Some(3));
    assert_eq!(ring.pop(), Some(5));
    assert_eq!(ring.pop(), None);
}

#[test]
fn ring_returns_values_in_push_order_across_wraps() {
    let mut ring = SpmcRingBuffer::<String, 3>::new();
    for round in 0..5 {
        assert_eq!(ring.push(format!("a{}", round)), Ok(()));
        assert_eq!(ring.push(format!("b{}", round)), Ok(()));
        assert_eq!(ring.push(format!("c{}", round)), Err(format!("c{}", round)));
        assert_eq!(ring.pop(), Some(format!("a{}", round)));
        assert_eq!(ring.pop(), Some(format!("b{}", round)));
        assert_eq!(ring.pop(), None);
    }
}

#[test]
fn identity_hash_is_fnv1a() {
    assert_eq!(identity_annihilation(""), 0xCBF29CE484222325);
    assert_eq!(identity_annihilation("a"), 0xaf63dc4c8601ec8c);
    assert_eq!(identity_annihilation("agent_alpha_v3"), 0x532ad26335176ec9);
    assert_eq!(identity_annihilation("agent_alpha_v3"), identity_annihilation("agent_alpha_v3"));
}

#[test]
fn wire_payload_size_is_exactly_4128_bytes() {
    assert_eq!(std::mem::size_of::<IntentVectorWireV2>(), INTENT_VECTOR_WIRE_BYTES);
}

#[test]
fn wire_record_layout() {
    let mut vector = [0u32; INTENT_DIMENSIONS];
    vector[0] = 0x0403_0201;
    let wire = IntentVectorWireV2 {
        sync_id: 0x1122_3344_5566_7788,
        entity_id: 9,
        vector,
        entropy_seed: 0xAB,
        ghost_flag: 1,
        _padding: [0; 7],
    };
    let bytes = wire.as_bytes_slice();
    assert_eq!(bytes.len(), INTENT_VECTOR_WIRE_BYTES);
    assert_eq!(&bytes[0..8], &[0x88, 0x77, 0x66, 0x55, 0x44, 0x33, 0x22, 0x11]);
    assert_eq!(&bytes[8..16], &[9, 0, 0, 0, 0, 0, 0, 0]);
    assert_eq!(&bytes[16..20], &[1, 2, 3, 4]);
    assert_eq!(&bytes[4112..4120], &[0xAB, 0, 0, 0, 0, 0, 0, 0]);
    assert_eq!(bytes[4120], 1);
}

#[test]
fn process_intent_hashes_id_and_salts_by_priority() {
    let engine = TachyonEngine::new();
    let data = vec![1.0f32.to_bits(), 0.5f32.to_bits()];
    let bytes = engine.process_intent("user-7", &data, 2, 77);
    assert_eq!(bytes.len(), INTENT_VECTOR_WIRE_BYTES);
    assert_eq!(&bytes[0..8], &77u64.to_le_bytes());
    let entity = xxhash_rust::xxh64::xxh64("user-7".as_bytes(), 0);
    assert_ne!(entity, 0);
    assert_eq!(&bytes[8..16], &entity.to_le_bytes());
    assert_eq!(&bytes[16..20], &1.0f32.to_bits().to_le_bytes());
    assert_eq!(&bytes[20..24], &0.5f32.to_bits().to_le_bytes());
    assert_eq!(&bytes[24..28], &[0, 0, 0, 0]);
    let salted = xxhash_rust::xxh64::xxh64("user-7".as_bytes(), 2);
    assert_eq!(&bytes[4112..4120], &salted.to_le_bytes());
    let low = engine.process_intent("user-7", &data, 9, 77);
    let default_salt = xxhash_rust::xxh64::xxh64("user-7".as_bytes(), 1);
    assert_eq!(&low[4112..4120], &default_salt.to_le_bytes());
}

#[test]
fn process_intent_cuts_long_vectors() {
    let engine = TachyonEngine::new();
    let data: Vec<u32> = (0..2000u32).collect();
    let bytes = engine.process_intent("u", &data, 3, 1);
    assert_eq!(bytes.len(), INTENT_VECTOR_WIRE_BYTES);
    assert_eq!(&bytes[16 + 4 * 1023..16 + 4 * 1024], &1023u32.to_le_bytes());
}

#[test]
fn archetype_codes_and_labels() {
    assert_eq!(archetype_name(0), "Sentinel");
    assert_eq!(archetype_name(1), "Catalyst");
    assert_eq!(archetype_name(2), "Harmonizer");
    assert_eq!(archetype_name(3), "Prophet");
    assert_eq!(archetype_name(4), "Unknown");
    assert_eq!(archetype_name(255), "Unknown");
    for code in 0..4u8 {
        let a = Archetype::from_code(code).expect("known code");
        assert_eq!(a.code(), code);
    }
    assert_eq!(Archetype::from_code(4), None);
    assert_eq!(Archetype::Harmonizer.code(), 2);
}
