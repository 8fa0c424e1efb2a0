use derive_hash_fast::write_to_optimal_hasher_function;
use derive_hash_fast::Accumulator;
use derive_hash_fast::RecordingAccumulator;
use derive_hash_fast::StdAccumulator;
use std::hash::Hasher;

fn hash_struct_bytemuck(val: [u16; 4]) -> u64 {
    let bytes: &[u8] = bytemuck::bytes_of(&val);
    assert!(bytes.len() == 8);
    let mut acc = StdAccumulator::new();
    write_to_optimal_hasher_function::<8>(bytes, &mut acc);
    acc.finish()
}

#[test]
fn test_bytemuck() {
    // The fields a = 5u16, b = 10u16, c = 'a' laid out in memory, with the
    // char stored as its 32-bit scalar value.
    let test_struct_1 = [5u16, 10u16, 'a' as u16, 0u16];
    let test_struct_2 = [5u16, 500u16, 'a' as u16, 0u16];

    let hash_1 = hash_struct_bytemuck(test_struct_1);
    let hash_1_again = hash_struct_bytemuck(test_struct_1);
    let hash_2 = hash_struct_bytemuck(test_struct_2);

    assert_eq!(hash_1, hash_1_again);
    assert_ne!(hash_1, hash_2);
}

fn hash_struct_zerocopy(val: [u16; 4]) -> u64 {
    let bytes: &[u8] = zerocopy::IntoBytes::as_bytes(&val);
    assert!(bytes.len() == 8);
    let mut acc = StdAccumulator::new();
    write_to_optimal_hasher_function::<8>(bytes, &mut acc);
    acc.finish()
}

#[test]
fn test_zerocopy() {
    let test_struct_1 = [5u16, 10u16, 'a' as u16, 0u16];
    let test_struct_2 = [5u16, 500u16, 'a' as u16, 0u16];

    let hash_1 = hash_struct_zerocopy(test_struct_1.clone());
    let hash_1_again = hash_struct_zerocopy(test_struct_1);
    let hash_2 = hash_struct_zerocopy(test_struct_2);

    assert_eq!(hash_1, hash_1_again);
    assert_ne!(hash_1, hash_2);
}

#[test]
fn determinism_same_buffer_same_digest() {
    let bytes: Vec<u8> = (0u8..37u8).collect();
    let mut acc1 = StdAccumulator::new();
    let mut acc2 = StdAccumulator::new();
    write_to_optimal_hasher_function::<37>(&bytes, &mut acc1);
    write_to_optimal_hasher_function::<37>(&bytes, &mut acc2);
    assert_eq!(acc1.finish(), acc2.finish());
}

#[test]
fn recording_digest_matches_std_digest() {
    // Both accumulator kinds finalize an identical update log to the same
    // digest; the recorder computes it by replaying its log.
    let bytes: Vec<u8> = (0u8..20u8).collect();
    let mut std_acc = StdAccumulator::new();
    let mut rec_acc = RecordingAccumulator::new();
    write_to_optimal_hasher_function::<20>(&bytes, &mut std_acc);
    write_to_optimal_hasher_function::<20>(&bytes, &mut rec_acc);
    assert_eq!(std_acc.finish(), rec_acc.finish());
}

#[test]
fn digest_matches_default_hasher_fed_the_same_word() {
    // An 8-byte buffer becomes one 64-bit update whose little-endian bytes
    // are the buffer itself, so the digest equals what DefaultHasher gives
    // when handed those bytes directly.
    let bytes = [1u8, 2, 3, 4, 5, 6, 7, 8];
    let mut acc = StdAccumulator::new();
    write_to_optimal_hasher_function::<8>(&bytes, &mut acc);

    let mut reference = std::collections::hash_map::DefaultHasher::new();
    reference.write(&bytes);
    assert_eq!(acc.finish(), reference.finish());
}

#[test]
fn sensitivity_distinct_buffers_distinct_digests() {
    let mut acc1 = StdAccumulator::new();
    let mut acc2 = StdAccumulator::new();
    write_to_optimal_hasher_function::<3>(&[1u8, 2, 3], &mut acc1);
    write_to_optimal_hasher_function::<3>(&[1u8, 2, 0], &mut acc2);
    assert_ne!(acc1.finish(), acc2.finish());
}
