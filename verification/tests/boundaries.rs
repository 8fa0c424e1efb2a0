use derive_hash_fast::pad_to_u128;
use derive_hash_fast::pad_to_u32;
use derive_hash_fast::pad_to_u64;
use derive_hash_fast::write_to_optimal_hasher_function;
use derive_hash_fast::RecordingAccumulator;
use derive_hash_fast::Update;

fn bytes_up_to(n: u8) -> Vec<u8> {
    (0..n).collect()
}

#[test]
fn boundary_0_raw_update() {
    let mut rec = RecordingAccumulator::new();
    write_to_optimal_hasher_function::<0>(&[], &mut rec);
    assert_eq!(rec.updates, vec![Update::Raw(Vec::new())]);
}

#[test]
fn boundary_1_u8_update() {
    let mut rec = RecordingAccumulator::new();
    write_to_optimal_hasher_function::<1>(&[0xAB], &mut rec);
    assert_eq!(rec.updates, vec![Update::U8(0xAB)]);
}

#[test]
fn boundary_2_u16_update() {
    let mut rec = RecordingAccumulator::new();
    write_to_optimal_hasher_function::<2>(&[0x01, 0x02], &mut rec);
    assert_eq!(rec.updates, vec![Update::U16(0x0201)]);
}

#[test]
fn boundary_3_padded_u32_update() {
    // First end-to-end scenario: three bytes are zero-padded to four and
    // performed as a single 32-bit update.
    let mut rec = RecordingAccumulator::new();
    write_to_optimal_hasher_function::<3>(&[0x01, 0x02, 0x03], &mut rec);
    assert_eq!(rec.updates, vec![Update::U32(0x0003_0201)]);
}

#[test]
fn boundary_4_u32_update() {
    let mut rec = RecordingAccumulator::new();
    write_to_optimal_hasher_function::<4>(&[0x01, 0x02, 0x03, 0x04], &mut rec);
    assert_eq!(rec.updates, vec![Update::U32(0x0403_0201)]);
}

#[test]
fn boundary_5_padded_u64_update() {
    let mut rec = RecordingAccumulator::new();
    write_to_optimal_hasher_function::<5>(&[0x01, 0x02, 0x03, 0x04, 0x05], &mut rec);
    assert_eq!(rec.updates, vec![Update::U64(0x0000_0005_0403_0201)]);
}

#[test]
fn boundary_7_padded_u64_update() {
    let mut rec = RecordingAccumulator::new();
    write_to_optimal_hasher_function::<7>(&[1, 2, 3, 4, 5, 6, 7], &mut rec);
    assert_eq!(rec.updates, vec![Update::U64(0x0007_0605_0403_0201)]);
}

#[test]
fn boundary_8_u64_update() {
    // Second end-to-end scenario: eight bytes fit a 64-bit update exactly,
    // no padding, the value being the buffer reinterpreted as an integer.
    let mut rec = RecordingAccumulator::new();
    write_to_optimal_hasher_function::<8>(&[1, 2, 3, 4, 5, 6, 7, 8], &mut rec);
    assert_eq!(rec.updates, vec![Update::U64(0x0807_0605_0403_0201)]);
}

#[test]
fn boundary_9_padded_u128_update() {
    let mut rec = RecordingAccumulator::new();
    write_to_optimal_hasher_function::<9>(&[1, 2, 3, 4, 5, 6, 7, 8, 9], &mut rec);
    assert_eq!(rec.updates, vec![Update::U128(0x0908_0706_0504_0302_01)]);
}

#[test]
fn boundary_15_padded_u128_update() {
    let mut rec = RecordingAccumulator::new();
    write_to_optimal_hasher_function::<15>(
        &[1, 2, 3, 4, 5, 6, 7, 8, 9, 10, 11, 12, 13, 14, 15],
        &mut rec,
    );
    assert_eq!(
        rec.updates,
        vec![Update::U128(0x000f_0e0d_0c0b_0a09_0807_0605_0403_0201)]
    );
}

#[test]
fn boundary_16_u128_update() {
    let mut rec = RecordingAccumulator::new();
    write_to_optimal_hasher_function::<16>(
        &[1, 2, 3, 4, 5, 6, 7, 8, 9, 10, 11, 12, 13, 14, 15, 16],
        &mut rec,
    );
    assert_eq!(
        rec.updates,
        vec![Update::U128(0x100f_0e0d_0c0b_0a09_0807_0605_0403_0201)]
    );
}

#[test]
fn boundary_17_chunk_plus_padded_remainder() {
    let bytes = bytes_up_to(17);
    let mut rec = RecordingAccumulator::new();
    write_to_optimal_hasher_function::<17>(&bytes, &mut rec);
    assert_eq!(
        rec.updates,
        vec![
            Update::U128(0x0f0e_0d0c_0b0a_0908_0706_0504_0302_0100),
            Update::U64(0x10),
        ]
    );
}

#[test]
fn boundary_64_four_chunks_no_remainder() {
    let bytes = bytes_up_to(64);
    let mut rec = RecordingAccumulator::new();
    write_to_optimal_hasher_function::<64>(&bytes, &mut rec);
    assert_eq!(
        rec.updates,
        vec![
            Update::U128(0x0f0e_0d0c_0b0a_0908_0706_0504_0302_0100),
            Update::U128(0x1f1e_1d1c_1b1a_1918_1716_1514_1312_1110),
            Update::U128(0x2f2e_2d2c_2b2a_2928_2726_2524_2322_2120),
            Update::U128(0x3f3e_3d3c_3b3a_3938_3736_3534_3332_3130),
        ]
    );
}

#[test]
fn boundary_65_single_raw_update() {
    let bytes = bytes_up_to(65);
    let mut rec = RecordingAccumulator::new();
    write_to_optimal_hasher_function::<65>(&bytes, &mut rec);
    assert_eq!(rec.updates, vec![Update::Raw(bytes.clone())]);
}

#[test]
fn scenario_20_chunk_then_padded_u64_remainder() {
    // Third end-to-end scenario: one full 16-byte chunk as a 128-bit
    // update, then the 4-byte remainder zero-padded to 8 bytes as a single
    // 64-bit update.
    let bytes = bytes_up_to(20);
    let mut rec = RecordingAccumulator::new();
    write_to_optimal_hasher_function::<20>(&bytes, &mut rec);
    assert_eq!(
        rec.updates,
        vec![
            Update::U128(0x0f0e_0d0c_0b0a_0908_0706_0504_0302_0100),
            Update::U64(0x1312_1110),
        ]
    );
}

#[test]
fn scenario_100_single_raw_update() {
    // Fourth end-to-end scenario: a 100-byte buffer goes through the bulk
    // raw-bytes path in one update, with no chunking and no padding.
    let bytes = bytes_up_to(100);
    let mut rec = RecordingAccumulator::new();
    write_to_optimal_hasher_function::<100>(&bytes, &mut rec);
    assert_eq!(rec.updates, vec![Update::Raw(bytes.clone())]);
}

#[test]
fn chunker_remainder_8_exact_u64() {
    let bytes = bytes_up_to(40);
    let mut rec = RecordingAccumulator::new();
    write_to_optimal_hasher_function::<40>(&bytes, &mut rec);
    assert_eq!(
        rec.updates,
        vec![
            Update::U128(0x0f0e_0d0c_0b0a_0908_0706_0504_0302_0100),
            Update::U128(0x1f1e_1d1c_1b1a_1918_1716_1514_1312_1110),
            Update::U64(0x2726_2524_2322_2120),
        ]
    );
}

#[test]
fn chunker_remainder_13_padded_u128() {
    let bytes = bytes_up_to(29);
    let mut rec = RecordingAccumulator::new();
    write_to_optimal_hasher_function::<29>(&bytes, &mut rec);
    assert_eq!(
        rec.updates,
        vec![
            Update::U128(0x0f0e_0d0c_0b0a_0908_0706_0504_0302_0100),
            Update::U128(0x0000_001c_1b1a_1918_1716_1514_1312_1110),
        ]
    );
}

#[test]
fn chunker_update_counts_partition_the_buffer() {
    // For every mid-sized length the chunker performs length / 16 full
    // 128-bit updates plus one remainder update unless the length is a
    // multiple of 16.
    for len in 17u8..=64u8 {
        let bytes = bytes_up_to(len);
        let mut rec = RecordingAccumulator::new();
        // Drive the chunker through the library's public chunk entry point,
        // which accepts any mid-sized length at runtime.
        derive_hash_fast::hash_padded_large(&bytes, &mut rec);
        let full = usize::from(len) / 16;
        let expected = full + usize::from(len % 16 != 0);
        assert_eq!(rec.updates.len(), expected, "length {len}");
        for update in rec.updates.iter().take(full) {
            assert!(matches!(update, Update::U128(_)), "length {len}");
        }
    }
}

#[test]
fn pad_to_u32_zero_extends() {
    assert_eq!(pad_to_u32(&[0xAA]), 0x0000_00AA);
    assert_eq!(pad_to_u32(&[0x01, 0x02, 0x03]), 0x0003_0201);
    assert_eq!(pad_to_u32(&[]), 0);
}

#[test]
fn pad_to_u64_zero_extends() {
    assert_eq!(pad_to_u64(&[0xFF]), 0xFF);
    assert_eq!(pad_to_u64(&[1, 2, 3, 4, 5, 6, 7]), 0x0007_0605_0403_0201);
}

#[test]
fn pad_to_u128_zero_extends() {
    assert_eq!(pad_to_u128(&[0x42]), 0x42);
    assert_eq!(
        pad_to_u128(&[1, 2, 3, 4, 5, 6, 7, 8, 9]),
        0x0908_0706_0504_0302_01
    );
}
