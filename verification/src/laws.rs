//! The laws the dispatcher obeys, stated over the spec-level dispatch table
//! and proved once and for all: determinism, padding correctness, collision
//! freedom among equal-length buffers, and the chunk/remainder partition.

use crate::accumulator::Accumulator;
use crate::model::chunk_ops;
use crate::model::dispatch_ops;
use crate::model::full_chunk_ops;
use crate::model::lemma_chunk_ops_structure;
use crate::model::pad_seq;
use crate::model::rem_ops;
use crate::model::Op;
use vstd::bytes::lemma_auto_spec_u128_to_from_le_bytes;
use vstd::bytes::lemma_auto_spec_u16_to_from_le_bytes;
use vstd::bytes::lemma_auto_spec_u32_to_from_le_bytes;
use vstd::bytes::lemma_auto_spec_u64_to_from_le_bytes;
use vstd::bytes::spec_u128_from_le_bytes;
use vstd::bytes::spec_u128_to_le_bytes;
use vstd::bytes::spec_u16_to_le_bytes;
use vstd::bytes::spec_u32_to_le_bytes;
use vstd::bytes::spec_u64_to_le_bytes;
use vstd::prelude::*;

verus! {

/// Padding correctness: zero-extending a buffer of `N < W` bytes to width
/// `W` keeps the first `N` bytes exactly as they were, in order, and fills
/// positions `N..W` with zeros.
pub proof fn lemma_pad_to_width(s: Seq<u8>, w: nat)
    requires
        s.len() < w,
    ensures
        pad_seq(s, w).len() == w,
        forall|i: int| 0 <= i < s.len() ==> pad_seq(s, w)[i] == s[i],
        forall|i: int| s.len() <= i < w ==> pad_seq(s, w)[i] == 0u8,
{
}

/// Padding keeps distinct buffers distinct: two equal-length buffers that
/// differ somewhere still differ after both are zero-extended to the same
/// width, so padding never makes two short buffers collide.
pub proof fn lemma_padding_injective(s1: Seq<u8>, s2: Seq<u8>, w: nat)
    requires
        s1.len() == s2.len() <= w,
        s1 != s2,
    ensures
        pad_seq(s1, w) != pad_seq(s2, w),
{
    if pad_seq(s1, w) == pad_seq(s2, w) {
        assert(pad_seq(s1, w).take(s1.len() as int) =~= s1);
        assert(pad_seq(s2, w).take(s2.len() as int) =~= s2);
        assert(false);
    }
}

/// Two equal-length byte sequences with the same little-endian 16-bit value
/// are equal.
proof fn lemma_u16_le_injective(a: Seq<u8>, b: Seq<u8>)
    requires
        a.len() == 2,
        b.len() == 2,
        vstd::bytes::spec_u16_from_le_bytes(a) == vstd::bytes::spec_u16_from_le_bytes(b),
    ensures
        a == b,
{
    lemma_auto_spec_u16_to_from_le_bytes();
    assert(a == spec_u16_to_le_bytes(vstd::bytes::spec_u16_from_le_bytes(a)));
    assert(b == spec_u16_to_le_bytes(vstd::bytes::spec_u16_from_le_bytes(b)));
}

/// Two equal-length byte sequences with the same little-endian 32-bit value
/// are equal.
proof fn lemma_u32_le_injective(a: Seq<u8>, b: Seq<u8>)
    requires
        a.len() == 4,
        b.len() == 4,
        vstd::bytes::spec_u32_from_le_bytes(a) == vstd::bytes::spec_u32_from_le_bytes(b),
    ensures
        a == b,
{
    lemma_auto_spec_u32_to_from_le_bytes();
    assert(a == spec_u32_to_le_bytes(vstd::bytes::spec_u32_from_le_bytes(a)));
    assert(b == spec_u32_to_le_bytes(vstd::bytes::spec_u32_from_le_bytes(b)));
}

/// Two equal-length byte sequences with the same little-endian 64-bit value
/// are equal.
proof fn lemma_u64_le_injective(a: Seq<u8>, b: Seq<u8>)
    requires
        a.len() == 8,
        b.len() == 8,
        vstd::bytes::spec_u64_from_le_bytes(a) == vstd::bytes::spec_u64_from_le_bytes(b),
    ensures
        a == b,
{
    lemma_auto_spec_u64_to_from_le_bytes();
    assert(a == spec_u64_to_le_bytes(vstd::bytes::spec_u64_from_le_bytes(a)));
    assert(b == spec_u64_to_le_bytes(vstd::bytes::spec_u64_from_le_bytes(b)));
}

/// Two equal-length byte sequences with the same little-endian 128-bit
/// value are equal.
proof fn lemma_u128_le_injective(a: Seq<u8>, b: Seq<u8>)
    requires
        a.len() == 16,
        b.len() == 16,
        spec_u128_from_le_bytes(a) == spec_u128_from_le_bytes(b),
    ensures
        a == b,
{
    lemma_auto_spec_u128_to_from_le_bytes();
    assert(a == spec_u128_to_le_bytes(spec_u128_from_le_bytes(a)));
    assert(b == spec_u128_to_le_bytes(spec_u128_from_le_bytes(b)));
}

/// Two equal singleton update sequences carry equal updates.
proof fn lemma_singleton_update_eq(a: Op, b: Op)
    requires
        seq![a] == seq![b],
    ensures
        a == b,
{
    assert(seq![a][0] == a);
    assert(seq![b][0] == b);
}

/// The remainder updates determine the remainder bytes, among remainders of
/// equal length.
proof fn lemma_rem_ops_injective(s1: Seq<u8>, s2: Seq<u8>)
    requires
        s1.len() == s2.len() < 16,
        rem_ops(s1) == rem_ops(s2),
    ensures
        s1 == s2,
{
    let n = s1.len();
    if n == 0 {
        assert(s1 =~= s2);
    } else if n <= 7 {
        lemma_singleton_update_eq(
            Op::U64(vstd::bytes::spec_u64_from_le_bytes(pad_seq(s1, 8))),
            Op::U64(vstd::bytes::spec_u64_from_le_bytes(pad_seq(s2, 8))),
        );
        lemma_u64_le_injective(pad_seq(s1, 8), pad_seq(s2, 8));
        assert(pad_seq(s1, 8).take(n as int) =~= s1);
        assert(pad_seq(s2, 8).take(n as int) =~= s2);
    } else if n == 8 {
        lemma_singleton_update_eq(
            Op::U64(vstd::bytes::spec_u64_from_le_bytes(s1)),
            Op::U64(vstd::bytes::spec_u64_from_le_bytes(s2)),
        );
        lemma_u64_le_injective(s1, s2);
    } else {
        lemma_singleton_update_eq(
            Op::U128(spec_u128_from_le_bytes(pad_seq(s1, 16))),
            Op::U128(spec_u128_from_le_bytes(pad_seq(s2, 16))),
        );
        lemma_u128_le_injective(pad_seq(s1, 16), pad_seq(s2, 16));
        assert(pad_seq(s1, 16).take(n as int) =~= s1);
        assert(pad_seq(s2, 16).take(n as int) =~= s2);
    }
}

/// The chunker's update sequence determines the buffer, among buffers of
/// equal length.
proof fn lemma_chunk_ops_injective(s1: Seq<u8>, s2: Seq<u8>)
    requires
        s1.len() == s2.len(),
        chunk_ops(s1) == chunk_ops(s2),
    ensures
        s1 == s2,
    decreases s1.len(),
{
    if s1.len() >= 16 {
        let h1 = Op::U128(spec_u128_from_le_bytes(s1.take(16)));
        let h2 = Op::U128(spec_u128_from_le_bytes(s2.take(16)));
        assert(chunk_ops(s1)[0] == h1);
        assert(chunk_ops(s2)[0] == h2);
        lemma_u128_le_injective(s1.take(16), s2.take(16));
        assert((seq![h1] + chunk_ops(s1.skip(16))).skip(1) =~= chunk_ops(s1.skip(16)));
        assert((seq![h2] + chunk_ops(s2.skip(16))).skip(1) =~= chunk_ops(s2.skip(16)));
        lemma_chunk_ops_injective(s1.skip(16), s2.skip(16));
        assert(s1 =~= s2) by {
            assert forall|i: int| 0 <= i < s1.len() implies s1[i] == s2[i] by {
                if i < 16 {
                    assert(s1[i] == s1.take(16)[i]);
                    assert(s2[i] == s2.take(16)[i]);
                } else {
                    assert(s1[i] == s1.skip(16)[i - 16]);
                    assert(s2[i] == s2.skip(16)[i - 16]);
                }
            }
        }
    } else {
        lemma_rem_ops_injective(s1, s2);
    }
}

/// The dispatcher's update sequence determines the buffer, among buffers of
/// equal length.
pub proof fn lemma_dispatch_ops_injective(s1: Seq<u8>, s2: Seq<u8>)
    requires
        s1.len() == s2.len(),
        dispatch_ops(s1) == dispatch_ops(s2),
    ensures
        s1 == s2,
{
    let b = s1.len();
    if b == 1 {
        lemma_singleton_update_eq(Op::U8(s1[0]), Op::U8(s2[0]));
        assert(s1 =~= s2);
    } else if b == 2 {
        lemma_singleton_update_eq(
            Op::U16(vstd::bytes::spec_u16_from_le_bytes(s1)),
            Op::U16(vstd::bytes::spec_u16_from_le_bytes(s2)),
        );
        lemma_u16_le_injective(s1, s2);
    } else if b == 3 {
        lemma_singleton_update_eq(
            Op::U32(vstd::bytes::spec_u32_from_le_bytes(pad_seq(s1, 4))),
            Op::U32(vstd::bytes::spec_u32_from_le_bytes(pad_seq(s2, 4))),
        );
        lemma_u32_le_injective(pad_seq(s1, 4), pad_seq(s2, 4));
        assert(pad_seq(s1, 4).take(b as int) =~= s1);
        assert(pad_seq(s2, 4).take(b as int) =~= s2);
    } else if b == 4 {
        lemma_singleton_update_eq(
            Op::U32(vstd::bytes::spec_u32_from_le_bytes(s1)),
            Op::U32(vstd::bytes::spec_u32_from_le_bytes(s2)),
        );
        lemma_u32_le_injective(s1, s2);
    } else if 5 <= b && b <= 7 {
        lemma_singleton_update_eq(
            Op::U64(vstd::bytes::spec_u64_from_le_bytes(pad_seq(s1, 8))),
            Op::U64(vstd::bytes::spec_u64_from_le_bytes(pad_seq(s2, 8))),
        );
        lemma_u64_le_injective(pad_seq(s1, 8), pad_seq(s2, 8));
        assert(pad_seq(s1, 8).take(b as int) =~= s1);
        assert(pad_seq(s2, 8).take(b as int) =~= s2);
    } else if b == 8 {
        lemma_singleton_update_eq(
            Op::U64(vstd::bytes::spec_u64_from_le_bytes(s1)),
            Op::U64(vstd::bytes::spec_u64_from_le_bytes(s2)),
        );
        lemma_u64_le_injective(s1, s2);
    } else if 9 <= b && b <= 15 {
        lemma_singleton_update_eq(
            Op::U128(spec_u128_from_le_bytes(pad_seq(s1, 16))),
            Op::U128(spec_u128_from_le_bytes(pad_seq(s2, 16))),
        );
        lemma_u128_le_injective(pad_seq(s1, 16), pad_seq(s2, 16));
        assert(pad_seq(s1, 16).take(b as int) =~= s1);
        assert(pad_seq(s2, 16).take(b as int) =~= s2);
    } else if b == 16 {
        lemma_singleton_update_eq(
            Op::U128(spec_u128_from_le_bytes(s1)),
            Op::U128(spec_u128_from_le_bytes(s2)),
        );
        lemma_u128_le_injective(s1, s2);
    } else if 17 <= b && b <= 64 {
        lemma_chunk_ops_injective(s1, s2);
    } else {
        lemma_singleton_update_eq(Op::Raw(s1), Op::Raw(s2));
    }
}

/// Sensitivity: two equal-length buffers that differ in at least one byte
/// are handed to the accumulator as different update sequences, so the
/// dispatcher never introduces a collision of its own — in particular,
/// zero-padding never maps two distinct buffers to the same padded word.
pub proof fn lemma_dispatch_sensitivity(s1: Seq<u8>, s2: Seq<u8>)
    requires
        s1.len() == s2.len(),
        s1 != s2,
    ensures
        dispatch_ops(s1) != dispatch_ops(s2),
{
    if dispatch_ops(s1) == dispatch_ops(s2) {
        lemma_dispatch_ops_injective(s1, s2);
        assert(false);
    }
}

/// Determinism: the update sequence the dispatcher appends is a function of
/// the buffer's bytes alone, so two accumulators of the same kind that
/// start from the same update log and hash byte-identical buffers hold the
/// same log afterwards and finalize to the same digest.
pub proof fn lemma_dispatch_deterministic<A: Accumulator>(ops0: Seq<Op>, b1: Seq<u8>, b2: Seq<u8>)
    requires
        b1 == b2,
    ensures
        ops0 + dispatch_ops(b1) == ops0 + dispatch_ops(b2),
        A::digest(ops0 + dispatch_ops(b1)) == A::digest(ops0 + dispatch_ops(b2)),
{
}

/// Chunk/remainder partition: on a buffer of `B` bytes with `17 <= B <= 64`
/// the chunker performs exactly `B / 16` full-width 128-bit updates — the
/// consecutive 16-byte chunks, in buffer order — followed by at most one
/// remainder update: none when `B % 16 == 0`, exactly one otherwise,
/// covering the final `B % 16` bytes; so the updates consume all `B` bytes
/// exactly once.
pub proof fn lemma_chunk_partition(s: Seq<u8>)
    requires
        17 <= s.len() <= 64,
    ensures
        ({
            let k = s.len() as int / 16;
            let r = s.len() as int % 16;
            &&& chunk_ops(s) == full_chunk_ops(s, k) + rem_ops(s.skip(16 * k))
            &&& full_chunk_ops(s, k).len() == k
            &&& (forall|j: int|
                0 <= j < k ==> full_chunk_ops(s, k)[j] == Op::U128(
                    spec_u128_from_le_bytes(s.subrange(16 * j, 16 * j + 16)),
                ))
            &&& s.skip(16 * k).len() == r
            &&& rem_ops(s.skip(16 * k)).len() == (if r == 0 {
                0int
            } else {
                1int
            })
            &&& 16 * k + r == s.len()
        }),
{
    lemma_chunk_ops_structure(s);
}

} // verus!
