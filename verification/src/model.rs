//! The mathematical model: which accumulator updates a buffer of a given
//! length must produce, and which bytes each update feeds into the
//! underlying hash state.

use vstd::bytes::spec_u128_from_le_bytes;
use vstd::bytes::spec_u128_to_le_bytes;
use vstd::bytes::spec_u16_from_le_bytes;
use vstd::bytes::spec_u16_to_le_bytes;
use vstd::bytes::spec_u32_from_le_bytes;
use vstd::bytes::spec_u32_to_le_bytes;
use vstd::bytes::spec_u64_from_le_bytes;
use vstd::bytes::spec_u64_to_le_bytes;
use vstd::prelude::*;

verus! {

/// One update operation performed on a hash accumulator: an integer update
/// of a specific width, or a raw-bytes update.  Integer values are formed
/// from buffer bytes in little-endian order, so the first buffer byte is the
/// value's least significant byte.
pub enum Op {
    U8(u8),
    U16(u16),
    U32(u32),
    U64(u64),
    U128(u128),
    Raw(Seq<u8>),
}

/// `n` zero bytes.
pub open spec fn zero_bytes(n: nat) -> Seq<u8> {
    Seq::new(n, |i: int| 0u8)
}

/// `s` zero-extended to width `w`: the input bytes first, then zeros in
/// the high-order positions.
pub open spec fn pad_seq(s: Seq<u8>, w: nat) -> Seq<u8>
    recommends
        s.len() <= w,
{
    s + zero_bytes((w - s.len()) as nat)
}

/// The updates the chunker performs for a remainder of fewer than 16 bytes:
/// nothing when it is empty, a zero-padded or exact 64-bit update when it
/// fits in 8 bytes, and a zero-padded 128-bit update otherwise.
pub open spec fn rem_ops(s: Seq<u8>) -> Seq<Op>
    recommends
        s.len() < 16,
{
    if s.len() == 0 {
        seq![]
    } else if s.len() <= 7 {
        seq![Op::U64(spec_u64_from_le_bytes(pad_seq(s, 8)))]
    } else if s.len() == 8 {
        seq![Op::U64(spec_u64_from_le_bytes(s))]
    } else {
        seq![Op::U128(spec_u128_from_le_bytes(pad_seq(s, 16)))]
    }
}

/// The updates the chunker performs on a buffer: one 128-bit update per full
/// 16-byte chunk, in buffer order, then the remainder updates.
pub open spec fn chunk_ops(s: Seq<u8>) -> Seq<Op>
    decreases s.len(),
{
    if s.len() >= 16 {
        seq![Op::U128(spec_u128_from_le_bytes(s.take(16)))] + chunk_ops(s.skip(16))
    } else {
        rem_ops(s)
    }
}

/// The dispatch table: the exact update sequence the dispatcher must hand to
/// the accumulator for a buffer `s`.  Exact-width integer updates at 1, 2,
/// 4, 8 and 16 bytes; a single zero-padded update up to the next width at 3,
/// 5 to 7 and 9 to 15 bytes; the chunker at 17 to 64 bytes; one raw-bytes
/// update for an empty buffer and for buffers of 65 bytes or more.
pub open spec fn dispatch_ops(s: Seq<u8>) -> Seq<Op> {
    let b = s.len();
    if b == 1 {
        seq![Op::U8(s[0])]
    } else if b == 2 {
        seq![Op::U16(spec_u16_from_le_bytes(s))]
    } else if b == 3 {
        seq![Op::U32(spec_u32_from_le_bytes(pad_seq(s, 4)))]
    } else if b == 4 {
        seq![Op::U32(spec_u32_from_le_bytes(s))]
    } else if 5 <= b && b <= 7 {
        seq![Op::U64(spec_u64_from_le_bytes(pad_seq(s, 8)))]
    } else if b == 8 {
        seq![Op::U64(spec_u64_from_le_bytes(s))]
    } else if 9 <= b && b <= 15 {
        seq![Op::U128(spec_u128_from_le_bytes(pad_seq(s, 16)))]
    } else if b == 16 {
        seq![Op::U128(spec_u128_from_le_bytes(s))]
    } else if 17 <= b && b <= 64 {
        chunk_ops(s)
    } else {
        seq![Op::Raw(s)]
    }
}

/// One 128-bit update per full 16-byte chunk of `s`, for the first `k`
/// chunks, in buffer order.
pub open spec fn full_chunk_ops(s: Seq<u8>, k: int) -> Seq<Op> {
    Seq::new(k as nat, |j: int| Op::U128(spec_u128_from_le_bytes(s.subrange(16 * j, 16 * j + 16))))
}

/// The chunker's update sequence in closed form: one 128-bit update per full
/// 16-byte chunk, in buffer order, followed by the remainder updates.
pub proof fn lemma_chunk_ops_structure(s: Seq<u8>)
    ensures
        chunk_ops(s) == full_chunk_ops(s, s.len() as int / 16) + rem_ops(
            s.skip(16 * (s.len() as int / 16)),
        ),
    decreases s.len(),
{
    let k = s.len() as int / 16;
    if s.len() < 16 {
        assert(k == 0);
        assert(s.skip(0) =~= s);
        assert(full_chunk_ops(s, 0) + rem_ops(s) =~= rem_ops(s));
    } else {
        let t = s.skip(16);
        lemma_chunk_ops_structure(t);
        assert(t.len() as int / 16 == k - 1);
        let head = Op::U128(spec_u128_from_le_bytes(s.take(16)));
        assert(seq![head] + full_chunk_ops(t, k - 1) =~= full_chunk_ops(s, k)) by {
            assert(s.take(16) =~= s.subrange(0, 16));
            assert forall|j: int| 1 <= j < k implies full_chunk_ops(t, k - 1)[j - 1]
                == full_chunk_ops(s, k)[j] by {
                assert(t.subrange(16 * (j - 1), 16 * (j - 1) + 16) =~= s.subrange(
                    16 * j,
                    16 * j + 16,
                ));
            }
        }
        assert(t.skip(16 * (k - 1)) =~= s.skip(16 * k));
        assert(chunk_ops(s) =~= full_chunk_ops(s, k) + rem_ops(s.skip(16 * k)));
    }
}

/// The byte string an update writes into the underlying hash state: integer
/// updates write the value's little-endian bytes, raw updates write their
/// bytes unchanged.
pub open spec fn op_bytes(op: Op) -> Seq<u8> {
    match op {
        Op::U8(v) => seq![v],
        Op::U16(v) => spec_u16_to_le_bytes(v),
        Op::U32(v) => spec_u32_to_le_bytes(v),
        Op::U64(v) => spec_u64_to_le_bytes(v),
        Op::U128(v) => spec_u128_to_le_bytes(v),
        Op::Raw(s) => s,
    }
}

/// The per-write byte log a sequence of updates leaves in the underlying
/// hash state.
pub open spec fn ops_byte_log(ops: Seq<Op>) -> Seq<Seq<u8>> {
    ops.map_values(|op: Op| op_bytes(op))
}

/// Appending one update appends one entry to the byte log.
pub proof fn lemma_ops_byte_log_push(ops: Seq<Op>, op: Op)
    ensures
        ops_byte_log(ops.push(op)) == ops_byte_log(ops).push(op_bytes(op)),
{
    assert(ops_byte_log(ops.push(op)) =~= ops_byte_log(ops).push(op_bytes(op)));
}

} // verus!
