//! The width dispatcher and its helpers: padding a short buffer to the next
//! integer width, and splitting a mid-sized buffer into 16-byte chunks plus
//! a padded remainder.

use crate::accumulator::Accumulator;
use crate::model::chunk_ops;
use crate::model::dispatch_ops;
use crate::model::full_chunk_ops;
use crate::model::lemma_chunk_ops_structure;
use crate::model::pad_seq;
use crate::model::rem_ops;
use crate::model::Op;
use vstd::bytes::spec_u128_from_le_bytes;
use vstd::bytes::spec_u32_from_le_bytes;
use vstd::bytes::spec_u64_from_le_bytes;
use vstd::bytes::u128_from_le_bytes;
use vstd::bytes::u16_from_le_bytes;
use vstd::bytes::u32_from_le_bytes;
use vstd::bytes::u64_from_le_bytes;
use vstd::prelude::*;
use vstd::slice::slice_subrange;
use vstd::slice::slice_to_vec;

verus! {

/// Zero-extends a buffer of fewer than 4 bytes into a 4-byte scratch buffer
/// and reinterprets it as a 32-bit little-endian integer: the low-order
/// bytes hold the input unchanged, the high-order bytes are zero.
pub fn pad_to_u32(bytes: &[u8]) -> (r: u32)
    requires
        bytes@.len() < 4,
    ensures
        r == spec_u32_from_le_bytes(pad_seq(bytes@, 4)),
{
    let mut padded = slice_to_vec(bytes);
    proof {
        assert(padded@ =~= pad_seq(bytes@, padded@.len()));
    }
    while padded.len() < 4
        invariant
            bytes@.len() <= padded@.len() <= 4,
            padded@ == pad_seq(bytes@, padded@.len()),
        decreases 4 - padded@.len(),
    {
        padded.push(0u8);
        proof {
            assert(padded@ =~= pad_seq(bytes@, padded@.len()));
        }
    }
    u32_from_le_bytes(padded.as_slice())
}

/// Zero-extends a buffer of fewer than 8 bytes into an 8-byte scratch
/// buffer and reinterprets it as a 64-bit little-endian integer.
pub fn pad_to_u64(bytes: &[u8]) -> (r: u64)
    requires
        bytes@.len() < 8,
    ensures
        r == spec_u64_from_le_bytes(pad_seq(bytes@, 8)),
{
    let mut padded = slice_to_vec(bytes);
    proof {
        assert(padded@ =~= pad_seq(bytes@, padded@.len()));
    }
    while padded.len() < 8
        invariant
            bytes@.len() <= padded@.len() <= 8,
            padded@ == pad_seq(bytes@, padded@.len()),
        decreases 8 - padded@.len(),
    {
        padded.push(0u8);
        proof {
            assert(padded@ =~= pad_seq(bytes@, padded@.len()));
        }
    }
    u64_from_le_bytes(padded.as_slice())
}

/// Zero-extends a buffer of fewer than 16 bytes into a 16-byte scratch
/// buffer and reinterprets it as a 128-bit little-endian integer.
pub fn pad_to_u128(bytes: &[u8]) -> (r: u128)
    requires
        bytes@.len() < 16,
    ensures
        r == spec_u128_from_le_bytes(pad_seq(bytes@, 16)),
{
    let mut padded = slice_to_vec(bytes);
    proof {
        assert(padded@ =~= pad_seq(bytes@, padded@.len()));
    }
    while padded.len() < 16
        invariant
            bytes@.len() <= padded@.len() <= 16,
            padded@ == pad_seq(bytes@, padded@.len()),
        decreases 16 - padded@.len(),
    {
        padded.push(0u8);
        proof {
            assert(padded@ =~= pad_seq(bytes@, padded@.len()));
        }
    }
    u128_from_le_bytes(padded.as_slice())
}

/// Hashes a mid-sized buffer by feeding the accumulator one 128-bit update
/// per full 16-byte chunk, in buffer order, then one padded or exact update
/// for the remainder as [`rem_ops`] prescribes.
pub fn hash_padded_large(bytes: &[u8], state: &mut impl Accumulator)
    requires
        17 <= bytes@.len() <= 64,
        old(state).inv(),
    ensures
        final(state).inv(),
        final(state).ops() == old(state).ops() + chunk_ops(bytes@),
{
    let ghost s = bytes@;
    let len = bytes.len();
    let full = len / 16;
    let mut i: usize = 0;
    proof {
        assert(state.ops() =~= old(state).ops() + full_chunk_ops(s, 0));
    }
    while i < full
        invariant
            bytes@ == s,
            17 <= s.len() <= 64,
            len == s.len(),
            full == len / 16,
            i <= full,
            state.inv(),
            state.ops() == old(state).ops() + full_chunk_ops(s, i as int),
        decreases full - i,
    {
        let chunk = slice_subrange(bytes, i * 16, i * 16 + 16);
        let v = u128_from_le_bytes(chunk);
        state.write_u128(v);
        proof {
            assert(full_chunk_ops(s, i as int).push(Op::U128(spec_u128_from_le_bytes(chunk@)))
                =~= full_chunk_ops(s, i as int + 1));
            assert(state.ops() =~= old(state).ops() + full_chunk_ops(s, i as int + 1));
        }
        i += 1;
    }
    let rem = len - full * 16;
    proof {
        assert(rem == s.len() as int % 16);
    }
    if rem == 0 {
        proof {
            assert(rem_ops(s.skip(16 * (s.len() as int / 16))) =~= Seq::<Op>::empty());
        }
    } else {
        let tail = slice_subrange(bytes, full * 16, len);
        proof {
            assert(tail@ =~= s.skip(16 * (s.len() as int / 16)));
        }
        if rem <= 7 {
            let v = pad_to_u64(tail);
            state.write_u64(v);
        } else if rem == 8 {
            let v = u64_from_le_bytes(tail);
            state.write_u64(v);
        } else {
            let v = pad_to_u128(tail);
            state.write_u128(v);
        }
    }
    proof {
        lemma_chunk_ops_structure(s);
        assert(state.ops() =~= old(state).ops() + chunk_ops(s));
    }
}

/// The width dispatcher: feeds a buffer whose length is the compile-time
/// constant `B` to the accumulator through the cheapest update sequence
/// that consumes every byte exactly once, as [`dispatch_ops`] prescribes.
///
/// Exact-width integer updates at 1, 2, 4, 8 and 16 bytes; one zero-padded
/// update to the next width at 3, 5 to 7 and 9 to 15 bytes; 16-byte chunks
/// plus a padded remainder at 17 to 64 bytes; a single raw-bytes update for
/// an empty buffer and for buffers of 65 bytes or more.
///
/// The buffer must hold exactly `B` bytes: a mismatch would corrupt the
/// digest without signaling failure, so it is ruled out here as a
/// precondition, and an unverified caller must check the length and fail
/// loudly before calling.
pub fn write_to_optimal_hasher_function<const B: usize>(bytes: &[u8], state: &mut impl Accumulator)
    requires
        bytes@.len() == B,
        old(state).inv(),
    ensures
        final(state).inv(),
        final(state).ops() == old(state).ops() + dispatch_ops(bytes@),
{
    if B == 1 {
        state.write_u8(bytes[0]);
        proof {
            assert(state.ops() =~= old(state).ops() + dispatch_ops(bytes@));
        }
    } else if B == 2 {
        state.write_u16(u16_from_le_bytes(bytes));
        proof {
            assert(state.ops() =~= old(state).ops() + dispatch_ops(bytes@));
        }
    } else if B == 3 {
        state.write_u32(pad_to_u32(bytes));
        proof {
            assert(state.ops() =~= old(state).ops() + dispatch_ops(bytes@));
        }
    } else if B == 4 {
        state.write_u32(u32_from_le_bytes(bytes));
        proof {
            assert(state.ops() =~= old(state).ops() + dispatch_ops(bytes@));
        }
    } else if 5 <= B && B <= 7 {
        state.write_u64(pad_to_u64(bytes));
        proof {
            assert(state.ops() =~= old(state).ops() + dispatch_ops(bytes@));
        }
    } else if B == 8 {
        state.write_u64(u64_from_le_bytes(bytes));
        proof {
            assert(state.ops() =~= old(state).ops() + dispatch_ops(bytes@));
        }
    } else if 9 <= B && B <= 15 {
        state.write_u128(pad_to_u128(bytes));
        proof {
            assert(state.ops() =~= old(state).ops() + dispatch_ops(bytes@));
        }
    } else if B == 16 {
        state.write_u128(u128_from_le_bytes(bytes));
        proof {
            assert(state.ops() =~= old(state).ops() + dispatch_ops(bytes@));
        }
    } else if 17 <= B && B <= 64 {
        hash_padded_large(bytes, state);
    } else {
        state.write(bytes);
        proof {
            assert(state.ops() =~= old(state).ops() + dispatch_ops(bytes@));
        }
    }
}

} // verus!
