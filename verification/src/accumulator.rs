//! The hash accumulator abstraction the dispatcher writes into, and two
//! implementations: one backed by the standard library's `DefaultHasher`,
//! and one that records the updates it receives so callers and tests can
//! inspect exactly which operations the dispatcher chose.

use crate::model::lemma_ops_byte_log_push;
use crate::model::op_bytes;
use crate::model::ops_byte_log;
use crate::model::Op;
use core::hash::Hasher;
use std::collections::hash_map::DefaultHasher;
use vstd::bytes::u128_to_le_bytes;
use vstd::bytes::u16_to_le_bytes;
use vstd::bytes::u32_to_le_bytes;
use vstd::bytes::u64_to_le_bytes;
use vstd::prelude::*;
use vstd::slice::slice_to_vec;
use vstd::std_specs::hash::DefaultHasherAdditionalSpecFns;

verus! {

/// The digest `DefaultHasher` assigns to the byte log of a sequence of
/// updates.  A deterministic function of the updates alone.
pub open spec fn std_digest_of(ops: Seq<Op>) -> u64 {
    DefaultHasher::spec_finish(ops_byte_log(ops))
}

/// A hash accumulator: receives integer updates of each native width and
/// raw-bytes updates, and finalizes into a 64-bit digest.
///
/// The abstract state is the sequence of updates received so far, `ops`;
/// each write appends exactly one update to it, and the digest is a function
/// of the update sequence alone, so byte-identical update sequences always
/// finalize to identical digests.
pub trait Accumulator: Sized {
    /// Well-formedness of the accumulator's internal state.
    spec fn inv(&self) -> bool;

    /// The updates received so far.
    spec fn ops(&self) -> Seq<Op>;

    /// The digest this kind of accumulator assigns to an update sequence.
    spec fn digest(ops: Seq<Op>) -> u64;

    fn write_u8(&mut self, v: u8)
        requires
            old(self).inv(),
        ensures
            final(self).inv(),
            final(self).ops() == old(self).ops().push(Op::U8(v)),
    ;

    fn write_u16(&mut self, v: u16)
        requires
            old(self).inv(),
        ensures
            final(self).inv(),
            final(self).ops() == old(self).ops().push(Op::U16(v)),
    ;

    fn write_u32(&mut self, v: u32)
        requires
            old(self).inv(),
        ensures
            final(self).inv(),
            final(self).ops() == old(self).ops().push(Op::U32(v)),
    ;

    fn write_u64(&mut self, v: u64)
        requires
            old(self).inv(),
        ensures
            final(self).inv(),
            final(self).ops() == old(self).ops().push(Op::U64(v)),
    ;

    fn write_u128(&mut self, v: u128)
        requires
            old(self).inv(),
        ensures
            final(self).inv(),
            final(self).ops() == old(self).ops().push(Op::U128(v)),
    ;

    fn write(&mut self, bytes: &[u8])
        requires
            old(self).inv(),
        ensures
            final(self).inv(),
            final(self).ops() == old(self).ops().push(Op::Raw(bytes@)),
    ;

    fn finish(&self) -> (r: u64)
        requires
            self.inv(),
        ensures
            r == Self::digest(self.ops()),
    ;
}

/// An update operation as a plain executable value, so an update log can be
/// stored, inspected and replayed.  Mirrors [`Op`], which is its view.
#[derive(Debug, PartialEq, Eq)]
pub enum Update {
    U8(u8),
    U16(u16),
    U32(u32),
    U64(u64),
    U128(u128),
    Raw(Vec<u8>),
}

impl View for Update {
    type V = Op;

    open spec fn view(&self) -> Op {
        match self {
            Update::U8(v) => Op::U8(*v),
            Update::U16(v) => Op::U16(*v),
            Update::U32(v) => Op::U32(*v),
            Update::U64(v) => Op::U64(*v),
            Update::U128(v) => Op::U128(*v),
            Update::Raw(b) => Op::Raw(b@),
        }
    }
}

/// Performs one update on a `DefaultHasher`, writing exactly the update's
/// byte string into it.
fn write_update(h: &mut DefaultHasher, u: &Update)
    ensures
        final(h)@ == old(h)@.push(op_bytes(u@)),
{
    match u {
        Update::U8(v) => {
            let mut b: Vec<u8> = Vec::new();
            b.push(*v);
            assert(b@ =~= op_bytes(u@));
            h.write(b.as_slice());
        },
        Update::U16(v) => {
            let b = u16_to_le_bytes(*v);
            h.write(b.as_slice());
        },
        Update::U32(v) => {
            let b = u32_to_le_bytes(*v);
            h.write(b.as_slice());
        },
        Update::U64(v) => {
            let b = u64_to_le_bytes(*v);
            h.write(b.as_slice());
        },
        Update::U128(v) => {
            let b = u128_to_le_bytes(*v);
            h.write(b.as_slice());
        },
        Update::Raw(b) => {
            h.write(b.as_slice());
        },
    }
}

/// An accumulator backed by the standard library's `DefaultHasher`.
///
/// Each integer update writes the value's little-endian bytes into the
/// hasher; a raw update writes its bytes unchanged.  The ghost update log
/// tracks the hasher's state exactly: the hasher's write log is always the
/// byte log of the updates received.
pub struct StdAccumulator {
    hasher: DefaultHasher,
    log: Ghost<Seq<Op>>,
}

impl StdAccumulator {
    /// A fresh accumulator with an empty update log.
    pub fn new() -> (r: StdAccumulator)
        ensures
            r.inv(),
            r.ops() == Seq::<Op>::empty(),
    {
        let r = StdAccumulator { hasher: DefaultHasher::new(), log: Ghost(Seq::empty()) };
        proof {
            assert(ops_byte_log(r.log@) =~= Seq::<Seq<u8>>::empty());
        }
        r
    }
}

impl Accumulator for StdAccumulator {
    closed spec fn inv(&self) -> bool {
        self.hasher@ == ops_byte_log(self.log@)
    }

    closed spec fn ops(&self) -> Seq<Op> {
        self.log@
    }

    open spec fn digest(ops: Seq<Op>) -> u64 {
        std_digest_of(ops)
    }

    fn write_u8(&mut self, v: u8) {
        write_update(&mut self.hasher, &Update::U8(v));
        proof {
            self.log@ = self.log@.push(Op::U8(v));
            lemma_ops_byte_log_push(old(self).log@, Op::U8(v));
        }
    }

    fn write_u16(&mut self, v: u16) {
        write_update(&mut self.hasher, &Update::U16(v));
        proof {
            self.log@ = self.log@.push(Op::U16(v));
            lemma_ops_byte_log_push(old(self).log@, Op::U16(v));
        }
    }

    fn write_u32(&mut self, v: u32) {
        write_update(&mut self.hasher, &Update::U32(v));
        proof {
            self.log@ = self.log@.push(Op::U32(v));
            lemma_ops_byte_log_push(old(self).log@, Op::U32(v));
        }
    }

    fn write_u64(&mut self, v: u64) {
        write_update(&mut self.hasher, &Update::U64(v));
        proof {
            self.log@ = self.log@.push(Op::U64(v));
            lemma_ops_byte_log_push(old(self).log@, Op::U64(v));
        }
    }

    fn write_u128(&mut self, v: u128) {
        write_update(&mut self.hasher, &Update::U128(v));
        proof {
            self.log@ = self.log@.push(Op::U128(v));
            lemma_ops_byte_log_push(old(self).log@, Op::U128(v));
        }
    }

    fn write(&mut self, bytes: &[u8]) {
        self.hasher.write(bytes);
        proof {
            self.log@ = self.log@.push(Op::Raw(bytes@));
            lemma_ops_byte_log_push(old(self).log@, Op::Raw(bytes@));
        }
    }

    fn finish(&self) -> (r: u64) {
        self.hasher.finish()
    }
}

/// The views of a sequence of recorded updates.
pub open spec fn update_views(us: Seq<Update>) -> Seq<Op> {
    us.map_values(|u: Update| u@)
}

/// Recording one more update appends its view to the viewed log.
pub proof fn lemma_update_views_push(us: Seq<Update>, u: Update)
    ensures
        update_views(us.push(u)) == update_views(us).push(u@),
{
    assert(update_views(us.push(u)) =~= update_views(us).push(u@));
}

/// An accumulator that records the updates it receives, so a caller can
/// observe exactly which width-specific operations the dispatcher invoked
/// and in what order.  Its digest is the one `DefaultHasher` would produce
/// from the same updates, computed by replaying the recorded log.
pub struct RecordingAccumulator {
    /// The updates received so far, oldest first.
    pub updates: Vec<Update>,
}

impl RecordingAccumulator {
    /// A fresh accumulator with an empty update log.
    pub fn new() -> (r: RecordingAccumulator)
        ensures
            r.inv(),
            r.ops() == Seq::<Op>::empty(),
    {
        let r = RecordingAccumulator { updates: Vec::new() };
        proof {
            assert(update_views(r.updates@) =~= Seq::<Op>::empty());
        }
        r
    }
}

impl Accumulator for RecordingAccumulator {
    open spec fn inv(&self) -> bool {
        true
    }

    open spec fn ops(&self) -> Seq<Op> {
        update_views(self.updates@)
    }

    open spec fn digest(ops: Seq<Op>) -> u64 {
        std_digest_of(ops)
    }

    fn write_u8(&mut self, v: u8) {
        self.updates.push(Update::U8(v));
        proof {
            lemma_update_views_push(old(self).updates@, Update::U8(v));
        }
    }

    fn write_u16(&mut self, v: u16) {
        self.updates.push(Update::U16(v));
        proof {
            lemma_update_views_push(old(self).updates@, Update::U16(v));
        }
    }

    fn write_u32(&mut self, v: u32) {
        self.updates.push(Update::U32(v));
        proof {
            lemma_update_views_push(old(self).updates@, Update::U32(v));
        }
    }

    fn write_u64(&mut self, v: u64) {
        self.updates.push(Update::U64(v));
        proof {
            lemma_update_views_push(old(self).updates@, Update::U64(v));
        }
    }

    fn write_u128(&mut self, v: u128) {
        self.updates.push(Update::U128(v));
        proof {
            lemma_update_views_push(old(self).updates@, Update::U128(v));
        }
    }

    fn write(&mut self, bytes: &[u8]) {
        let copy = slice_to_vec(bytes);
        self.updates.push(Update::Raw(copy));
        proof {
            lemma_update_views_push(old(self).updates@, Update::Raw(copy));
        }
    }

    fn finish(&self) -> (r: u64) {
        let mut h = DefaultHasher::new();
        let n = self.updates.len();
        let mut i: usize = 0;
        proof {
            assert(update_views(self.updates@.take(0)) =~= Seq::<Op>::empty());
            assert(ops_byte_log(Seq::<Op>::empty()) =~= Seq::<Seq<u8>>::empty());
        }
        while i < n
            invariant
                n == self.updates.len(),
                i <= n,
                h@ == ops_byte_log(update_views(self.updates@.take(i as int))),
            decreases n - i,
        {
            write_update(&mut h, &self.updates[i]);
            proof {
                let us = self.updates@;
                assert(us.take(i as int + 1) =~= us.take(i as int).push(us[i as int]));
                lemma_update_views_push(us.take(i as int), us[i as int]);
                lemma_ops_byte_log_push(update_views(us.take(i as int)), us[i as int]@);
            }
            i += 1;
        }
        proof {
            assert(self.updates@.take(n as int) =~= self.updates@);
        }
        h.finish()
    }
}

} // verus!
