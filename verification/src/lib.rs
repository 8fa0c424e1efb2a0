//! Width-dispatched hashing of fixed-size byte buffers.
//!
//! Given a byte buffer whose length `B` is fixed at the call site, the
//! dispatcher feeds the buffer to a hash accumulator through the narrowest
//! native integer update that covers it: an exact-width update where `B` is a
//! power-of-two word size, a single zero-padded update where `B` is just
//! short of one, a run of 16-byte chunks plus one padded remainder for
//! mid-sized buffers, and one raw-bytes update for large ones.
//!
//! The heart of the crate is the spec-level dispatch table
//! [`model::dispatch_ops`], which maps a byte sequence to the exact sequence
//! of accumulator updates it must receive.  Every executable entry point is
//! proved to append precisely those updates to its accumulator.

pub mod accumulator;
pub mod dispatch;
pub mod laws;
pub mod model;

pub use accumulator::Accumulator;
pub use accumulator::RecordingAccumulator;
pub use accumulator::StdAccumulator;
pub use accumulator::Update;
pub use dispatch::hash_padded_large;
pub use dispatch::pad_to_u128;
pub use dispatch::pad_to_u32;
pub use dispatch::pad_to_u64;
pub use dispatch::write_to_optimal_hasher_function;
pub use model::Op;
