//! Host-side core of a GPU path tracer: the bit-packed scene record
//! encoding shared with the device kernels, the sizing and lifecycle of the
//! shared device buffers, the fixed binding layout of the three pipeline
//! stages, the sample/bounce dispatch schedule, and the normalization of the
//! accumulated image.
//!
//! Device-facing vector records store each 32-bit lane as its raw IEEE-754
//! bit pattern (`u32`), so the tagged-union payloads that the encoding packs
//! into unused lanes are read and written exactly, with no numeric
//! conversion anywhere.
use vstd::prelude::*;

pub mod buffers;
pub mod finalize;
pub mod pipeline;
pub mod records;
pub mod schedule;

verus! {

} // verus!
