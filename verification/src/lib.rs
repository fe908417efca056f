//! Bit-level decomposition and recomposition of IEEE-754 floating-point
//! values, working directly on their raw bit patterns.
//!
//! `bits64` covers binary64 (the 64-bit pattern of an `f64`), `bits32` the
//! same field layout scaled to binary32. Callers that hold an actual float
//! convert with `to_bits` / `from_bits` at the boundary.

pub mod bits32;
pub mod bits64;
