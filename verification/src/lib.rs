//! A verified emulator core for the RV32I base integer instruction set.
//!
//! The crate is organised in three layers:
//! - [`bits`]: fixed-width sign extension and bitfield helpers;
//! - [`isa`]: instruction words, decoding and encoding;
//! - [`cpu`]: the architectural state and the execution semantics.
//!
//! [`laws`] states and proves the library-wide properties: the
//! encode/decode round trip, sign-extension shape, memory store/load
//! round trips, and preservation of well-formedness and program-counter
//! alignment across execution.

pub mod bits;
pub mod cpu;
pub mod isa;
pub mod laws;
