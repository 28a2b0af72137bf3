//! The decisions of the privacy prover: how a proof run is laid out, what its
//! proof bytes hold, and which memory mode and domains its precomputes use.
//!
//! Running the bootloader, the Cairo prover and the circuit prover is left to
//! the caller; this library says what to run next and what to make of the
//! results.

pub mod bootloader;
pub mod encode;
pub mod error;
pub mod memory_mode;
pub mod outside;
pub mod precompute;
pub mod prove;
pub mod recursive;
