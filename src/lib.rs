//! A self-certifying key-succession chain over the BN254 pairing-friendly curve.
//!
//! Each epoch introduces a new public key, signed by the new secret over a message
//! derived from the previous public key. The per-epoch circuit checks that signature
//! and, from the second epoch on, that the previous epoch's proof commits to the key
//! this epoch claims to succeed. The chain orchestrator and the compression pipeline
//! decide what is recorded and what is emitted, given the proving backend's answers.

mod bytes;
pub mod chain;
pub mod circuit;
pub mod compression;
pub mod curve;
pub mod error;
pub mod journal;
pub mod keys;
pub mod message;
pub mod pairing;
pub mod receipt;

pub use bytes::bytes_equal;
pub use error::SuccessionError;
