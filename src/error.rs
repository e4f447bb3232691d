use vstd::prelude::*;

verus! {

/// Why an epoch, a compression step or an emitted payload was refused.
#[derive(Clone, Copy, Debug, PartialEq, Eq, Structural)]
pub enum SuccessionError {
    /// Bytes that should hold a group element or a scalar do not encode one.
    Deserialization,
    /// The message is not the one derived from the predecessor key, or the pairing
    /// check fails.
    InvalidSignature,
    /// The prior proof does not commit to the key this epoch claims to succeed.
    ChainMismatch,
    /// A proof failed verification, or is not the proof that was asked for.
    ProofInvalid,
    /// The proving or compression service failed.
    Backend,
}

} // verus!
