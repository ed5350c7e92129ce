use vstd::prelude::*;

verus! {

/// Why an operation of the engine was refused. A refused operation changes no state.
#[derive(Clone, Copy, Debug, PartialEq, Eq, Structural)]
pub enum HealthcareError {
    InvalidProofLength,
    ProofVerificationFailed,
    GradientTooLarge,
    IpfsPinningFailed,
    AlreadyInitialized,
    Unauthorized,
    NoRegisteredKey,
    KeyAlreadyRegistered,
    MalformedVerifyingKey,
    StaleRound,
}

/// Why the proof verifier could not reach a verdict.
#[derive(Clone, Copy, Debug, PartialEq, Eq, Structural)]
pub enum VerificationError {
    /// The proof is not exactly `PROOF_LEN` bytes long.
    InvalidProofLength,
    /// The key, the proof or the public inputs do not decode to curve points or scalars.
    MalformedEncoding,
}

} // verus!
