// Verification and bookkeeping engine for privacy-preserving healthcare
// eligibility proofs: Groth16 proofs on BN254 checked against registered
// verifying keys, an audit ledger of accepted proofs, pin metadata of
// off-ledger medical data, and federated-learning round state.

pub mod crypto;
pub mod error;
pub mod federated;
pub mod groth16;
pub mod keystore;
pub mod pinning;
pub mod registry;
