use crate::crypto::{groth16_accepts, keccak_digest, keccak_of, key_decodes, proof_decodes};
use crate::error::{HealthcareError, VerificationError};
use crate::groth16::{inputs_decode, verdict, verify_groth16_proof, PROOF_LEN};
use crate::keystore::VerifyingKeyPDA;
use vstd::prelude::*;

verus! {

/// The deployment's singleton: its authority, compliance flag and counters.
#[derive(Clone, Copy, Debug)]
pub struct HealthcareRegistry {
    pub authority: [u8; 32],
    pub nist_compliant: bool,
    pub total_verifications: u64,
    pub ipfs_pin_count: u64,
}

/// What a verification attests.
#[derive(Clone, Copy, Debug, PartialEq, Eq, Structural)]
pub enum VerificationType {
    Eligibility,
    Prescription,
    Diagnosis,
    AccessControl,
}

/// The audit record of one accepted proof.
#[derive(Clone, Debug)]
pub struct VerificationRecord {
    pub patient_pubkey: [u8; 32],
    pub proof_hash: [u8; 32],
    pub ipfs_hash: String,
    pub timestamp: i64,
    pub is_valid: bool,
    pub verification_type: VerificationType,
}

/// Notification that a patient's eligibility proof was accepted.
#[derive(Clone, Debug)]
pub struct EligibilityVerified {
    pub patient: [u8; 32],
    pub ipfs_hash: String,
    pub timestamp: i64,
}

/// The state that `initialize` works on: the registry slot, empty until
/// initialized, and the identity that becomes its authority.
#[derive(Clone, Debug)]
pub struct Initialize {
    pub registry: Option<HealthcareRegistry>,
    pub authority: [u8; 32],
}

/// The state that `verify_eligibility` works on: the registry, the verifying
/// key of the circuit, the slot of the record to create, the proving patient
/// and the current time.
#[derive(Clone, Debug)]
pub struct VerifyEligibility {
    pub registry: HealthcareRegistry,
    pub verifying_key: VerifyingKeyPDA,
    pub verification: Option<VerificationRecord>,
    pub patient: [u8; 32],
    pub now: i64,
}

/// Creates the registry with zero counters; a second call is refused.
pub fn initialize(ctx: &mut Initialize, nist_compliant: bool) -> (r: Result<(), HealthcareError>)
    ensures
        old(ctx).registry is Some ==> r == Err::<(), HealthcareError>(HealthcareError::AlreadyInitialized)
            && *final(ctx) == *old(ctx),
        old(ctx).registry is None ==> r is Ok && final(ctx).authority == old(ctx).authority
            && final(ctx).registry == Some(
            HealthcareRegistry {
                authority: old(ctx).authority,
                nist_compliant,
                total_verifications: 0,
                ipfs_pin_count: 0,
            },
        ),
{
    if ctx.registry.is_some() {
        return Err(HealthcareError::AlreadyInitialized);
    }
    ctx.registry = Some(
        HealthcareRegistry {
            authority: ctx.authority,
            nist_compliant,
            total_verifications: 0,
            ipfs_pin_count: 0,
        },
    );
    Ok(())
}

/// How `verify_eligibility` moves from `pre` to `post` and what it returns, given
/// the verifier's answer and the digest of the proof.
pub open spec fn eligibility_step(
    pre: VerifyEligibility,
    post: VerifyEligibility,
    answer: Result<bool, VerificationError>,
    proof_hash: Seq<u8>,
    ipfs_hash: Seq<char>,
    r: Result<EligibilityVerified, HealthcareError>,
) -> bool {
    match answer {
        Ok(true) => {
            &&& r is Ok
            &&& r->Ok_0.patient == pre.patient
            &&& r->Ok_0.ipfs_hash@ == ipfs_hash
            &&& r->Ok_0.timestamp == pre.now
            &&& post.registry.authority == pre.registry.authority
            &&& post.registry.nist_compliant == pre.registry.nist_compliant
            &&& post.registry.total_verifications == pre.registry.total_verifications + 1
            &&& post.registry.ipfs_pin_count == pre.registry.ipfs_pin_count
            &&& post.verification is Some
            &&& post.verification->Some_0.patient_pubkey == pre.patient
            &&& post.verification->Some_0.proof_hash@ == proof_hash
            &&& post.verification->Some_0.ipfs_hash@ == ipfs_hash
            &&& post.verification->Some_0.timestamp == pre.now
            &&& post.verification->Some_0.is_valid
            &&& post.verification->Some_0.verification_type == VerificationType::Eligibility
            &&& post.verifying_key == pre.verifying_key
            &&& post.patient == pre.patient
            &&& post.now == pre.now
        },
        Err(VerificationError::InvalidProofLength) => {
            &&& r == Err::<EligibilityVerified, HealthcareError>(HealthcareError::InvalidProofLength)
            &&& post == pre
        },
        _ => {
            &&& r == Err::<EligibilityVerified, HealthcareError>(HealthcareError::ProofVerificationFailed)
            &&& post == pre
        },
    }
}

/// Applies the verifier's answer on a proof: records an accepted proof under
/// its digest, counts it, and returns the event to emit; anything else is
/// refused with no change.
pub fn record_eligibility(
    ctx: &mut VerifyEligibility,
    answer: Result<bool, VerificationError>,
    proof_hash: [u8; 32],
    ipfs_hash: String,
) -> (r: Result<EligibilityVerified, HealthcareError>)
    requires
        old(ctx).registry.total_verifications < u64::MAX,
    ensures
        eligibility_step(*old(ctx), *final(ctx), answer, proof_hash@, ipfs_hash@, r),
{
    match answer {
        Err(VerificationError::InvalidProofLength) => {
            return Err(HealthcareError::InvalidProofLength);
        },
        Err(VerificationError::MalformedEncoding) => {
            return Err(HealthcareError::ProofVerificationFailed);
        },
        Ok(false) => {
            return Err(HealthcareError::ProofVerificationFailed);
        },
        Ok(true) => {},
    }
    let event = EligibilityVerified { patient: ctx.patient, ipfs_hash: ipfs_hash.clone(), timestamp: ctx.now };
    ctx.verification = Some(
        VerificationRecord {
            patient_pubkey: ctx.patient,
            proof_hash,
            ipfs_hash,
            timestamp: ctx.now,
            is_valid: true,
            verification_type: VerificationType::Eligibility,
        },
    );
    ctx.registry.total_verifications = ctx.registry.total_verifications + 1;
    Ok(event)
}

/// Verifies a patient's eligibility proof against the circuit's key and, if it
/// holds, records it under the Keccak-256 digest of the proof bytes.
pub fn verify_eligibility(
    ctx: &mut VerifyEligibility,
    proof: Vec<u8>,
    public_inputs: Vec<u8>,
    ipfs_hash: String,
) -> (r: Result<EligibilityVerified, HealthcareError>)
    requires
        old(ctx).registry.total_verifications < u64::MAX,
    ensures
        eligibility_step(
            *old(ctx),
            *final(ctx),
            verdict(old(ctx).verifying_key.vk_bytes@, proof@, public_inputs@),
            keccak_of(proof@),
            ipfs_hash@,
            r,
        ),
{
    let answer = verify_groth16_proof(&ctx.verifying_key.vk_bytes, &proof, &public_inputs);
    let proof_hash = keccak_digest(&proof);
    record_eligibility(ctx, answer, proof_hash, ipfs_hash)
}

/// A proof whose length is not `PROOF_LEN` is refused with `InvalidProofLength`
/// and leaves the number of verifications unchanged.
pub proof fn lemma_wrong_length_refused(
    pre: VerifyEligibility,
    post: VerifyEligibility,
    proof: Seq<u8>,
    inputs: Seq<u8>,
    ipfs_hash: Seq<char>,
    r: Result<EligibilityVerified, HealthcareError>,
)
    requires
        proof.len() != PROOF_LEN,
        eligibility_step(pre, post, verdict(pre.verifying_key.vk_bytes@, proof, inputs), keccak_of(proof), ipfs_hash, r),
    ensures
        r == Err::<EligibilityVerified, HealthcareError>(HealthcareError::InvalidProofLength),
        post.registry.total_verifications == pre.registry.total_verifications,
        post.verification == pre.verification,
{
}

/// A proof that the verifier accepts adds exactly one to the number of
/// verifications and creates a valid record whose digest is that of the proof bytes.
pub proof fn lemma_accepted_proof_recorded(
    pre: VerifyEligibility,
    post: VerifyEligibility,
    proof: Seq<u8>,
    inputs: Seq<u8>,
    ipfs_hash: Seq<char>,
    r: Result<EligibilityVerified, HealthcareError>,
)
    requires
        verdict(pre.verifying_key.vk_bytes@, proof, inputs) == Ok::<bool, VerificationError>(true),
        eligibility_step(pre, post, verdict(pre.verifying_key.vk_bytes@, proof, inputs), keccak_of(proof), ipfs_hash, r),
    ensures
        r is Ok,
        post.registry.total_verifications == pre.registry.total_verifications + 1,
        post.verification is Some,
        post.verification->Some_0.is_valid,
        post.verification->Some_0.proof_hash@ == keccak_of(proof),
{
}

/// A proof that decodes but fails the pairing check is refused with
/// `ProofVerificationFailed`, and no record is created.
pub proof fn lemma_failed_pairing_refused(
    pre: VerifyEligibility,
    post: VerifyEligibility,
    proof: Seq<u8>,
    inputs: Seq<u8>,
    ipfs_hash: Seq<char>,
    r: Result<EligibilityVerified, HealthcareError>,
)
    requires
        proof.len() == PROOF_LEN,
        key_decodes(pre.verifying_key.vk_bytes@),
        proof_decodes(proof),
        inputs_decode(inputs),
        !groth16_accepts(pre.verifying_key.vk_bytes@, proof, inputs),
        eligibility_step(pre, post, verdict(pre.verifying_key.vk_bytes@, proof, inputs), keccak_of(proof), ipfs_hash, r),
    ensures
        r == Err::<EligibilityVerified, HealthcareError>(HealthcareError::ProofVerificationFailed),
        post.verification == pre.verification,
        post.registry == pre.registry,
{
}

} // verus!
