use ark_bn254::{Bn254, Fr};
use ark_groth16::Groth16;
use ark_relations::r1cs::{
    ConstraintSynthesizer, ConstraintSystemRef, LinearCombination, SynthesisError, Variable,
};
use ark_serialize::CanonicalSerialize;
use ark_snark::SNARK;
use ark_std::rand::rngs::StdRng;
use ark_std::rand::SeedableRng;
use zk_healthcare::error::{HealthcareError, VerificationError};
use zk_healthcare::groth16::{public_inputs_well_formed, verify_groth16_proof, PROOF_LEN};
use zk_healthcare::keystore::{VerifyingKeyPDA, VerifyingKeyStore};
use zk_healthcare::registry::{
    initialize, record_eligibility, verify_eligibility, HealthcareRegistry, Initialize,
    VerificationType, VerifyEligibility,
};

/// The public input is an eligibility flag that must equal one; the witness is the age.
struct EligibilityCircuit {
    age: Option<u64>,
}

impl ConstraintSynthesizer<Fr> for EligibilityCircuit {
    fn generate_constraints(self, cs: ConstraintSystemRef<Fr>) -> Result<(), SynthesisError> {
        let flag = cs.new_input_variable(|| Ok(Fr::from(1u64)))?;
        let age = cs.new_witness_variable(|| {
            self.age.map(Fr::from).ok_or(SynthesisError::AssignmentMissing)
        })?;
        cs.enforce_constraint(
            LinearCombination::from(flag),
            LinearCombination::from(Variable::One),
            LinearCombination::from(Variable::One),
        )?;
        cs.enforce_constraint(
            LinearCombination::from(age),
            LinearCombination::from(Variable::One),
            LinearCombination::from(age),
        )?;
        Ok(())
    }
}

struct Fixture {
    vk: Vec<u8>,
    proof: Vec<u8>,
}

fn fixture() -> Fixture {
    let mut rng = StdRng::seed_from_u64(18);
    let (pk, vk) =
        Groth16::<Bn254>::circuit_specific_setup(EligibilityCircuit { age: None }, &mut rng)
            .unwrap();
    let proof = Groth16::<Bn254>::prove(&pk, EligibilityCircuit { age: Some(30) }, &mut rng)
        .unwrap();
    let mut vk_bytes = Vec::new();
    vk.serialize_uncompressed(&mut vk_bytes).unwrap();
    let mut proof_bytes = Vec::new();
    proof.serialize_uncompressed(&mut proof_bytes).unwrap();
    Fixture { vk: vk_bytes, proof: proof_bytes }
}

fn scalar(v: u64) -> Vec<u8> {
    let mut out = Vec::new();
    Fr::from(v).serialize_uncompressed(&mut out).unwrap();
    out
}

fn registry() -> HealthcareRegistry {
    let mut ctx = Initialize { registry: None, authority: [7u8; 32] };
    initialize(&mut ctx, true).unwrap();
    ctx.registry.unwrap()
}

fn context(vk: Vec<u8>) -> VerifyEligibility {
    VerifyEligibility {
        registry: registry(),
        verifying_key: VerifyingKeyPDA {
            vk_bytes: vk,
            circuit_id: "eligibility_v1".to_string(),
            authority: [7u8; 32],
            updated_at: 100,
        },
        verification: None,
        patient: [3u8; 32],
        now: 1_700_000_000,
    }
}

#[test]
fn genuine_proof_is_recorded_then_short_proof_refused() {
    let f = fixture();
    assert_eq!(f.proof.len(), PROOF_LEN);
    let mut store = VerifyingKeyStore::new();
    store.register("eligibility_v1".to_string(), f.vk.clone(), [7u8; 32], 100).unwrap();
    let key = store.lookup(&"eligibility_v1".to_string()).unwrap().clone();
    let mut ctx = context(key.vk_bytes);

    let event = verify_eligibility(&mut ctx, f.proof.clone(), scalar(1), "QmPayload".to_string())
        .unwrap();
    assert_eq!(ctx.registry.total_verifications, 1);
    assert_eq!(event.patient, [3u8; 32]);
    assert_eq!(event.timestamp, 1_700_000_000);
    assert_eq!(event.ipfs_hash, "QmPayload");
    let record = ctx.verification.clone().unwrap();
    assert!(record.is_valid);
    assert_eq!(record.verification_type, VerificationType::Eligibility);
    assert_eq!(record.patient_pubkey, [3u8; 32]);
    assert_eq!(record.timestamp, 1_700_000_000);
    assert_eq!(record.proof_hash, anchor_lang::solana_program::keccak::hash(&f.proof).to_bytes());
    assert_ne!(record.proof_hash[..], f.proof[..32]);

    let short = f.proof[..255].to_vec();
    let r = verify_eligibility(&mut ctx, short, scalar(1), "QmOther".to_string());
    assert_eq!(r.unwrap_err(), HealthcareError::InvalidProofLength);
    assert_eq!(ctx.registry.total_verifications, 1);
}

#[test]
fn proof_for_other_input_fails_pairing() {
    let f = fixture();
    assert_eq!(verify_groth16_proof(&f.vk, &f.proof, &scalar(2)), Ok(false));
    let mut ctx = context(f.vk);
    let r = verify_eligibility(&mut ctx, f.proof, scalar(2), "QmPayload".to_string());
    assert_eq!(r.unwrap_err(), HealthcareError::ProofVerificationFailed);
    assert!(ctx.verification.is_none());
    assert_eq!(ctx.registry.total_verifications, 0);
}

#[test]
fn verifier_accepts_genuine_proof() {
    let f = fixture();
    assert_eq!(verify_groth16_proof(&f.vk, &f.proof, &scalar(1)), Ok(true));
}

#[test]
fn verifier_rejects_wrong_lengths_and_encodings() {
    let f = fixture();
    let long = [f.proof.clone(), vec![0u8]].concat();
    assert_eq!(
        verify_groth16_proof(&f.vk, &long, &scalar(1)),
        Err(VerificationError::InvalidProofLength)
    );
    assert_eq!(
        verify_groth16_proof(&f.vk, &vec![0xffu8; 256], &scalar(1)),
        Err(VerificationError::MalformedEncoding)
    );
    assert_eq!(
        verify_groth16_proof(&f.vk, &f.proof, &Vec::new()),
        Err(VerificationError::MalformedEncoding)
    );
    assert_eq!(
        verify_groth16_proof(&vec![1u8, 2, 3], &f.proof, &scalar(1)),
        Err(VerificationError::MalformedEncoding)
    );
}

#[test]
fn public_inputs_must_be_whole_canonical_scalars() {
    assert!(public_inputs_well_formed(&scalar(1)));
    assert!(public_inputs_well_formed(&[scalar(1), scalar(5)].concat()));
    assert!(!public_inputs_well_formed(&Vec::new()));
    assert!(!public_inputs_well_formed(&vec![1u8; 31]));
    assert!(!public_inputs_well_formed(&vec![0xffu8; 32]));
}

#[test]
fn malformed_inputs_are_refused_without_change() {
    let f = fixture();
    let mut ctx = context(f.vk);
    let r = verify_eligibility(&mut ctx, f.proof, vec![0xffu8; 32], "Qm".to_string());
    assert_eq!(r.unwrap_err(), HealthcareError::ProofVerificationFailed);
    assert!(ctx.verification.is_none());
    assert_eq!(ctx.registry.total_verifications, 0);
}

#[test]
fn record_eligibility_follows_the_answer() {
    let mut ctx = context(vec![]);
    let r = record_eligibility(&mut ctx, Err(VerificationError::InvalidProofLength), [1u8; 32], "a".to_string());
    assert_eq!(r.unwrap_err(), HealthcareError::InvalidProofLength);
    let r = record_eligibility(&mut ctx, Err(VerificationError::MalformedEncoding), [1u8; 32], "a".to_string());
    assert_eq!(r.unwrap_err(), HealthcareError::ProofVerificationFailed);
    let r = record_eligibility(&mut ctx, Ok(false), [1u8; 32], "a".to_string());
    assert_eq!(r.unwrap_err(), HealthcareError::ProofVerificationFailed);
    assert!(ctx.verification.is_none());
    assert_eq!(ctx.registry.total_verifications, 0);
    let event = record_eligibility(&mut ctx, Ok(true), [9u8; 32], "QmX".to_string()).unwrap();
    assert_eq!(event.ipfs_hash, "QmX");
    assert_eq!(ctx.registry.total_verifications, 1);
    assert_eq!(ctx.registry.ipfs_pin_count, 0);
    assert_eq!(ctx.verification.unwrap().proof_hash, [9u8; 32]);
}

#[test]
fn initialize_twice_is_refused() {
    let mut ctx = Initialize { registry: None, authority: [5u8; 32] };
    assert!(initialize(&mut ctx, false).is_ok());
    let reg = ctx.registry.unwrap();
    assert_eq!(reg.authority, [5u8; 32]);
    assert!(!reg.nist_compliant);
    assert_eq!(reg.total_verifications, 0);
    assert_eq!(reg.ipfs_pin_count, 0);
    assert_eq!(initialize(&mut ctx, true), Err(HealthcareError::AlreadyInitialized));
    assert!(!ctx.registry.unwrap().nist_compliant);
}

#[test]
fn key_store_register_lookup_update() {
    let f = fixture();
    let mut store = VerifyingKeyStore::new();
    let id = "eligibility_v1".to_string();
    assert!(store.lookup(&id).is_none());
    assert_eq!(
        store.register(id.clone(), vec![1u8, 2, 3], [7u8; 32], 1),
        Err(HealthcareError::MalformedVerifyingKey)
    );
    assert!(store.register(id.clone(), f.vk.clone(), [7u8; 32], 1).is_ok());
    assert_eq!(store.lookup(&id).unwrap().vk_bytes, f.vk);
    assert_eq!(
        store.register(id.clone(), f.vk.clone(), [8u8; 32], 2),
        Err(HealthcareError::KeyAlreadyRegistered)
    );
    assert!(store.lookup(&"prescription_v1".to_string()).is_none());
    assert_eq!(
        store.update(&"prescription_v1".to_string(), f.vk.clone(), [7u8; 32], 3),
        Err(HealthcareError::NoRegisteredKey)
    );
    assert_eq!(
        store.update(&id, f.vk.clone(), [8u8; 32], 3),
        Err(HealthcareError::Unauthorized)
    );
    assert_eq!(
        store.update(&id, vec![0u8; 4], [7u8; 32], 3),
        Err(HealthcareError::MalformedVerifyingKey)
    );
    assert!(store.update(&id, f.vk.clone(), [7u8; 32], 4).is_ok());
    let key = store.lookup(&id).unwrap();
    assert_eq!(key.updated_at, 4);
    assert_eq!(key.authority, [7u8; 32]);
}
