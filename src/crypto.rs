use anchor_lang::solana_program::keccak;
use ark_bn254::{Bn254, Fr};
use ark_groth16::{prepare_verifying_key, Groth16, Proof, VerifyingKey};
use ark_serialize::CanonicalDeserialize;
use crate::groth16::inputs_decode;
use vstd::prelude::*;

verus! {

/// The Keccak-256 digest of a byte string.
pub uninterp spec fn keccak_of(b: Seq<u8>) -> Seq<u8>;

/// Whether the bytes hold an uncompressed, validated Groth16 verifying key on BN254.
pub uninterp spec fn key_decodes(b: Seq<u8>) -> bool;

/// Whether the bytes hold an uncompressed, validated Groth16 proof on BN254.
pub uninterp spec fn proof_decodes(b: Seq<u8>) -> bool;

/// Whether the bytes hold a canonical element of the BN254 scalar field.
pub uninterp spec fn scalar_decodes(b: Seq<u8>) -> bool;

/// Whether the Groth16 pairing check accepts the proof for the public inputs
/// (one 32-byte scalar after another) under the verifying key.
pub uninterp spec fn groth16_accepts(key: Seq<u8>, proof: Seq<u8>, inputs: Seq<u8>) -> bool;

/// Relies on solana_program::keccak::hash (re-exported by anchor_lang): the
/// 32-byte Keccak-256 digest of its input.
#[verifier::external_body]
pub(crate) fn keccak_digest(b: &Vec<u8>) -> (r: [u8; 32])
    ensures
        r@ == keccak_of(b@),
{
    keccak::hash(b.as_slice()).to_bytes()
}

/// Relies on ark_serialize::CanonicalDeserialize::deserialize_uncompressed for
/// ark_groth16::VerifyingKey<Bn254>: whether it succeeds.
#[verifier::external_body]
pub(crate) fn decode_key(b: &Vec<u8>) -> (r: bool)
    ensures
        r == key_decodes(b@),
{
    VerifyingKey::<Bn254>::deserialize_uncompressed(b.as_slice()).is_ok()
}

/// Relies on ark_serialize::CanonicalDeserialize::deserialize_uncompressed for
/// ark_groth16::Proof<Bn254>: whether it succeeds.
#[verifier::external_body]
pub(crate) fn decode_proof(b: &Vec<u8>) -> (r: bool)
    ensures
        r == proof_decodes(b@),
{
    Proof::<Bn254>::deserialize_uncompressed(b.as_slice()).is_ok()
}

/// Relies on ark_serialize::CanonicalDeserialize::deserialize_uncompressed for
/// ark_bn254::Fr: whether it succeeds.
#[verifier::external_body]
pub(crate) fn decode_scalar(b: &[u8]) -> (r: bool)
    ensures
        r == scalar_decodes(b@),
{
    Fr::deserialize_uncompressed(b).is_ok()
}

/// Relies on ark_groth16::Groth16::<Bn254>::verify_proof, after
/// ark_groth16::prepare_verifying_key: the pairing check on the decoded key,
/// proof and scalars. An error of verify_proof (a key made for another number
/// of inputs) counts as a rejection. The decodings cannot fail on what
/// `requires` admits.
#[verifier::external_body]
pub(crate) fn pairing_check(key: &Vec<u8>, proof: &Vec<u8>, inputs: &Vec<u8>) -> (r: bool)
    requires
        key_decodes(key@),
        proof_decodes(proof@),
        inputs_decode(inputs@),
    ensures
        r == groth16_accepts(key@, proof@, inputs@),
{
    let vk = VerifyingKey::<Bn254>::deserialize_uncompressed(key.as_slice()).unwrap();
    let pr = Proof::<Bn254>::deserialize_uncompressed(proof.as_slice()).unwrap();
    let xs: Vec<Fr> = inputs.chunks(32).map(|c| Fr::deserialize_uncompressed(c).unwrap()).collect();
    Groth16::<Bn254>::verify_proof(&prepare_verifying_key(&vk), &pr, &xs).unwrap_or(false)
}

} // verus!
