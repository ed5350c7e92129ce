use crate::crypto::{
    decode_key, decode_proof, decode_scalar, groth16_accepts, key_decodes, pairing_check,
    proof_decodes, scalar_decodes,
};
use crate::error::VerificationError;
use vstd::prelude::*;

verus! {

/// Length in bytes of an uncompressed Groth16 proof on BN254.
pub const PROOF_LEN: usize = 256;

/// Length in bytes of one encoded public input (a BN254 scalar).
pub const SCALAR_LEN: usize = 32;

/// The `k`-th 32-byte chunk of the public-input bytes.
pub open spec fn input_chunk(inputs: Seq<u8>, k: int) -> Seq<u8> {
    inputs.subrange(32 * k, 32 * k + 32)
}

/// Public inputs are a non-empty run of whole scalars, each of which decodes.
pub open spec fn inputs_decode(inputs: Seq<u8>) -> bool {
    &&& inputs.len() > 0
    &&& inputs.len() % 32 == 0
    &&& forall|k: int| 0 <= k < inputs.len() / 32 ==> #[trigger] scalar_decodes(input_chunk(inputs, k))
}

/// What the verifier answers for a key, a proof and public inputs.
pub open spec fn verdict(key: Seq<u8>, proof: Seq<u8>, inputs: Seq<u8>) -> Result<bool, VerificationError> {
    if proof.len() != PROOF_LEN {
        Err(VerificationError::InvalidProofLength)
    } else if !(key_decodes(key) && proof_decodes(proof) && inputs_decode(inputs)) {
        Err(VerificationError::MalformedEncoding)
    } else {
        Ok(groth16_accepts(key, proof, inputs))
    }
}

/// Checks that the public-input bytes are a non-empty sequence of scalars.
pub fn public_inputs_well_formed(inputs: &Vec<u8>) -> (r: bool)
    ensures
        r == inputs_decode(inputs@),
{
    let n = inputs.len();
    if n == 0 || n % SCALAR_LEN != 0 {
        return false;
    }
    let count: usize = n / SCALAR_LEN;
    let mut k: usize = 0;
    while k < count
        invariant
            n == inputs@.len(),
            n % 32 == 0,
            count == n / 32,
            k <= count,
            forall|j: int| 0 <= j < k ==> #[trigger] scalar_decodes(input_chunk(inputs@, j)),
        decreases count - k,
    {
        proof {
            assert(32 * k + 32 <= n) by (nonlinear_arith)
                requires k < count, count == n / 32;
        }
        let chunk = vstd::slice::slice_subrange(inputs.as_slice(), SCALAR_LEN * k, SCALAR_LEN * k + SCALAR_LEN);
        assert(chunk@ == input_chunk(inputs@, k as int));
        if !decode_scalar(chunk) {
            return false;
        }
        k = k + 1;
    }
    true
}

/// Verifies a Groth16 proof on BN254 against a serialized verifying key and
/// the serialized public inputs. `Ok(false)` is a proof that decodes but fails
/// the pairing check.
pub fn verify_groth16_proof(key: &Vec<u8>, proof_bytes: &Vec<u8>, public_inputs_bytes: &Vec<u8>) -> (r: Result<bool, VerificationError>)
    ensures
        r == verdict(key@, proof_bytes@, public_inputs_bytes@),
{
    if proof_bytes.len() != PROOF_LEN {
        return Err(VerificationError::InvalidProofLength);
    }
    if !decode_key(key) || !decode_proof(proof_bytes) || !public_inputs_well_formed(public_inputs_bytes) {
        return Err(VerificationError::MalformedEncoding);
    }
    Ok(pairing_check(key, proof_bytes, public_inputs_bytes))
}

} // verus!
