//! A proof that the privacy circuit verifier reads directly.

use cairo_air::air::PublicData;
use circuits_stark_verifier::proof::Proof;
use starknet_types_core::felt::Felt;
use vstd::prelude::*;

use crate::encode::{compress_proof, encode_payload, public_claim, serialize_proof};
use crate::encode::{
    encoder_returned, law_payload_is_read_back, le_word, packed_public_data, proof_payload, serialized_proof,
    zstd_content, zstd_frame, COMPRESSION_LEVEL,
};
use crate::error::ProveError;
use crate::outside::Qm31;

verus! {

/// A compressed proof, and the preimage of the bootloader's output.
pub struct PrivacyProofOutput {
    pub proof: Vec<u8>,
    pub output_preimage: Vec<Felt>,
}

/// The content of the output for a Cairo proof: the public claim of its public
/// data, then the proof.
pub open spec fn privacy_payload(proof: Proof<Qm31>, public_data: PublicData) -> Seq<u8> {
    proof_payload(packed_public_data(public_data).0, serialized_proof(proof))
}

/// Joins a compressed proof with the output preimage; a failed compression
/// passes through.
pub fn privacy_proof_output(
    compressed: Result<Vec<u8>, ProveError>,
    output_preimage: Vec<Felt>,
) -> (result: Result<PrivacyProofOutput, ProveError>)
    ensures
        match compressed {
            Ok(proof) => result == Ok::<PrivacyProofOutput, ProveError>(
                PrivacyProofOutput { proof, output_preimage },
            ),
            Err(error) => result == Err::<PrivacyProofOutput, ProveError>(error),
        },
{
    match compressed {
        Ok(proof) => Ok(PrivacyProofOutput { proof, output_preimage }),
        Err(error) => Err(error),
    }
}

/// Makes the output for a Cairo proof, taken in the form that the circuit
/// verifier reads, and the preimage of the bootloader's output.
///
/// The proof is the compressed content of `privacy_payload`, and decompressing
/// it gives that content back. The preimage is handed on as it is.
pub fn privacy_prove(
    proof: &Proof<Qm31>,
    public_data: &PublicData,
    output_preimage: Vec<Felt>,
) -> (result: Result<PrivacyProofOutput, ProveError>)
    ensures
        match result {
            Ok(output) => {
                &&& output.proof@ == zstd_frame(
                    privacy_payload(*proof, *public_data),
                    COMPRESSION_LEVEL,
                )
                &&& zstd_content(output.proof@) == privacy_payload(*proof, *public_data)
                &&& output.output_preimage == output_preimage
            },
            Err(error) => error matches ProveError::Compression(cause) && encoder_returned(
                privacy_payload(*proof, *public_data),
                COMPRESSION_LEVEL,
                Err::<Vec<u8>, std::io::Error>(cause),
            ),
        },
{
    let claim = public_claim(public_data);
    let bytes = encode_payload(claim.as_slice(), serialize_proof(proof));
    let compressed = compress_proof(bytes.as_slice());
    privacy_proof_output(compressed, output_preimage)
}

/// Whoever decompresses the output for a Cairo proof, and knows how many words
/// its public claim has, gets every word of the claim and the serialized proof
/// back.
pub proof fn law_output_is_read_back(
    output: PrivacyProofOutput,
    proof: Proof<Qm31>,
    public_data: PublicData,
)
    requires
        zstd_content(output.proof@) == privacy_payload(proof, public_data),
    ensures
        ({
            let claim = packed_public_data(public_data).0;
            let content = zstd_content(output.proof@);
            &&& content.len() == 4 * claim.len() + serialized_proof(proof).len()
            &&& forall|i: int|
                0 <= i < claim.len() ==> le_word(#[trigger] content.subrange(4 * i, 4 * i + 4))
                    == claim[i]
            &&& content.skip(4 * claim.len() as int) == serialized_proof(proof)
        }),
{
    law_payload_is_read_back(packed_public_data(public_data).0, serialized_proof(proof));
}

/// No Cairo proof is refused but by the encoder. The content that is handed to it
/// holds, for each word of the public claim in turn, four bytes of which each
/// counts for 256 times as much as the one before it, and then the bytes of the
/// proof. Either the frame of that content, at level three, comes out, with the
/// preimage unchanged, or the encoder was called on that very content, at that
/// level, and returned the error.
pub proof fn law_only_the_encoder_refuses_a_cairo_proof(
    proof: &Proof<Qm31>,
    public_data: &PublicData,
    output_preimage: Vec<Felt>,
    result: Result<PrivacyProofOutput, ProveError>,
)
    requires
        call_ensures(privacy_prove, (proof, public_data, output_preimage), result),
    ensures
        ({
            let claim = packed_public_data(*public_data).0;
            let bytes = serialized_proof(*proof);
            let content = privacy_payload(*proof, *public_data);
            &&& content.len() == 4 * claim.len() + bytes.len()
            &&& forall|i: int|
                0 <= i < claim.len() ==> content[4 * i] + 256 * content[4 * i + 1] + 65536
                    * content[4 * i + 2] + 16777216 * content[4 * i + 3] == #[trigger] claim[i]
            &&& forall|i: int|
                0 <= i < bytes.len() ==> content[4 * claim.len() + i] == #[trigger] bytes[i]
            &&& match result {
                Ok(output) => {
                    &&& output.proof@ == zstd_frame(content, 3)
                    &&& zstd_content(output.proof@) == content
                    &&& output.output_preimage@ == output_preimage@
                },
                Err(error) => error matches ProveError::Compression(cause) && encoder_returned(
                    content,
                    3,
                    Err::<Vec<u8>, std::io::Error>(cause),
                ),
            }
        }),
{
}

} // verus!
