//! The bytes of a proof: the public claim, the serialized proof, and their
//! compression.

use cairo_air::air::PublicData;
use circuits_stark_verifier::proof::Proof;
use vstd::prelude::*;

use crate::error::ProveError;
use crate::outside::Qm31;

verus! {

/// The zstd level at which proofs are compressed.
pub const COMPRESSION_LEVEL: i32 = 3;

/// The `k`-th byte of a word, counted from the least significant one.
pub open spec fn le_byte(word: u32, k: int) -> u8 {
    if k == 0 {
        (word % 256) as u8
    } else if k == 1 {
        (word / 0x100 % 256) as u8
    } else if k == 2 {
        (word / 0x1_0000 % 256) as u8
    } else {
        (word / 0x100_0000) as u8
    }
}

/// The word that four bytes stand for, least significant byte first.
pub open spec fn le_word(bytes: Seq<u8>) -> int {
    bytes[0] + 0x100 * bytes[1] + 0x1_0000 * bytes[2] + 0x100_0000 * bytes[3]
}

/// The words of a claim as bytes, four to a word, least significant first.
pub open spec fn claim_bytes(words: Seq<u32>) -> Seq<u8> {
    Seq::new(4 * words.len(), |i: int| le_byte(words[i / 4], i % 4))
}

/// The content of a proof before compression: the claim, then the proof.
pub open spec fn proof_payload(claim: Seq<u32>, proof: Seq<u8>) -> Seq<u8> {
    claim_bytes(claim) + proof
}

/// What `PublicData::pack_into_u32s` returns: the public claim, the output
/// values and the program values.
pub uninterp spec fn packed_public_data(data: PublicData) -> (Seq<u32>, Seq<u32>, Seq<u32>);

/// What `CircuitSerialize::serialize` writes for a proof.
pub uninterp spec fn serialized_proof(proof: Proof<Qm31>) -> Seq<u8>;

/// The frame that `zstd::encode_all` returns for a content and a level.
pub uninterp spec fn zstd_frame(content: Seq<u8>, level: i32) -> Seq<u8>;

/// The content that `zstd::decode_all` returns for a frame.
pub uninterp spec fn zstd_content(frame: Seq<u8>) -> Seq<u8>;

/// Calls `PublicData::pack_into_u32s` of cairo-air. Its three lists depend on
/// the public data alone.
#[verifier::external_body]
fn pack_into_u32s(data: &PublicData) -> (packed: (Vec<u32>, Vec<u32>, Vec<u32>))
    ensures
        (packed.0@, packed.1@, packed.2@) == packed_public_data(*data),
{
    data.pack_into_u32s()
}

/// Calls `CircuitSerialize::serialize` of circuit-serialize on a proof. It
/// appends bytes that depend on the proof alone, and leaves what the output
/// held before them.
#[verifier::external_body]
fn serialize_into(proof: &Proof<Qm31>, output: &mut Vec<u8>)
    ensures
        final(output)@ == old(output)@ + serialized_proof(*proof),
{
    circuit_serialize::serialize::CircuitSerialize::serialize(proof, output)
}

/// Calls `zstd::encode_all` on bytes in memory. Where it succeeds, the frame
/// depends on the bytes and the level alone, and decoding it gives the bytes
/// back. Whether it succeeds rests on the memory that zstd can get, so nothing
/// is said of that.
#[verifier::external_body]
pub(crate) fn encode_all(bytes: &[u8], level: i32) -> (frame: Result<Vec<u8>, std::io::Error>)
    ensures
        frame is Ok ==> frame->Ok_0@ == zstd_frame(bytes@, level),
        frame is Ok ==> zstd_content(frame->Ok_0@) == bytes@,
{
    zstd::encode_all(bytes, level)
}

/// Whether `zstd::encode_all`, called on this content at this level, returned
/// this outcome. Only a call of it shows that this holds.
pub closed spec fn encoder_returned(
    content: Seq<u8>,
    level: i32,
    outcome: Result<Vec<u8>, std::io::Error>,
) -> bool {
    exists|bytes: &[u8]|
        bytes@ == content && #[trigger] call_ensures(encode_all, (bytes, level), outcome)
}

/// Returns the public claim of a proof's public data, without the output and
/// program values.
pub fn public_claim(data: &PublicData) -> (claim: Vec<u32>)
    ensures
        claim@ == packed_public_data(*data).0,
{
    let (claim, _outputs, _program) = pack_into_u32s(data);
    claim
}

/// Returns the bytes of a proof.
pub fn serialize_proof(proof: &Proof<Qm31>) -> (bytes: Vec<u8>)
    ensures
        bytes@ == serialized_proof(*proof),
{
    let mut bytes: Vec<u8> = Vec::new();
    serialize_into(proof, &mut bytes);
    assert(bytes@ =~= serialized_proof(*proof));
    bytes
}

/// Appends the four bytes of a word, least significant first.
fn push_word(bytes: &mut Vec<u8>, word: u32)
    ensures
        final(bytes)@ == old(bytes)@ + Seq::new(4, |k: int| le_byte(word, k)),
{
    bytes.push((word % 256) as u8);
    bytes.push((word / 0x100 % 256) as u8);
    bytes.push((word / 0x1_0000 % 256) as u8);
    bytes.push((word / 0x100_0000) as u8);
    assert(bytes@ =~= old(bytes)@ + Seq::new(4, |k: int| le_byte(word, k)));
}

/// Returns the words of a claim as bytes.
pub fn encode_claim(words: &[u32]) -> (bytes: Vec<u8>)
    ensures
        bytes@ == claim_bytes(words@),
{
    let mut bytes: Vec<u8> = Vec::new();
    let mut i: usize = 0;
    while i < words.len()
        invariant
            i <= words.len(),
            bytes@ == claim_bytes(words@.take(i as int)),
        decreases words.len() - i,
    {
        push_word(&mut bytes, words[i]);
        i = i + 1;
        proof {
            let before = words@.take(i - 1);
            let after = words@.take(i as int);
            assert(claim_bytes(after) =~= claim_bytes(before) + Seq::new(
                4,
                |k: int| le_byte(words@[i - 1], k),
            ));
        }
    }
    assert(words@.take(i as int) =~= words@);
    bytes
}

/// Returns the content of a proof before compression.
pub fn encode_payload(claim: &[u32], mut proof: Vec<u8>) -> (bytes: Vec<u8>)
    ensures
        bytes@ == proof_payload(claim@, proof@),
{
    let mut bytes = encode_claim(claim);
    bytes.append(&mut proof);
    bytes
}

/// Turns the outcome of a compression into this library's error.
pub fn compression_outcome(frame: Result<Vec<u8>, std::io::Error>) -> (result: Result<
    Vec<u8>,
    ProveError,
>)
    ensures
        match frame {
            Ok(bytes) => result == Ok::<Vec<u8>, ProveError>(bytes),
            Err(error) => result == Err::<Vec<u8>, ProveError>(ProveError::Compression(error)),
        },
{
    match frame {
        Ok(bytes) => Ok(bytes),
        Err(error) => Err(ProveError::Compression(error)),
    }
}

/// Compresses proof bytes. Fails only with an error that the encoder returned for
/// these bytes.
pub fn compress_proof(proof_bytes: &[u8]) -> (result: Result<Vec<u8>, ProveError>)
    ensures
        match result {
            Ok(bytes) => {
                &&& bytes@ == zstd_frame(proof_bytes@, COMPRESSION_LEVEL)
                &&& zstd_content(bytes@) == proof_bytes@
                &&& encoder_returned(
                    proof_bytes@,
                    COMPRESSION_LEVEL,
                    Ok::<Vec<u8>, std::io::Error>(bytes),
                )
            },
            Err(error) => error matches ProveError::Compression(cause) && encoder_returned(
                proof_bytes@,
                COMPRESSION_LEVEL,
                Err::<Vec<u8>, std::io::Error>(cause),
            ),
        },
{
    compression_outcome(encode_all(proof_bytes, COMPRESSION_LEVEL))
}

/// A call of the encoder on bytes with this content shows what it returned.
pub(crate) proof fn lemma_encoder_returned(
    content: Seq<u8>,
    level: i32,
    outcome: Result<Vec<u8>, std::io::Error>,
)
    requires
        exists|bytes: &[u8]|
            bytes@ == content && #[trigger] call_ensures(encode_all, (bytes, level), outcome),
    ensures
        encoder_returned(content, level, outcome),
{
}

/// What the encoder returned, it returned from a call on bytes with that content
/// at that level.
pub(crate) proof fn law_outcomes_come_from_the_encoder(
    content: Seq<u8>,
    level: i32,
    outcome: Result<Vec<u8>, std::io::Error>,
)
    requires
        encoder_returned(content, level, outcome),
    ensures
        exists|bytes: &[u8]|
            bytes@ == content && #[trigger] call_ensures(encode_all, (bytes, level), outcome),
{
}

/// A frame that the encoder returned for a content is that of the content, and
/// decompresses to it.
pub proof fn law_encoder_keeps_the_content(content: Seq<u8>, level: i32, frame: Vec<u8>)
    requires
        encoder_returned(content, level, Ok::<Vec<u8>, std::io::Error>(frame)),
    ensures
        frame@ == zstd_frame(content, level),
        zstd_content(frame@) == content,
{
}

/// Compression refuses no proof by itself: where it fails, the encoder was called
/// on these very bytes, at level three, and returned the error. Where it
/// succeeds, the encoder returned the result, and it decompresses to the bytes.
pub proof fn law_only_the_encoder_refuses_a_proof(
    proof_bytes: &[u8],
    result: Result<Vec<u8>, ProveError>,
)
    requires
        call_ensures(compress_proof, (proof_bytes,), result),
    ensures
        match result {
            Ok(frame) => {
                &&& encoder_returned(proof_bytes@, 3, Ok::<Vec<u8>, std::io::Error>(frame))
                &&& frame@ == zstd_frame(proof_bytes@, 3)
                &&& zstd_content(frame@) == proof_bytes@
            },
            Err(error) => error matches ProveError::Compression(cause) && encoder_returned(
                proof_bytes@,
                3,
                Err::<Vec<u8>, std::io::Error>(cause),
            ),
        },
{
}

/// Proofs with different bytes are compressed to different frames, and proofs
/// with the same bytes to the same frame.
pub proof fn law_compression_is_injective(
    a_bytes: &[u8],
    b_bytes: &[u8],
    a_frame: Vec<u8>,
    b_frame: Vec<u8>,
)
    requires
        call_ensures(compress_proof, (a_bytes,), Ok::<Vec<u8>, ProveError>(a_frame)),
        call_ensures(compress_proof, (b_bytes,), Ok::<Vec<u8>, ProveError>(b_frame)),
    ensures
        a_frame@ == b_frame@ <==> a_bytes@ == b_bytes@,
{
}

/// Four bytes of a word, least significant first, stand for the word.
pub proof fn law_le_bytes_of_word(word: u32)
    ensures
        le_word(Seq::new(4, |k: int| le_byte(word, k))) == word,
{
}

/// A reader who knows how many words the claim has gets every word of it, and
/// the proof, back from the content.
pub proof fn law_payload_is_read_back(claim: Seq<u32>, proof: Seq<u8>)
    ensures
        proof_payload(claim, proof).len() == 4 * claim.len() + proof.len(),
        forall|i: int|
            0 <= i < claim.len() ==> le_word(
                #[trigger] proof_payload(claim, proof).subrange(4 * i, 4 * i + 4),
            ) == claim[i],
        proof_payload(claim, proof).skip(4 * claim.len() as int) == proof,
{
    let payload = proof_payload(claim, proof);
    assert forall|i: int| 0 <= i < claim.len() implies le_word(
        #[trigger] payload.subrange(4 * i, 4 * i + 4),
    ) == claim[i] by {
        assert(payload.subrange(4 * i, 4 * i + 4) =~= Seq::new(4, |k: int| le_byte(claim[i], k)));
        law_le_bytes_of_word(claim[i]);
    }
    assert(payload.skip(4 * claim.len() as int) =~= proof);
}

/// The bytes of a claim are four for each word, of which each counts for 256 times
/// as much as the one before it.
pub proof fn law_encoded_claim_is_read_back(words: &[u32], bytes: Vec<u8>)
    requires
        call_ensures(encode_claim, (words,), bytes),
    ensures
        bytes@.len() == 4 * words@.len(),
        forall|i: int|
            0 <= i < words@.len() ==> bytes@[4 * i] + 256 * bytes@[4 * i + 1] + 65536 * bytes@[4 * i
                + 2] + 16777216 * bytes@[4 * i + 3] == #[trigger] words@[i],
{
}

/// The content that is encoded for a claim and a proof holds, for each word of the
/// claim in turn, four bytes of which each counts for 256 times as much as the
/// one before it, and then the bytes of the proof.
pub proof fn law_encoded_payload_is_read_back(claim: &[u32], proof: Vec<u8>, bytes: Vec<u8>)
    requires
        call_ensures(encode_payload, (claim, proof), bytes),
    ensures
        bytes@.len() == 4 * claim@.len() + proof@.len(),
        forall|i: int|
            0 <= i < claim@.len() ==> bytes@[4 * i] + 256 * bytes@[4 * i + 1] + 65536 * bytes@[4 * i
                + 2] + 16777216 * bytes@[4 * i + 3] == #[trigger] claim@[i],
        forall|i: int|
            0 <= i < proof@.len() ==> bytes@[4 * claim@.len() + i] == #[trigger] proof@[i],
{
}

/// Contents with claims of the same number of words are equal only if both the
/// claims and the proofs are.
pub proof fn law_payload_is_injective(
    claim: Seq<u32>,
    proof: Seq<u8>,
    other_claim: Seq<u32>,
    other_proof: Seq<u8>,
)
    requires
        claim.len() == other_claim.len(),
        proof_payload(claim, proof) == proof_payload(other_claim, other_proof),
    ensures
        claim == other_claim,
        proof == other_proof,
{
    law_payload_is_read_back(claim, proof);
    law_payload_is_read_back(other_claim, other_proof);
    let payload = proof_payload(claim, proof);
    assert forall|i: int| 0 <= i < claim.len() implies claim[i] == other_claim[i] by {
        assert(le_word(payload.subrange(4 * i, 4 * i + 4)) == claim[i]);
    }
    assert(claim =~= other_claim);
}

} // verus!
