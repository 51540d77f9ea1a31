//! The range-proof demonstration.
//!
//! A secret 64-bit value is committed to and proved to lie in `[0, 2^bits)`
//! with a Bulletproofs range proof; the verifier replays a transcript with
//! the same domain-separation label and checks the proof against the
//! commitment. The proving and verifying calls are the outside library's;
//! the driver below runs them through narrow trusted items, reports every
//! failure kind as a distinguishable outcome instead of aborting, and pins
//! in its contract what the library's own sources show of the parameter
//! checks.

use vstd::prelude::*;
use bulletproofs::ProofError;

verus! {

/// Marker making `bulletproofs::PedersenGens` usable in signatures.
#[verifier::external_type_specification]
#[verifier::external_body]
pub struct ExPedersenGens(bulletproofs::PedersenGens);

/// Marker making `bulletproofs::BulletproofGens` usable in signatures.
#[verifier::external_type_specification]
#[verifier::external_body]
pub struct ExBulletproofGens(bulletproofs::BulletproofGens);

/// Marker making `bulletproofs::RangeProof` usable in signatures.
#[verifier::external_type_specification]
#[verifier::external_body]
pub struct ExRangeProof(bulletproofs::RangeProof);

/// Marker making `merlin::Transcript` usable in signatures.
#[verifier::external_type_specification]
#[verifier::external_body]
pub struct ExTranscript(merlin::Transcript);

/// Marker making `curve25519_dalek_ng::scalar::Scalar` usable in signatures.
#[verifier::external_type_specification]
#[verifier::external_body]
pub struct ExScalar(curve25519_dalek_ng::scalar::Scalar);

/// Marker making `curve25519_dalek_ng::ristretto::CompressedRistretto`
/// usable in signatures.
#[verifier::external_type_specification]
#[verifier::external_body]
pub struct ExCompressedRistretto(curve25519_dalek_ng::ristretto::CompressedRistretto);

/// Marker making `bulletproofs::ProofError` usable in signatures.
#[verifier::external_type_specification]
#[verifier::external_body]
pub struct ExProofError(bulletproofs::ProofError);

/// The proof-share bound a generator table was built for: how many bits per
/// proved value its generator vectors cover.
pub uninterp spec fn gens_capacity_of(g: bulletproofs::BulletproofGens) -> nat;

/// The aggregation bound a generator table was built for: how many parties'
/// commitments it can serve.
pub uninterp spec fn party_capacity_of(g: bulletproofs::BulletproofGens) -> nat;

/// Every failure the range-proof pipeline can report, one variant per error
/// of the outside library's proving and verifying calls.
#[derive(Clone, Copy, Debug, PartialEq, Eq, Structural)]
pub enum RangeError {
    /// The proof did not verify.
    VerificationFailed,
    /// The proof bytes were malformed.
    Format,
    /// Blinding factors did not match the number of values.
    WrongNumBlindingFactors,
    /// The bit width was not 8, 16, 32 or 64.
    InvalidBitsize,
    /// The aggregation size was not a power of two.
    InvalidAggregation,
    /// The generator table was too small for the request.
    InvalidGeneratorsLength,
    /// An internal error of the library's multi-party machinery.
    Internal,
}

/// The bit widths the range-proof scheme accepts.
pub open spec fn valid_bitsize(bits: int) -> bool {
    bits == 8 || bits == 16 || bits == 32 || bits == 64
}

/// Relies on `bulletproofs::PedersenGens::default`: the standard commitment
/// generators.
#[verifier::external_body]
fn pedersen_gens() -> bulletproofs::PedersenGens {
    bulletproofs::PedersenGens::default()
}

/// Relies on `bulletproofs::BulletproofGens::new`, which builds a table
/// holding exactly the requested per-value and per-party capacities.
#[verifier::external_body]
fn bulletproof_gens(gens_capacity: usize, party_capacity: usize) -> (g: bulletproofs::BulletproofGens)
    ensures
        gens_capacity_of(g) == gens_capacity as nat,
        party_capacity_of(g) == party_capacity as nat,
{
    bulletproofs::BulletproofGens::new(gens_capacity, party_capacity)
}

/// Relies on `merlin::Transcript::new`: a fresh transcript bound to the
/// given domain-separation label.
#[verifier::external_body]
fn transcript_with_label(label: &'static [u8]) -> merlin::Transcript {
    merlin::Transcript::new(label)
}

/// Relies on `curve25519_dalek_ng::scalar::Scalar::random` over the thread
/// generator: a blinding factor, with nothing promised of its value.
#[verifier::external_body]
fn random_blinding() -> curve25519_dalek_ng::scalar::Scalar {
    curve25519_dalek_ng::scalar::Scalar::random(&mut rand::thread_rng())
}

/// Relies on `bulletproofs::RangeProof::prove_single`, whose dealer and
/// party constructors refuse a bit width outside {8, 16, 32, 64} before
/// anything else, and then a generator table whose capacities fall short.
/// Once those checks pass, the single-value protocol's only remaining error
/// paths are its internal multi-party guards (the zero-challenge check and
/// the share-count and share-size checks), every one of which the library
/// wraps as an internal proving error: the call then returns either a proof
/// or that one error. The library's error values are mapped one to one onto
/// [`RangeError`].
#[verifier::external_body]
fn prove_single_range(
    bp: &bulletproofs::BulletproofGens,
    pc: &bulletproofs::PedersenGens,
    transcript: &mut merlin::Transcript,
    value: u64,
    blinding: &curve25519_dalek_ng::scalar::Scalar,
    bits: usize,
) -> (r: Result<(bulletproofs::RangeProof, curve25519_dalek_ng::ristretto::CompressedRistretto), RangeError>)
    ensures
        !valid_bitsize(bits as int) ==> (r matches Err(RangeError::InvalidBitsize)),
        valid_bitsize(bits as int) && gens_capacity_of(*bp) < bits
            ==> (r matches Err(RangeError::InvalidGeneratorsLength)),
        valid_bitsize(bits as int) && gens_capacity_of(*bp) >= bits && party_capacity_of(*bp) < 1
            ==> (r matches Err(RangeError::InvalidGeneratorsLength)),
        valid_bitsize(bits as int) && gens_capacity_of(*bp) >= bits && party_capacity_of(*bp) >= 1
            ==> (r is Ok || r matches Err(RangeError::Internal)),
{
    bulletproofs::RangeProof::prove_single(bp, pc, transcript, value, blinding, bits)
        .map_err(to_range_error)
}

/// Relies on `bulletproofs::RangeProof::verify_single`, which checks the
/// bit width and the generator capacities in that order before replaying
/// the transcript. Past those checks, every failure the replay can raise —
/// an identity commitment point, ill-sized proof vectors, or the final
/// combined group equation not holding — is the library's one verification
/// error: the call then returns either success or that error. The error
/// values are mapped one to one onto [`RangeError`].
#[verifier::external_body]
fn verify_single_range(
    proof: &bulletproofs::RangeProof,
    bp: &bulletproofs::BulletproofGens,
    pc: &bulletproofs::PedersenGens,
    transcript: &mut merlin::Transcript,
    commitment: &curve25519_dalek_ng::ristretto::CompressedRistretto,
    bits: usize,
) -> (r: Result<(), RangeError>)
    ensures
        !valid_bitsize(bits as int) ==> (r matches Err(RangeError::InvalidBitsize)),
        valid_bitsize(bits as int) && gens_capacity_of(*bp) < bits
            ==> (r matches Err(RangeError::InvalidGeneratorsLength)),
        valid_bitsize(bits as int) && gens_capacity_of(*bp) >= bits && party_capacity_of(*bp) < 1
            ==> (r matches Err(RangeError::InvalidGeneratorsLength)),
        valid_bitsize(bits as int) && gens_capacity_of(*bp) >= bits && party_capacity_of(*bp) >= 1
            ==> (r is Ok || r matches Err(RangeError::VerificationFailed)),
{
    proof.verify_single(bp, pc, transcript, commitment, bits)
        .map_err(to_range_error)
}

/// Maps the outside library's error onto [`RangeError`], one arm per
/// variant; the multi-party diagnostic payload is dropped.
#[verifier::external_body]
fn to_range_error(e: ProofError) -> RangeError {
    match e {
        ProofError::VerificationError => RangeError::VerificationFailed,
        ProofError::FormatError => RangeError::Format,
        ProofError::WrongNumBlindingFactors => RangeError::WrongNumBlindingFactors,
        ProofError::InvalidBitsize => RangeError::InvalidBitsize,
        ProofError::InvalidAggregation => RangeError::InvalidAggregation,
        ProofError::InvalidGeneratorsLength => RangeError::InvalidGeneratorsLength,
        ProofError::ProvingError(_) => RangeError::Internal,
    }
}

/// Outcome of one run of the range-proof demonstration.
#[derive(Clone, Copy, Debug, PartialEq, Eq, Structural)]
pub enum RangeOutcome {
    /// The proving call refused to produce a proof.
    ProofRefused(RangeError),
    /// The proof was produced and the verifier accepted it.
    Accepted,
    /// The proof was produced and the verifier rejected it.
    Rejected(RangeError),
}

/// Prove that `secret_value` lies in `[0, 2^bits)` and verify the proof,
/// with the verifier replaying a transcript bound to `verifier_label`
/// against the prover's `prover_label`. Every failure of either phase is
/// reported as its own outcome. The generator table is built with the
/// demonstration's fixed capacities, 64 bits and one party, so a bit width
/// outside the scheme's set is the one parameter error left, and the
/// contract pins it; on a supported bit width, only three outcomes remain:
/// the verifier accepts, the verifier rejects the proof, or the prover's
/// internal guard trips.
pub fn run_range_proof(
    secret_value: u64,
    bits: usize,
    prover_label: &'static [u8],
    verifier_label: &'static [u8],
) -> (out: RangeOutcome)
    ensures
        !valid_bitsize(bits as int) ==> out == RangeOutcome::ProofRefused(RangeError::InvalidBitsize),
        valid_bitsize(bits as int) ==> (
            out == RangeOutcome::Accepted
            || out == RangeOutcome::Rejected(RangeError::VerificationFailed)
            || out == RangeOutcome::ProofRefused(RangeError::Internal)
        ),
{
    let pc = pedersen_gens();
    let bp = bulletproof_gens(64, 1);
    let blinding = random_blinding();
    let mut prover_transcript = transcript_with_label(prover_label);
    match prove_single_range(&bp, &pc, &mut prover_transcript, secret_value, &blinding, bits) {
        Err(e) => RangeOutcome::ProofRefused(e),
        Ok((proof, commitment)) => {
            let mut verifier_transcript = transcript_with_label(verifier_label);
            match verify_single_range(&proof, &bp, &pc, &mut verifier_transcript, &commitment, bits) {
                Ok(()) => RangeOutcome::Accepted,
                Err(e) => RangeOutcome::Rejected(e),
            }
        },
    }
}

} // verus!
