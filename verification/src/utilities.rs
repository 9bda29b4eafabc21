//! The proof of an opened trace, and the two sides of the protocol.
//!
//! The prover commits to a trace, draws a point `zeta` from its transcript,
//! opens the commitment at `zeta` and at its successor on the trace domain,
//! and bundles commitment, opened values and opening proof. The verifier
//! draws `zeta` from a transcript of its own, keyed and used as the prover's
//! was, and checks the opening. The order is what makes the protocol sound:
//! the point is drawn after the commitment, and before the opening.

use vstd::prelude::*;
use vstd::arithmetic::power2::{lemma2_to64, lemma_pow2_strictly_increases, pow2};
use vstd::bits::lemma_usize_shl_is_mul;
use p3_fri::verifier::FriError;
use p3_merkle_tree::MerkleTreeError;
use crate::encoding::{
    lemma_elements_bytes_len, lemma_words_bytes_len, push_u64_le, push_vector, push_words, u64_le,
    vector_bytes, words_bytes,
};
use crate::field::{all_wf, coefficients_in_base_field, elements_wf, Digest, ExtensionElement, TWO_ADICITY};
use crate::pcs::{
    claim_of, coset_successor, draw_outcome, opening_proof_bytes, opening_proof_rounds, prover_data_shape,
    Challenger, Domain, OpeningClaim, OpeningProof, PcsConfig, ProverData,
};
use crate::trace::{
    is_power_of_two, is_power_of_two_usize, lemma_log2_exact_of_pow2, log2_exact, TraceMatrix,
};

verus! {

/// A commitment to a trace, the values of the trace at two points, and the
/// proof that the values are the trace's. There is no quotient polynomial:
/// the trace is bound by no constraints.
pub struct Proof {
    /// The commitment to the trace.
    pub commitments: CommitmentsWithoutQuotient<Digest>,
    /// The values of the trace at the opening point and at its successor.
    pub opened_values: OpenedValues<ExtensionElement>,
    /// The proof that the opened values are those of the committed trace.
    pub opening_proof: OpeningProof,
    /// Log of the number of rows of the trace.
    pub degree_bits: usize,
}

/// The commitments of a proof without quotient polynomials: the trace alone.
#[derive(Debug)]
pub struct CommitmentsWithoutQuotient<Com> {
    /// The commitment to the trace.
    pub trace: Com,
}

/// The values of the trace columns at the opening point and at its successor.
#[derive(Debug)]
pub struct OpenedValues<Challenge> {
    /// One value for each column, at the opening point.
    pub trace_local: Vec<Challenge>,
    /// One value for each column, at the successor of the opening point.
    pub trace_next: Vec<Challenge>,
}

/// Why a proof could not be made.
#[derive(Debug)]
pub enum ProverError {
    /// The transcript gave an opening point in the base field, where the
    /// trace domain lies and the scheme cannot open.
    OpeningPointInBaseField,
}

/// Why a proof could not be encoded.
#[derive(Debug)]
pub enum EncodingError {
    /// The encoder failed on the opening proof.
    OpeningProof(bincode::error::EncodeError),
}

/// Why a proof was not accepted.
#[derive(Debug)]
pub enum VerificationError {
    /// The proof holds a value that is no canonical field element, or states
    /// a size that does not agree with its opening proof or with the scheme.
    InvalidProofShape,
    /// The scheme rejected the opening.
    InvalidOpeningArgument(FriError<MerkleTreeError, MerkleTreeError>),
    /// The transcript gave an opening point in the base field, where the
    /// trace domain lies and the scheme cannot check an opening.
    OpeningPointInBaseField,
}

impl Proof {
    /// The commitment and the opened values are canonical field elements.
    pub open spec fn wf(&self) -> bool {
        &&& self.commitments.trace.wf()
        &&& elements_wf(self.opened_values.trace_local@)
        &&& elements_wf(self.opened_values.trace_next@)
    }

    /// The bytes of the proof around `opening_proof`, the bytes of its
    /// opening proof: the commitment, the two vectors of opened values, the
    /// opening proof, and `degree_bits` as a length.
    pub open spec fn framed(&self, opening_proof: Seq<u8>) -> Seq<u8> {
        words_bytes(self.commitments.trace.words@) + vector_bytes(self.opened_values.trace_local@)
            + vector_bytes(self.opened_values.trace_next@) + opening_proof + u64_le(
            self.degree_bits as u64,
        )
    }

    /// The bytes of the proof, or `None` where its opening proof has none.
    pub open spec fn bytes(&self) -> Option<Seq<u8>> {
        match opening_proof_bytes(self.opening_proof) {
            Some(opening_proof) => Some(self.framed(opening_proof)),
            None => None,
        }
    }
}

/// The proof is one that the scheme can be asked about: its field elements
/// are canonical, the trace fits the field's two-adicity, and the opening
/// proof folds at least from the height that `degree_bits` names.
pub open spec fn shape_admitted(config: &PcsConfig, proof: &Proof) -> bool {
    &&& proof.wf()
    &&& proof.degree_bits <= TWO_ADICITY
    &&& config.spec_parameters().admits(opening_proof_rounds(proof.opening_proof), proof.degree_bits as nat)
}

/// Whether the scheme can open at `zeta` and `zeta_next`: it can at any point
/// outside the base field.
pub fn opening_points_usable(zeta: &ExtensionElement, zeta_next: &ExtensionElement) -> (usable: bool)
    ensures
        usable == (!zeta.in_base_field() && !zeta_next.in_base_field()),
{
    !zeta.is_in_base_field() && !zeta_next.is_in_base_field()
}

/// The exponent of `degree`, a power of two.
pub fn degree_bits_of(degree: usize) -> (degree_bits: usize)
    requires
        is_power_of_two(degree as nat),
    ensures
        degree_bits == log2_exact(degree as nat),
        pow2(degree_bits as nat) == degree,
{
    let degree_bits = p3_util::log2_strict_usize(degree);
    proof {
        lemma_log2_exact_of_pow2(degree_bits as nat);
    }
    degree_bits
}

/// Bundles what the scheme returned into a proof. The opened values are
/// those of the first matrix of the first round, at its first two points.
pub fn assemble_proof(
    commitment: Digest,
    opened_values: Vec<Vec<Vec<Vec<ExtensionElement>>>>,
    opening_proof: OpeningProof,
    degree: usize,
) -> (proof: Proof)
    requires
        is_power_of_two(degree as nat),
        opened_values@.len() >= 1,
        opened_values@[0]@.len() >= 1,
        opened_values@[0]@[0]@.len() >= 2,
    ensures
        proof.commitments.trace == commitment,
        proof.opened_values.trace_local@ == opened_values@[0]@[0]@[0]@,
        proof.opened_values.trace_next@ == opened_values@[0]@[0]@[1]@,
        proof.opening_proof == opening_proof,
        proof.degree_bits == log2_exact(degree as nat),
{
    let mut rounds = opened_values;
    let mut matrices = rounds.swap_remove(0);
    let mut points = matrices.swap_remove(0);
    let trace_next = points.swap_remove(1);
    let trace_local = points.swap_remove(0);
    Proof {
        commitments: CommitmentsWithoutQuotient { trace: commitment },
        opened_values: OpenedValues { trace_local, trace_next },
        opening_proof,
        degree_bits: degree_bits_of(degree),
    }
}

/// Opens the committed trace at `zeta` and `zeta_next` and bundles the proof,
/// unless one of the two points lies in the base field. The transcript is
/// then left as it was.
pub fn open_and_assemble(
    config: &PcsConfig,
    challenger: &mut Challenger,
    commitment: Digest,
    data: &ProverData,
    zeta: &ExtensionElement,
    zeta_next: &ExtensionElement,
    degree: usize,
) -> (result: Result<Proof, ProverError>)
    requires
        config.wf(),
        commitment.wf(),
        zeta.wf(),
        zeta_next.wf(),
        is_power_of_two(degree as nat),
        prover_data_shape(*data).parameters == config.spec_parameters(),
        prover_data_shape(*data).log_height == log2_exact(degree as nat),
        config.spec_parameters().supports(log2_exact(degree as nat)),
    ensures
        result is Err <==> zeta.in_base_field() || zeta_next.in_base_field(),
        result is Err ==> *final(challenger) == *old(challenger),
        result matches Ok(proof) ==> {
            &&& proof.commitments.trace == commitment
            &&& proof.degree_bits == log2_exact(degree as nat)
            &&& proof.opened_values.trace_local@.len() == prover_data_shape(*data).width
            &&& proof.opened_values.trace_next@.len() == prover_data_shape(*data).width
            &&& proof.opened_values.trace_local@ == config.opened_values_of(*data, zeta.coeffs@, zeta_next.coeffs@).0
            &&& proof.opened_values.trace_next@ == config.opened_values_of(*data, zeta.coeffs@, zeta_next.coeffs@).1
            &&& proof.wf()
            &&& shape_admitted(config, &proof)
        },
{
    if !opening_points_usable(zeta, zeta_next) {
        return Err(ProverError::OpeningPointInBaseField);
    }
    let (opened_values, opening_proof) = config.open(data, zeta, zeta_next, challenger);
    Ok(assemble_proof(commitment, opened_values, opening_proof, degree))
}

/// Whether `prove_random_trace` can be asked for a proof of `trace`: the trace
/// is well formed, its height is a power of two, and the scheme supports it.
pub fn can_prove(config: &PcsConfig, trace: &TraceMatrix) -> (accepted: bool)
    ensures
        accepted == (trace.wf() && is_power_of_two(trace.spec_height())
            && config.spec_parameters().supports(log2_exact(trace.spec_height()))),
{
    if !trace.is_wf() {
        return false;
    }
    let degree = trace.height();
    if !is_power_of_two_usize(degree) {
        return false;
    }
    config.parameters().can_support(degree_bits_of(degree))
}

/// Proves that the returned values are those of `trace` at a point drawn from
/// `challenger` and at its successor.
///
/// The trace is committed to before the point is drawn, and the point is
/// drawn before the opening: a prover cannot fit the trace to the point.
/// It fails where the drawn point or its successor lies in the base field.
pub fn prove_random_trace(config: &PcsConfig, challenger: &mut Challenger, trace: TraceMatrix) -> (result:
    Result<Proof, ProverError>)
    requires
        config.wf(),
        trace.wf(),
        is_power_of_two(trace.spec_height()),
        config.spec_parameters().supports(log2_exact(trace.spec_height())),
    ensures
        result is Err <==> draw_refused(old(challenger)@, log2_exact(trace.spec_height())),
        result is Err ==> final(challenger)@ == draw_outcome(old(challenger)@).1,
        result matches Ok(proof) ==> {
            &&& proof.commitments.trace.words@ == proved_commitment(config, &trace)
            &&& proof.opened_values.trace_local@ == proved_values(config, old(challenger)@, &trace).0
            &&& proof.opened_values.trace_next@ == proved_values(config, old(challenger)@, &trace).1
            &&& proof.degree_bits == log2_exact(trace.spec_height())
            &&& proof.opened_values.trace_local@.len() == trace.width
            &&& proof.opened_values.trace_next@.len() == trace.width
            &&& proof.wf()
            &&& shape_admitted(config, &proof)
        },
{
    let degree = trace.height();

    let trace_domain = config.natural_domain_for_degree(degree);
    let (trace_commit, trace_data) = config.commit(&trace_domain, trace);

    let zeta = challenger.sample();
    let zeta_next = trace_domain.next_point(&zeta).unwrap();

    open_and_assemble(config, challenger, trace_commit, &trace_data, &zeta, &zeta_next, degree)
}

/// Turns the outcome of the scheme's check into the outcome of the
/// verification: success stays success, and the scheme's error comes back
/// marked as a rejected opening.
pub fn conclude(verdict: Result<(), FriError<MerkleTreeError, MerkleTreeError>>) -> (result: Result<
    (),
    VerificationError,
>)
    ensures
        result == concluded(verdict),
{
    match verdict {
        Ok(()) => Ok(()),
        Err(e) => Err(VerificationError::InvalidOpeningArgument(e)),
    }
}

/// Whether the proof is one that the scheme can be asked about.
pub fn is_shape_admitted(config: &PcsConfig, proof: &Proof) -> (admitted: bool)
    ensures
        admitted == shape_admitted(config, proof),
{
    let parameters = config.parameters();
    let rounds = proof.opening_proof.rounds();
    proof.commitments.trace.is_wf() && all_wf(&proof.opened_values.trace_local) && all_wf(
        &proof.opened_values.trace_next,
    ) && proof.degree_bits <= TWO_ADICITY && parameters.log_final_poly_len <= TWO_ADICITY
        && parameters.log_blowup <= TWO_ADICITY && rounds <= TWO_ADICITY && proof.degree_bits
        <= rounds + parameters.log_final_poly_len && rounds + parameters.log_blowup
        + parameters.log_final_poly_len <= TWO_ADICITY
}

/// Checks the opening of `proof` at `zeta` and `zeta_next` on `domain`, unless
/// one of the two points lies in the base field.
pub fn check_opening(
    config: &PcsConfig,
    challenger: &mut Challenger,
    proof: &Proof,
    domain: &Domain,
    zeta: &ExtensionElement,
    zeta_next: &ExtensionElement,
) -> (result: Result<(), VerificationError>)
    requires
        config.wf(),
        domain.wf(),
        zeta.wf(),
        zeta_next.wf(),
        shape_admitted(config, proof),
        domain.log_size == proof.degree_bits,
    ensures
        zeta.in_base_field() || zeta_next.in_base_field() ==> result == Err::<(), VerificationError>(
            VerificationError::OpeningPointInBaseField,
        ),
        zeta.in_base_field() || zeta_next.in_base_field() ==> *final(challenger) == *old(challenger),
        !(zeta.in_base_field() || zeta_next.in_base_field()) ==> result == concluded(
            config.verdict_of(claim_of_proof(proof, domain, zeta, zeta_next), proof.opening_proof, old(challenger)@).0,
        ),
        !(zeta.in_base_field() || zeta_next.in_base_field()) ==> final(challenger)@
            == config.verdict_of(claim_of_proof(proof, domain, zeta, zeta_next), proof.opening_proof, old(challenger)@).1,
{
    if !opening_points_usable(zeta, zeta_next) {
        return Err(VerificationError::OpeningPointInBaseField);
    }
    let verdict = config.verify(
        &proof.commitments.trace,
        domain,
        zeta,
        &proof.opened_values.trace_local,
        zeta_next,
        &proof.opened_values.trace_next,
        &proof.opening_proof,
        challenger,
    );
    conclude(verdict)
}

/// Checks that the opened values of `proof` are those of the trace it
/// commits to, at a point drawn from `challenger` and at its successor.
///
/// The transcript must be keyed as the prover's was and must have been used
/// as the prover's had been when it drew its point: the draw here is the
/// first use that this function makes of it. A proof that the scheme cannot
/// be asked about is rejected for its shape before anything is drawn, and a
/// drawn point in the base field, or with its successor there, is refused
/// before the scheme is asked.
pub fn verify_random_trace(config: &PcsConfig, challenger: &mut Challenger, proof: &Proof) -> (result:
    Result<(), VerificationError>)
    requires
        config.wf(),
    ensures
        result == verification_outcome(config, old(challenger)@, proof).0,
        final(challenger)@ == verification_outcome(config, old(challenger)@, proof).1,
        !shape_admitted(config, proof) ==> *final(challenger) == *old(challenger),
{
    if !is_shape_admitted(config, proof) {
        return Err(VerificationError::InvalidProofShape);
    }
    let degree_bits = proof.degree_bits;
    proof {
        lemma2_to64();
        if degree_bits < 24 {
            lemma_pow2_strictly_increases(degree_bits as nat, 24);
        }
        lemma_usize_shl_is_mul(1, degree_bits);
        lemma_log2_exact_of_pow2(degree_bits as nat);
    }
    let degree = 1usize << degree_bits;

    let trace_domain = config.natural_domain_for_degree(degree);

    let zeta = challenger.sample();
    let zeta_next = trace_domain.next_point(&zeta).unwrap();

    check_opening(config, challenger, proof, &trace_domain, &zeta, &zeta_next)
}

/// The bytes of `proof` around the bytes `opening_proof` of its opening proof.
pub fn frame_proof(proof: &Proof, opening_proof: &Vec<u8>) -> (bytes: Vec<u8>)
    ensures
        bytes@ == proof.framed(opening_proof@),
{
    let mut bytes: Vec<u8> = Vec::new();
    push_words(&mut bytes, proof.commitments.trace.words.as_slice());
    push_vector(&mut bytes, &proof.opened_values.trace_local);
    push_vector(&mut bytes, &proof.opened_values.trace_next);
    let mut i: usize = 0;
    let ghost head = bytes@;
    while i < opening_proof.len()
        invariant
            i <= opening_proof.len(),
            bytes@ == head + opening_proof@.take(i as int),
        decreases opening_proof.len() - i,
    {
        bytes.push(opening_proof[i]);
        assert(bytes@ =~= head + opening_proof@.take(i + 1));
        i += 1;
    }
    assert(opening_proof@.take(opening_proof@.len() as int) =~= opening_proof@);
    push_u64_le(&mut bytes, proof.degree_bits as u64);
    assert(bytes@ =~= proof.framed(opening_proof@));
    bytes
}

/// The bytes of `proof`; the encoder's error where it cannot encode the
/// opening proof.
pub fn encode_proof(proof: &Proof) -> (encoded: Result<Vec<u8>, EncodingError>)
    ensures
        encoded is Ok <==> proof.bytes() is Some,
        encoded matches Ok(bytes) ==> proof.bytes() == Some(bytes@),
{
    match proof.opening_proof.to_bytes() {
        Ok(opening_proof) => Ok(frame_proof(proof, &opening_proof)),
        Err(e) => Err(EncodingError::OpeningProof(e)),
    }
}

/// The size in bytes of the encoded proof; the encoder's error where it
/// cannot encode the opening proof.
pub fn report_proof_size_example(proof: &Proof) -> (size: Result<usize, EncodingError>)
    ensures
        size is Ok <==> proof.bytes() is Some,
        size matches Ok(n) ==> n == proof.bytes().unwrap().len(),
{
    match encode_proof(proof) {
        Ok(bytes) => Ok(bytes.len()),
        Err(e) => Err(e),
    }
}

/// A proof's bytes are those of its parts: two proofs with the same
/// commitment, the same opened values, the same `degree_bits` and opening
/// proofs of the same bytes have the same bytes, and so the same size.
pub proof fn lemma_encoding_deterministic(a: Proof, b: Proof)
    requires
        a.commitments.trace.words@ == b.commitments.trace.words@,
        a.opened_values.trace_local@ == b.opened_values.trace_local@,
        a.opened_values.trace_next@ == b.opened_values.trace_next@,
        opening_proof_bytes(a.opening_proof) == opening_proof_bytes(b.opening_proof),
        a.degree_bits == b.degree_bits,
    ensures
        a.bytes() == b.bytes(),
        a.bytes() is Some ==> a.bytes().unwrap().len() == b.bytes().unwrap().len(),
{
}

/// The size of a proof: 32 bytes of commitment, for each vector of opened
/// values 8 bytes of length and 16 for each value, the opening proof, and 8
/// bytes of `degree_bits`.
pub proof fn lemma_framed_len(proof: Proof, opening_proof: Seq<u8>)
    ensures
        proof.framed(opening_proof).len() == 56 + 16 * proof.opened_values.trace_local@.len() + 16
            * proof.opened_values.trace_next@.len() + opening_proof.len(),
{
    lemma_words_bytes_len(proof.commitments.trace.words@);
    lemma_elements_bytes_len(proof.opened_values.trace_local@);
    lemma_elements_bytes_len(proof.opened_values.trace_next@);
}

/// A transcript that holds `contents` draws a point that the scheme cannot
/// open at on the unshifted domain of `2^log_size` points: the point or its
/// successor on the domain lies in the base field.
pub open spec fn draw_refused(contents: Seq<u32>, log_size: nat) -> bool {
    let zeta = draw_outcome(contents).0;
    coefficients_in_base_field(zeta) || coefficients_in_base_field(
        coset_successor(log_size, 1, zeta),
    )
}

/// The domain of a trace of `degree` rows: the unshifted subgroup of that order.
pub open spec fn natural_domain(degree: nat) -> Domain {
    Domain { log_size: log2_exact(degree) as usize, shift: 1 }
}

/// The words of the commitment that a proof of `trace` holds: those of the
/// scheme's commitment to the trace on its natural domain.
pub open spec fn proved_commitment(config: &PcsConfig, trace: &TraceMatrix) -> Seq<u32> {
    config.commitment_of(natural_domain(trace.spec_height()), trace.values@, trace.width as nat)
}

/// The opened values that a proof of `trace` holds, made with a transcript
/// that holds `contents`: the values of the committed trace at the point
/// that the transcript draws and at its successor on the natural domain.
pub open spec fn proved_values(config: &PcsConfig, contents: Seq<u32>, trace: &TraceMatrix) -> (
    Seq<ExtensionElement>,
    Seq<ExtensionElement>,
) {
    let domain = natural_domain(trace.spec_height());
    let zeta = draw_outcome(contents).0;
    let zeta_next = coset_successor(domain.log_size as nat, domain.shift, zeta);
    config.opened_values_of(
        config.prover_data_of(domain, trace.values@, trace.width as nat),
        zeta,
        zeta_next,
    )
}

/// The outcome of the verification for an outcome of the scheme's check:
/// success for success, and the scheme's error marked as a rejected opening.
pub open spec fn concluded(verdict: Result<(), FriError<MerkleTreeError, MerkleTreeError>>) -> Result<
    (),
    VerificationError,
> {
    match verdict {
        Ok(()) => Ok(()),
        Err(e) => Err(VerificationError::InvalidOpeningArgument(e)),
    }
}

/// What `proof` claims on `domain` at the points `zeta` and `zeta_next`.
pub open spec fn claim_of_proof(
    proof: &Proof,
    domain: &Domain,
    zeta: &ExtensionElement,
    zeta_next: &ExtensionElement,
) -> OpeningClaim {
    claim_of(
        &proof.commitments.trace,
        domain,
        zeta,
        proof.opened_values.trace_local@,
        zeta_next,
        proof.opened_values.trace_next@,
    )
}

/// The outcome of verifying `proof` with a transcript that holds `contents`,
/// and what the transcript holds afterwards. A proof of a shape that is not
/// admitted is rejected with the transcript untouched; a drawn point that is
/// refused ends the verification after the draw; otherwise the scheme decides.
pub open spec fn verification_outcome(config: &PcsConfig, contents: Seq<u32>, proof: &Proof) -> (
    Result<(), VerificationError>,
    Seq<u32>,
) {
    let domain = Domain { log_size: proof.degree_bits, shift: 1 };
    let (zeta, drawn) = draw_outcome(contents);
    let zeta_next = coset_successor(proof.degree_bits as nat, 1, zeta);
    let claim = OpeningClaim {
        commitment: proof.commitments.trace.words@,
        domain,
        zeta,
        trace_local: proof.opened_values.trace_local@,
        zeta_next,
        trace_next: proof.opened_values.trace_next@,
    };
    let verdict = config.verdict_of(claim, proof.opening_proof, drawn);
    if !shape_admitted(config, proof) {
        (Err(VerificationError::InvalidProofShape), contents)
    } else if draw_refused(contents, proof.degree_bits as nat) {
        (Err(VerificationError::OpeningPointInBaseField), drawn)
    } else {
        (concluded(verdict.0), verdict.1)
    }
}

} // verus!
