//! The boundary to the Plonky3 crates.
//!
//! The two-adic FRI scheme, its Merkle trees, its transcript and the opening
//! proofs it produces are values of outside types, generic over the field and
//! hash traits of those crates. Verus knows neither the traits nor, for that
//! reason, the types: each value is held in a handle whose inside the
//! verifier does not see, and what the contracts need to say of a handle has
//! a name without a definition. Field elements, digests and domains cross
//! the boundary as plain integers.
//!
//! Each call into the outside crates is one private function of this module
//! whose contract is taken on trust. The contracts say what the outside
//! sources show: which inputs make a call panic, the shape of what comes
//! back, that field elements come back canonical, and of which arguments a
//! result is a function; what that function is has a name and no definition.
//! The public functions below them are verified against these contracts.

use vstd::prelude::*;
use vstd::arithmetic::power2::pow2;
use core::array::from_fn;
use p3_challenger::CanSample;
use p3_commit::Pcs;
use p3_commit::PolynomialSpace;
use p3_field::BasedVectorSpace;
use p3_field::PrimeField32;
use rand::SeedableRng;
use crate::field::{elements_wf, Digest, ExtensionElement, KOALA_BEAR_PRIME, TWO_ADICITY};
use crate::trace::{is_power_of_two, log2_exact, TraceMatrix};

verus! {

type Val = p3_koala_bear::KoalaBear;
type Ext = p3_field::extension::BinomialExtensionField<Val, 4>;
type Perm16 = p3_koala_bear::Poseidon2KoalaBear<16>;
type Perm24 = p3_koala_bear::Poseidon2KoalaBear<24>;
type Sponge = p3_symmetric::PaddingFreeSponge<Perm24, 24, 16, 8>;
type Compress = p3_symmetric::TruncatedPermutation<Perm16, 2, 8, 16>;
type Packed = <Val as p3_field::Field>::Packing;
type ValMmcs = p3_merkle_tree::MerkleTreeMmcs<Packed, Packed, Sponge, Compress, 8>;
type ExtMmcs = p3_commit::ExtensionMmcs<Val, Ext, ValMmcs>;
type Dft = p3_dft::Radix2DitParallel<Val>;
type Scheme = p3_fri::TwoAdicFriPcs<Val, Dft, ValMmcs, ExtMmcs>;
type Transcript = p3_challenger::DuplexChallenger<Val, Perm24, 24, 16>;
type Coset = p3_field::coset::TwoAdicMultiplicativeCoset<Val>;
type Tree = p3_merkle_tree::MerkleTree<Val, Val, p3_matrix::dense::RowMajorMatrix<Val>, 8>;

type Argument = p3_fri::FriProof<Ext, ExtMmcs, Val, Vec<p3_commit::BatchOpening<Val, ValMmcs>>>;

/// The failure of a Merkle opening, as `p3_merkle_tree` reports it.
#[verifier::external_type_specification]
#[verifier::external_body]
pub struct ExMerkleTreeError(p3_merkle_tree::MerkleTreeError);

/// The reasons for which `p3_fri` rejects an opening proof.
#[verifier::external_type_specification]
#[verifier::external_body]
#[verifier::reject_recursive_types(CommitMmcsErr)]
#[verifier::reject_recursive_types(InputError)]
pub struct ExFriError<CommitMmcsErr, InputError>(p3_fri::verifier::FriError<CommitMmcsErr, InputError>);

/// The failure of `bincode` to encode a value.
#[verifier::external_type_specification]
#[verifier::external_body]
pub struct ExEncodeError(bincode::error::EncodeError);

/// The most proof-of-work bits that a configuration may ask for. The prover
/// searches the `2^31 - 2^24 + 1` elements of the field for a witness and has
/// nothing to fall back on where none fits. Within this bound a candidate
/// fits with probability `2^-24` or more: over a hundred of them are expected
/// to.
pub const MAX_PROOF_OF_WORK_BITS: usize = 24;

/// The parameters of a FRI instance.
#[derive(Clone, Copy, Debug, PartialEq, Eq)]
pub struct FriParameters {
    /// Log of the factor by which a trace is extended before it is committed.
    pub log_blowup: usize,
    /// Log of the length of the polynomial that the folding stops at.
    pub log_final_poly_len: usize,
    /// The number of positions that the verifier queries.
    pub num_queries: usize,
    /// The number of leading zero bits asked of the proof of work.
    pub proof_of_work_bits: usize,
}

impl FriParameters {
    /// The proof of work is one that a search through the field finds.
    pub open spec fn wf(&self) -> bool {
        self.proof_of_work_bits <= MAX_PROOF_OF_WORK_BITS
    }

    /// Whether the proof of work is one that a search through the field finds.
    pub fn is_wf(&self) -> (b: bool)
        ensures
            b == self.wf(),
    {
        self.proof_of_work_bits <= MAX_PROOF_OF_WORK_BITS
    }

    /// The scheme can commit to and open a trace of `2^log_height` rows: the
    /// extended trace fits the two-adic subgroups of the field, and the
    /// folding has a round to stop at.
    pub open spec fn supports(&self, log_height: nat) -> bool {
        &&& log_height + self.log_blowup <= TWO_ADICITY
        &&& (self.log_final_poly_len == 0 || self.log_final_poly_len < log_height)
    }

    /// The scheme can check a proof of `rounds` folding rounds against a
    /// domain of `2^log_size` points: the proof folds at least from the size
    /// of the domain, and the largest folded domain fits the two-adic
    /// subgroups of the field.
    pub open spec fn admits(&self, rounds: nat, log_size: nat) -> bool {
        &&& log_size <= rounds + self.log_final_poly_len
        &&& rounds + self.log_blowup + self.log_final_poly_len <= TWO_ADICITY
    }

    /// Whether the scheme can commit to and open a trace of `2^log_height` rows.
    pub fn can_support(&self, log_height: usize) -> (b: bool)
        ensures
            b == self.supports(log_height as nat),
    {
        log_height <= TWO_ADICITY && self.log_blowup <= TWO_ADICITY - log_height && (
        self.log_final_poly_len == 0 || self.log_final_poly_len < log_height)
    }
}

/// The FRI scheme with its hash functions: a `p3_fri::TwoAdicFriPcs` over
/// KoalaBear with Poseidon2 Merkle trees, and the Poseidon2 permutation of
/// width 24 that its sponge and the transcripts share.
#[verifier::external_body]
pub struct Backend {
    scheme: Scheme,
    perm24: Perm24,
}

/// A Fiat-Shamir transcript: a `p3_challenger::DuplexChallenger` over the
/// base field, of width 24 and rate 16.
#[verifier::external_body]
pub struct Challenger {
    sponge: Transcript,
}

/// What the prover keeps of a committed trace until it has opened it: the
/// `p3_merkle_tree::MerkleTree` over the extended trace.
#[verifier::external_body]
pub struct ProverData {
    tree: Tree,
}

/// The evidence that opened values agree with a commitment: a
/// `p3_fri::FriProof`.
#[verifier::external_body]
pub struct OpeningProof {
    argument: Argument,
}

/// What a commitment was made from: the dimensions of the trace and the
/// parameters of the scheme.
pub struct CommittedShape {
    /// The number of columns of the trace.
    pub width: nat,
    /// Log of the number of rows of the trace.
    pub log_height: nat,
    /// The parameters of the scheme that committed to it.
    pub parameters: FriParameters,
}

/// The number of times that a committed trace is halved before the folding
/// reaches the final polynomial.
pub open spec fn folding_rounds(shape: CommittedShape) -> nat {
    (shape.log_height - shape.parameters.log_final_poly_len) as nat
}

/// The parameters that a backend was built with.
pub uninterp spec fn backend_parameters(backend: Backend) -> FriParameters;

/// What the matrix held in `data` was committed from.
pub uninterp spec fn prover_data_shape(data: ProverData) -> CommittedShape;

/// The number of folding rounds that `proof` holds a commitment for.
pub uninterp spec fn opening_proof_rounds(proof: OpeningProof) -> nat;

/// The bytes that `bincode` gives for `proof` with fixed-width little-endian
/// integers, or `None` where it gives an error.
pub uninterp spec fn opening_proof_bytes(proof: OpeningProof) -> Option<Seq<u8>>;

/// The coefficients of the successor of the element with coefficients `zeta`
/// on the coset of `2^log_size` points that is shifted by `shift`: those of
/// `zeta` times the generator of the subgroup.
pub uninterp spec fn coset_successor(log_size: nat, shift: u32, zeta: Seq<u32>) -> Seq<u32>;

/// A coset of a two-adic subgroup of the base field.
#[derive(Clone, Copy, Debug, PartialEq, Eq)]
pub struct Domain {
    /// Log of the number of points.
    pub log_size: usize,
    /// The element that the subgroup is shifted by.
    pub shift: u32,
}

impl Domain {
    /// The subgroup exists and the shift is a canonical non-zero element.
    pub open spec fn wf(&self) -> bool {
        self.log_size <= TWO_ADICITY && 0 < self.shift < KOALA_BEAR_PRIME
    }
}

/// The nested values that an opening returns hold one round with one matrix,
/// opened at two points, with `width` canonical values at each.
pub open spec fn opened_at_two_points(
    values: Seq<Vec<Vec<Vec<ExtensionElement>>>>,
    width: nat,
) -> bool {
    &&& values.len() == 1
    &&& values[0]@.len() == 1
    &&& values[0]@[0]@.len() == 2
    &&& values[0]@[0]@[0]@.len() == width
    &&& values[0]@[0]@[1]@.len() == width
    &&& elements_wf(values[0]@[0]@[0]@)
    &&& elements_wf(values[0]@[0]@[1]@)
}

/// `p3_util::log2_strict_usize`: the exponent of a power of two. It panics on
/// any other number.
pub assume_specification[ p3_util::log2_strict_usize ](n: usize) -> (res: usize)
    requires
        is_power_of_two(n as nat),
    ensures
        pow2(res as nat) == n,
;

/// Builds the scheme as `TwoAdicFriPcs::new` does, from two Poseidon2
/// permutations that `Poseidon2::new_from_rng_128` draws from a `SmallRng`
/// seeded with `seed`, the narrower one first. The backend keeps the wider
/// permutation for the transcripts. Claimed: the parameters are those given.
#[verifier::external_body]
fn build_backend(seed: u64, parameters: &FriParameters) -> (backend: Backend)
    ensures
        backend_parameters(backend) == *parameters,
{
    let mut rng = rand::rngs::SmallRng::seed_from_u64(seed);
    let perm16 = Perm16::new_from_rng_128(&mut rng);
    let perm24 = Perm24::new_from_rng_128(&mut rng);
    let mmcs = ValMmcs::new(Sponge::new(perm24.clone()), Compress::new(perm16));
    let fri = p3_fri::FriParameters {
        log_blowup: parameters.log_blowup,
        log_final_poly_len: parameters.log_final_poly_len,
        num_queries: parameters.num_queries,
        proof_of_work_bits: parameters.proof_of_work_bits,
        mmcs: ExtMmcs::new(mmcs.clone()),
    };
    Backend { scheme: Scheme::new(Dft::default(), mmcs, fri), perm24 }
}

/// `DuplexChallenger::new` on the backend's wider permutation: a transcript
/// that has absorbed nothing. Claimed: what it holds depends on the backend
/// alone.
#[verifier::external_body]
fn fresh_transcript(backend: &Backend) -> (challenger: Challenger)
    ensures
        transcript_contents(challenger) == fresh_contents(*backend),
{
    Challenger { sponge: Transcript::new(backend.perm24.clone()) }
}

/// `CanSample::sample` of `DuplexChallenger` for an extension element.
/// Claimed: the coefficients handed back are canonical, as
/// `as_canonical_u32` gives them, and both they and what the transcript
/// holds afterwards depend on what it held before alone.
#[verifier::external_body]
fn sample_element(challenger: &mut Challenger) -> (zeta: ExtensionElement)
    ensures
        zeta.wf(),
        zeta.coeffs@ == draw_outcome(transcript_contents(*old(challenger))).0,
        transcript_contents(*final(challenger)) == draw_outcome(transcript_contents(*old(challenger))).1,
{
    let z: Ext = challenger.sponge.sample();
    let c: &[Val] = z.as_basis_coefficients_slice();
    ExtensionElement { coeffs: from_fn(|i| c[i].as_canonical_u32()) }
}

/// `Pcs::natural_domain_for_degree` of `TwoAdicFriPcs`, which panics unless
/// `degree` is a power of two within the field's two-adicity. Claimed: the
/// domain is the subgroup of that size, unshifted.
#[verifier::external_body]
fn natural_domain(backend: &Backend, degree: usize) -> (domain: Domain)
    requires
        is_power_of_two(degree as nat),
        log2_exact(degree as nat) <= TWO_ADICITY,
    ensures
        domain.log_size == log2_exact(degree as nat),
        domain.shift == 1,
{
    let coset = <Scheme as Pcs<Ext, Transcript>>::natural_domain_for_degree(&backend.scheme, degree);
    Domain { log_size: coset.log_size(), shift: coset.shift().as_canonical_u32() }
}

/// `PolynomialSpace::next_point` of `TwoAdicMultiplicativeCoset`: the product
/// of `zeta` and the generator of the subgroup. Claimed: it is always `Some`,
/// with canonical coefficients, and a function of the domain and the point.
#[verifier::external_body]
fn coset_next_point(domain: &Domain, zeta: &ExtensionElement) -> (next: Option<ExtensionElement>)
    requires
        domain.wf(),
    ensures
        next.is_some(),
        next.unwrap().wf(),
        next.unwrap().coeffs@ == coset_successor(domain.log_size as nat, domain.shift, zeta.coeffs@),
{
    let coset = Coset::new(Val::new(domain.shift), domain.log_size).unwrap();
    let z = Ext::from_basis_coefficients_fn(|i| Val::new(zeta.coeffs[i]));
    coset.next_point(z).map(|n| {
        let c: &[Val] = n.as_basis_coefficients_slice();
        ExtensionElement { coeffs: from_fn(|i| c[i].as_canonical_u32()) }
    })
}

/// `Pcs::commit` of `TwoAdicFriPcs` on one matrix. It panics unless the
/// domain has as many points as the matrix has rows and the extended matrix
/// fits the field's two-adicity. Claimed: the root is canonical, the prover
/// data is of this trace under this backend's parameters, and both depend
/// on the backend, the domain and the trace alone.
#[verifier::external_body]
fn commit_trace(backend: &Backend, domain: &Domain, trace: TraceMatrix) -> (out: (
    Digest,
    ProverData,
))
    requires
        trace.wf(),
        domain.wf(),
        pow2(domain.log_size as nat) == trace.spec_height(),
        domain.log_size + backend_parameters(*backend).log_blowup <= TWO_ADICITY,
    ensures
        out.0.wf(),
        prover_data_shape(out.1) == (CommittedShape {
            width: trace.width as nat,
            log_height: domain.log_size as nat,
            parameters: backend_parameters(*backend),
        }),
        out.0.words@ == commit_outcome(*backend, *domain, trace.values@, trace.width as nat).0,
        out.1 == commit_outcome(*backend, *domain, trace.values@, trace.width as nat).1,
{
    let coset = Coset::new(Val::new(domain.shift), domain.log_size).unwrap();
    let values: Vec<Val> = trace.values.iter().map(|&v| Val::new(v)).collect();
    let matrix = p3_matrix::dense::RowMajorMatrix::new(values, trace.width);
    let (root, tree) = <Scheme as Pcs<Ext, Transcript>>::commit(&backend.scheme, vec![(coset, matrix)]);
    let words: [Val; 8] = root.into();
    (Digest { words: words.map(|w| w.as_canonical_u32()) }, ProverData { tree })
}

/// `Pcs::open` of `TwoAdicFriPcs` on one committed matrix and two points. It
/// panics where a point lies on the evaluation coset, which is part of the
/// base field, where the parameters do not fit the height, and where the
/// search for a proof-of-work witness finds none. Claimed: the
/// values come back as one round of one matrix at two points, one canonical
/// value per column at each, the values depend on the backend, the data and
/// the points alone, and the proof holds one commitment for each halving
/// from the height down to the final polynomial.
#[verifier::external_body]
fn open_trace(
    backend: &Backend,
    data: &ProverData,
    zeta: &ExtensionElement,
    zeta_next: &ExtensionElement,
    challenger: &mut Challenger,
) -> (out: (Vec<Vec<Vec<Vec<ExtensionElement>>>>, OpeningProof))
    requires
        backend_parameters(*backend).wf(),
        prover_data_shape(*data).parameters == backend_parameters(*backend),
        backend_parameters(*backend).supports(prover_data_shape(*data).log_height),
        zeta.wf() && !zeta.in_base_field(),
        zeta_next.wf() && !zeta_next.in_base_field(),
    ensures
        opened_at_two_points(out.0@, prover_data_shape(*data).width),
        opening_proof_rounds(out.1) == folding_rounds(prover_data_shape(*data)),
        out.0@[0]@[0]@[0]@ == opened_values_at(*backend, *data, zeta.coeffs@, zeta_next.coeffs@).0,
        out.0@[0]@[0]@[1]@ == opened_values_at(*backend, *data, zeta.coeffs@, zeta_next.coeffs@).1,
{
    let ext = |e: &ExtensionElement| Ext::from_basis_coefficients_fn(|i| Val::new(e.coeffs[i]));
    let rounds = vec![(&data.tree, vec![vec![ext(zeta), ext(zeta_next)]])];
    let (values, argument) = backend.scheme.open(rounds, &mut challenger.sponge);
    let plain = |e: &Ext| {
        let c: &[Val] = e.as_basis_coefficients_slice();
        ExtensionElement { coeffs: from_fn(|i| c[i].as_canonical_u32()) }
    };
    (values.iter().map(|r| r.iter().map(|m| m.iter().map(|p| p.iter().map(plain).collect()).collect()).collect()).collect(), OpeningProof { argument })
}

/// The number of commitments in `FriProof::commit_phase_commits`.
#[verifier::external_body]
fn commit_phase_rounds(proof: &OpeningProof) -> (rounds: usize)
    ensures
        rounds == opening_proof_rounds(*proof),
{
    proof.argument.commit_phase_commits.len()
}

/// `Pcs::verify` of `TwoAdicFriPcs` on one commitment, one matrix and two
/// points with their claimed values. It panics where a point lies in the base
/// field, where the proof holds fewer rounds than the domain asks for, or
/// more than the field's two-adicity allows, and where the proof-of-work bits
/// do not fit a field element. Claimed: the verdict, and what the transcript
/// holds afterwards, depend on the arguments alone.
#[verifier::external_body]
fn verify_opening(
    backend: &Backend,
    commitment: &Digest,
    domain: &Domain,
    zeta: &ExtensionElement,
    trace_local: &Vec<ExtensionElement>,
    zeta_next: &ExtensionElement,
    trace_next: &Vec<ExtensionElement>,
    proof: &OpeningProof,
    challenger: &mut Challenger,
) -> (verdict: Result<(), p3_fri::verifier::FriError<p3_merkle_tree::MerkleTreeError, p3_merkle_tree::MerkleTreeError>>)
    requires
        domain.wf(),
        zeta.wf() && !zeta.in_base_field(),
        zeta_next.wf() && !zeta_next.in_base_field(),
        backend_parameters(*backend).wf(),
        backend_parameters(*backend).admits(opening_proof_rounds(*proof), domain.log_size as nat),
    ensures
        verdict == opening_verdict(*backend, claim_of(commitment, domain, zeta, trace_local@, zeta_next, trace_next@), *proof, transcript_contents(*old(challenger))).0,
        transcript_contents(*final(challenger)) == opening_verdict(*backend, claim_of(commitment, domain, zeta, trace_local@, zeta_next, trace_next@), *proof, transcript_contents(*old(challenger))).1,
{
    let ext = |e: &ExtensionElement| Ext::from_basis_coefficients_fn(|i| Val::new(e.coeffs[i]));
    let coset = Coset::new(Val::new(domain.shift), domain.log_size).unwrap();
    let root = p3_symmetric::Hash::from(commitment.words.map(Val::new));
    let local = (ext(zeta), trace_local.iter().map(ext).collect());
    let next = (ext(zeta_next), trace_next.iter().map(ext).collect());
    let rounds = vec![(root, vec![(coset, vec![local, next])])];
    backend.scheme.verify(rounds, &proof.argument, &mut challenger.sponge)
}

/// `bincode::serde::encode_to_vec` on the proof, with the standard
/// configuration set to little-endian, fixed-width integers. Claimed: whether
/// it succeeds, and the bytes it then gives, depend on the proof alone.
#[verifier::external_body]
fn encode_opening_proof(proof: &OpeningProof) -> (encoded: Result<
    Vec<u8>,
    bincode::error::EncodeError,
>)
    ensures
        encoded is Ok <==> opening_proof_bytes(*proof) is Some,
        encoded matches Ok(bytes) ==> opening_proof_bytes(*proof) == Some(bytes@),
{
    let config = bincode::config::standard().with_little_endian().with_fixed_int_encoding();
    bincode::serde::encode_to_vec(&proof.argument, config)
}

/// A FRI scheme ready for use: its parameters, and the backend built with them.
pub struct PcsConfig {
    parameters: FriParameters,
    backend: Backend,
}

impl PcsConfig {
    /// The parameters of the scheme.
    pub closed spec fn spec_parameters(&self) -> FriParameters {
        self.parameters
    }

    /// The parameters are well formed, and the backend was built with them.
    pub closed spec fn wf(&self) -> bool {
        self.parameters.wf() && backend_parameters(self.backend) == self.parameters
    }

    /// Builds the scheme with hash functions drawn from `seed`, or `None`
    /// where the parameters are not well formed. Two configurations with one
    /// seed and one set of parameters commit, open and verify alike, and so do
    /// the transcripts made from them.
    pub fn new(seed: u64, parameters: FriParameters) -> (config: Option<PcsConfig>)
        ensures
            config.is_some() <==> parameters.wf(),
            config.is_some() ==> config.unwrap().wf() && config.unwrap().spec_parameters()
                == parameters,
    {
        if !parameters.is_wf() {
            return None;
        }
        let backend = build_backend(seed, &parameters);
        Some(PcsConfig { parameters, backend })
    }

    /// The parameters of the scheme.
    #[verifier::when_used_as_spec(spec_parameters)]
    pub fn parameters(&self) -> (parameters: FriParameters)
        ensures
            parameters == self.spec_parameters(),
    {
        self.parameters
    }

    /// A transcript that has absorbed nothing, keyed as this configuration is.
    pub fn new_challenger(&self) -> (challenger: Challenger)
        ensures
            challenger@ == self.fresh_transcript(),
    {
        fresh_transcript(&self.backend)
    }

    /// The domain of a trace of `degree` rows: the unshifted subgroup of that order.
    pub fn natural_domain_for_degree(&self, degree: usize) -> (domain: Domain)
        requires
            is_power_of_two(degree as nat),
            log2_exact(degree as nat) <= TWO_ADICITY,
        ensures
            domain.log_size == log2_exact(degree as nat),
            domain.shift == 1,
            domain.wf(),
    {
        natural_domain(&self.backend, degree)
    }

    /// Commits to `trace`, whose rows are its values on `domain`. Returns the
    /// commitment, and the data that opening it later needs.
    pub fn commit(&self, domain: &Domain, trace: TraceMatrix) -> (out: (Digest, ProverData))
        requires
            self.wf(),
            trace.wf(),
            domain.wf(),
            pow2(domain.log_size as nat) == trace.spec_height(),
            domain.log_size + self.spec_parameters().log_blowup <= TWO_ADICITY,
        ensures
            out.0.wf(),
            prover_data_shape(out.1) == self.shape_of(domain, &trace),
            out.0.words@ == self.commitment_of(*domain, trace.values@, trace.width as nat),
            out.1 == self.prover_data_of(*domain, trace.values@, trace.width as nat),
    {
        commit_trace(&self.backend, domain, trace)
    }

    /// Opens the committed trace at `zeta` and `zeta_next`, absorbing the
    /// opened values into the transcript. Returns the values, nested by
    /// round, matrix and point, and the proof that they are the trace's.
    pub fn open(
        &self,
        data: &ProverData,
        zeta: &ExtensionElement,
        zeta_next: &ExtensionElement,
        challenger: &mut Challenger,
    ) -> (out: (Vec<Vec<Vec<Vec<ExtensionElement>>>>, OpeningProof))
        requires
            self.wf(),
            prover_data_shape(*data).parameters == self.spec_parameters(),
            self.spec_parameters().supports(prover_data_shape(*data).log_height),
            zeta.wf() && !zeta.in_base_field(),
            zeta_next.wf() && !zeta_next.in_base_field(),
        ensures
            opened_at_two_points(out.0@, prover_data_shape(*data).width),
            opening_proof_rounds(out.1) == folding_rounds(prover_data_shape(*data)),
            out.0@[0]@[0]@[0]@ == self.opened_values_of(*data, zeta.coeffs@, zeta_next.coeffs@).0,
            out.0@[0]@[0]@[1]@ == self.opened_values_of(*data, zeta.coeffs@, zeta_next.coeffs@).1,
    {
        open_trace(&self.backend, data, zeta, zeta_next, challenger)
    }

    /// Asks the scheme whether the claimed values are the committed trace's at the two points.
    pub fn verify(
        &self,
        commitment: &Digest,
        domain: &Domain,
        zeta: &ExtensionElement,
        trace_local: &Vec<ExtensionElement>,
        zeta_next: &ExtensionElement,
        trace_next: &Vec<ExtensionElement>,
        proof: &OpeningProof,
        challenger: &mut Challenger,
    ) -> (verdict: Result<(), p3_fri::verifier::FriError<p3_merkle_tree::MerkleTreeError, p3_merkle_tree::MerkleTreeError>>)
        requires
            self.wf(),
            domain.wf(),
            zeta.wf() && !zeta.in_base_field(),
            zeta_next.wf() && !zeta_next.in_base_field(),
            self.spec_parameters().admits(opening_proof_rounds(*proof), domain.log_size as nat),
        ensures
            verdict == self.verdict_of(
                claim_of(commitment, domain, zeta, trace_local@, zeta_next, trace_next@),
                *proof,
                old(challenger)@,
            ).0,
            final(challenger)@ == self.verdict_of(
                claim_of(commitment, domain, zeta, trace_local@, zeta_next, trace_next@),
                *proof,
                old(challenger)@,
            ).1,
    {
        verify_opening(
            &self.backend,
            commitment,
            domain,
            zeta,
            trace_local,
            zeta_next,
            trace_next,
            proof,
            challenger,
        )
    }
}

impl Domain {
    /// The successor of `zeta` on the domain: `zeta` times the generator of
    /// the subgroup.
    pub fn next_point(&self, zeta: &ExtensionElement) -> (next: Option<ExtensionElement>)
        requires
            self.wf(),
        ensures
            next.is_some(),
            next.unwrap().wf(),
            next.unwrap().coeffs@ == coset_successor(self.log_size as nat, self.shift, zeta.coeffs@),
    {
        coset_next_point(self, zeta)
    }
}

impl Challenger {
    /// Draws the next challenge from the transcript.
    pub fn sample(&mut self) -> (zeta: ExtensionElement)
        ensures
            zeta.wf(),
            zeta.coeffs@ == draw_outcome(old(self)@).0,
            final(self)@ == draw_outcome(old(self)@).1,
    {
        sample_element(self)
    }
}

impl OpeningProof {
    /// The number of folding rounds that the proof holds a commitment for.
    pub fn rounds(&self) -> (rounds: usize)
        ensures
            rounds == opening_proof_rounds(*self),
    {
        commit_phase_rounds(self)
    }

    /// The proof as bytes, all integers little-endian and of fixed width.
    pub fn to_bytes(&self) -> (encoded: Result<Vec<u8>, bincode::error::EncodeError>)
        ensures
            encoded is Ok <==> opening_proof_bytes(*self) is Some,
            encoded matches Ok(bytes) ==> opening_proof_bytes(*self) == Some(bytes@),
    {
        encode_opening_proof(self)
    }
}

/// What a transcript holds: the constants of its permutation, the state of
/// its sponge and its two buffers.
pub uninterp spec fn transcript_contents(challenger: Challenger) -> Seq<u32>;

/// What a draw from a transcript that holds `contents` gives: the
/// coefficients of the challenge, and what the transcript holds afterwards.
pub uninterp spec fn draw_outcome(contents: Seq<u32>) -> (Seq<u32>, Seq<u32>);

/// What a transcript made from `backend` holds before it is used.
pub uninterp spec fn fresh_contents(backend: Backend) -> Seq<u32>;

impl View for Challenger {
    type V = Seq<u32>;

    /// What the transcript holds. Two transcripts that hold the same draw
    /// the same challenges.
    open spec fn view(&self) -> Seq<u32> {
        transcript_contents(*self)
    }
}

/// What the scheme is asked to check: that the trace committed to has the
/// values `trace_local` at `zeta` and `trace_next` at `zeta_next`.
pub struct OpeningClaim {
    /// The words of the commitment.
    pub commitment: Seq<u32>,
    /// The domain of the trace.
    pub domain: Domain,
    /// The coefficients of the first point.
    pub zeta: Seq<u32>,
    /// The claimed values at the first point.
    pub trace_local: Seq<ExtensionElement>,
    /// The coefficients of the second point.
    pub zeta_next: Seq<u32>,
    /// The claimed values at the second point.
    pub trace_next: Seq<ExtensionElement>,
}

/// The claim that is made of these values.
pub open spec fn claim_of(
    commitment: &Digest,
    domain: &Domain,
    zeta: &ExtensionElement,
    trace_local: Seq<ExtensionElement>,
    zeta_next: &ExtensionElement,
    trace_next: Seq<ExtensionElement>,
) -> OpeningClaim {
    OpeningClaim {
        commitment: commitment.words@,
        domain: *domain,
        zeta: zeta.coeffs@,
        trace_local,
        zeta_next: zeta_next.coeffs@,
        trace_next,
    }
}

/// What committing to the trace of these values on `domain` gives: the
/// words of the commitment, and the prover data.
pub uninterp spec fn commit_outcome(backend: Backend, domain: Domain, values: Seq<u32>, width: nat) -> (Seq<u32>, ProverData);

/// The values of the trace committed in `data` at the points with
/// coefficients `zeta` and `zeta_next`, one for each column.
pub uninterp spec fn opened_values_at(backend: Backend, data: ProverData, zeta: Seq<u32>, zeta_next: Seq<u32>) -> (Seq<ExtensionElement>, Seq<ExtensionElement>);

/// What the scheme answers to `claim` with `proof`, given a transcript that
/// holds `transcript`, and what the transcript holds afterwards.
pub uninterp spec fn opening_verdict(backend: Backend, claim: OpeningClaim, proof: OpeningProof, transcript: Seq<u32>) -> (Result<(), p3_fri::verifier::FriError<p3_merkle_tree::MerkleTreeError, p3_merkle_tree::MerkleTreeError>>, Seq<u32>);

impl PcsConfig {
    /// What committing to `trace` on `domain` under this configuration starts
    /// from: the dimensions of the trace and the parameters of the scheme.
    pub open spec fn shape_of(&self, domain: &Domain, trace: &TraceMatrix) -> CommittedShape {
        CommittedShape {
            width: trace.width as nat,
            log_height: domain.log_size as nat,
            parameters: self.spec_parameters(),
        }
    }

    /// What a transcript made from this configuration holds before it is used.
    pub closed spec fn fresh_transcript(&self) -> Seq<u32> {
        fresh_contents(self.backend)
    }

    /// The words of the commitment to the trace of these values on `domain`.
    pub closed spec fn commitment_of(&self, domain: Domain, values: Seq<u32>, width: nat) -> Seq<u32> {
        commit_outcome(self.backend, domain, values, width).0
    }

    /// What the prover keeps of the trace of these values on `domain`.
    pub closed spec fn prover_data_of(&self, domain: Domain, values: Seq<u32>, width: nat) -> ProverData {
        commit_outcome(self.backend, domain, values, width).1
    }

    /// The values of the trace committed in `data` at two points.
    pub closed spec fn opened_values_of(&self, data: ProverData, zeta: Seq<u32>, zeta_next: Seq<u32>) -> (
        Seq<ExtensionElement>,
        Seq<ExtensionElement>,
    ) {
        opened_values_at(self.backend, data, zeta, zeta_next)
    }

    /// What the scheme answers to `claim` with `proof`, given a transcript
    /// that holds `transcript`, and what the transcript holds afterwards.
    pub closed spec fn verdict_of(&self, claim: OpeningClaim, proof: OpeningProof, transcript: Seq<u32>) -> (
        Result<(), p3_fri::verifier::FriError<p3_merkle_tree::MerkleTreeError, p3_merkle_tree::MerkleTreeError>>,
        Seq<u32>,
    ) {
        opening_verdict(self.backend, claim, proof, transcript)
    }
}

} // verus!
