use p3_field::{PrimeCharacteristicRing, PrimeField32};
use p3_fri::verifier::FriError;
use p3_koala_bear::KoalaBear;
use p3_merkle_tree::MerkleTreeError;
use plonky3_pcs::encoding::{
    push_u32_le, push_u64_le, push_vector, push_words, to_montgomery_form,
};
use plonky3_pcs::field::{
    all_wf, Digest, ExtensionElement, DIGEST_ELEMS, EXTENSION_DEGREE, KOALA_BEAR_PRIME,
    TWO_ADICITY,
};
use plonky3_pcs::pcs::{Domain, FriParameters, PcsConfig, MAX_PROOF_OF_WORK_BITS};
use plonky3_pcs::trace::{is_power_of_two_usize, TraceMatrix};
use plonky3_pcs::utilities::{
    assemble_proof, can_prove, check_opening, conclude, degree_bits_of, encode_proof, frame_proof,
    is_shape_admitted, open_and_assemble, opening_points_usable, prove_random_trace,
    CommitmentsWithoutQuotient, OpenedValues, Proof, ProverError, VerificationError,
};

fn parameters() -> FriParameters {
    FriParameters { log_blowup: 1, log_final_poly_len: 0, num_queries: 6, proof_of_work_bits: 2 }
}

fn counting_trace(rows: usize, columns: usize) -> TraceMatrix {
    let values = (0..rows * columns).map(|i| (i * i + 1) as u32).collect();
    TraceMatrix::new(values, columns).expect("a well-formed trace")
}

fn small_proof(seed: u64) -> (PcsConfig, Proof) {
    let config = PcsConfig::new(seed, parameters()).expect("a configuration");
    let mut challenger = config.new_challenger();
    let proof = prove_random_trace(&config, &mut challenger, counting_trace(8, 2)).expect("a proof");
    (config, proof)
}

#[test]
fn constants_are_those_of_the_field() {
    assert_eq!(KOALA_BEAR_PRIME, (1u32 << 31) - (1 << 24) + 1);
    assert_eq!(KOALA_BEAR_PRIME, KoalaBear::ORDER_U32);
    assert_eq!(TWO_ADICITY, 24);
    assert_eq!((KOALA_BEAR_PRIME - 1) % (1 << 24), 0);
    assert_ne!((KOALA_BEAR_PRIME - 1) % (1 << 25), 0);
    assert_eq!(EXTENSION_DEGREE, 4);
    assert_eq!(DIGEST_ELEMS, 8);
    assert_eq!(MAX_PROOF_OF_WORK_BITS, 24);
}

#[test]
fn an_element_is_in_the_base_field_when_its_higher_coefficients_vanish() {
    assert!(ExtensionElement { coeffs: [0, 0, 0, 0] }.is_in_base_field());
    assert!(ExtensionElement { coeffs: [9, 0, 0, 0] }.is_in_base_field());
    assert!(!ExtensionElement { coeffs: [9, 1, 0, 0] }.is_in_base_field());
    assert!(!ExtensionElement { coeffs: [9, 0, 1, 0] }.is_in_base_field());
    assert!(!ExtensionElement { coeffs: [0, 0, 0, 1] }.is_in_base_field());
}

#[test]
fn canonical_values_are_those_below_the_prime() {
    let top = KOALA_BEAR_PRIME - 1;
    assert!(ExtensionElement { coeffs: [0, top, 1, top] }.is_wf());
    assert!(!ExtensionElement { coeffs: [KOALA_BEAR_PRIME, 0, 0, 0] }.is_wf());
    assert!(!ExtensionElement { coeffs: [0, 0, 0, u32::MAX] }.is_wf());
    assert!(Digest { words: [top; 8] }.is_wf());
    assert!(!Digest { words: [0, 0, 0, 0, 0, 0, 0, KOALA_BEAR_PRIME] }.is_wf());
    assert!(all_wf(&vec![]));
    assert!(all_wf(&vec![ExtensionElement { coeffs: [1, 2, 3, 4] }]));
    assert!(!all_wf(&vec![
        ExtensionElement { coeffs: [1, 2, 3, 4] },
        ExtensionElement { coeffs: [1, 2, KOALA_BEAR_PRIME, 4] },
    ]));
}

#[test]
fn a_trace_needs_whole_rows_of_canonical_values() {
    let m = TraceMatrix::new(vec![1, 2, 3, 4, 5, 6], 3).expect("two rows of three");
    assert_eq!(m.height(), 2);
    assert_eq!(m.width(), 3);
    assert_eq!(m.values, vec![1, 2, 3, 4, 5, 6]);
    assert!(m.is_wf());
    assert_eq!(TraceMatrix::new(vec![1, 2, 3, 4, 5], 3), None);
    assert_eq!(TraceMatrix::new(vec![1, 2, 3], 0), None);
    assert_eq!(TraceMatrix::new(vec![], 0), None);
    assert_eq!(TraceMatrix::new(vec![1, KOALA_BEAR_PRIME], 1), None);
    assert_eq!(TraceMatrix::new(vec![1, KOALA_BEAR_PRIME - 1], 1).map(|m| m.height()), Some(2));
    // No rows at all: well formed, of height zero.
    let empty = TraceMatrix::new(vec![], 4).expect("no rows");
    assert_eq!(empty.height(), 0);
    // Without columns a matrix has no rows either.
    assert_eq!(TraceMatrix { values: vec![1, 2], width: 0 }.height(), 0);
    assert!(!TraceMatrix { values: vec![1, 2], width: 0 }.is_wf());
}

#[test]
fn powers_of_two_are_recognised() {
    assert!(!is_power_of_two_usize(0));
    assert!(is_power_of_two_usize(1));
    assert!(is_power_of_two_usize(2));
    assert!(!is_power_of_two_usize(3));
    assert!(is_power_of_two_usize(1 << 19));
    assert!(!is_power_of_two_usize((1 << 19) + 1));
    assert!(!is_power_of_two_usize((1 << 19) - 1));
    assert!(is_power_of_two_usize(1 << (usize::BITS - 1)));
    assert!(!is_power_of_two_usize(usize::MAX));
    assert!(!is_power_of_two_usize((1 << (usize::BITS - 1)) + 1));
    for n in 0..5000usize {
        assert_eq!(is_power_of_two_usize(n), n.is_power_of_two());
    }
}

#[test]
fn degree_bits_of_a_power_of_two_is_its_exponent() {
    assert_eq!(degree_bits_of(1), 0);
    assert_eq!(degree_bits_of(2), 1);
    assert_eq!(degree_bits_of(1 << 13), 13);
    assert_eq!(degree_bits_of(1 << 19), 19);
    for k in 0..usize::BITS as usize {
        assert_eq!(degree_bits_of(1 << k), k);
    }
}

#[test]
fn parameters_support_heights_within_the_two_adicity() {
    let p = FriParameters { log_blowup: 1, log_final_poly_len: 0, num_queries: 256, proof_of_work_bits: 16 };
    assert!(p.can_support(0));
    assert!(p.can_support(13));
    assert!(p.can_support(23));
    assert!(!p.can_support(24));
    assert!(!p.can_support(usize::MAX));
    let q = FriParameters { log_blowup: 3, log_final_poly_len: 2, num_queries: 1, proof_of_work_bits: 0 };
    assert!(!q.can_support(0));
    assert!(!q.can_support(2));
    assert!(q.can_support(3));
    assert!(q.can_support(21));
    assert!(!q.can_support(22));
    let r = FriParameters { log_blowup: 25, log_final_poly_len: 0, num_queries: 1, proof_of_work_bits: 0 };
    assert!(!r.can_support(0));
}

#[test]
fn a_trace_can_be_proved_when_its_height_is_a_supported_power_of_two() {
    let config = PcsConfig::new(1, parameters()).expect("a configuration");
    assert!(can_prove(&config, &counting_trace(1, 1)));
    assert!(can_prove(&config, &counting_trace(8, 3)));
    assert!(can_prove(&config, &counting_trace(1024, 1)));
    assert!(!can_prove(&config, &counting_trace(0, 3)));
    assert!(!can_prove(&config, &counting_trace(6, 3)));
    assert!(!can_prove(&config, &counting_trace(9, 1)));
    assert!(!can_prove(&config, &TraceMatrix { values: vec![1, 2, 3], width: 2 }));
    assert!(!can_prove(&config, &TraceMatrix { values: vec![1, 2], width: 0 }));
    assert!(!can_prove(&config, &TraceMatrix { values: vec![1, u32::MAX], width: 1 }));

    // With a final polynomial of two coefficients a trace needs four rows or more.
    let longer = FriParameters { log_blowup: 1, log_final_poly_len: 1, num_queries: 6, proof_of_work_bits: 2 };
    let config = PcsConfig::new(1, longer).expect("a configuration");
    assert!(!can_prove(&config, &counting_trace(1, 1)));
    assert!(!can_prove(&config, &counting_trace(2, 1)));
    assert!(can_prove(&config, &counting_trace(4, 1)));

    // A blowup that fills the two-adicity leaves room for a single row.
    let wide = FriParameters { log_blowup: 24, log_final_poly_len: 0, num_queries: 6, proof_of_work_bits: 2 };
    let config = PcsConfig::new(1, wide).expect("a configuration");
    assert!(can_prove(&config, &counting_trace(1, 1)));
    assert!(!can_prove(&config, &counting_trace(2, 1)));
}

#[test]
fn a_configuration_needs_a_proof_of_work_within_bounds() {
    let mut p = parameters();
    p.proof_of_work_bits = 24;
    assert!(p.is_wf());
    assert!(PcsConfig::new(1, p).is_some());
    assert_eq!(PcsConfig::new(1, p).map(|c| c.parameters()), Some(p));
    p.proof_of_work_bits = 25;
    assert!(!p.is_wf());
    assert!(PcsConfig::new(1, p).is_none());
}

#[test]
fn the_montgomery_form_is_the_value_times_two_to_the_32() {
    assert_eq!(to_montgomery_form(0), 0);
    assert_eq!(to_montgomery_form(1), 33554430);
    assert_eq!(to_montgomery_form(2), 67108860);
    assert_eq!(to_montgomery_form(KOALA_BEAR_PRIME - 1), KOALA_BEAR_PRIME - 33554430);
    for x in [0u32, 1, 2, 3, 1000, 0x7f000000, KOALA_BEAR_PRIME - 1] {
        let expected = ((x as u64) << 32) % (KOALA_BEAR_PRIME as u64);
        assert_eq!(to_montgomery_form(x) as u64, expected);
        // It is what the field writes for the element.
        let encoding = bincode::config::standard().with_little_endian().with_fixed_int_encoding();
        let written = bincode::serde::encode_to_vec(KoalaBear::new(x), encoding).expect("bytes");
        assert_eq!(written, to_montgomery_form(x).to_le_bytes().to_vec());
    }
}

#[test]
fn integers_are_written_least_significant_byte_first() {
    let mut out = vec![0xaa];
    push_u32_le(&mut out, 0x01020304);
    assert_eq!(out, vec![0xaa, 4, 3, 2, 1]);
    push_u32_le(&mut out, u32::MAX);
    assert_eq!(out, vec![0xaa, 4, 3, 2, 1, 255, 255, 255, 255]);

    let mut out = Vec::new();
    push_u64_le(&mut out, 0x0102030405060708);
    assert_eq!(out, vec![8, 7, 6, 5, 4, 3, 2, 1]);
    push_u64_le(&mut out, 13);
    assert_eq!(&out[8..], &[13, 0, 0, 0, 0, 0, 0, 0]);
    let mut out = Vec::new();
    push_u64_le(&mut out, u64::MAX);
    assert_eq!(out, vec![255; 8]);
}

#[test]
fn words_and_vectors_are_written_in_order() {
    let mut out = vec![9];
    push_words(&mut out, &[0, 1, 2]);
    let mut expected = vec![9];
    expected.extend_from_slice(&0u32.to_le_bytes());
    expected.extend_from_slice(&33554430u32.to_le_bytes());
    expected.extend_from_slice(&67108860u32.to_le_bytes());
    assert_eq!(out, expected);

    let mut out = Vec::new();
    push_words(&mut out, &[]);
    assert!(out.is_empty());

    let mut out = Vec::new();
    push_vector(&mut out, &vec![]);
    assert_eq!(out, vec![0; 8]);

    let mut out = vec![7];
    let elements = vec![
        ExtensionElement { coeffs: [1, 0, 0, 0] },
        ExtensionElement { coeffs: [0, 0, 0, 2] },
    ];
    push_vector(&mut out, &elements);
    let mut expected = vec![7, 2, 0, 0, 0, 0, 0, 0, 0];
    for word in [33554430u32, 0, 0, 0, 0, 0, 0, 67108860] {
        expected.extend_from_slice(&word.to_le_bytes());
    }
    assert_eq!(out, expected);
    assert_eq!(out.len(), 1 + 8 + 2 * 16);
}

#[test]
fn a_proof_is_framed_around_its_opening_proof() {
    let (_, mut proof) = small_proof(3);
    proof.commitments.trace = Digest { words: [1, 0, 0, 0, 0, 0, 0, 2] };
    proof.opened_values.trace_local = vec![ExtensionElement { coeffs: [1, 0, 0, 0] }];
    proof.opened_values.trace_next = vec![];
    proof.degree_bits = 19;
    let bytes = frame_proof(&proof, &vec![0xde, 0xad]);

    let mut expected = Vec::new();
    for word in [33554430u32, 0, 0, 0, 0, 0, 0, 67108860] {
        expected.extend_from_slice(&word.to_le_bytes());
    }
    expected.extend_from_slice(&1u64.to_le_bytes());
    for word in [33554430u32, 0, 0, 0] {
        expected.extend_from_slice(&word.to_le_bytes());
    }
    expected.extend_from_slice(&0u64.to_le_bytes());
    expected.extend_from_slice(&[0xde, 0xad]);
    expected.extend_from_slice(&19u64.to_le_bytes());
    assert_eq!(bytes, expected);
    assert_eq!(bytes.len(), 56 + 16 + 2);

    // The whole encoding is the frame around the encoded opening proof.
    let opening_proof = proof.opening_proof.to_bytes().expect("bytes");
    assert_eq!(encode_proof(&proof).expect("bytes"), frame_proof(&proof, &opening_proof));
    assert_eq!(frame_proof(&proof, &vec![]).len(), 56 + 16);
}

#[test]
fn a_proof_is_assembled_from_the_first_matrix_of_the_first_round() {
    let (_, donor) = small_proof(4);
    let a = ExtensionElement { coeffs: [1, 2, 3, 4] };
    let b = ExtensionElement { coeffs: [5, 6, 7, 8] };
    let c = ExtensionElement { coeffs: [9, 9, 9, 9] };
    let commitment = Digest { words: [8, 7, 6, 5, 4, 3, 2, 1] };
    let rounds = donor.opening_proof.rounds();
    let bytes = donor.opening_proof.to_bytes().expect("bytes");
    let opened = vec![
        vec![vec![vec![a, b], vec![b, c], vec![c, c]], vec![vec![c], vec![c]]],
        vec![vec![vec![c], vec![c]]],
    ];
    let proof = assemble_proof(commitment, opened, donor.opening_proof, 1 << 19);
    assert_eq!(proof.commitments.trace, commitment);
    assert_eq!(proof.opened_values.trace_local, vec![a, b]);
    assert_eq!(proof.opened_values.trace_next, vec![b, c]);
    assert_eq!(proof.degree_bits, 19);
    assert_eq!(proof.opening_proof.rounds(), rounds);
    assert_eq!(proof.opening_proof.to_bytes().expect("bytes"), bytes);
}

#[test]
fn the_model_holds_what_it_is_given() {
    let commitments = CommitmentsWithoutQuotient { trace: 7u8 };
    assert_eq!(commitments.trace, 7);
    let opened = OpenedValues { trace_local: vec![1u8, 2], trace_next: vec![3u8, 4] };
    assert_eq!(opened.trace_local, vec![1, 2]);
    assert_eq!(opened.trace_next, vec![3, 4]);
    assert_eq!(format!("{:?}", commitments), "CommitmentsWithoutQuotient { trace: 7 }");
    assert_eq!(
        format!("{:?}", opened),
        "OpenedValues { trace_local: [1, 2], trace_next: [3, 4] }"
    );
}

#[test]
fn points_are_usable_outside_the_base_field() {
    let inside = ExtensionElement { coeffs: [5, 0, 0, 0] };
    let outside = ExtensionElement { coeffs: [5, 0, 1, 0] };
    assert!(opening_points_usable(&outside, &outside));
    assert!(!opening_points_usable(&inside, &outside));
    assert!(!opening_points_usable(&outside, &inside));
    assert!(!opening_points_usable(&inside, &inside));
}

#[test]
fn the_outcome_of_the_scheme_is_passed_on() {
    let none: Result<(), FriError<MerkleTreeError, MerkleTreeError>> = Ok(());
    assert!(matches!(conclude(none), Ok(())));
    assert!(matches!(
        conclude(Err(FriError::FinalPolyMismatch)),
        Err(VerificationError::InvalidOpeningArgument(FriError::FinalPolyMismatch))
    ));
    assert!(matches!(
        conclude(Err(FriError::InvalidPowWitness)),
        Err(VerificationError::InvalidOpeningArgument(FriError::InvalidPowWitness))
    ));
    assert!(matches!(
        conclude(Err(FriError::InvalidProofShape)),
        Err(VerificationError::InvalidOpeningArgument(FriError::InvalidProofShape))
    ));
    assert!(matches!(
        conclude(Err(FriError::InputError(MerkleTreeError::RootMismatch))),
        Err(VerificationError::InvalidOpeningArgument(FriError::InputError(
            MerkleTreeError::RootMismatch
        )))
    ));
}

#[test]
fn a_point_in_the_base_field_is_refused_by_the_prover() {
    let config = PcsConfig::new(5, parameters()).expect("a configuration");
    let domain = config.natural_domain_for_degree(8);
    let inside = ExtensionElement { coeffs: [5, 0, 0, 0] };
    let outside = ExtensionElement { coeffs: [5, 6, 0, 0] };
    for (zeta, zeta_next) in [(inside, outside), (outside, inside), (inside, inside)] {
        let (commitment, data) = config.commit(&domain, counting_trace(8, 2));
        let mut challenger = config.new_challenger();
        let result =
            open_and_assemble(&config, &mut challenger, commitment, &data, &zeta, &zeta_next, 8);
        assert!(matches!(result, Err(ProverError::OpeningPointInBaseField)));
        // Nothing was opened: the transcript is as it was.
        assert_eq!(challenger.sample(), config.new_challenger().sample());
    }
    let (commitment, data) = config.commit(&domain, counting_trace(8, 2));
    let mut challenger = config.new_challenger();
    let next = domain.next_point(&outside).expect("a successor");
    let proof = open_and_assemble(&config, &mut challenger, commitment, &data, &outside, &next, 8)
        .expect("a proof");
    assert_eq!(proof.commitments.trace, commitment);
    assert_eq!(proof.degree_bits, 3);
    assert_eq!(proof.opened_values.trace_local.len(), 2);
    assert_eq!(proof.opened_values.trace_next.len(), 2);
    assert!(is_shape_admitted(&config, &proof));

    let mut verifier = config.new_challenger();
    assert!(check_opening(&config, &mut verifier, &proof, &domain, &outside, &next).is_ok());
    let mut verifier = config.new_challenger();
    let other = ExtensionElement { coeffs: [5, 7, 0, 0] };
    assert!(matches!(
        check_opening(&config, &mut verifier, &proof, &domain, &other, &next),
        Err(VerificationError::InvalidOpeningArgument(_))
    ));
}

#[test]
fn a_point_in_the_base_field_is_refused_by_the_verifier() {
    let (config, proof) = small_proof(6);
    let domain = Domain { log_size: 3, shift: 1 };
    let inside = ExtensionElement { coeffs: [5, 0, 0, 0] };
    let outside = ExtensionElement { coeffs: [5, 6, 0, 0] };
    for (zeta, zeta_next) in [(inside, outside), (outside, inside), (inside, inside)] {
        let mut challenger = config.new_challenger();
        let result = check_opening(&config, &mut challenger, &proof, &domain, &zeta, &zeta_next);
        assert!(matches!(result, Err(VerificationError::OpeningPointInBaseField)));
        // The scheme was not asked: the transcript is as it was.
        assert_eq!(challenger.sample(), config.new_challenger().sample());
    }
}

#[test]
fn the_shape_of_a_proof_is_checked_against_its_rounds() {
    let (config, mut proof) = small_proof(7);
    assert_eq!(proof.opening_proof.rounds(), 3);
    for degree_bits in 0..=3 {
        proof.degree_bits = degree_bits;
        assert!(is_shape_admitted(&config, &proof));
    }
    proof.opened_values.trace_local[0].coeffs[3] = KOALA_BEAR_PRIME;
    assert!(!is_shape_admitted(&config, &proof));
    proof.opened_values.trace_local[0].coeffs[3] = KOALA_BEAR_PRIME - 1;
    assert!(is_shape_admitted(&config, &proof));
    proof.commitments.trace.words[0] = u32::MAX;
    assert!(!is_shape_admitted(&config, &proof));
    proof.commitments.trace.words[0] = 0;
    proof.opened_values.trace_next.push(ExtensionElement { coeffs: [0, 0, KOALA_BEAR_PRIME, 0] });
    assert!(!is_shape_admitted(&config, &proof));
    proof.opened_values.trace_next.pop();
    assert!(is_shape_admitted(&config, &proof));
    for degree_bits in [4, 24, 25, usize::MAX] {
        proof.degree_bits = degree_bits;
        assert!(!is_shape_admitted(&config, &proof));
    }
    // A scheme with a larger final polynomial reads more rows into the rounds.
    let longer = FriParameters { log_blowup: 1, log_final_poly_len: 2, num_queries: 6, proof_of_work_bits: 2 };
    let other = PcsConfig::new(7, longer).expect("a configuration");
    proof.degree_bits = 5;
    assert!(is_shape_admitted(&other, &proof));
    proof.degree_bits = 6;
    assert!(!is_shape_admitted(&other, &proof));
    // A scheme whose blowup leaves no room for the rounds admits nothing.
    let wide = FriParameters { log_blowup: 22, log_final_poly_len: 0, num_queries: 6, proof_of_work_bits: 2 };
    let other = PcsConfig::new(7, wide).expect("a configuration");
    proof.degree_bits = 3;
    assert!(!is_shape_admitted(&other, &proof));
    let wide = FriParameters { log_blowup: 21, log_final_poly_len: 0, num_queries: 6, proof_of_work_bits: 2 };
    let other = PcsConfig::new(7, wide).expect("a configuration");
    assert!(is_shape_admitted(&other, &proof));
}

#[test]
fn values_outside_the_trace_are_not_needed_for_the_size() {
    let zero = KoalaBear::ZERO.as_canonical_u32();
    assert_eq!(zero, 0);
    let (_, proof) = small_proof(8);
    let opening_proof = proof.opening_proof.to_bytes().expect("bytes");
    assert_eq!(encode_proof(&proof).expect("bytes").len(), 56 + 32 + 32 + opening_proof.len());
}
