use brainfuck_prover::air::{
    allocate_preprocessed, lookup_sum_valid, verify_brainfuck, BrainfuckClaim,
    BrainfuckComponents, BrainfuckInteractionClaim, BrainfuckInteractionElements,
    BrainfuckProof, MemoryInteractionClaim, PreprocessedColumn, ProverPhase, ProverSession,
    ProvingError, StarkProof, VerificationError,
};
use brainfuck_prover::components::{
    log_size_for_rows, Claim, MemoryClaim, MemoryColumn, TraceColumn, TraceError, LOG_MAX_ROWS,
};
use brainfuck_prover::transcript::{Commitment, SecureFelt, Transcript, M31_MODULUS};

fn root(tag: u8) -> Commitment {
    Commitment { bytes: [tag; 32] }
}

fn felt(v: u32) -> SecureFelt {
    SecureFelt { c0: v, c1: v + 1, c2: v + 2, c3: v + 3 }
}

fn reduced(f: SecureFelt) -> bool {
    f.c0 < M31_MODULUS && f.c1 < M31_MODULUS && f.c2 < M31_MODULUS && f.c3 < M31_MODULUS
}

/// Runs every phase of a proving run on a main trace of `n_rows` rows.
fn prove(n_rows: usize, main_root: Commitment, sum: SecureFelt) -> BrainfuckProof {
    let mut session = ProverSession::new(n_rows).unwrap();
    session.commit_preprocessed(root(1));
    session.commit_main(main_root);
    let _elements = session.draw_interaction_elements();
    session.commit_interaction(sum, root(3));
    session.finish(Ok(vec![7, 7, 7])).unwrap()
}

#[test]
fn log_sizes_repeat_log_size_per_main_column() {
    let claim: MemoryClaim = Claim::new(5);
    let sizes = claim.log_sizes();
    assert_eq!(MemoryColumn::count(), 8);
    assert_eq!(sizes.main, vec![5u32; 8]);
    assert!(sizes.preprocessed.is_empty());
    assert!(sizes.interaction.is_empty());
    let aggregate = BrainfuckClaim { memory: Claim::new(3) };
    assert_eq!(aggregate.log_sizes().main, vec![3u32; 8]);
}

#[test]
fn log_size_is_ceil_log2_of_rows() {
    assert_eq!(log_size_for_rows(1), Ok(0));
    assert_eq!(log_size_for_rows(2), Ok(1));
    assert_eq!(log_size_for_rows(3), Ok(2));
    assert_eq!(log_size_for_rows(4), Ok(2));
    assert_eq!(log_size_for_rows(5), Ok(3));
    assert_eq!(log_size_for_rows(1 << 20), Ok(LOG_MAX_ROWS));
}

#[test]
fn empty_trace_is_refused() {
    assert_eq!(log_size_for_rows(0), Err(TraceError::EmptyTrace));
}

#[test]
fn trace_over_the_row_bound_is_refused() {
    assert_eq!(log_size_for_rows((1 << 20) + 1), Err(TraceError::TooManyRows));
    assert_eq!(log_size_for_rows(usize::MAX), Err(TraceError::TooManyRows));
    assert!(matches!(ProverSession::new(1 << 21), Err(TraceError::TooManyRows)));
    assert!(matches!(ProverSession::new((1 << 20) + 1), Err(TraceError::TooManyRows)));
}

#[test]
fn empty_trace_is_refused_before_the_transcript_exists() {
    assert!(matches!(ProverSession::new(0), Err(TraceError::EmptyTrace)));
    let session = ProverSession::new(1).unwrap();
    assert_eq!(session.current_phase(), ProverPhase::CommitPreprocessed);
}

#[test]
fn session_walks_the_phases_in_order() {
    let mut session = ProverSession::new(2).unwrap();
    assert_eq!(session.max_domain_log_size(), 23);
    assert_eq!(session.current_phase(), ProverPhase::CommitPreprocessed);
    session.commit_preprocessed(root(1));
    assert_eq!(session.current_phase(), ProverPhase::CommitMain);
    session.commit_main(root(2));
    assert_eq!(session.current_phase(), ProverPhase::DrawInteractionElements);
    let elements = session.draw_interaction_elements();
    assert!(reduced(elements.memory_lookup_elements.z));
    assert!(reduced(elements.memory_lookup_elements.alpha));
    assert_ne!(elements.memory_lookup_elements.z, elements.memory_lookup_elements.alpha);
    assert_eq!(session.current_phase(), ProverPhase::CommitInteraction);
    session.commit_interaction(felt(10), root(3));
    assert_eq!(session.current_phase(), ProverPhase::BackendProve);
    let components = session.components();
    assert_eq!(components.memory.log_size, 1);
    assert_eq!(components.memory.claimed_sum, felt(10));
    assert_eq!(components.memory.lookup_elements, elements.memory_lookup_elements);
    assert_eq!(components.memory.is_first_index, 0);
    assert_eq!(components.preprocessed_columns, vec![PreprocessedColumn::IsFirst(1)]);
}

#[test]
fn two_step_trace_has_log_size_one() {
    let proof = prove(2, root(2), felt(10));
    assert_eq!(proof.claim.memory.log_size, 1);
    assert_eq!(proof.proof.commitments, vec![root(1), root(2), root(3)]);
    assert_eq!(proof.proof.bytes, vec![7, 7, 7]);
    assert_eq!(proof.interaction_claim.memory.claimed_sum, felt(10));
}

#[test]
fn backend_failure_is_returned_unchanged() {
    let mut session = ProverSession::new(2).unwrap();
    session.commit_preprocessed(root(1));
    session.commit_main(root(2));
    let _ = session.draw_interaction_elements();
    session.commit_interaction(felt(10), root(3));
    assert!(matches!(
        session.finish(Err(ProvingError::ConstraintsNotSatisfied)),
        Err(ProvingError::ConstraintsNotSatisfied)
    ));
}

#[test]
fn verifier_fails_closed_on_the_lookup_check() {
    let proof = prove(2, root(2), felt(10));
    assert!(matches!(verify_brainfuck(proof), Err(VerificationError::InvalidLookup)));
}

#[test]
fn altered_claimed_sum_is_rejected() {
    let mut proof = prove(2, root(2), felt(10));
    proof.interaction_claim.memory.claimed_sum.c0 ^= 1;
    assert!(matches!(verify_brainfuck(proof), Err(VerificationError::InvalidLookup)));
}

#[test]
fn proof_of_altered_trace_against_first_claim_is_rejected() {
    let first = prove(2, root(2), felt(10));
    let altered = prove(2, root(9), felt(10));
    let mixed = BrainfuckProof {
        claim: first.claim,
        interaction_claim: altered.interaction_claim,
        proof: altered.proof,
    };
    assert!(verify_brainfuck(mixed).is_err());
}

#[test]
fn proof_missing_a_commitment_is_malformed() {
    let mut proof = prove(2, root(2), felt(10));
    proof.proof.commitments.pop();
    assert!(matches!(verify_brainfuck(proof), Err(VerificationError::InvalidStructure)));
    let empty = BrainfuckProof {
        claim: BrainfuckClaim { memory: Claim::new(1) },
        interaction_claim: BrainfuckInteractionClaim {
            memory: MemoryInteractionClaim { claimed_sum: felt(0) },
        },
        proof: StarkProof { commitments: vec![], bytes: vec![] },
    };
    assert!(matches!(verify_brainfuck(empty), Err(VerificationError::InvalidStructure)));
}

#[test]
fn lookup_sum_check_rejects() {
    let claim = BrainfuckClaim { memory: Claim::new(1) };
    let mut channel = Transcript::new();
    let elements = BrainfuckInteractionElements::draw(&mut channel);
    let interaction_claim =
        BrainfuckInteractionClaim { memory: MemoryInteractionClaim { claimed_sum: felt(4) } };
    assert!(!lookup_sum_valid(&claim, &elements, &interaction_claim));
}

#[test]
fn binding_order_changes_the_drawn_elements() {
    let a = BrainfuckClaim { memory: Claim::new(3) };
    let b = BrainfuckClaim { memory: Claim::new(4) };
    let mut first = Transcript::new();
    a.mix_into(&mut first);
    b.mix_into(&mut first);
    let mut second = Transcript::new();
    b.mix_into(&mut second);
    a.mix_into(&mut second);
    assert_ne!(
        BrainfuckInteractionElements::draw(&mut first),
        BrainfuckInteractionElements::draw(&mut second)
    );
}

#[test]
fn transcript_is_deterministic() {
    let mut x = Transcript::new();
    let mut y = Transcript::new();
    for t in [&mut x, &mut y] {
        t.mix_u64(5);
        t.mix_felt(felt(6));
        t.mix_root(root(7));
    }
    assert_eq!(x.draw_felts(1), y.draw_felts(1));
    let mut z = Transcript::new();
    z.mix_u64(6);
    z.mix_felt(felt(6));
    z.mix_root(root(7));
    let mut w = Transcript::new();
    w.mix_u64(5);
    w.mix_felt(felt(6));
    w.mix_root(root(8));
    let fresh = Transcript::new().draw_felts(1);
    let drawn_z = z.draw_felts(1);
    let drawn_w = w.draw_felts(1);
    assert_ne!(drawn_z, fresh);
    assert_ne!(drawn_w, fresh);
    assert_ne!(drawn_z, drawn_w);
}

#[test]
fn interaction_claim_binding_changes_the_transcript() {
    let mut x = Transcript::new();
    let mut y = Transcript::new();
    BrainfuckInteractionClaim { memory: MemoryInteractionClaim { claimed_sum: felt(1) } }
        .mix_into(&mut x);
    BrainfuckInteractionClaim { memory: MemoryInteractionClaim { claimed_sum: felt(2) } }
        .mix_into(&mut y);
    assert_ne!(x.draw_felts(1), y.draw_felts(1));
}

#[test]
fn components_share_preprocessed_columns() {
    let mut table = vec![];
    assert_eq!(allocate_preprocessed(&mut table, PreprocessedColumn::IsFirst(4)), 0);
    assert_eq!(allocate_preprocessed(&mut table, PreprocessedColumn::IsFirst(5)), 1);
    assert_eq!(allocate_preprocessed(&mut table, PreprocessedColumn::IsFirst(4)), 0);
    assert_eq!(table, vec![PreprocessedColumn::IsFirst(4), PreprocessedColumn::IsFirst(5)]);

    let claim = BrainfuckClaim { memory: Claim::new(6) };
    let mut channel = Transcript::new();
    let elements = BrainfuckInteractionElements::draw(&mut channel);
    let interaction_claim =
        BrainfuckInteractionClaim { memory: MemoryInteractionClaim { claimed_sum: felt(4) } };
    let components = BrainfuckComponents::new(&claim, &elements, &interaction_claim);
    assert_eq!(components.preprocessed_columns, vec![PreprocessedColumn::IsFirst(6)]);
    assert_eq!(components.memory.is_first_index, 0);
    assert_eq!(components.memory.log_size, 6);
    assert_eq!(components.provers(), vec![components.memory]);
    assert_eq!(components.components(), vec![components.memory]);
}

#[test]
fn claim_over_the_row_bound_is_malformed() {
    let mut proof = prove(2, root(2), felt(10));
    proof.claim.memory.log_size = LOG_MAX_ROWS + 1;
    assert!(matches!(verify_brainfuck(proof), Err(VerificationError::InvalidStructure)));
}

#[test]
fn scheme_commit_binds_the_root() {
    let mut plain = Transcript::new();
    plain.mix_root(root(5));
    let mut session = Transcript::new();
    let mut scheme = Transcript::new_scheme_verifier();
    session.commit_root(&mut scheme, root(5), &vec![3, 3]);
    assert_eq!(plain.draw_felts(1), session.draw_felts(1));
}

#[test]
fn equal_runs_give_equal_elements_and_proofs() {
    let run = || {
        let mut session = ProverSession::new(2).unwrap();
        session.commit_preprocessed(root(1));
        session.commit_main(root(2));
        let elements = session.draw_interaction_elements();
        session.commit_interaction(felt(10), root(3));
        (elements, session.finish(Ok(vec![1, 2])).unwrap())
    };
    let (e1, p1) = run();
    let (e2, p2) = run();
    assert_eq!(e1, e2);
    assert_eq!(p1.claim.memory.log_size, p2.claim.memory.log_size);
    assert_eq!(p1.interaction_claim, p2.interaction_claim);
    assert_eq!(p1.proof.commitments, p2.proof.commitments);
    assert_eq!(p1.proof.bytes, p2.proof.bytes);
}

#[test]
fn elements_depend_on_the_bound_claim() {
    let draw_for = |n_rows: usize| {
        let mut session = ProverSession::new(n_rows).unwrap();
        session.commit_preprocessed(root(1));
        session.commit_main(root(2));
        session.draw_interaction_elements()
    };
    assert_ne!(draw_for(2), draw_for(4));
}

#[test]
fn backend_channel_is_the_session_state() {
    let mut session = ProverSession::new(2).unwrap();
    session.commit_preprocessed(root(1));
    session.commit_main(root(2));
    let _ = session.draw_interaction_elements();
    session.commit_interaction(felt(10), root(3));
    let a = session.backend_channel();
    let b = session.backend_channel();
    assert_eq!(format!("{:?}", a), format!("{:?}", b));
    assert_ne!(format!("{:?}", a), format!("{:?}", Transcript::new().into_channel()));
}
