//! The Brainfuck proof: aggregate claims over all components, the component
//! registry, and the phase machines that drive proving and verification.

use vstd::prelude::*;
use crate::components::{Claim, MemoryClaim, MemoryColumn, TraceColumn, TreeLogSizes, TraceError, LOG_MAX_ROWS, log_size_for_rows, log_size_spec};
use crate::transcript::{drawn_felts, registered_trees, Commitment, SchemeVerifier, SecureFelt, Transcript, TranscriptOp};

verus! {

/// All the claims of the main-trace phase, one per component.
pub struct BrainfuckClaim {
    pub memory: MemoryClaim,
}

impl BrainfuckClaim {
    /// What binding the claim appends to a transcript, component by component
    /// in protocol order.
    pub open spec fn bound_ops(&self) -> Seq<TranscriptOp> {
        seq![TranscriptOp::MixU64(self.memory.log_size as u64)]
    }

    /// Binds every component's claim into the transcript, in protocol order.
    pub fn mix_into(&self, channel: &mut Transcript)
        ensures
            final(channel)@ == old(channel)@ + self.bound_ops(),
    {
        self.memory.mix_into(channel);
        assert(final(channel)@ =~= old(channel)@ + self.bound_ops());
    }

    /// The log-sizes of the columns of every tree, as the claim declares them.
    pub fn log_sizes(&self) -> (r: TreeLogSizes)
        ensures
            r.preprocessed@ == Seq::<u32>::empty(),
            r.main@ == Seq::new(MemoryColumn::column_count(), |_i: int| self.memory.log_size),
            r.interaction@ == Seq::<u32>::empty(),
    {
        self.memory.log_sizes()
    }
}

/// The random coefficients of the memory component's lookup argument.
#[derive(Clone, Copy, Debug, PartialEq, Eq, Structural)]
pub struct MemoryElements {
    pub z: SecureFelt,
    pub alpha: SecureFelt,
}

/// All the interaction elements drawn from the transcript for the
/// interaction phase.
#[derive(Clone, Copy, Debug, PartialEq, Eq, Structural)]
pub struct BrainfuckInteractionElements {
    pub memory_lookup_elements: MemoryElements,
}

/// The interaction elements that a transcript with history `history` yields:
/// the memory lookup's `z` and `alpha`, from one draw of two elements.
pub open spec fn drawn_elements(history: Seq<TranscriptOp>) -> BrainfuckInteractionElements {
    BrainfuckInteractionElements {
        memory_lookup_elements: MemoryElements {
            z: drawn_felts(history, 2)[0],
            alpha: drawn_felts(history, 2)[1],
        },
    }
}

impl BrainfuckInteractionElements {
    /// What drawing the interaction elements appends to a transcript.
    pub open spec fn draw_ops() -> Seq<TranscriptOp> {
        seq![TranscriptOp::DrawFelts(2)]
    }

    /// Draws the coefficients of every component's lookup argument, in
    /// protocol order.
    pub fn draw(channel: &mut Transcript) -> (r: Self)
        ensures
            final(channel)@ == old(channel)@ + Self::draw_ops(),
            r == drawn_elements(old(channel)@),
            r.memory_lookup_elements.z.is_reduced(),
            r.memory_lookup_elements.alpha.is_reduced(),
    {
        let felts = channel.draw_felts(2);
        let z = felts[0];
        let alpha = felts[1];
        assert(final(channel)@ =~= old(channel)@ + Self::draw_ops());
        BrainfuckInteractionElements { memory_lookup_elements: MemoryElements { z, alpha } }
    }
}

/// The memory component's claimed lookup sum.
#[derive(Clone, Copy, Debug, PartialEq, Eq, Structural)]
pub struct MemoryInteractionClaim {
    pub claimed_sum: SecureFelt,
}

/// All the claims of the interaction phase, one per component.
#[derive(Clone, Copy, Debug, PartialEq, Eq, Structural)]
pub struct BrainfuckInteractionClaim {
    pub memory: MemoryInteractionClaim,
}

impl BrainfuckInteractionClaim {
    /// What binding the claimed sums appends to a transcript.
    pub open spec fn bound_ops(&self) -> Seq<TranscriptOp> {
        seq![TranscriptOp::MixFelt(self.memory.claimed_sum)]
    }

    /// Binds the claimed sums of every component into the transcript.
    pub fn mix_into(&self, channel: &mut Transcript)
        ensures
            final(channel)@ == old(channel)@ + self.bound_ops(),
    {
        channel.mix_felt(self.memory.claimed_sum);
        assert(final(channel)@ =~= old(channel)@ + self.bound_ops());
    }
}

/// The cross-component lookup-sum predicate. How the claimed sums combine is
/// not fixed yet, so no statement is accepted. Kept opaque so that what
/// follows the check is proved for any predicate.
#[verifier::opaque]
pub open spec fn lookup_sum_accepts(
    claim: BrainfuckClaim,
    interaction_elements: BrainfuckInteractionElements,
    interaction_claim: BrainfuckInteractionClaim,
) -> bool {
    false
}

/// Checks that the claims are consistent with each other; fails closed.
pub fn lookup_sum_valid(
    claim: &BrainfuckClaim,
    interaction_elements: &BrainfuckInteractionElements,
    interaction_claim: &BrainfuckInteractionClaim,
) -> (r: bool)
    ensures
        r == lookup_sum_accepts(*claim, *interaction_elements, *interaction_claim),
{
    proof {
        reveal(lookup_sum_accepts);
    }
    false
}

/// A constant column shared by the components, committed in the
/// preprocessed tree.
#[derive(Clone, Copy, Debug, PartialEq, Eq, Structural)]
pub enum PreprocessedColumn {
    /// One on the first row of a trace of `2^log_size` rows, zero elsewhere.
    IsFirst(u32),
}

/// Finds `column` in the shared table of preprocessed columns, adding it at
/// the end if it is not there yet, and returns its position. Equal columns
/// requested by different components share one position.
pub fn allocate_preprocessed(table: &mut Vec<PreprocessedColumn>, column: PreprocessedColumn) -> (r: usize)
    requires
        old(table)@.len() < usize::MAX,
    ensures
        r < final(table)@.len(),
        final(table)@[r as int] == column,
        old(table)@.contains(column) ==> final(table)@ == old(table)@,
        !old(table)@.contains(column) ==> final(table)@ == old(table)@.push(column),
        forall|i: int| 0 <= i < r ==> final(table)@[i] != column,
{
    let mut i: usize = 0;
    while i < table.len()
        invariant
            i <= table@.len(),
            table@ == old(table)@,
            forall|j: int| 0 <= j < i ==> table@[j] != column,
        decreases table@.len() - i,
    {
        if table[i] == column {
            return i;
        }
        i = i + 1;
    }
    table.push(column);
    i
}

/// The memory component's evaluator: its size, where its preprocessed
/// first-row column sits, its lookup coefficients and its claimed sum.
#[derive(Clone, Copy, Debug, PartialEq, Eq, Structural)]
pub struct MemoryComponent {
    pub log_size: u32,
    pub is_first_index: usize,
    pub lookup_elements: MemoryElements,
    pub claimed_sum: SecureFelt,
}

/// All the components of the machine, built identically by the prover and
/// the verifier from the same claims.
pub struct BrainfuckComponents {
    pub preprocessed_columns: Vec<PreprocessedColumn>,
    pub memory: MemoryComponent,
}

impl BrainfuckComponents {
    /// Builds every component from its claim, its interaction elements and
    /// its interaction claim, placing the preprocessed columns they need in
    /// one shared table.
    pub fn new(
        claim: &BrainfuckClaim,
        interaction_elements: &BrainfuckInteractionElements,
        interaction_claim: &BrainfuckInteractionClaim,
    ) -> (r: Self)
        ensures
            r.preprocessed_columns@ == seq![PreprocessedColumn::IsFirst(claim.memory.log_size)],
            r.memory == (MemoryComponent {
                log_size: claim.memory.log_size,
                is_first_index: 0,
                lookup_elements: interaction_elements.memory_lookup_elements,
                claimed_sum: interaction_claim.memory.claimed_sum,
            }),
    {
        let mut preprocessed_columns: Vec<PreprocessedColumn> = Vec::new();
        let memory_is_first = PreprocessedColumn::IsFirst(claim.memory.log_size);
        let is_first_index = allocate_preprocessed(&mut preprocessed_columns, memory_is_first);
        assert(preprocessed_columns@ =~= seq![memory_is_first]);
        let memory = MemoryComponent {
            log_size: claim.memory.log_size,
            is_first_index,
            lookup_elements: interaction_elements.memory_lookup_elements,
            claimed_sum: interaction_claim.memory.claimed_sum,
        };
        BrainfuckComponents { preprocessed_columns, memory }
    }

    /// The components, in protocol order, as the prover uses them.
    pub fn provers(&self) -> (r: Vec<MemoryComponent>)
        ensures
            r@ == seq![self.memory],
    {
        let r = vec![self.memory];
        assert(r@ =~= seq![self.memory]);
        r
    }

    /// The components, in protocol order, as the verifier uses them.
    pub fn components(&self) -> (r: Vec<MemoryComponent>)
        ensures
            r@ == seq![self.memory],
    {
        self.provers()
    }
}

/// Failure of the backend while constructing the proof.
#[derive(Clone, Copy, Debug, PartialEq, Eq, Structural)]
pub enum ProvingError {
    ConstraintsNotSatisfied,
}

/// Why a proof is rejected.
#[derive(Clone, Copy, Debug, PartialEq, Eq, Structural)]
pub enum VerificationError {
    /// The proof does not hold one commitment per tree.
    InvalidStructure,
    /// The claimed lookup sums are not consistent with each other.
    InvalidLookup,
    /// The backend rejected a Merkle decommitment.
    Merkle,
    /// The backend found the out-of-domain samples inconsistent.
    OodsNotMatching,
    /// The backend's proximity check failed.
    Fri,
    /// The backend's proof of work failed.
    ProofOfWork,
}

/// Position of the preprocessed tree among the commitments.
pub const PREPROCESSED_TRACE_IDX: usize = 0;
/// Position of the main-trace tree among the commitments.
pub const MAIN_TRACE_IDX: usize = 1;
/// Position of the interaction-trace tree among the commitments.
pub const INTERACTION_TRACE_IDX: usize = 2;

/// The backend's part of a proof: one root per commitment tree, and the
/// backend's own proof data.
pub struct StarkProof {
    pub commitments: Vec<Commitment>,
    pub bytes: Vec<u8>,
}

/// The proof of a Brainfuck execution, with the claims of every phase.
pub struct BrainfuckProof {
    pub claim: BrainfuckClaim,
    pub interaction_claim: BrainfuckInteractionClaim,
    pub proof: StarkProof,
}

/// Relies on `PcsConfig::default`, whose FRI configuration is
/// `FriConfig::new(0, 1, 3, 1)`: a log blow-up factor of one.
#[verifier::external_body]
fn default_log_blowup() -> (r: u32)
    ensures
        r == 1,
{
    stwo::core::pcs::PcsConfig::default().fri_config.log_blowup_factor
}

/// The transcript after the preprocessed and main trees are committed.
pub open spec fn main_phase_ops(
    claim: BrainfuckClaim,
    preprocessed_root: Commitment,
    main_root: Commitment,
) -> Seq<TranscriptOp> {
    seq![TranscriptOp::MixRoot(preprocessed_root)] + claim.bound_ops() + seq![
        TranscriptOp::MixRoot(main_root),
    ]
}

/// The transcript once every tree is committed, as the prover builds it and
/// the verifier replays it.
pub open spec fn protocol_ops(
    claim: BrainfuckClaim,
    interaction_claim: BrainfuckInteractionClaim,
    roots: Seq<Commitment>,
) -> Seq<TranscriptOp> {
    main_phase_ops(claim, roots[0], roots[1]) + BrainfuckInteractionElements::draw_ops()
        + interaction_claim.bound_ops() + seq![TranscriptOp::MixRoot(roots[2])]
}

/// The phases of proving, in order.
#[derive(Clone, Copy, Debug, PartialEq, Eq, Structural)]
pub enum ProverPhase {
    CommitPreprocessed,
    CommitMain,
    DrawInteractionElements,
    CommitInteraction,
    BackendProve,
}

/// One proving run: the transcript, the roots committed so far, and the
/// claims and elements of the phases already passed.
pub struct ProverSession {
    phase: ProverPhase,
    log_size: u32,
    max_domain_log_size: u32,
    transcript: Transcript,
    commitments: Vec<Commitment>,
    claim: Option<BrainfuckClaim>,
    interaction_elements: Option<BrainfuckInteractionElements>,
    interaction_claim: Option<BrainfuckInteractionClaim>,
}

impl ProverSession {
    pub closed spec fn phase(&self) -> ProverPhase {
        self.phase
    }

    /// The log-size of the main trace, fixed when the run is set up.
    pub closed spec fn log_size(&self) -> u32 {
        self.log_size
    }

    pub closed spec fn interaction_elements(&self) -> Option<BrainfuckInteractionElements> {
        self.interaction_elements
    }

    pub closed spec fn transcript_ops(&self) -> Seq<TranscriptOp> {
        self.transcript@
    }

    pub closed spec fn committed(&self) -> Seq<Commitment> {
        self.commitments@
    }

    pub closed spec fn claim(&self) -> Option<BrainfuckClaim> {
        self.claim
    }

    pub closed spec fn interaction_claim(&self) -> Option<BrainfuckInteractionClaim> {
        self.interaction_claim
    }

    /// The session's invariant: what each phase has committed and bound.
    pub closed spec fn wf(&self) -> bool {
        let c = self.commitments@;
        &&& self.max_domain_log_size == LOG_MAX_ROWS + 3
        &&& self.log_size <= LOG_MAX_ROWS
        &&& (self.claim matches Some(c) ==> c.memory.log_size == self.log_size)
        &&& match self.phase {
            ProverPhase::CommitPreprocessed => {
                &&& c.len() == 0
                &&& self.transcript@ == Seq::<TranscriptOp>::empty()
                &&& self.claim is None
            },
            ProverPhase::CommitMain => {
                &&& c.len() == 1
                &&& self.transcript@ == seq![TranscriptOp::MixRoot(c[0])]
                &&& self.claim is None
            },
            ProverPhase::DrawInteractionElements => {
                &&& c.len() == 2
                &&& self.claim is Some
                &&& self.claim->0.memory.log_size <= LOG_MAX_ROWS
                &&& self.transcript@ == main_phase_ops(self.claim->0, c[0], c[1])
            },
            ProverPhase::CommitInteraction => {
                &&& c.len() == 2
                &&& self.claim is Some
                &&& self.claim->0.memory.log_size <= LOG_MAX_ROWS
                &&& self.interaction_elements == Some(
                    drawn_elements(main_phase_ops(self.claim->0, c[0], c[1])),
                )
                &&& self.transcript@ == main_phase_ops(self.claim->0, c[0], c[1])
                    + BrainfuckInteractionElements::draw_ops()
            },
            ProverPhase::BackendProve => {
                &&& c.len() == 3
                &&& self.claim is Some
                &&& self.claim->0.memory.log_size <= LOG_MAX_ROWS
                &&& self.interaction_elements == Some(
                    drawn_elements(main_phase_ops(self.claim->0, c[0], c[1])),
                )
                &&& self.interaction_claim is Some
                &&& self.transcript@ == protocol_ops(
                    self.claim->0,
                    self.interaction_claim->0,
                    c,
                )
            },
        }
    }

    /// Sets up a proving run for a main trace of `n_rows` rows: fixes its
    /// log-size, sizes the evaluation domain for the largest trace the machine
    /// accepts, and starts a fresh transcript. A trace that gives no log-size
    /// is refused here, before any transcript exists or is mixed.
    pub fn new(n_rows: usize) -> (r: Result<Self, TraceError>)
        ensures
            log_size_spec(n_rows as nat) matches Err(e) ==> r matches Err(e2) && e2 == e,
            log_size_spec(n_rows as nat) matches Ok(k) ==> r matches Ok(s) && {
                &&& s.wf()
                &&& s.phase() == ProverPhase::CommitPreprocessed
                &&& s.transcript_ops() == Seq::<TranscriptOp>::empty()
                &&& s.log_size() == k
            },
    {
        let log_size = match log_size_for_rows(n_rows) {
            Ok(k) => k,
            Err(e) => {
                return Err(e);
            },
        };
        let log_blowup = default_log_blowup();
        Ok(ProverSession {
            phase: ProverPhase::CommitPreprocessed,
            log_size,
            max_domain_log_size: LOG_MAX_ROWS + log_blowup + 2,
            transcript: Transcript::new(),
            commitments: Vec::new(),
            claim: None,
            interaction_elements: None,
            interaction_claim: None,
        })
    }

    /// The phase the run is in.
    pub fn current_phase(&self) -> (r: ProverPhase)
        ensures
            r == self.phase(),
    {
        self.phase
    }

    /// The log-size of the largest evaluation domain of the run.
    pub fn max_domain_log_size(&self) -> (r: u32)
        requires
            self.wf(),
        ensures
            r == LOG_MAX_ROWS + 3,
    {
        self.max_domain_log_size
    }

    /// Commits the preprocessed tree; nothing is bound before it, as its
    /// content is fixed and public.
    pub fn commit_preprocessed(&mut self, root: Commitment)
        requires
            old(self).wf(),
            old(self).phase() == ProverPhase::CommitPreprocessed,
        ensures
            final(self).wf(),
            final(self).phase() == ProverPhase::CommitMain,
            final(self).transcript_ops() == old(self).transcript_ops().push(TranscriptOp::MixRoot(root)),
            final(self).committed() == seq![root],
            final(self).log_size() == old(self).log_size(),
    {
        self.transcript.mix_root(root);
        self.commitments.push(root);
        self.phase = ProverPhase::CommitMain;
        assert(self.commitments@ =~= seq![root]);
        assert(self.transcript@ =~= seq![TranscriptOp::MixRoot(root)]);
    }

    /// Builds the claim of the main trace from the log-size fixed at set-up,
    /// binds it, then commits the main tree.
    pub fn commit_main(&mut self, root: Commitment)
        requires
            old(self).wf(),
            old(self).phase() == ProverPhase::CommitMain,
        ensures
            final(self).wf(),
            final(self).phase() == ProverPhase::DrawInteractionElements,
            final(self).log_size() == old(self).log_size(),
            final(self).claim() matches Some(c) && c.memory.log_size == old(self).log_size(),
            final(self).transcript_ops() == old(self).transcript_ops()
                + final(self).claim()->0.bound_ops() + seq![TranscriptOp::MixRoot(root)],
            final(self).committed() == old(self).committed().push(root),
    {
        let claim = BrainfuckClaim { memory: Claim::new(self.log_size) };
        claim.mix_into(&mut self.transcript);
        self.transcript.mix_root(root);
        self.commitments.push(root);
        self.claim = Some(claim);
        self.phase = ProverPhase::DrawInteractionElements;
        assert(self.transcript@ =~= main_phase_ops(self.claim->0, self.commitments@[0], root));
    }

    /// Draws the interaction elements, once the main tree is committed.
    pub fn draw_interaction_elements(&mut self) -> (r: BrainfuckInteractionElements)
        requires
            old(self).wf(),
            old(self).phase() == ProverPhase::DrawInteractionElements,
        ensures
            final(self).wf(),
            final(self).phase() == ProverPhase::CommitInteraction,
            final(self).transcript_ops() == old(self).transcript_ops() + BrainfuckInteractionElements::draw_ops(),
            r.memory_lookup_elements.z.is_reduced(),
            r.memory_lookup_elements.alpha.is_reduced(),
            final(self).interaction_elements() == Some(r),
            r == drawn_elements(old(self).transcript_ops()),
            final(self).log_size() == old(self).log_size(),
            final(self).committed() == old(self).committed(),
            final(self).claim() == old(self).claim(),
    {
        let elements = BrainfuckInteractionElements::draw(&mut self.transcript);
        self.interaction_elements = Some(elements);
        self.phase = ProverPhase::CommitInteraction;
        elements
    }

    /// Binds the interaction claim made of the memory component's final
    /// lookup sum, then commits the interaction tree.
    pub fn commit_interaction(&mut self, memory_claimed_sum: SecureFelt, root: Commitment)
        requires
            old(self).wf(),
            old(self).phase() == ProverPhase::CommitInteraction,
        ensures
            final(self).wf(),
            final(self).phase() == ProverPhase::BackendProve,
            final(self).interaction_claim() == Some(
                BrainfuckInteractionClaim { memory: MemoryInteractionClaim { claimed_sum: memory_claimed_sum } },
            ),
            final(self).transcript_ops() == old(self).transcript_ops()
                + final(self).interaction_claim()->0.bound_ops() + seq![TranscriptOp::MixRoot(root)],
            final(self).committed() == old(self).committed().push(root),
            final(self).claim() == old(self).claim(),
            final(self).interaction_elements() == old(self).interaction_elements(),
            final(self).log_size() == old(self).log_size(),
    {
        let interaction_claim = BrainfuckInteractionClaim {
            memory: MemoryInteractionClaim { claimed_sum: memory_claimed_sum },
        };
        interaction_claim.mix_into(&mut self.transcript);
        self.transcript.mix_root(root);
        self.commitments.push(root);
        self.interaction_claim = Some(interaction_claim);
        self.phase = ProverPhase::BackendProve;
        assert(self.transcript@ =~= protocol_ops(self.claim->0, interaction_claim, self.commitments@));
    }

    /// The components the backend proves, built from the session's claims.
    pub fn components(&self) -> (r: BrainfuckComponents)
        requires
            self.wf(),
            self.phase() == ProverPhase::BackendProve,
        ensures
            r.preprocessed_columns@ == seq![PreprocessedColumn::IsFirst(self.log_size())],
            r.memory == (MemoryComponent {
                log_size: self.log_size(),
                is_first_index: 0,
                lookup_elements: self.interaction_elements()->0.memory_lookup_elements,
                claimed_sum: self.interaction_claim()->0.memory.claimed_sum,
            }),
    {
        let claim = self.claim.as_ref().unwrap();
        let elements = self.interaction_elements.as_ref().unwrap();
        let interaction_claim = self.interaction_claim.as_ref().unwrap();
        BrainfuckComponents::new(claim, elements, interaction_claim)
    }

    /// A copy of the session's channel in its current state, on which the
    /// backend continues the transcript to construct its proof.
    pub fn backend_channel(&self) -> stwo::core::channel::Blake2sChannel
        requires
            self.wf(),
            self.phase() == ProverPhase::BackendProve,
    {
        self.transcript.channel_copy()
    }

    /// Packages the proof from the backend's outcome; a backend failure is
    /// returned unchanged and no proof is made.
    pub fn finish(self, backend: Result<Vec<u8>, ProvingError>) -> (r: Result<BrainfuckProof, ProvingError>)
        requires
            self.wf(),
            self.phase() == ProverPhase::BackendProve,
        ensures
            backend matches Err(e) ==> r == Err::<BrainfuckProof, ProvingError>(e),
            backend matches Ok(bytes) ==> r matches Ok(p) && {
                &&& Some(p.claim) == self.claim()
                &&& Some(p.interaction_claim) == self.interaction_claim()
                &&& p.proof.commitments@ == self.committed()
                &&& p.proof.bytes == bytes
                &&& protocol_ops(p.claim, p.interaction_claim, p.proof.commitments@) == self.transcript_ops()
            },
    {
        match backend {
            Err(e) => Err(e),
            Ok(bytes) => {
                let ProverSession { claim, interaction_claim, commitments, .. } = self;
                Ok(BrainfuckProof {
                    claim: claim.unwrap(),
                    interaction_claim: interaction_claim.unwrap(),
                    proof: StarkProof { commitments, bytes },
                })
            },
        }
    }
}

/// The trees the verifier registers for a claim and the proof's roots: each
/// root with its columns' log-sizes recomputed from the claim, on the domain
/// extended by the log blow-up factor of one.
pub open spec fn expected_trees(claim: BrainfuckClaim, roots: Seq<Commitment>) -> Seq<([u8; 32], Seq<u32>)> {
    seq![
        (roots[0].bytes, Seq::<u32>::empty()),
        (roots[1].bytes, Seq::new(MemoryColumn::column_count(), |_i: int| (claim.memory.log_size + 1) as u32)),
        (roots[2].bytes, Seq::<u32>::empty()),
    ]
}

/// The state the verifier reaches once the transcript is replayed and the
/// lookup check passed: the transcript, the commitment session, the
/// components, the log-sizes of every tree recomputed from the claim, and the
/// backend's proof. The backend's polynomial checks are not run here.
pub struct BackendCheck {
    pub transcript: Transcript,
    pub scheme: SchemeVerifier,
    pub components: BrainfuckComponents,
    pub log_sizes: TreeLogSizes,
    pub proof: StarkProof,
}

/// Replays the prover's transcript from the proof's claims and roots, and
/// checks the cross-component lookup sums on the elements drawn after the
/// main commitment.
pub fn verify_brainfuck(proof: BrainfuckProof) -> (r: Result<BackendCheck, VerificationError>)
    ensures
        proof.proof.commitments@.len() < 3 || proof.claim.memory.log_size > LOG_MAX_ROWS ==> r
            == Err::<BackendCheck, VerificationError>(VerificationError::InvalidStructure),
        proof.proof.commitments@.len() >= 3 && proof.claim.memory.log_size <= LOG_MAX_ROWS ==> {
            let drawn = drawn_elements(
                main_phase_ops(proof.claim, proof.proof.commitments@[0], proof.proof.commitments@[1]),
            );
            &&& !lookup_sum_accepts(proof.claim, drawn, proof.interaction_claim) ==> r == Err::<
                BackendCheck,
                VerificationError,
            >(VerificationError::InvalidLookup)
            &&& lookup_sum_accepts(proof.claim, drawn, proof.interaction_claim) ==> r is Ok
            &&& r matches Ok(c) ==> c.components.memory.lookup_elements == drawn.memory_lookup_elements
        },
        r matches Ok(c) ==> {
            &&& c.transcript@ == protocol_ops(
                proof.claim,
                proof.interaction_claim,
                proof.proof.commitments@,
            )
            &&& registered_trees(c.scheme) == expected_trees(proof.claim, proof.proof.commitments@)
            &&& c.log_sizes.preprocessed@ == Seq::<u32>::empty()
            &&& c.log_sizes.main@ == Seq::new(
                MemoryColumn::column_count(),
                |_i: int| proof.claim.memory.log_size,
            )
            &&& c.log_sizes.interaction@ == Seq::<u32>::empty()
            &&& c.components.memory.log_size == proof.claim.memory.log_size
            &&& c.components.memory.claimed_sum == proof.interaction_claim.memory.claimed_sum
            &&& c.proof == proof.proof
        },
{
    let BrainfuckProof { claim, interaction_claim, proof } = proof;
    if proof.commitments.len() < 3 || claim.memory.log_size > LOG_MAX_ROWS {
        return Err(VerificationError::InvalidStructure);
    }
    let mut channel = Transcript::new();
    let mut scheme = Transcript::new_scheme_verifier();
    let log_sizes = claim.log_sizes();

    channel.commit_root(&mut scheme, proof.commitments[PREPROCESSED_TRACE_IDX], &log_sizes.preprocessed);

    claim.mix_into(&mut channel);
    channel.commit_root(&mut scheme, proof.commitments[MAIN_TRACE_IDX], &log_sizes.main);

    assert(channel@ =~= main_phase_ops(claim, proof.commitments@[0], proof.commitments@[1]));
    let interaction_elements = BrainfuckInteractionElements::draw(&mut channel);
    if !lookup_sum_valid(&claim, &interaction_elements, &interaction_claim) {
        return Err(VerificationError::InvalidLookup);
    }
    interaction_claim.mix_into(&mut channel);
    channel.commit_root(&mut scheme, proof.commitments[INTERACTION_TRACE_IDX], &log_sizes.interaction);
    assert(channel@ =~= protocol_ops(claim, interaction_claim, proof.commitments@));
    assert(log_sizes.preprocessed@.map_values(|s: u32| (s + 1) as u32) =~= Seq::<u32>::empty());
    assert(log_sizes.interaction@.map_values(|s: u32| (s + 1) as u32) =~= Seq::<u32>::empty());
    assert(log_sizes.main@.map_values(|s: u32| (s + 1) as u32) =~= Seq::new(
        MemoryColumn::column_count(),
        |_i: int| (claim.memory.log_size + 1) as u32,
    ));
    assert(registered_trees(scheme) =~= expected_trees(claim, proof.commitments@));

    let components = BrainfuckComponents::new(&claim, &interaction_elements, &interaction_claim);
    Ok(BackendCheck { transcript: channel, scheme, components, log_sizes, proof })
}

/// A proof returned by a finished proving run is well formed for the
/// verifier, which binds every claim and root at the position the prover
/// bound it: the transcript the run built is the one replayed from the proof,
/// and the elements the run drew are those the verifier draws after the main
/// commitment.
pub proof fn lemma_verifier_replays_prover(session: ProverSession, proof: BrainfuckProof)
    requires
        session.wf(),
        session.phase() == ProverPhase::BackendProve,
        Some(proof.claim) == session.claim(),
        Some(proof.interaction_claim) == session.interaction_claim(),
        proof.proof.commitments@ == session.committed(),
    ensures
        proof.proof.commitments@.len() == 3,
        proof.claim.memory.log_size <= LOG_MAX_ROWS,
        session.interaction_elements() == Some(
            drawn_elements(
                main_phase_ops(proof.claim, proof.proof.commitments@[0], proof.proof.commitments@[1]),
            ),
        ),
        protocol_ops(proof.claim, proof.interaction_claim, proof.proof.commitments@)
            == session.transcript_ops(),
{
}

/// Proving is deterministic: two finished runs set up for the same
/// log-size and given the same roots and claimed sums hold equal
/// transcripts, claims and interaction elements.
pub proof fn lemma_equal_runs_agree(a: ProverSession, b: ProverSession)
    requires
        a.wf(),
        b.wf(),
        a.phase() == ProverPhase::BackendProve,
        b.phase() == ProverPhase::BackendProve,
        a.log_size() == b.log_size(),
        a.committed() == b.committed(),
        a.interaction_claim() == b.interaction_claim(),
    ensures
        a.claim() == b.claim(),
        a.interaction_elements() == b.interaction_elements(),
        a.transcript_ops() == b.transcript_ops(),
{
}

/// Binding order matters: two claims of different sizes bound in opposite
/// orders leave two fresh transcripts in different states before the next
/// draw.
pub proof fn lemma_binding_order_matters(a: BrainfuckClaim, b: BrainfuckClaim)
    requires
        a.memory.log_size != b.memory.log_size,
    ensures
        Seq::<TranscriptOp>::empty() + a.bound_ops() + b.bound_ops()
            + BrainfuckInteractionElements::draw_ops() != Seq::<TranscriptOp>::empty()
            + b.bound_ops() + a.bound_ops() + BrainfuckInteractionElements::draw_ops(),
{
    let x = Seq::<TranscriptOp>::empty() + a.bound_ops() + b.bound_ops()
        + BrainfuckInteractionElements::draw_ops();
    let y = Seq::<TranscriptOp>::empty() + b.bound_ops() + a.bound_ops()
        + BrainfuckInteractionElements::draw_ops();
    assert(x[0] == TranscriptOp::MixU64(a.memory.log_size as u64));
    assert(y[0] == TranscriptOp::MixU64(b.memory.log_size as u64));
}

/// The lookup check accepts nothing yet: whatever the claims and the drawn
/// elements, the predicate rejects, so verification fails closed.
pub proof fn lemma_lookup_check_accepts_nothing(
    claim: BrainfuckClaim,
    interaction_elements: BrainfuckInteractionElements,
    interaction_claim: BrainfuckInteractionClaim,
)
    ensures
        !lookup_sum_accepts(claim, interaction_elements, interaction_claim),
{
    reveal(lookup_sum_accepts);
}

} // verus!
