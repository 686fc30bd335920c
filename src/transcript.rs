//! The Fiat-Shamir transcript: a Blake2s channel together with the ordered
//! record of everything that was bound into it.

use vstd::prelude::*;

verus! {

/// The modulus of the base field M31, `2^31 - 1`.
pub const M31_MODULUS: u32 = 2147483647;

/// An element of the degree-four secure extension field, by its four
/// base-field coordinates.
#[derive(Clone, Copy, Debug, PartialEq, Eq, Structural)]
pub struct SecureFelt {
    pub c0: u32,
    pub c1: u32,
    pub c2: u32,
    pub c3: u32,
}

impl SecureFelt {
    /// Every coordinate is a reduced base-field element.
    pub open spec fn is_reduced(self) -> bool {
        &&& self.c0 < M31_MODULUS
        &&& self.c1 < M31_MODULUS
        &&& self.c2 < M31_MODULUS
        &&& self.c3 < M31_MODULUS
    }
}

/// The root of a Merkle commitment tree.
#[derive(Clone, Copy, Debug, PartialEq, Eq)]
pub struct Commitment {
    pub bytes: [u8; 32],
}

/// One operation applied to a transcript, in the order it was applied.
pub enum TranscriptOp {
    MixU64(u64),
    MixFelt(SecureFelt),
    MixRoot(Commitment),
    /// Draws the given number of secure field elements in one request.
    DrawFelts(usize),
}

#[verifier::external_type_specification]
#[verifier::external_body]
pub struct ExBlake2sChannelGeneric<const IS_M31_OUTPUT: bool>(
    stwo::core::channel::Blake2sChannelGeneric<IS_M31_OUTPUT>,
);

/// The verifier's commitment session over Blake2s Merkle trees. Only the
/// trusted functions below touch the session itself.
#[verifier::external_body]
pub struct SchemeVerifier {
    inner: stwo::core::pcs::CommitmentSchemeVerifier<
        stwo::core::vcs_lifted::blake2_merkle::Blake2sMerkleChannel,
    >,
}

/// The trees a commitment session has registered, in order: each root with
/// the log-sizes of its columns on the extended domain.
pub uninterp spec fn registered_trees(v: SchemeVerifier) -> Seq<([u8; 32], Seq<u32>)>;

/// The log blow-up factor of a commitment session's configuration.
pub uninterp spec fn scheme_log_blowup(v: SchemeVerifier) -> u32;

/// Relies on `CommitmentSchemeVerifier::new` with `PcsConfig::default()`: no
/// tree is registered, and the default FRI configuration
/// (`FriConfig::new(0, 1, 3, 1)`) has a log blow-up factor of one.
#[verifier::external_body]
fn fresh_scheme_verifier() -> (r: SchemeVerifier)
    ensures
        registered_trees(r) == Seq::<([u8; 32], Seq<u32>)>::empty(),
        scheme_log_blowup(r) == 1,
{
    SchemeVerifier {
        inner: stwo::core::pcs::CommitmentSchemeVerifier::new(
            stwo::core::pcs::PcsConfig::default(),
        ),
    }
}

/// Relies on `CommitmentSchemeVerifier::commit`: mixes the root into the
/// channel with `MerkleChannel::mix_root`, then registers a tree holding the
/// root and each column's log-size plus the log blow-up factor.
#[verifier::external_body]
fn scheme_commit(
    scheme: &mut SchemeVerifier,
    root: Commitment,
    log_sizes: &Vec<u32>,
    channel: &mut stwo::core::channel::Blake2sChannel,
)
    requires
        forall|i: int|
            0 <= i < log_sizes@.len() ==> log_sizes@[i] + scheme_log_blowup(*old(scheme))
                <= u32::MAX,
    ensures
        scheme_log_blowup(*final(scheme)) == scheme_log_blowup(*old(scheme)),
        registered_trees(*final(scheme)) == registered_trees(*old(scheme)).push(
            (
                root.bytes,
                log_sizes@.map_values(|s: u32| (s + scheme_log_blowup(*old(scheme))) as u32),
            ),
        ),
{
    scheme.inner.commit(stwo::core::vcs::blake2_hash::Blake2sHash(root.bytes), log_sizes, channel)
}

/// Relies on `Blake2sChannel::default`: a fresh channel with the all-zero
/// digest.
#[verifier::external_body]
fn fresh_channel() -> (r: stwo::core::channel::Blake2sChannel) {
    stwo::core::channel::Blake2sChannel::default()
}

/// Relies on `Channel::mix_u64` of the Blake2s channel: hashes the value into
/// the digest.
#[verifier::external_body]
fn channel_mix_u64(channel: &mut stwo::core::channel::Blake2sChannel, value: u64) {
    stwo::core::channel::Channel::mix_u64(channel, value)
}

/// Relies on `Channel::mix_felts` of the Blake2s channel, on a single secure
/// field element.
#[verifier::external_body]
fn channel_mix_felt(channel: &mut stwo::core::channel::Blake2sChannel, felt: SecureFelt) {
    stwo::core::channel::Channel::mix_felts(channel, &[stwo::core::fields::qm31::QM31::from_u32_unchecked(felt.c0, felt.c1, felt.c2, felt.c3)])
}

/// Relies on `MerkleChannel::mix_root` of the Blake2s Merkle channel: hashes
/// a tree root into the digest.
#[verifier::external_body]
fn channel_mix_root(channel: &mut stwo::core::channel::Blake2sChannel, root: Commitment) {
    <stwo::core::vcs_lifted::blake2_merkle::Blake2sMerkleChannel as stwo::core::channel::MerkleChannel>::mix_root(channel, stwo::core::vcs::blake2_hash::Blake2sHash(root.bytes))
}

/// The secure field elements that `n` draws yield from a Blake2s channel
/// that started at its default state and went through the operations of
/// `history`, in order. A draw reads only the channel's digest and draw
/// counter, and both are determined by that sequence.
pub uninterp spec fn drawn_felts(history: Seq<TranscriptOp>, n: usize) -> Seq<SecureFelt>;

/// Relies on `Clone` of the Blake2s channel: a copy in the same state.
#[verifier::external_body]
fn clone_channel(channel: &stwo::core::channel::Blake2sChannel) -> stwo::core::channel::Blake2sChannel {
    channel.clone()
}

/// A Fiat-Shamir transcript. Its view is the sequence of operations applied
/// since it was created; what a draw yields is a function of that sequence
/// (`drawn_felts`), so transcripts with equal views draw equal elements.
pub struct Transcript {
    channel: stwo::core::channel::Blake2sChannel,
    history: Ghost<Seq<TranscriptOp>>,
}

impl View for Transcript {
    type V = Seq<TranscriptOp>;

    closed spec fn view(&self) -> Seq<TranscriptOp> {
        self.history@
    }
}

impl Transcript {
    /// A fresh transcript, with nothing bound into it.
    pub fn new() -> (r: Transcript)
        ensures
            r@ == Seq::<TranscriptOp>::empty(),
    {
        Transcript { channel: fresh_channel(), history: Ghost(Seq::empty()) }
    }

    pub fn mix_u64(&mut self, value: u64)
        ensures
            final(self)@ == old(self)@.push(TranscriptOp::MixU64(value)),
    {
        channel_mix_u64(&mut self.channel, value);
        self.history = Ghost(self.history@.push(TranscriptOp::MixU64(value)));
    }

    pub fn mix_felt(&mut self, felt: SecureFelt)
        ensures
            final(self)@ == old(self)@.push(TranscriptOp::MixFelt(felt)),
    {
        channel_mix_felt(&mut self.channel, felt);
        self.history = Ghost(self.history@.push(TranscriptOp::MixFelt(felt)));
    }

    pub fn mix_root(&mut self, root: Commitment)
        ensures
            final(self)@ == old(self)@.push(TranscriptOp::MixRoot(root)),
    {
        channel_mix_root(&mut self.channel, root);
        self.history = Ghost(self.history@.push(TranscriptOp::MixRoot(root)));
    }

    /// Draws `n` pseudorandom secure field elements in one request.
    ///
    /// Relies on `Channel::draw_secure_felts` of the Blake2s channel: it takes
    /// exactly `n` elements from an endless stream, every coordinate went
    /// through `BaseField::reduce`, so is below the modulus, and the values
    /// depend on the channel's state alone, which the history determines.
    #[verifier::external_body]
    pub fn draw_felts(&mut self, n: usize) -> (r: Vec<SecureFelt>)
        ensures
            final(self)@ == old(self)@.push(TranscriptOp::DrawFelts(n)),
            r@ == drawn_felts(old(self)@, n),
            r@.len() == n,
            forall|i: int| 0 <= i < r@.len() ==> (#[trigger] r@[i]).is_reduced(),
    {
        let r = stwo::core::channel::Channel::draw_secure_felts(&mut self.channel, n)
            .into_iter()
            .map(|f| {
                let [a, b, c, d] = f.to_m31_array();
                SecureFelt { c0: a.0, c1: b.0, c2: c.0, c3: d.0 }
            })
            .collect();
        self.history = Ghost(self.history@.push(TranscriptOp::DrawFelts(n)));
        r
    }

    /// A fresh commitment session for the verifier, with no tree registered.
    pub fn new_scheme_verifier() -> (r: SchemeVerifier)
        ensures
            registered_trees(r) == Seq::<([u8; 32], Seq<u32>)>::empty(),
            scheme_log_blowup(r) == 1,
    {
        fresh_scheme_verifier()
    }

    /// Reads a commitment from the prover: binds its root, and registers it in
    /// the verifier's session with the declared column log-sizes.
    pub fn commit_root(&mut self, scheme: &mut SchemeVerifier, root: Commitment, log_sizes: &Vec<u32>)
        requires
            forall|i: int|
                0 <= i < log_sizes@.len() ==> log_sizes@[i] + scheme_log_blowup(*old(scheme))
                    <= u32::MAX,
        ensures
            final(self)@ == old(self)@.push(TranscriptOp::MixRoot(root)),
            scheme_log_blowup(*final(scheme)) == scheme_log_blowup(*old(scheme)),
            registered_trees(*final(scheme)) == registered_trees(*old(scheme)).push(
                (
                    root.bytes,
                    log_sizes@.map_values(|s: u32| (s + scheme_log_blowup(*old(scheme))) as u32),
                ),
            ),
    {
        scheme_commit(scheme, root, log_sizes, &mut self.channel);
        self.history = Ghost(self.history@.push(TranscriptOp::MixRoot(root)));
    }

    /// The channel in its current state, for the backend's own rounds.
    pub fn into_channel(self) -> stwo::core::channel::Blake2sChannel {
        self.channel
    }

    /// A copy of the channel in its current state, for the backend's own
    /// rounds; the transcript itself is left as it is.
    pub fn channel_copy(&self) -> stwo::core::channel::Blake2sChannel {
        clone_channel(&self.channel)
    }
}

} // verus!
