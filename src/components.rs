//! Per-component claims: the public dimensions of one component's trace and
//! how they are bound into the transcript.

use vstd::prelude::*;
use crate::transcript::{Transcript, TranscriptOp};

verus! {

/// Binary logarithm of the largest number of trace rows the machine accepts:
/// programs with more than `2^20` steps are refused.
pub const LOG_MAX_ROWS: u32 = 20;

/// Why a trace cannot be turned into a claim.
#[derive(Clone, Copy, Debug, PartialEq, Eq, Structural)]
pub enum TraceError {
    /// The component trace is empty.
    EmptyTrace,
    /// The component trace needs more than `2^LOG_MAX_ROWS` rows.
    TooManyRows,
}

pub open spec fn pow2(n: nat) -> nat
    decreases n,
{
    if n == 0 {
        1
    } else {
        2 * pow2((n - 1) as nat)
    }
}

/// `k` is the least exponent with `n <= 2^k`, that is `ceil(log2(n))`.
pub open spec fn is_ceil_log2(k: nat, n: nat) -> bool {
    &&& n <= pow2(k)
    &&& (k == 0 || pow2((k - 1) as nat) < n)
}

/// The log-size a trace of `n_rows` rows is committed at, or why it has none.
pub open spec fn log_size_spec(n_rows: nat) -> Result<u32, TraceError> {
    if n_rows == 0 {
        Err(TraceError::EmptyTrace)
    } else if n_rows > pow2(LOG_MAX_ROWS as nat) {
        Err(TraceError::TooManyRows)
    } else {
        Ok(choose|k: u32| is_ceil_log2(k as nat, n_rows))
    }
}

pub proof fn lemma_pow2_monotone(a: nat, b: nat)
    requires
        a <= b,
    ensures
        pow2(a) <= pow2(b),
    decreases b,
{
    if a < b {
        lemma_pow2_monotone(a, (b - 1) as nat);
    }
}

proof fn lemma_pow2_max()
    ensures
        pow2(19) == 524288,
        pow2(20) == 1048576,
{
    reveal_with_fuel(pow2, 21);
}

proof fn lemma_ceil_log2_unique(k1: nat, k2: nat, n: nat)
    requires
        is_ceil_log2(k1, n),
        is_ceil_log2(k2, n),
    ensures
        k1 == k2,
{
    if k1 < k2 {
        lemma_pow2_monotone(k1, (k2 - 1) as nat);
    } else if k2 < k1 {
        lemma_pow2_monotone(k2, (k1 - 1) as nat);
    }
}

/// The log-size of a trace with `n_rows` rows: `ceil(log2(n_rows))`. An empty
/// trace and one longer than `2^LOG_MAX_ROWS` rows are refused.
pub fn log_size_for_rows(n_rows: usize) -> (r: Result<u32, TraceError>)
    ensures
        r == log_size_spec(n_rows as nat),
        r matches Ok(k) ==> is_ceil_log2(k as nat, n_rows as nat) && k <= LOG_MAX_ROWS,
{
    if n_rows == 0 {
        return Err(TraceError::EmptyTrace);
    }
    let mut k: u32 = 0;
    let mut p: usize = 1;
    while k < LOG_MAX_ROWS && p < n_rows
        invariant
            k <= LOG_MAX_ROWS,
            p as nat == pow2(k as nat),
            n_rows > 0,
            k == 0 || pow2((k - 1) as nat) < n_rows,
        decreases LOG_MAX_ROWS - k,
    {
        proof {
            lemma_pow2_monotone(k as nat, (LOG_MAX_ROWS - 1) as nat);
            lemma_pow2_max();
        }
        p = p * 2;
        k = k + 1;
    }
    proof {
        lemma_pow2_max();
    }
    if p < n_rows {
        return Err(TraceError::TooManyRows);
    }
    proof {
        lemma_pow2_monotone(k as nat, LOG_MAX_ROWS as nat);
        assert(is_ceil_log2(k as nat, n_rows as nat));
        let c = choose|c: u32| is_ceil_log2(c as nat, n_rows as nat);
        lemma_ceil_log2_unique(c as nat, k as nat, n_rows as nat);
    }
    Ok(k)
}

/// The columns a component contributes to its trace.
pub trait TraceColumn {
    /// The number of columns of the component's trace.
    spec fn column_count() -> nat;

    fn count() -> (r: usize)
        ensures
            r as nat == Self::column_count(),
    ;
}

/// The columns of the memory component's trace.
#[derive(Clone, Copy, Debug, PartialEq, Eq, Structural)]
pub enum MemoryColumn {
    Clk,
    Mp,
    Mv,
    D,
    NextClk,
    NextMp,
    NextMv,
    NextD,
}

impl TraceColumn for MemoryColumn {
    open spec fn column_count() -> nat {
        8
    }

    fn count() -> (r: usize) {
        8
    }
}

/// Per-column log-sizes of each commitment tree of a component, in tree
/// order: preprocessed, main, interaction.
#[derive(Clone, Debug, PartialEq, Eq)]
pub struct TreeLogSizes {
    pub preprocessed: Vec<u32>,
    pub main: Vec<u32>,
    pub interaction: Vec<u32>,
}

/// The claim of one component: the log-size of its trace, the same for every
/// tree of the component.
pub struct Claim<T: TraceColumn> {
    /// Logarithmic size (`log2`) of the evaluated trace.
    pub log_size: u32,
    pub _marker: core::marker::PhantomData<T>,
}

/// The memory component's claim.
pub type MemoryClaim = Claim<MemoryColumn>;

impl<T: TraceColumn> Claim<T> {
    /// A claim for a trace of `2^log_size` rows.
    pub fn new(log_size: u32) -> (r: Self)
        requires
            log_size <= LOG_MAX_ROWS,
        ensures
            r.log_size == log_size,
    {
        Claim { log_size, _marker: core::marker::PhantomData }
    }

    /// The log-sizes of the component's columns, per tree: one entry equal to
    /// the claim's log-size for each main-trace column, and none for the
    /// preprocessed and interaction trees.
    pub fn log_sizes(&self) -> (r: TreeLogSizes)
        ensures
            r.preprocessed@ == Seq::<u32>::empty(),
            r.main@ == Seq::new(T::column_count(), |_i: int| self.log_size),
            r.interaction@ == Seq::<u32>::empty(),
    {
        let n = T::count();
        let mut main: Vec<u32> = Vec::new();
        let mut i: usize = 0;
        while i < n
            invariant
                i <= n,
                n as nat == T::column_count(),
                main@ == Seq::new(i as nat, |_j: int| self.log_size),
            decreases n - i,
        {
            main.push(self.log_size);
            i = i + 1;
            assert(main@ =~= Seq::new(i as nat, |_j: int| self.log_size));
        }
        TreeLogSizes { preprocessed: Vec::new(), main, interaction: Vec::new() }
    }

    /// Binds the log-size into the transcript.
    pub fn mix_into(&self, channel: &mut Transcript)
        ensures
            final(channel)@ == old(channel)@.push(TranscriptOp::MixU64(self.log_size as u64)),
    {
        channel.mix_u64(self.log_size as u64);
    }
}

} // verus!
