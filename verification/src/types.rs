//! Core data model: execution costs, transactions, admission outcomes,
//! the block-limit state machine, and builder settings.
//!
//! The smart-contract execution engine is an external collaborator that this
//! crate consumes as a deterministic oracle.  Its response to a transaction
//! (the cost charged on success, or the class of typed failure) is therefore
//! modelled as data carried by the transaction itself, while every piece of
//! budget accounting that decides admission is explicit, verified logic here.

use vstd::prelude::*;

verus! {

/// Hard default cap on the byte size of a block body.
pub const MAX_BLOCK_BYTES: u64 = 2 * 1024 * 1024;

/// Fixed proportion threshold (in percent) used to classify a cost-overflow
/// failure: if the block budget was already at least this full before the
/// transaction ran, the block is considered full and the transaction may be
/// retried later; otherwise the transaction alone is too expensive and is
/// dropped for good.  A protocol-consensus constant: builder and validator
/// must use the identical value.
pub const TX_BLOCK_LIMIT_PROPORTION_HEURISTIC: u64 = 15;

/// Network identifier of the main chain.
pub const CHAIN_ID_MAINNET: u32 = 1;

/// Network identifier of the test chain.
pub const CHAIN_ID_TESTNET: u32 = 2147483648;

/// Execution cost, measured in five independent dimensions.
#[derive(Clone, Copy, Debug, PartialEq, Eq)]
pub struct ExecCost {
    pub write_length: u64,
    pub write_count: u64,
    pub read_length: u64,
    pub read_count: u64,
    pub runtime: u64,
}

/// Pointwise comparison of two costs: `a` is within `b` in every dimension.
pub open spec fn cost_le(a: ExecCost, b: ExecCost) -> bool {
    &&& a.write_length <= b.write_length
    &&& a.write_count <= b.write_count
    &&& a.read_length <= b.read_length
    &&& a.read_count <= b.read_count
    &&& a.runtime <= b.runtime
}

/// Whether charging `add` on top of `consumed` stays within `limit` in every
/// dimension (computed without overflow).
pub open spec fn cost_fits(consumed: ExecCost, add: ExecCost, limit: ExecCost) -> bool {
    &&& consumed.write_length + add.write_length <= limit.write_length
    &&& consumed.write_count + add.write_count <= limit.write_count
    &&& consumed.read_length + add.read_length <= limit.read_length
    &&& consumed.read_count + add.read_count <= limit.read_count
    &&& consumed.runtime + add.runtime <= limit.runtime
}

/// Pointwise sum of two costs.  Meaningful only when each dimension's sum
/// fits in a machine word, which every caller in this crate establishes
/// through `cost_fits` against a budget.
pub open spec fn cost_add(a: ExecCost, b: ExecCost) -> ExecCost {
    ExecCost {
        write_length: (a.write_length + b.write_length) as u64,
        write_count: (a.write_count + b.write_count) as u64,
        read_length: (a.read_length + b.read_length) as u64,
        read_count: (a.read_count + b.read_count) as u64,
        runtime: (a.runtime + b.runtime) as u64,
    }
}

/// Percentage that `c` fills of the budget dimension `l`; an empty budget
/// dimension counts as completely full.
pub open spec fn dim_proportion(c: u64, l: u64) -> int {
    if l == 0 {
        100
    } else {
        (c * 100) / (l as int)
    }
}

pub open spec fn max_int(a: int, b: int) -> int {
    if a >= b {
        a
    } else {
        b
    }
}

/// Percentage that `consumed` fills of `limit`, taken over the fullest of
/// the five dimensions.
pub open spec fn spec_proportion_largest(limit: ExecCost, consumed: ExecCost) -> int {
    max_int(
        dim_proportion(consumed.write_length, limit.write_length),
        max_int(
            dim_proportion(consumed.write_count, limit.write_count),
            max_int(
                dim_proportion(consumed.read_length, limit.read_length),
                max_int(
                    dim_proportion(consumed.read_count, limit.read_count),
                    dim_proportion(consumed.runtime, limit.runtime),
                ),
            ),
        ),
    )
}

impl ExecCost {
    /// The zero cost: nothing consumed yet.
    pub fn zero() -> (r: ExecCost)
        ensures
            r == (ExecCost {
                write_length: 0,
                write_count: 0,
                read_length: 0,
                read_count: 0,
                runtime: 0,
            }),
    {
        ExecCost { write_length: 0, write_count: 0, read_length: 0, read_count: 0, runtime: 0 }
    }

    /// Whether charging `add` on top of `consumed` stays within `self`.
    pub fn admits(&self, consumed: &ExecCost, add: &ExecCost) -> (r: bool)
        ensures
            r == cost_fits(*consumed, *add, *self),
    {
        consumed.write_length <= self.write_length
            && add.write_length <= self.write_length - consumed.write_length
            && consumed.write_count <= self.write_count
            && add.write_count <= self.write_count - consumed.write_count
            && consumed.read_length <= self.read_length
            && add.read_length <= self.read_length - consumed.read_length
            && consumed.read_count <= self.read_count
            && add.read_count <= self.read_count - consumed.read_count
            && consumed.runtime <= self.runtime
            && add.runtime <= self.runtime - consumed.runtime
    }

    /// Pointwise sum.
    pub fn add(&self, other: &ExecCost) -> (r: ExecCost)
        requires
            self.write_length + other.write_length <= u64::MAX,
            self.write_count + other.write_count <= u64::MAX,
            self.read_length + other.read_length <= u64::MAX,
            self.read_count + other.read_count <= u64::MAX,
            self.runtime + other.runtime <= u64::MAX,
        ensures
            r == cost_add(*self, *other),
    {
        ExecCost {
            write_length: self.write_length + other.write_length,
            write_count: self.write_count + other.write_count,
            read_length: self.read_length + other.read_length,
            read_count: self.read_count + other.read_count,
            runtime: self.runtime + other.runtime,
        }
    }

    /// Percentage of the budget `self` that `consumed` fills, over the
    /// fullest dimension.  `consumed` must already be within the budget,
    /// which keeps the percentage at or below one hundred.
    pub fn proportion_largest_dimension(&self, consumed: &ExecCost) -> (r: u64)
        requires
            cost_le(*consumed, *self),
        ensures
            r == spec_proportion_largest(*self, *consumed),
            r <= 100,
    {
        let p0 = Self::dim_pct(consumed.write_length, self.write_length);
        let p1 = Self::dim_pct(consumed.write_count, self.write_count);
        let p2 = Self::dim_pct(consumed.read_length, self.read_length);
        let p3 = Self::dim_pct(consumed.read_count, self.read_count);
        let p4 = Self::dim_pct(consumed.runtime, self.runtime);
        let m01 = if p3 >= p4 { p3 } else { p4 };
        let m02 = if p2 >= m01 { p2 } else { m01 };
        let m03 = if p1 >= m02 { p1 } else { m02 };
        let m04 = if p0 >= m03 { p0 } else { m03 };
        m04
    }

    /// One dimension's fill percentage.
    fn dim_pct(c: u64, l: u64) -> (r: u64)
        requires
            c <= l,
        ensures
            r == dim_proportion(c, l),
            r <= 100,
    {
        if l == 0 {
            100
        } else {
            let wide: u128 = (c as u128) * 100 / (l as u128);
            proof {
                assert((c as int) * 100 / (l as int) <= 100) by (nonlinear_arith)
                    requires
                        c <= l,
                        l > 0,
                ;
                assert((c as int) * 100 / (l as int) >= 0) by (nonlinear_arith)
                    requires
                        c >= 0,
                        l > 0,
                ;
            }
            wide as u64
        }
    }
}

/// Why a tenure change was issued: a new leadership assignment found a block,
/// or the current leader extends its own tenure.
#[derive(Clone, Copy, Debug, PartialEq, Eq)]
pub enum TenureChangeCause {
    BlockFound,
    Extended,
}

/// The shape of a transaction, as far as admission control needs to see it.
#[derive(Clone, Copy, Debug, PartialEq, Eq)]
pub enum TxPayload {
    TokenTransfer,
    /// A call into an already-deployed contract; `boot_code_addr` records
    /// whether the target is the designated boot-code address, which stays
    /// admissible after the contract cost limit has been hit.
    ContractCall { boot_code_addr: bool },
    /// A contract deployment.
    SmartContract,
    Coinbase,
    TenureChange { cause: TenureChangeCause },
}

/// The execution oracle's deterministic response to this transaction,
/// carried as data: the cost it would charge on success, or the class of
/// typed failure it would report.
#[derive(Clone, Copy, Debug, PartialEq, Eq)]
pub enum ExecBehavior {
    /// Executes, charging `cost` against the block's execution budget.
    Apply { cost: ExecCost },
    /// Fails with an ordinary typed error; the transaction is invalid and
    /// is dropped, and the build continues.
    Reject,
    /// Fails with an error that the problematic-transaction check flags;
    /// the whole build must abort.
    RejectProblematic,
}

/// One transaction, reduced to the plain values that block assembly reads.
#[derive(Clone, Copy, Debug, PartialEq, Eq)]
pub struct Transaction {
    /// Transaction identifier, as committed to by the block's
    /// transaction-commitment digest.
    pub txid: u64,
    /// Fee paid on successful admission.
    pub fee: u64,
    pub payload: TxPayload,
    /// Result of the static protocol-safety pre-check: a flagged
    /// transaction aborts the whole build, never merely skipped.
    pub flagged_unsafe: bool,
    pub execution: ExecBehavior,
}

/// Why a transaction was skipped: budget- or limit-related, retryable in a
/// later block.
#[derive(Clone, Copy, Debug, PartialEq, Eq)]
pub enum SkipReason {
    /// Admitting it would exceed the block's byte or execution budget.
    BlockTooBig,
    /// The contract cost limit was hit earlier in this block and the
    /// transaction is a contract operation outside the boot address.
    ContractLimitHit,
    /// The block admits nothing further.
    LimitReached,
}

/// Errors raised while constructing a block.
#[derive(Clone, Copy, Debug, PartialEq, Eq)]
pub enum BuildError {
    /// The tenure intent is malformed: a new tenure needs both a coinbase
    /// and a tenure-change transaction.
    ExpectedTenureChange,
    /// The referenced parent block is absent from chain storage.
    NoSuchBlockError,
    /// The transaction alone is disproportionately expensive and will never
    /// fit a block of this size.
    TransactionTooBigError,
    /// The transaction is invalid; it is dropped and the build continues.
    InvalidStacksTransaction,
    /// The named transaction was classified problematic during execution;
    /// the whole build aborts.
    ProblematicTransaction(u64),
    /// The named transaction failed the static protocol-safety pre-check;
    /// the whole build aborts.
    UnsafeTransaction(u64),
}

/// Receipt of a successfully applied transaction.
#[derive(Clone, Copy, Debug, PartialEq, Eq)]
pub struct Receipt {
    pub txid: u64,
    pub fee: u64,
    pub cost: ExecCost,
}

/// Outcome of offering one transaction to the admission gate.
#[derive(Clone, Copy, Debug, PartialEq, Eq)]
pub enum TransactionOutcome {
    /// Admitted: fee paid and receipt.
    Success(u64, Receipt),
    /// Not admitted for budget or limit reasons; retryable later.
    Skipped(SkipReason),
    /// Invalid transaction; dropped, the build continues.
    ProcessingError(BuildError),
    /// Protocol-unsafe transaction; the whole build aborts.
    Problematic(BuildError),
}

/// Block-limit state machine: monotonic, never regresses within one build.
#[derive(Clone, Copy, Debug, PartialEq, Eq)]
pub enum BlockLimitState {
    /// No execution limit hit yet; everything may be attempted.
    NoLimitHit,
    /// The contract cost limit was hit: only calls into the boot-code
    /// address are still attempted.
    ContractLimitHit,
    /// Nothing further is admitted.
    LimitReached,
}

/// Numeric rank of a limit state, for stating monotonicity.
pub open spec fn limit_rank(s: BlockLimitState) -> int {
    match s {
        BlockLimitState::NoLimitHit => 0,
        BlockLimitState::ContractLimitHit => 1,
        BlockLimitState::LimitReached => 2,
    }
}

/// The successor state taken when an admission attempt reports the block
/// budget full.
pub open spec fn spec_advance_limit(s: BlockLimitState) -> BlockLimitState {
    match s {
        BlockLimitState::NoLimitHit => BlockLimitState::ContractLimitHit,
        BlockLimitState::ContractLimitHit => BlockLimitState::LimitReached,
        BlockLimitState::LimitReached => BlockLimitState::LimitReached,
    }
}

impl BlockLimitState {
    /// Advance the machine one step towards `LimitReached`.
    pub fn advance(&self) -> (r: BlockLimitState)
        ensures
            r == spec_advance_limit(*self),
            limit_rank(r) >= limit_rank(*self),
    {
        match self {
            BlockLimitState::NoLimitHit => BlockLimitState::ContractLimitHit,
            BlockLimitState::ContractLimitHit => BlockLimitState::LimitReached,
            BlockLimitState::LimitReached => BlockLimitState::LimitReached,
        }
    }
}

/// Per-build budget configuration.  The execution limit and the overflow
/// heuristic are protocol-consensus values: builder and validator must be
/// configured identically or they will reach different verdicts.
#[derive(Clone, Copy, Debug, PartialEq, Eq)]
pub struct BlockBuilderSettings {
    /// Upper bound on the block body's byte size.
    pub max_block_bytes: u64,
    /// Per-block execution budget.
    pub exec_limit: ExecCost,
    /// Cost-overflow classification threshold, in percent.
    pub tx_limit_proportion_heuristic: u64,
}

impl Default for BlockBuilderSettings {
    /// Mainnet-shaped defaults.
    fn default() -> (r: BlockBuilderSettings)
        ensures
            r.max_block_bytes == MAX_BLOCK_BYTES,
            r.tx_limit_proportion_heuristic == TX_BLOCK_LIMIT_PROPORTION_HEURISTIC,
    {
        BlockBuilderSettings {
            max_block_bytes: MAX_BLOCK_BYTES,
            exec_limit: ExecCost {
                write_length: 15000000,
                write_count: 15000,
                read_length: 100000000,
                read_count: 15000,
                runtime: 5000000000,
            },
            tx_limit_proportion_heuristic: TX_BLOCK_LIMIT_PROPORTION_HEURISTIC,
        }
    }
}

} // verus!

verus! {

/// The zero cost, as a specification value.
pub open spec fn spec_zero_cost() -> ExecCost {
    ExecCost { write_length: 0, write_count: 0, read_length: 0, read_count: 0, runtime: 0 }
}

} // verus!
