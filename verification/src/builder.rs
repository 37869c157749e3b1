//! Block construction: tenure lifecycle resolution, the transaction
//! admission gate, and the builder that assembles a candidate block.
//!
//! Builder and validator share every decision procedure here; the
//! admission logic is one pure function over explicit state, so replaying
//! a transaction list reaches bit-identical conclusions on both sides.
//! A caller driving transactions one at a time through the admission
//! method may stop between admissions at any point and still seal
//! whatever was admitted so far.

use vstd::prelude::*;

use crate::chain::ChainContext;
use crate::chain::CtxV;
use crate::chain::Epoch2Header;
use crate::chain::Epoch2V;
use crate::chain::HeaderV;
use crate::chain::NakamotoBlock;
use crate::chain::NakamotoBlockHeader;
use crate::chain::ParentRefV;
use crate::chain::RecordV;
use crate::chain::TenureParentRef;
use crate::chain::BlockV;
use crate::chain::copy_bytes;
use crate::chain::ctx_wf;
use crate::chain::lemma_store_find_wf;
use crate::chain::spec_block_hash;
use crate::chain::spec_block_id_of;
use crate::chain::spec_first_block_hash;
use crate::chain::spec_first_block_id;
use crate::chain::spec_header_block_id;
use crate::chain::spec_store_find;
use crate::chain::FIRST_BURNCHAIN_CONSENSUS_HASH;
use crate::codec::push_bytes;
use crate::codec::push_id_list;
use crate::codec::push_u64;
use crate::codec::spec_enc_bytes;
use crate::codec::spec_enc_id_list;
use crate::codec::spec_enc_u64;
use crate::codec::spec_tx_len;
use crate::types::BlockBuilderSettings;
use crate::types::BlockLimitState;
use crate::types::BuildError;
use crate::types::ExecBehavior;
use crate::types::ExecCost;
use crate::types::Receipt;
use crate::types::SkipReason;
use crate::types::TenureChangeCause;
use crate::types::Transaction;
use crate::types::TransactionOutcome;
use crate::types::TxPayload;
use crate::types::cost_add;
use crate::types::cost_fits;
use crate::types::cost_le;
use crate::types::spec_advance_limit;
use crate::types::spec_proportion_largest;
use crate::types::spec_zero_cost;

verus! {

/// The coinbase and tenure-change transactions a build starts from, which
/// determine whether a new tenure begins or an existing one continues.
#[derive(Debug, PartialEq, Eq)]
pub struct NakamotoTenureInfo {
    /// Coinbase transaction, if this is a new tenure.
    pub coinbase_tx: Option<Transaction>,
    /// Tenure-change transaction, if a tenure starts or extends.
    pub tenure_change_tx: Option<Transaction>,
}

/// Cause carried by the tenure-change transaction, if there is one and it
/// really is a tenure change.
pub open spec fn spec_tenure_info_cause(t: NakamotoTenureInfo) -> Option<TenureChangeCause> {
    match t.tenure_change_tx {
        Some(tx) => match tx.payload {
            TxPayload::TenureChange { cause } => Some(cause),
            _ => None,
        },
        None => None,
    }
}

impl NakamotoTenureInfo {
    /// Cause of the tenure change, if one is present.
    pub fn cause(&self) -> (r: Option<TenureChangeCause>)
        ensures
            r == spec_tenure_info_cause(*self),
    {
        match &self.tenure_change_tx {
            Some(tx) => match tx.payload {
                TxPayload::TenureChange { cause } => Some(cause),
                _ => None,
            },
            None => None,
        }
    }

    pub fn tenure_change_tx(&self) -> (r: Option<&Transaction>)
        ensures
            match self.tenure_change_tx {
                Some(tx) => r matches Some(t) && *t == tx,
                None => r is None,
            },
    {
        self.tenure_change_tx.as_ref()
    }

    pub fn coinbase_tx(&self) -> (r: Option<&Transaction>)
        ensures
            match self.coinbase_tx {
                Some(tx) => r matches Some(t) && *t == tx,
                None => r is None,
            },
    {
        self.coinbase_tx.as_ref()
    }
}

/// Mathematical model of the per-build linkage data.
pub ghost struct TenureInfoV {
    pub burn_tip: u64,
    pub burn_tip_height: u32,
    pub mainnet: bool,
    pub parent_consensus_hash: u64,
    pub parent_header_hash: Seq<u8>,
    pub parent_stacks_block_height: u64,
    pub parent_burn_block_height: u32,
    pub coinbase_height: u64,
    pub cause: Option<TenureChangeCause>,
}

/// Per-build handle with the resolved parent linkage and the burn-chain
/// snapshot; its lifetime spans exactly one build or validation call.
#[derive(Debug, PartialEq, Eq)]
pub struct MinerTenureInfo {
    pub burn_tip: u64,
    pub burn_tip_height: u32,
    pub mainnet: bool,
    pub parent_consensus_hash: u64,
    pub parent_header_hash: Vec<u8>,
    pub parent_stacks_block_height: u64,
    pub parent_burn_block_height: u32,
    /// One more than the parent's coinbase height, or zero at genesis.
    pub coinbase_height: u64,
    pub cause: Option<TenureChangeCause>,
}

impl View for MinerTenureInfo {
    type V = TenureInfoV;

    open spec fn view(&self) -> TenureInfoV {
        TenureInfoV {
            burn_tip: self.burn_tip,
            burn_tip_height: self.burn_tip_height,
            mainnet: self.mainnet,
            parent_consensus_hash: self.parent_consensus_hash,
            parent_header_hash: self.parent_header_hash@,
            parent_stacks_block_height: self.parent_stacks_block_height,
            parent_burn_block_height: self.parent_burn_block_height,
            coinbase_height: self.coinbase_height,
            cause: self.cause,
        }
    }
}

/// Mathematical model of the scratch execution context.
pub ghost struct ScratchV {
    pub base: Seq<u8>,
    pub limit: ExecCost,
    pub consumed: ExecCost,
    pub applied: Seq<u64>,
}

/// The transactional scratch view of chain state for one build: the
/// execution budget, the cost consumed so far, and the ordered identifiers
/// of the transactions applied.  Dropping it without committing discards
/// all writes; the state-commitment digest seals its contents.
#[derive(Debug, PartialEq, Eq)]
pub struct ExecScratch {
    /// Digest seed binding the parent linkage and tenure kind.
    pub base: Vec<u8>,
    /// Per-block execution budget.
    pub limit: ExecCost,
    /// Cost consumed by the transactions applied so far.
    pub consumed: ExecCost,
    /// Identifiers of the applied transactions, in order.
    pub applied: Vec<u64>,
}

impl View for ExecScratch {
    type V = ScratchV;

    open spec fn view(&self) -> ScratchV {
        ScratchV {
            base: self.base@,
            limit: self.limit,
            consumed: self.consumed,
            applied: self.applied@,
        }
    }
}

/// The scratch context never records more cost than its budget.
pub open spec fn scratch_wf(s: ScratchV) -> bool {
    cost_le(s.consumed, s.limit)
}

/// The state-commitment digest: seals the parent linkage and the ordered
/// applied transactions.
pub open spec fn spec_seal(s: ScratchV) -> Seq<u8> {
    spec_enc_bytes(s.base) + spec_enc_id_list(s.applied)
}

impl ExecScratch {
    /// Seal the scratch context into the state-commitment digest.
    pub fn seal(&self) -> (r: Vec<u8>)
        ensures
            r@ == spec_seal(self@),
    {
        let mut out: Vec<u8> = Vec::new();
        push_bytes(&mut out, &self.base);
        push_id_list(&mut out, &self.applied);
        proof {
            assert(out@ =~= spec_seal(self@));
        }
        out
    }
}

/// The admission-relevant slice of builder-plus-scratch state.
pub ghost struct GateState {
    pub bytes_so_far: u64,
    pub txs: Seq<Transaction>,
    pub consumed: ExecCost,
    pub applied: Seq<u64>,
}

/// Contract operations gated once the contract cost limit has been hit:
/// anything but a call into the boot-code address.
pub open spec fn payload_gated(p: TxPayload) -> bool {
    ||| p matches TxPayload::ContractCall { boot_code_addr } && !boot_code_addr
    ||| p is SmartContract
}

/// The transaction admission gate: one pure decision over explicit state.
///
/// In order: the byte-budget check (which never consults the execution
/// oracle), the limit-state gate, the static safety pre-check, then
/// execution; an execution failure is classified by the cost-overflow
/// heuristic into a retryable skip or a permanent drop.
pub open spec fn spec_admit(
    st: GateState,
    budget: ExecCost,
    tx: Transaction,
    tx_len: u64,
    lstate: BlockLimitState,
    cfg: BlockBuilderSettings,
) -> (TransactionOutcome, GateState) {
    if st.bytes_so_far + tx_len >= cfg.max_block_bytes {
        (TransactionOutcome::Skipped(SkipReason::BlockTooBig), st)
    } else if lstate is LimitReached {
        (TransactionOutcome::Skipped(SkipReason::LimitReached), st)
    } else if lstate is ContractLimitHit && payload_gated(tx.payload) {
        (TransactionOutcome::Skipped(SkipReason::ContractLimitHit), st)
    } else if tx.flagged_unsafe {
        (TransactionOutcome::Problematic(BuildError::UnsafeTransaction(tx.txid)), st)
    } else {
        match tx.execution {
            ExecBehavior::Apply { cost } => {
                if cost_fits(st.consumed, cost, budget) {
                    (
                        TransactionOutcome::Success(
                            tx.fee,
                            Receipt { txid: tx.txid, fee: tx.fee, cost },
                        ),
                        GateState {
                            bytes_so_far: (st.bytes_so_far + tx_len) as u64,
                            txs: st.txs.push(tx),
                            consumed: cost_add(st.consumed, cost),
                            applied: st.applied.push(tx.txid),
                        },
                    )
                } else {
                    if spec_proportion_largest(budget, st.consumed)
                        < cfg.tx_limit_proportion_heuristic {
                        (
                            TransactionOutcome::ProcessingError(BuildError::TransactionTooBigError),
                            st,
                        )
                    } else {
                        (TransactionOutcome::Skipped(SkipReason::BlockTooBig), st)
                    }
                }
            },
            ExecBehavior::Reject => (
                TransactionOutcome::ProcessingError(BuildError::InvalidStacksTransaction),
                st,
            ),
            ExecBehavior::RejectProblematic => (
                TransactionOutcome::Problematic(BuildError::ProblematicTransaction(tx.txid)),
                st,
            ),
        }
    }
}

/// Mathematical model of an in-progress build.
pub ghost struct BuilderV {
    pub epoch2_parent: Option<(Epoch2V, u64)>,
    pub nakamoto_parent: Option<HeaderV>,
    pub coinbase_tx: Option<Transaction>,
    pub tenure_tx: Option<Transaction>,
    pub total_burn: u64,
    pub parent_commit_hash_value: Seq<u8>,
    pub bytes_so_far: u64,
    pub txs: Seq<Transaction>,
    pub header: HeaderV,
}

/// State of one in-progress block build, owned exclusively by it: the
/// resolved parent, the tenure intent, the admitted transactions in final
/// block order, the byte counter, and the partially filled header.
#[derive(Debug, PartialEq, Eq)]
pub struct NakamotoBlockBuilder {
    /// Prior-generation parent header and its consensus hash, if any.
    pub epoch2_parent: Option<(Epoch2Header, u64)>,
    /// Same-generation parent header, if any.
    pub nakamoto_parent: Option<NakamotoBlockHeader>,
    /// Signed coinbase transaction, if starting a new tenure.
    pub coinbase_tx: Option<Transaction>,
    /// Tenure-change transaction, if starting or extending a tenure.
    pub tenure_tx: Option<Transaction>,
    /// Total burn this block represents.
    pub total_burn: u64,
    /// Parent block-commit hash value.
    pub parent_commit_hash_value: Vec<u8>,
    /// Bytes of block space consumed so far.
    pub bytes_so_far: u64,
    /// Transactions admitted so far, in final block order.
    pub txs: Vec<Transaction>,
    /// The header being filled in.
    pub header: NakamotoBlockHeader,
}

impl View for NakamotoBlockBuilder {
    type V = BuilderV;

    open spec fn view(&self) -> BuilderV {
        BuilderV {
            epoch2_parent: match self.epoch2_parent {
                Some((ref e, ch)) => Some((e@, ch)),
                None => None,
            },
            nakamoto_parent: match self.nakamoto_parent {
                Some(ref h) => Some(h@),
                None => None,
            },
            coinbase_tx: self.coinbase_tx,
            tenure_tx: self.tenure_tx,
            total_burn: self.total_burn,
            parent_commit_hash_value: self.parent_commit_hash_value@,
            bytes_so_far: self.bytes_so_far,
            txs: self.txs@,
            header: self.header@,
        }
    }
}

/// The admission-relevant slice of a builder and its scratch context.
pub open spec fn gate_of(b: BuilderV, s: ScratchV) -> GateState {
    GateState { bytes_so_far: b.bytes_so_far, txs: b.txs, consumed: s.consumed, applied: s.applied }
}

/// An empty header extending the given parent.
pub open spec fn spec_header_from_parent(
    chain_length: u64,
    burn_spent: u64,
    consensus_hash: u64,
    parent_block_id: Seq<u8>,
) -> HeaderV {
    HeaderV {
        chain_length,
        burn_spent,
        consensus_hash,
        parent_block_id,
        tx_merkle_root: Seq::empty(),
        state_index_root: Seq::empty(),
        miner_signature: 0,
        signer_signature: 0,
    }
}

/// Builder for a new tenure atop a same-generation parent.
pub open spec fn spec_builder_nakamoto_new_tenure(
    parent_tenure_id: Seq<u8>,
    parent: HeaderV,
    tenure_id_consensus_hash: u64,
    total_burn: u64,
    tenure_change: Transaction,
    coinbase: Transaction,
) -> BuilderV {
    BuilderV {
        epoch2_parent: None,
        nakamoto_parent: Some(parent),
        coinbase_tx: Some(coinbase),
        tenure_tx: Some(tenure_change),
        total_burn,
        parent_commit_hash_value: parent_tenure_id,
        bytes_so_far: 0,
        txs: Seq::empty(),
        header: spec_header_from_parent(
            (parent.chain_length + 1) as u64,
            total_burn,
            tenure_id_consensus_hash,
            spec_header_block_id(parent),
        ),
    }
}

/// Builder continuing the current tenure atop a same-generation parent.
pub open spec fn spec_builder_nakamoto_continue(
    parent: HeaderV,
    tenure_id_consensus_hash: u64,
    total_burn: u64,
    tenure_extend: Option<Transaction>,
) -> BuilderV {
    BuilderV {
        epoch2_parent: None,
        nakamoto_parent: Some(parent),
        coinbase_tx: None,
        tenure_tx: tenure_extend,
        total_burn,
        parent_commit_hash_value: spec_header_block_id(parent),
        bytes_so_far: 0,
        txs: Seq::empty(),
        header: spec_header_from_parent(
            (parent.chain_length + 1) as u64,
            total_burn,
            tenure_id_consensus_hash,
            spec_header_block_id(parent),
        ),
    }
}

/// Builder for a new tenure atop a prior-generation parent.
pub open spec fn spec_builder_epoch2_new_tenure(
    parent: Epoch2V,
    parent_tenure_id_consensus_hash: u64,
    tenure_id_consensus_hash: u64,
    total_burn: u64,
    tenure_change: Transaction,
    coinbase: Transaction,
) -> BuilderV {
    BuilderV {
        epoch2_parent: Some((parent, parent_tenure_id_consensus_hash)),
        nakamoto_parent: None,
        coinbase_tx: Some(coinbase),
        tenure_tx: Some(tenure_change),
        total_burn,
        parent_commit_hash_value: parent.block_hash,
        bytes_so_far: 0,
        txs: Seq::empty(),
        header: spec_header_from_parent(
            (parent.total_work + 1) as u64,
            total_burn,
            tenure_id_consensus_hash,
            spec_block_id_of(parent_tenure_id_consensus_hash, parent.block_hash),
        ),
    }
}

/// Builder starting from the synthetic genesis parent.
pub open spec fn spec_builder_genesis(tenure_change: Transaction, coinbase: Transaction) -> BuilderV {
    BuilderV {
        epoch2_parent: None,
        nakamoto_parent: None,
        coinbase_tx: Some(coinbase),
        tenure_tx: Some(tenure_change),
        total_burn: 0,
        parent_commit_hash_value: spec_first_block_hash(),
        bytes_so_far: 0,
        txs: Seq::empty(),
        header: HeaderV {
            chain_length: 1,
            burn_spent: 0,
            consensus_hash: FIRST_BURNCHAIN_CONSENSUS_HASH,
            parent_block_id: spec_first_block_id(),
            tx_merkle_root: Seq::empty(),
            state_index_root: Seq::empty(),
            miner_signature: 0,
            signer_signature: 0,
        },
    }
}

/// Tenure lifecycle resolution: which builder a parent reference and a
/// tenure intent yield, or the lifecycle error when the combination is
/// illegal.  Pure data-shape validation; chain storage is not touched.
///
/// Atop a same-generation parent, a coinbase and a tenure change together
/// start a new tenure, and their joint absence (or a lone tenure-extend)
/// continues the current one; a coinbase without a tenure change is
/// rejected.  Atop a prior-generation parent a new tenure is mandatory.
/// The synthetic genesis parent always starts a new tenure.
pub open spec fn spec_new_from_parent(
    parent_tenure_id: Seq<u8>,
    parent: ParentRefV,
    tenure_id_consensus_hash: u64,
    total_burn: u64,
    tenure_change: Option<Transaction>,
    coinbase: Option<Transaction>,
) -> Result<BuilderV, BuildError> {
    match parent {
        ParentRefV::NakamotoParent(h) => {
            if tenure_change is Some && coinbase is Some {
                Ok(
                    spec_builder_nakamoto_new_tenure(
                        parent_tenure_id,
                        h,
                        tenure_id_consensus_hash,
                        total_burn,
                        tenure_change.unwrap(),
                        coinbase.unwrap(),
                    ),
                )
            } else if coinbase is None {
                Ok(
                    spec_builder_nakamoto_continue(
                        h,
                        tenure_id_consensus_hash,
                        total_burn,
                        tenure_change,
                    ),
                )
            } else {
                Err(BuildError::ExpectedTenureChange)
            }
        },
        ParentRefV::Epoch2Parent(e, pch) => {
            if tenure_change is Some && coinbase is Some {
                Ok(
                    spec_builder_epoch2_new_tenure(
                        e,
                        pch,
                        tenure_id_consensus_hash,
                        total_burn,
                        tenure_change.unwrap(),
                        coinbase.unwrap(),
                    ),
                )
            } else {
                Err(BuildError::ExpectedTenureChange)
            }
        },
        ParentRefV::Genesis => {
            if tenure_change is Some && coinbase is Some {
                Ok(spec_builder_genesis(tenure_change.unwrap(), coinbase.unwrap()))
            } else {
                Err(BuildError::ExpectedTenureChange)
            }
        },
    }
}

impl NakamotoBlockBuilder {
    /// Builder atop a same-generation parent for a new tenure.
    pub fn new_tenure_from_nakamoto_parent(
        parent_tenure_id: &Vec<u8>,
        parent: &NakamotoBlockHeader,
        tenure_id_consensus_hash: u64,
        total_burn: u64,
        tenure_change: &Transaction,
        coinbase: &Transaction,
    ) -> (r: NakamotoBlockBuilder)
        requires
            parent@.chain_length < u64::MAX,
        ensures
            r@ == spec_builder_nakamoto_new_tenure(
                parent_tenure_id@,
                parent@,
                tenure_id_consensus_hash,
                total_burn,
                *tenure_change,
                *coinbase,
            ),
    {
        NakamotoBlockBuilder {
            epoch2_parent: None,
            nakamoto_parent: Some(parent.duplicate()),
            coinbase_tx: Some(*coinbase),
            tenure_tx: Some(*tenure_change),
            total_burn,
            parent_commit_hash_value: copy_bytes(parent_tenure_id),
            bytes_so_far: 0,
            txs: Vec::new(),
            header: NakamotoBlockHeader::from_parent_empty(
                parent.chain_length + 1,
                total_burn,
                tenure_id_consensus_hash,
                parent.block_id(),
            ),
        }
    }

    /// Builder atop a same-generation parent for a new block within the
    /// current tenure.
    pub fn continue_tenure_from_nakamoto_parent(
        parent: &NakamotoBlockHeader,
        tenure_id_consensus_hash: u64,
        total_burn: u64,
        tenure_extend: Option<&Transaction>,
    ) -> (r: NakamotoBlockBuilder)
        requires
            parent@.chain_length < u64::MAX,
        ensures
            r@ == spec_builder_nakamoto_continue(
                parent@,
                tenure_id_consensus_hash,
                total_burn,
                match tenure_extend {
                    Some(t) => Some(*t),
                    None => None,
                },
            ),
    {
        NakamotoBlockBuilder {
            epoch2_parent: None,
            nakamoto_parent: Some(parent.duplicate()),
            coinbase_tx: None,
            tenure_tx: match tenure_extend {
                Some(t) => Some(*t),
                None => None,
            },
            total_burn,
            parent_commit_hash_value: parent.block_id(),
            bytes_so_far: 0,
            txs: Vec::new(),
            header: NakamotoBlockHeader::from_parent_empty(
                parent.chain_length + 1,
                total_burn,
                tenure_id_consensus_hash,
                parent.block_id(),
            ),
        }
    }

    /// Builder atop a prior-generation parent for a new tenure.
    pub fn new_tenure_from_epoch2_parent(
        parent: &Epoch2Header,
        parent_tenure_id_consensus_hash: u64,
        tenure_id_consensus_hash: u64,
        total_burn: u64,
        tenure_change: &Transaction,
        coinbase: &Transaction,
    ) -> (r: NakamotoBlockBuilder)
        requires
            parent@.total_work < u64::MAX,
        ensures
            r@ == spec_builder_epoch2_new_tenure(
                parent@,
                parent_tenure_id_consensus_hash,
                tenure_id_consensus_hash,
                total_burn,
                *tenure_change,
                *coinbase,
            ),
    {
        let mut pid: Vec<u8> = Vec::new();
        push_u64(&mut pid, parent_tenure_id_consensus_hash);
        push_bytes(&mut pid, &parent.block_hash);
        proof {
            assert(pid@ =~= spec_block_id_of(parent_tenure_id_consensus_hash, parent@.block_hash));
        }
        NakamotoBlockBuilder {
            epoch2_parent: Some((parent.duplicate(), parent_tenure_id_consensus_hash)),
            nakamoto_parent: None,
            coinbase_tx: Some(*coinbase),
            tenure_tx: Some(*tenure_change),
            total_burn,
            parent_commit_hash_value: copy_bytes(&parent.block_hash),
            bytes_so_far: 0,
            txs: Vec::new(),
            header: NakamotoBlockHeader::from_parent_empty(
                parent.total_work + 1,
                total_burn,
                tenure_id_consensus_hash,
                pid,
            ),
        }
    }

    /// Builder from the synthetic genesis parent (bootstrap and testing).
    pub fn new_tenure_from_genesis(tenure_change: &Transaction, coinbase: &Transaction) -> (r:
        NakamotoBlockBuilder)
        ensures
            r@ == spec_builder_genesis(*tenure_change, *coinbase),
    {
        NakamotoBlockBuilder {
            epoch2_parent: None,
            nakamoto_parent: None,
            coinbase_tx: Some(*coinbase),
            tenure_tx: Some(*tenure_change),
            total_burn: 0,
            parent_commit_hash_value: Vec::new(),
            bytes_so_far: 0,
            txs: Vec::new(),
            header: NakamotoBlockHeader::genesis(),
        }
    }

    /// Resolve the tenure lifecycle: build atop the given parent with the
    /// given intent, or fail with the lifecycle error before any
    /// transaction is touched.
    pub fn new_from_parent(
        parent_tenure_id: &Vec<u8>,
        parent: &TenureParentRef,
        tenure_id_consensus_hash: u64,
        total_burn: u64,
        tenure_change: Option<&Transaction>,
        coinbase: Option<&Transaction>,
    ) -> (r: Result<NakamotoBlockBuilder, BuildError>)
        requires
            parent@ matches ParentRefV::NakamotoParent(h) ==> h.chain_length < u64::MAX,
            parent@ matches ParentRefV::Epoch2Parent(e, ch) ==> e.total_work < u64::MAX,
        ensures
            ({
                let s = spec_new_from_parent(
                    parent_tenure_id@,
                    parent@,
                    tenure_id_consensus_hash,
                    total_burn,
                    match tenure_change {
                        Some(t) => Some(*t),
                        None => None,
                    },
                    match coinbase {
                        Some(c) => Some(*c),
                        None => None,
                    },
                );
                match s {
                    Ok(bv) => r matches Ok(b) && b@ == bv,
                    Err(e) => r matches Err(e2) && e2 == e,
                }
            }),
    {
        match parent {
            TenureParentRef::NakamotoParent(h) => {
                match (tenure_change, coinbase) {
                    (Some(tc), Some(cb)) => Ok(
                        NakamotoBlockBuilder::new_tenure_from_nakamoto_parent(
                            parent_tenure_id,
                            h,
                            tenure_id_consensus_hash,
                            total_burn,
                            tc,
                            cb,
                        ),
                    ),
                    (tc, None) => Ok(
                        NakamotoBlockBuilder::continue_tenure_from_nakamoto_parent(
                            h,
                            tenure_id_consensus_hash,
                            total_burn,
                            tc,
                        ),
                    ),
                    (None, Some(_)) => Err(BuildError::ExpectedTenureChange),
                }
            },
            TenureParentRef::Epoch2Parent(e, pch) => {
                match (tenure_change, coinbase) {
                    (Some(tc), Some(cb)) => Ok(
                        NakamotoBlockBuilder::new_tenure_from_epoch2_parent(
                            e,
                            *pch,
                            tenure_id_consensus_hash,
                            total_burn,
                            tc,
                            cb,
                        ),
                    ),
                    _ => Err(BuildError::ExpectedTenureChange),
                }
            },
            TenureParentRef::Genesis => {
                match (tenure_change, coinbase) {
                    (Some(tc), Some(cb)) => Ok(
                        NakamotoBlockBuilder::new_tenure_from_genesis(tc, cb),
                    ),
                    _ => Err(BuildError::ExpectedTenureChange),
                }
            },
        }
    }

    /// Bytes of block space consumed so far.
    pub fn get_bytes_so_far(&self) -> (r: u64)
        ensures
            r == self@.bytes_so_far,
    {
        self.bytes_so_far
    }

    /// Offer one transaction to the admission gate.  On success the
    /// transaction is appended, the byte counter advances, and its cost is
    /// charged; every other outcome leaves the build unchanged.
    pub fn try_mine_tx_with_len(
        &mut self,
        scratch: &mut ExecScratch,
        tx: &Transaction,
        tx_len: u64,
        limit_behavior: &BlockLimitState,
        settings: &BlockBuilderSettings,
    ) -> (r: TransactionOutcome)
        requires
            scratch_wf(old(scratch)@),
        ensures
            ({
                let r0 = spec_admit(
                    gate_of(old(self)@, old(scratch)@),
                    old(scratch)@.limit,
                    *tx,
                    tx_len,
                    *limit_behavior,
                    *settings,
                );
                &&& r == r0.0
                &&& final(self)@ == (BuilderV {
                    bytes_so_far: r0.1.bytes_so_far,
                    txs: r0.1.txs,
                    ..old(self)@
                })
                &&& final(scratch)@ == (ScratchV {
                    consumed: r0.1.consumed,
                    applied: r0.1.applied,
                    ..old(scratch)@
                })
            }),
            scratch_wf(final(scratch)@),
    {
        if tx_len >= settings.max_block_bytes || self.bytes_so_far >= settings.max_block_bytes
            - tx_len {
            return TransactionOutcome::Skipped(SkipReason::BlockTooBig);
        }
        match limit_behavior {
            BlockLimitState::ContractLimitHit => {
                match &tx.payload {
                    TxPayload::ContractCall { boot_code_addr } => {
                        if !*boot_code_addr {
                            return TransactionOutcome::Skipped(SkipReason::ContractLimitHit);
                        }
                    },
                    TxPayload::SmartContract => {
                        return TransactionOutcome::Skipped(SkipReason::ContractLimitHit);
                    },
                    _ => {},
                }
            },
            BlockLimitState::LimitReached => {
                return TransactionOutcome::Skipped(SkipReason::LimitReached);
            },
            BlockLimitState::NoLimitHit => {},
        }
        if tx.flagged_unsafe {
            return TransactionOutcome::Problematic(BuildError::UnsafeTransaction(tx.txid));
        }
        match &tx.execution {
            ExecBehavior::Apply { cost } => {
                if scratch.limit.admits(&scratch.consumed, cost) {
                    scratch.consumed = scratch.consumed.add(cost);
                    scratch.applied.push(tx.txid);
                    self.txs.push(*tx);
                    self.bytes_so_far = self.bytes_so_far + tx_len;
                    TransactionOutcome::Success(
                        tx.fee,
                        Receipt { txid: tx.txid, fee: tx.fee, cost: *cost },
                    )
                } else {
                    let pct = scratch.limit.proportion_largest_dimension(&scratch.consumed);
                    if pct < settings.tx_limit_proportion_heuristic {
                        TransactionOutcome::ProcessingError(BuildError::TransactionTooBigError)
                    } else {
                        TransactionOutcome::Skipped(SkipReason::BlockTooBig)
                    }
                }
            },
            ExecBehavior::Reject => TransactionOutcome::ProcessingError(
                BuildError::InvalidStacksTransaction,
            ),
            ExecBehavior::RejectProblematic => TransactionOutcome::Problematic(
                BuildError::ProblematicTransaction(tx.txid),
            ),
        }
    }
}

} // verus!

// Tenure-info loading, scratch creation, finalization, and the two build
// drivers (fixed-list mining and full block assembly).

verus! {

/// Tag byte binding the tenure kind into the state-commitment seed.
pub open spec fn spec_enc_cause_opt(c: Option<TenureChangeCause>) -> Seq<u8> {
    match c {
        None => seq![0u8],
        Some(TenureChangeCause::BlockFound) => seq![1u8],
        Some(TenureChangeCause::Extended) => seq![2u8],
    }
}

/// Seed of the state-commitment digest: the parent linkage, the coinbase
/// height, and the tenure kind.
pub open spec fn spec_scratch_base(info: TenureInfoV) -> Seq<u8> {
    spec_enc_u64(info.parent_consensus_hash) + spec_enc_bytes(info.parent_header_hash)
        + spec_enc_u64(info.coinbase_height) + spec_enc_cause_opt(info.cause)
}

/// One more than the stored coinbase height at `id`, or zero when storage
/// has no entry there (the genesis case).
pub open spec fn spec_coinbase_height_at(store: Seq<RecordV>, id: Seq<u8>) -> u64 {
    match spec_store_find(store, id) {
        Some(rec) => match rec.coinbase_height {
            Some(c) => (c + 1) as u64,
            None => 0,
        },
        None => 0,
    }
}

/// Resolving the per-build linkage data against chain storage: the
/// referenced parent must be present (except for the synthetic genesis
/// parent), and the new coinbase height is one past the parent's.
pub open spec fn spec_load_tenure_info(
    ctx: CtxV,
    b: BuilderV,
    cause: Option<TenureChangeCause>,
) -> Result<TenureInfoV, BuildError> {
    match b.nakamoto_parent {
        Some(h) => {
            let id = spec_header_block_id(h);
            match spec_store_find(ctx.store, id) {
                None => Err(BuildError::NoSuchBlockError),
                Some(rec) => Ok(
                    TenureInfoV {
                        burn_tip: ctx.burn_tip,
                        burn_tip_height: ctx.burn_tip_height,
                        mainnet: ctx.mainnet,
                        parent_consensus_hash: h.consensus_hash,
                        parent_header_hash: spec_block_hash(h),
                        parent_stacks_block_height: rec.stacks_block_height,
                        parent_burn_block_height: rec.burn_header_height,
                        coinbase_height: spec_coinbase_height_at(ctx.store, id),
                        cause,
                    },
                ),
            }
        },
        None => match b.epoch2_parent {
            Some((e, ech)) => {
                let id = spec_block_id_of(ech, e.block_hash);
                match spec_store_find(ctx.store, id) {
                    None => Err(BuildError::NoSuchBlockError),
                    Some(rec) => Ok(
                        TenureInfoV {
                            burn_tip: ctx.burn_tip,
                            burn_tip_height: ctx.burn_tip_height,
                            mainnet: ctx.mainnet,
                            parent_consensus_hash: ech,
                            parent_header_hash: e.block_hash,
                            parent_stacks_block_height: rec.stacks_block_height,
                            parent_burn_block_height: rec.burn_header_height,
                            coinbase_height: spec_coinbase_height_at(ctx.store, id),
                            cause,
                        },
                    ),
                }
            },
            None => Ok(
                TenureInfoV {
                    burn_tip: ctx.burn_tip,
                    burn_tip_height: ctx.burn_tip_height,
                    mainnet: ctx.mainnet,
                    parent_consensus_hash: FIRST_BURNCHAIN_CONSENSUS_HASH,
                    parent_header_hash: spec_first_block_hash(),
                    parent_stacks_block_height: 0,
                    parent_burn_block_height: 0,
                    coinbase_height: spec_coinbase_height_at(ctx.store, spec_first_block_id()),
                    cause,
                },
            ),
        },
    }
}

/// The scratch context a build opens: empty, budgeted, seeded with the
/// parent linkage.
pub open spec fn spec_tenure_begin(info: TenureInfoV, cfg: BlockBuilderSettings) -> ScratchV {
    ScratchV {
        base: spec_scratch_base(info),
        limit: cfg.exec_limit,
        consumed: spec_zero_cost(),
        applied: Seq::empty(),
    }
}

/// Ordered identifiers of a transaction list.
pub open spec fn spec_txids(txs: Seq<Transaction>) -> Seq<u64> {
    txs.map_values(|t: Transaction| t.txid)
}

/// The transaction-commitment digest over the ordered identifiers.
pub open spec fn spec_merkle_root(txs: Seq<Transaction>) -> Seq<u8> {
    spec_enc_id_list(spec_txids(txs))
}

/// Sealing a finished build: both commitment digests are computed exactly
/// once, after all transactions have been attempted, and fill the header.
pub open spec fn spec_finalize(b: BuilderV, s: ScratchV) -> BlockV {
    BlockV {
        header: HeaderV {
            tx_merkle_root: spec_merkle_root(b.txs),
            state_index_root: spec_seal(s),
            ..b.header
        },
        txs: b.txs,
    }
}

/// First tenure-change transaction in a list, if any.
pub open spec fn spec_first_tenure_change(txs: Seq<Transaction>) -> Option<Transaction>
    decreases txs.len(),
{
    if txs.len() == 0 {
        None
    } else if txs[0].payload is TenureChange {
        Some(txs[0])
    } else {
        spec_first_tenure_change(txs.skip(1))
    }
}

/// First coinbase transaction in a list, if any.
pub open spec fn spec_first_coinbase(txs: Seq<Transaction>) -> Option<Transaction>
    decreases txs.len(),
{
    if txs.len() == 0 {
        None
    } else if txs[0].payload is Coinbase {
        Some(txs[0])
    } else {
        spec_first_coinbase(txs.skip(1))
    }
}

/// Cause carried by the first tenure-change transaction in a list.
pub open spec fn spec_txs_tenure_cause(txs: Seq<Transaction>) -> Option<TenureChangeCause> {
    match spec_first_tenure_change(txs) {
        Some(tx) => match tx.payload {
            TxPayload::TenureChange { cause } => Some(cause),
            _ => None,
        },
        None => None,
    }
}

/// Mining a fixed list: offer each transaction in order, continue past
/// skips and errors, abort the whole build on a problematic transaction.
pub open spec fn spec_mine_list(
    st: GateState,
    budget: ExecCost,
    txs: Seq<Transaction>,
    cfg: BlockBuilderSettings,
) -> Result<GateState, BuildError>
    decreases txs.len(),
{
    if txs.len() == 0 {
        Ok(st)
    } else {
        let r0 = spec_admit(
            st,
            budget,
            txs[0],
            spec_tx_len(txs[0]) as u64,
            BlockLimitState::NoLimitHit,
            cfg,
        );
        if r0.0 is Problematic {
            Err(BuildError::ProblematicTransaction(txs[0].txid))
        } else {
            spec_mine_list(r0.1, budget, txs.skip(1), cfg)
        }
    }
}

/// Full assembly loop: like mining a fixed list, but the block-limit
/// state machine advances whenever an attempt reports the block full, and
/// gates later attempts.
pub open spec fn spec_build_loop(
    st: GateState,
    budget: ExecCost,
    ls: BlockLimitState,
    txs: Seq<Transaction>,
    cfg: BlockBuilderSettings,
) -> Result<(GateState, BlockLimitState), BuildError>
    decreases txs.len(),
{
    if txs.len() == 0 {
        Ok((st, ls))
    } else {
        let r0 = spec_admit(st, budget, txs[0], spec_tx_len(txs[0]) as u64, ls, cfg);
        if r0.0 is Problematic {
            Err(BuildError::ProblematicTransaction(txs[0].txid))
        } else {
            let ls2 = if r0.0 == TransactionOutcome::Skipped(SkipReason::BlockTooBig) {
                spec_advance_limit(ls)
            } else {
                ls
            };
            spec_build_loop(r0.1, budget, ls2, txs.skip(1), cfg)
        }
    }
}

/// The tenure transactions a build applies first: the tenure change, then
/// the coinbase.
pub open spec fn spec_initial_txs(t: NakamotoTenureInfo) -> Seq<Transaction> {
    (match t.tenure_change_tx {
        Some(tc) => seq![tc],
        None => Seq::empty(),
    }) + (match t.coinbase_tx {
        Some(cb) => seq![cb],
        None => Seq::empty(),
    })
}

/// Building a block from a fixed, ordered transaction list atop an
/// already-resolved builder.
pub open spec fn spec_make_from_txs(
    ctx: CtxV,
    b0: BuilderV,
    txs: Seq<Transaction>,
    cfg: BlockBuilderSettings,
) -> Result<(BlockV, u64, ExecCost), BuildError> {
    match spec_load_tenure_info(ctx, b0, spec_txs_tenure_cause(txs)) {
        Err(e) => Err(e),
        Ok(info) => {
            let s0 = spec_tenure_begin(info, cfg);
            match spec_mine_list(gate_of(b0, s0), cfg.exec_limit, txs, cfg) {
                Err(e) => Err(e),
                Ok(st) => {
                    let b1 = BuilderV { bytes_so_far: st.bytes_so_far, txs: st.txs, ..b0 };
                    let s1 = ScratchV { consumed: st.consumed, applied: st.applied, ..s0 };
                    Ok((spec_finalize(b1, s1), st.bytes_so_far, st.consumed))
                },
            }
        },
    }
}

/// Building a block from a parent reference, a tenure intent, and an
/// ordered transaction list: resolve the lifecycle, open the scratch
/// context, apply the tenure transactions then the list, and seal.
pub open spec fn spec_build_block(
    ctx: CtxV,
    parent_tenure_id: Seq<u8>,
    parent: ParentRefV,
    tenure_id_consensus_hash: u64,
    total_burn: u64,
    tinfo: NakamotoTenureInfo,
    txs: Seq<Transaction>,
    cfg: BlockBuilderSettings,
) -> Result<(BlockV, ExecCost, u64), BuildError> {
    match spec_new_from_parent(
        parent_tenure_id,
        parent,
        tenure_id_consensus_hash,
        total_burn,
        tinfo.tenure_change_tx,
        tinfo.coinbase_tx,
    ) {
        Err(e) => Err(e),
        Ok(b0) => match spec_load_tenure_info(ctx, b0, spec_tenure_info_cause(tinfo)) {
            Err(e) => Err(e),
            Ok(info) => {
                let s0 = spec_tenure_begin(info, cfg);
                match spec_build_loop(
                    gate_of(b0, s0),
                    cfg.exec_limit,
                    BlockLimitState::NoLimitHit,
                    spec_initial_txs(tinfo) + txs,
                    cfg,
                ) {
                    Err(e) => Err(e),
                    Ok((st, ls)) => {
                        let b1 = BuilderV { bytes_so_far: st.bytes_so_far, txs: st.txs, ..b0 };
                        let s1 = ScratchV { consumed: st.consumed, applied: st.applied, ..s0 };
                        Ok((spec_finalize(b1, s1), st.consumed, st.bytes_so_far))
                    },
                }
            },
        },
    }
}

/// Collect the ordered transaction identifiers.
pub fn collect_txids(txs: &Vec<Transaction>) -> (r: Vec<u64>)
    ensures
        r@ == spec_txids(txs@),
{
    let mut r: Vec<u64> = Vec::new();
    let mut i: usize = 0;
    while i < txs.len()
        invariant
            i <= txs@.len(),
            r@ == spec_txids(txs@.take(i as int)),
        decreases txs.len() - i,
    {
        r.push(txs[i].txid);
        proof {
            assert(spec_txids(txs@.take(i + 1)) =~= spec_txids(txs@.take(i as int)).push(
                txs@[i as int].txid,
            ));
        }
        i = i + 1;
    }
    proof {
        assert(txs@.take(txs@.len() as int) =~= txs@);
    }
    r
}

/// Copy a transaction list.
pub fn copy_txs(txs: &Vec<Transaction>) -> (r: Vec<Transaction>)
    ensures
        r@ == txs@,
{
    let mut r: Vec<Transaction> = Vec::new();
    let mut i: usize = 0;
    while i < txs.len()
        invariant
            i <= txs@.len(),
            r@ == txs@.take(i as int),
        decreases txs.len() - i,
    {
        r.push(txs[i]);
        proof {
            assert(txs@.take(i + 1) =~= txs@.take(i as int).push(txs@[i as int]));
        }
        i = i + 1;
    }
    proof {
        assert(txs@.take(txs@.len() as int) =~= txs@);
    }
    r
}

/// Cause of the first tenure-change transaction in a list.
pub fn find_tenure_cause(txs: &Vec<Transaction>) -> (r: Option<TenureChangeCause>)
    ensures
        r == spec_txs_tenure_cause(txs@),
{
    let mut i: usize = 0;
    proof {
        assert(txs@.skip(0) =~= txs@);
    }
    while i < txs.len()
        invariant
            i <= txs@.len(),
            spec_first_tenure_change(txs@) == spec_first_tenure_change(txs@.skip(i as int)),
        decreases txs.len() - i,
    {
        match txs[i].payload {
            TxPayload::TenureChange { cause } => {
                proof {
                    assert(txs@.skip(i as int)[0] == txs@[i as int]);
                }
                return Some(cause);
            },
            _ => {},
        }
        proof {
            assert(txs@.skip(i as int)[0] == txs@[i as int]);
            assert(txs@.skip(i as int).skip(1) =~= txs@.skip(i + 1));
        }
        i = i + 1;
    }
    proof {
        assert(txs@.skip(txs@.len() as int).len() == 0);
    }
    None
}

impl NakamotoBlockBuilder {
    /// Look up the coinbase height one past the parent's, as recorded at
    /// the given block identifier.
    fn coinbase_height_lookup(ctx: &ChainContext, id: &Vec<u8>) -> (r: u64)
        requires
            ctx_wf(ctx@),
        ensures
            r == spec_coinbase_height_at(ctx@.store, id@),
    {
        match ctx.store.find_record(id) {
            Some(i) => {
                proof {
                    lemma_store_find_wf(ctx@.store, id@);
                }
                match ctx.store.records[i].coinbase_height {
                    Some(c) => c + 1,
                    None => 0,
                }
            },
            None => 0,
        }
    }

    /// Resolve the per-build linkage data against chain storage.  Fails
    /// with `NoSuchBlockError` when the referenced parent is absent.
    pub fn load_tenure_info(&self, ctx: &ChainContext, cause: Option<TenureChangeCause>) -> (r:
        Result<MinerTenureInfo, BuildError>)
        requires
            ctx_wf(ctx@),
        ensures
            ({
                let s = spec_load_tenure_info(ctx@, self@, cause);
                match s {
                    Ok(iv) => r matches Ok(info) && info@ == iv,
                    Err(e) => r matches Err(e2) && e2 == e,
                }
            }),
    {
        match &self.nakamoto_parent {
            Some(h) => {
                let id = h.block_id();
                match ctx.store.find_record(&id) {
                    None => Err(BuildError::NoSuchBlockError),
                    Some(i) => {
                        let cbh = Self::coinbase_height_lookup(ctx, &id);
                        Ok(
                            MinerTenureInfo {
                                burn_tip: ctx.burn_tip,
                                burn_tip_height: ctx.burn_tip_height,
                                mainnet: ctx.mainnet,
                                parent_consensus_hash: h.consensus_hash,
                                parent_header_hash: h.block_hash(),
                                parent_stacks_block_height: ctx.store.records[
                                    i
                                ].stacks_block_height,
                                parent_burn_block_height: ctx.store.records[i].burn_header_height,
                                coinbase_height: cbh,
                                cause,
                            },
                        )
                    },
                }
            },
            None => match &self.epoch2_parent {
                Some((e, ech)) => {
                    let mut id: Vec<u8> = Vec::new();
                    push_u64(&mut id, *ech);
                    push_bytes(&mut id, &e.block_hash);
                    proof {
                        assert(id@ =~= spec_block_id_of(*ech, e@.block_hash));
                    }
                    match ctx.store.find_record(&id) {
                        None => Err(BuildError::NoSuchBlockError),
                        Some(i) => {
                            let cbh = Self::coinbase_height_lookup(ctx, &id);
                            Ok(
                                MinerTenureInfo {
                                    burn_tip: ctx.burn_tip,
                                    burn_tip_height: ctx.burn_tip_height,
                                    mainnet: ctx.mainnet,
                                    parent_consensus_hash: *ech,
                                    parent_header_hash: copy_bytes(&e.block_hash),
                                    parent_stacks_block_height: ctx.store.records[
                                        i
                                    ].stacks_block_height,
                                    parent_burn_block_height: ctx.store.records[
                                        i
                                    ].burn_header_height,
                                    coinbase_height: cbh,
                                    cause,
                                },
                            )
                        },
                    }
                },
                None => {
                    let g = TenureParentRef::Genesis;
                    let id = g.block_id();
                    let cbh = Self::coinbase_height_lookup(ctx, &id);
                    Ok(
                        MinerTenureInfo {
                            burn_tip: ctx.burn_tip,
                            burn_tip_height: ctx.burn_tip_height,
                            mainnet: ctx.mainnet,
                            parent_consensus_hash: FIRST_BURNCHAIN_CONSENSUS_HASH,
                            parent_header_hash: Vec::new(),
                            parent_stacks_block_height: 0,
                            parent_burn_block_height: 0,
                            coinbase_height: cbh,
                            cause,
                        },
                    )
                },
            },
        }
    }

    /// Open the scratch execution context for this build.
    pub fn tenure_begin(&self, info: &MinerTenureInfo, settings: &BlockBuilderSettings) -> (r:
        ExecScratch)
        ensures
            r@ == spec_tenure_begin(info@, *settings),
            scratch_wf(r@),
    {
        let mut base: Vec<u8> = Vec::new();
        push_u64(&mut base, info.parent_consensus_hash);
        push_bytes(&mut base, &info.parent_header_hash);
        push_u64(&mut base, info.coinbase_height);
        match info.cause {
            None => base.push(0u8),
            Some(TenureChangeCause::BlockFound) => base.push(1u8),
            Some(TenureChangeCause::Extended) => base.push(2u8),
        }
        proof {
            assert(base@ =~= spec_scratch_base(info@));
        }
        ExecScratch {
            base,
            limit: settings.exec_limit,
            consumed: ExecCost::zero(),
            applied: Vec::new(),
        }
    }

    /// Seal the finished build into an immutable block: compute the
    /// transaction-commitment and state-commitment digests and fill them
    /// into the header.  Terminal: called once, after all transactions.
    pub fn mine_nakamoto_block(&mut self, scratch: &ExecScratch) -> (r: NakamotoBlock)
        ensures
            r@ == spec_finalize(old(self)@, scratch@),
            final(self)@ == (BuilderV {
                header: spec_finalize(old(self)@, scratch@).header,
                ..old(self)@
            }),
    {
        let ids = collect_txids(&self.txs);
        let mut root: Vec<u8> = Vec::new();
        push_id_list(&mut root, &ids);
        proof {
            assert(root@ =~= spec_merkle_root(old(self)@.txs));
        }
        let seal = scratch.seal();
        self.header.tx_merkle_root = root;
        self.header.state_index_root = seal;
        NakamotoBlock { header: self.header.duplicate(), txs: copy_txs(&self.txs) }
    }

    /// Finish the build: return the execution cost consumed.  On the
    /// mining path the caller commits the scratch writes; on the
    /// validation path they are discarded.  Either way the scratch context
    /// is consumed here and cannot be reused.
    pub fn tenure_finish(self, scratch: ExecScratch) -> (r: ExecCost)
        ensures
            r == scratch@.consumed,
    {
        scratch.consumed
    }

    /// Build a block from a fixed, ordered transaction list (testing and
    /// replay path): every transaction is offered with no limit gate,
    /// skips and errors are passed over, and a problematic transaction
    /// aborts the whole build.
    pub fn make_nakamoto_block_from_txs(
        &mut self,
        ctx: &ChainContext,
        txs: &Vec<Transaction>,
        settings: &BlockBuilderSettings,
    ) -> (r: Result<(NakamotoBlock, u64, ExecCost), BuildError>)
        requires
            ctx_wf(ctx@),
        ensures
            ({
                let s = spec_make_from_txs(ctx@, old(self)@, txs@, *settings);
                match s {
                    Ok((bv, sz, cost)) => r matches Ok(t) && t.0@ == bv && t.1 == sz && t.2
                        == cost,
                    Err(e) => r matches Err(e2) && e2 == e,
                }
            }),
    {
        let ghost b0 = self@;
        let cause = find_tenure_cause(txs);
        let info = match self.load_tenure_info(ctx, cause) {
            Ok(info) => info,
            Err(e) => {
                return Err(e);
            },
        };
        let mut scratch = self.tenure_begin(&info, settings);
        let ghost s0 = scratch@;
        let mut i: usize = 0;
        proof {
            assert(txs@.skip(0) =~= txs@);
        }
        while i < txs.len()
            invariant
                b0 == old(self)@,
                i <= txs@.len(),
                ctx_wf(ctx@),
                scratch_wf(scratch@),
                spec_load_tenure_info(ctx@, b0, spec_txs_tenure_cause(txs@)) == Ok::<
                    TenureInfoV,
                    BuildError,
                >(info@),
                s0 == spec_tenure_begin(info@, *settings),
                self@ == (BuilderV {
                    bytes_so_far: self@.bytes_so_far,
                    txs: self@.txs,
                    ..b0
                }),
                scratch@ == (ScratchV {
                    consumed: scratch@.consumed,
                    applied: scratch@.applied,
                    ..s0
                }),
                spec_mine_list(gate_of(b0, s0), s0.limit, txs@, *settings) == spec_mine_list(
                    gate_of(self@, scratch@),
                    s0.limit,
                    txs@.skip(i as int),
                    *settings,
                ),
            decreases txs.len() - i,
        {
            let tx = txs[i];
            let tl = tx.tx_len();
            let ghost pre_b = self@;
            let ghost pre_s = scratch@;
            proof {
                assert(txs@.skip(i as int)[0] == txs@[i as int]);
                assert(txs@.skip(i as int).skip(1) =~= txs@.skip(i + 1));
            }
            let outcome = self.try_mine_tx_with_len(
                &mut scratch,
                &tx,
                tl,
                &BlockLimitState::NoLimitHit,
                settings,
            );
            match outcome {
                TransactionOutcome::Problematic(_) => {
                    proof {
                        let r0 = spec_admit(
                            gate_of(pre_b, pre_s),
                            pre_s.limit,
                            tx,
                            tl,
                            BlockLimitState::NoLimitHit,
                            *settings,
                        );
                        assert(outcome == r0.0);
                        assert(spec_tx_len(tx) as u64 == tl);
                        assert(spec_mine_list(
                            gate_of(pre_b, pre_s),
                            s0.limit,
                            txs@.skip(i as int),
                            *settings,
                        ) == Err::<GateState, BuildError>(
                            BuildError::ProblematicTransaction(tx.txid),
                        ));
                        assert(spec_make_from_txs(ctx@, b0, txs@, *settings) == Err::<
                            (BlockV, u64, ExecCost),
                            BuildError,
                        >(BuildError::ProblematicTransaction(tx.txid)));
                    }
                    return Err(BuildError::ProblematicTransaction(tx.txid));
                },
                _ => {},
            }
            i = i + 1;
        }
        proof {
            assert(txs@.skip(txs@.len() as int).len() == 0);
        }
        let block = self.mine_nakamoto_block(&scratch);
        let size = self.bytes_so_far;
        let cost = scratch.consumed;
        Ok((block, size, cost))
    }

    /// Assemble a block: resolve the tenure lifecycle from the parent
    /// reference and intent, open the scratch context, apply the tenure
    /// transactions then the supplied list in order, and seal.  Mempool
    /// selection and fee ranking are the caller's business; the list
    /// arrives already ordered.
    pub fn build_nakamoto_block(
        ctx: &ChainContext,
        parent_tenure_id: &Vec<u8>,
        parent: &TenureParentRef,
        tenure_id_consensus_hash: u64,
        total_burn: u64,
        tenure_info: &NakamotoTenureInfo,
        txs: &Vec<Transaction>,
        settings: &BlockBuilderSettings,
    ) -> (r: Result<(NakamotoBlock, ExecCost, u64), BuildError>)
        requires
            ctx_wf(ctx@),
            parent@ matches ParentRefV::NakamotoParent(h) ==> h.chain_length < u64::MAX,
            parent@ matches ParentRefV::Epoch2Parent(e, ch) ==> e.total_work < u64::MAX,
        ensures
            ({
                let s = spec_build_block(
                    ctx@,
                    parent_tenure_id@,
                    parent@,
                    tenure_id_consensus_hash,
                    total_burn,
                    *tenure_info,
                    txs@,
                    *settings,
                );
                match s {
                    Ok((bv, cost, sz)) => r matches Ok(t) && t.0@ == bv && t.1 == cost && t.2
                        == sz,
                    Err(e) => r matches Err(e2) && e2 == e,
                }
            }),
    {
        let mut builder = match NakamotoBlockBuilder::new_from_parent(
            parent_tenure_id,
            parent,
            tenure_id_consensus_hash,
            total_burn,
            tenure_info.tenure_change_tx(),
            tenure_info.coinbase_tx(),
        ) {
            Ok(b) => b,
            Err(e) => {
                return Err(e);
            },
        };
        let ghost b0 = builder@;
        let cause = tenure_info.cause();
        let info = match builder.load_tenure_info(ctx, cause) {
            Ok(info) => info,
            Err(e) => {
                return Err(e);
            },
        };
        let mut scratch = builder.tenure_begin(&info, settings);
        let ghost s0 = scratch@;
        let mut all: Vec<Transaction> = Vec::new();
        match &tenure_info.tenure_change_tx {
            Some(tc) => all.push(*tc),
            None => {},
        }
        match &tenure_info.coinbase_tx {
            Some(cb) => all.push(*cb),
            None => {},
        }
        let mut j: usize = 0;
        let ghost init = all@;
        proof {
            assert(init =~= spec_initial_txs(*tenure_info));
        }
        while j < txs.len()
            invariant
                j <= txs@.len(),
                all@ == init + txs@.take(j as int),
            decreases txs.len() - j,
        {
            all.push(txs[j]);
            proof {
                assert(init + txs@.take(j + 1) =~= (init + txs@.take(j as int)).push(
                    txs@[j as int],
                ));
            }
            j = j + 1;
        }
        proof {
            assert(txs@.take(txs@.len() as int) =~= txs@);
            assert(all@ == spec_initial_txs(*tenure_info) + txs@);
        }
        let mut ls = BlockLimitState::NoLimitHit;
        let mut i: usize = 0;
        proof {
            assert(all@.skip(0) =~= all@);
        }
        while i < all.len()
            invariant
                i <= all@.len(),
                ctx_wf(ctx@),
                scratch_wf(scratch@),
                spec_new_from_parent(
                    parent_tenure_id@,
                    parent@,
                    tenure_id_consensus_hash,
                    total_burn,
                    tenure_info.tenure_change_tx,
                    tenure_info.coinbase_tx,
                ) == Ok::<BuilderV, BuildError>(b0),
                spec_load_tenure_info(ctx@, b0, spec_tenure_info_cause(*tenure_info)) == Ok::<
                    TenureInfoV,
                    BuildError,
                >(info@),
                s0 == spec_tenure_begin(info@, *settings),
                all@ == spec_initial_txs(*tenure_info) + txs@,
                builder@ == (BuilderV {
                    bytes_so_far: builder@.bytes_so_far,
                    txs: builder@.txs,
                    ..b0
                }),
                scratch@ == (ScratchV {
                    consumed: scratch@.consumed,
                    applied: scratch@.applied,
                    ..s0
                }),
                spec_build_loop(
                    gate_of(b0, s0),
                    s0.limit,
                    BlockLimitState::NoLimitHit,
                    all@,
                    *settings,
                ) == spec_build_loop(
                    gate_of(builder@, scratch@),
                    s0.limit,
                    ls,
                    all@.skip(i as int),
                    *settings,
                ),
            decreases all.len() - i,
        {
            let tx = all[i];
            let tl = tx.tx_len();
            let ghost pre_b = builder@;
            let ghost pre_s = scratch@;
            let ghost pre_ls = ls;
            proof {
                assert(all@.skip(i as int)[0] == all@[i as int]);
                assert(all@.skip(i as int).skip(1) =~= all@.skip(i + 1));
            }
            let outcome = builder.try_mine_tx_with_len(&mut scratch, &tx, tl, &ls, settings);
            match outcome {
                TransactionOutcome::Problematic(_) => {
                    proof {
                        let r0 = spec_admit(
                            gate_of(pre_b, pre_s),
                            pre_s.limit,
                            tx,
                            tl,
                            pre_ls,
                            *settings,
                        );
                        assert(outcome == r0.0);
                        assert(spec_tx_len(tx) as u64 == tl);
                        assert(spec_build_loop(
                            gate_of(pre_b, pre_s),
                            s0.limit,
                            pre_ls,
                            all@.skip(i as int),
                            *settings,
                        ) == Err::<(GateState, BlockLimitState), BuildError>(
                            BuildError::ProblematicTransaction(tx.txid),
                        ));
                    }
                    return Err(BuildError::ProblematicTransaction(tx.txid));
                },
                TransactionOutcome::Skipped(SkipReason::BlockTooBig) => {
                    ls = ls.advance();
                },
                _ => {},
            }
            i = i + 1;
        }
        proof {
            assert(all@.skip(all@.len() as int).len() == 0);
        }
        let block = builder.mine_nakamoto_block(&scratch);
        let size = builder.bytes_so_far;
        let cost = builder.tenure_finish(scratch);
        Ok((block, cost, size))
    }
}

} // verus!
