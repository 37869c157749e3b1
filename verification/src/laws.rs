//! The properties the engine guarantees, stated and proved over the
//! specification-level pipeline that every executable function is pinned
//! to.

use vstd::prelude::*;

use crate::builder::BuilderV;
use crate::builder::GateState;
use crate::builder::NakamotoTenureInfo;
use crate::builder::gate_of;
use crate::builder::spec_admit;
use crate::builder::spec_build_block;
use crate::builder::spec_build_loop;
use crate::builder::spec_load_tenure_info;
use crate::builder::spec_make_from_txs;
use crate::builder::spec_merkle_root;
use crate::builder::spec_mine_list;
use crate::builder::spec_new_from_parent;
use crate::builder::spec_tenure_begin;
use crate::builder::spec_txids;
use crate::chain::BlockV;
use crate::chain::CtxV;
use crate::chain::ParentRefV;
use crate::chain::spec_block_hash;
use crate::codec::spec_tx_len;
use crate::types::BlockBuilderSettings;
use crate::types::BlockLimitState;
use crate::types::BuildError;
use crate::types::ExecCost;
use crate::types::SkipReason;
use crate::types::Transaction;
use crate::types::TransactionOutcome;
use crate::types::spec_advance_limit;

verus! {

/// Total byte length of a transaction list.
pub open spec fn sum_tx_len(txs: Seq<Transaction>) -> int
    decreases txs.len(),
{
    if txs.len() == 0 {
        0
    } else {
        sum_tx_len(txs.drop_last()) + spec_tx_len(txs.last())
    }
}

pub proof fn lemma_sum_tx_len_push(txs: Seq<Transaction>, tx: Transaction)
    ensures
        sum_tx_len(txs.push(tx)) == sum_tx_len(txs) + spec_tx_len(tx),
{
    assert(txs.push(tx).drop_last() =~= txs);
    assert(txs.push(tx).last() == tx);
}

/// The accounting identity admission maintains: the byte counter is
/// exactly the summed byte length of the admitted transactions, and the
/// oracle's applied list is exactly their identifiers, in order.
pub open spec fn gate_accounted(st: GateState) -> bool {
    &&& st.bytes_so_far == sum_tx_len(st.txs)
    &&& st.applied == spec_txids(st.txs)
}

/// One admission step keeps the accounting identity, and changes the
/// admitted list only by appending the offered transaction on success.
pub proof fn lemma_admit_accounting(
    st: GateState,
    budget: ExecCost,
    tx: Transaction,
    lstate: BlockLimitState,
    cfg: BlockBuilderSettings,
)
    requires
        gate_accounted(st),
    ensures
        ({
            let r0 = spec_admit(st, budget, tx, spec_tx_len(tx) as u64, lstate, cfg);
            &&& gate_accounted(r0.1)
            &&& (r0.0 is Success ==> r0.1.txs == st.txs.push(tx))
            &&& (!(r0.0 is Success) ==> r0.1 == st)
        }),
{
    let r0 = spec_admit(st, budget, tx, spec_tx_len(tx) as u64, lstate, cfg);
    if r0.0 is Success {
        crate::codec::lemma_spec_tx_len_bound(tx);
        lemma_sum_tx_len_push(st.txs, tx);
        assert(spec_txids(st.txs.push(tx)) =~= spec_txids(st.txs).push(tx.txid));
    }
}

/// The accounting identity survives the fixed-list mining driver.
pub proof fn lemma_mine_list_accounting(
    st: GateState,
    budget: ExecCost,
    txs: Seq<Transaction>,
    cfg: BlockBuilderSettings,
)
    requires
        gate_accounted(st),
        spec_mine_list(st, budget, txs, cfg) is Ok,
    ensures
        gate_accounted(spec_mine_list(st, budget, txs, cfg).unwrap()),
    decreases txs.len(),
{
    if txs.len() > 0 {
        let r0 = spec_admit(
            st,
            budget,
            txs[0],
            spec_tx_len(txs[0]) as u64,
            BlockLimitState::NoLimitHit,
            cfg,
        );
        lemma_admit_accounting(st, budget, txs[0], BlockLimitState::NoLimitHit, cfg);
        lemma_mine_list_accounting(r0.1, budget, txs.skip(1), cfg);
    }
}

/// The accounting identity survives the full assembly driver.
pub proof fn lemma_build_loop_accounting(
    st: GateState,
    budget: ExecCost,
    ls: BlockLimitState,
    txs: Seq<Transaction>,
    cfg: BlockBuilderSettings,
)
    requires
        gate_accounted(st),
        spec_build_loop(st, budget, ls, txs, cfg) is Ok,
    ensures
        gate_accounted(spec_build_loop(st, budget, ls, txs, cfg).unwrap().0),
    decreases txs.len(),
{
    if txs.len() > 0 {
        let r0 = spec_admit(st, budget, txs[0], spec_tx_len(txs[0]) as u64, ls, cfg);
        lemma_admit_accounting(st, budget, txs[0], ls, cfg);
        let ls2 = if r0.0 == TransactionOutcome::Skipped(SkipReason::BlockTooBig) {
            spec_advance_limit(ls)
        } else {
            ls
        };
        lemma_build_loop_accounting(r0.1, budget, ls2, txs.skip(1), cfg);
    }
}

/// For every completed build, the reported size is exactly the summed
/// byte length of the block's transactions, and the transaction
/// commitment digests exactly those transactions in their admitted
/// order.
pub proof fn theorem_build_accounting(
    ctx: CtxV,
    parent_tenure_id: Seq<u8>,
    parent: ParentRefV,
    tenure_id_consensus_hash: u64,
    total_burn: u64,
    tinfo: NakamotoTenureInfo,
    txs: Seq<Transaction>,
    cfg: BlockBuilderSettings,
)
    requires
        spec_build_block(
            ctx,
            parent_tenure_id,
            parent,
            tenure_id_consensus_hash,
            total_burn,
            tinfo,
            txs,
            cfg,
        ) is Ok,
    ensures
        ({
            let (b, cost, size) = spec_build_block(
                ctx,
                parent_tenure_id,
                parent,
                tenure_id_consensus_hash,
                total_burn,
                tinfo,
                txs,
                cfg,
            ).unwrap();
            &&& size == sum_tx_len(b.txs)
            &&& b.header.tx_merkle_root == spec_merkle_root(b.txs)
        }),
{
    let b0 = spec_new_from_parent(
        parent_tenure_id,
        parent,
        tenure_id_consensus_hash,
        total_burn,
        tinfo.tenure_change_tx,
        tinfo.coinbase_tx,
    ).unwrap();
    let info = spec_load_tenure_info(
        ctx,
        b0,
        crate::builder::spec_tenure_info_cause(tinfo),
    ).unwrap();
    let s0 = spec_tenure_begin(info, cfg);
    let all = crate::builder::spec_initial_txs(tinfo) + txs;
    assert(gate_accounted(gate_of(b0, s0))) by {
        assert(spec_txids(Seq::<Transaction>::empty()) =~= Seq::<u64>::empty());
    }
    lemma_build_loop_accounting(
        gate_of(b0, s0),
        cfg.exec_limit,
        BlockLimitState::NoLimitHit,
        all,
        cfg,
    );
}

/// The same identity for the fixed-list build.
pub proof fn theorem_make_from_txs_accounting(
    ctx: CtxV,
    b0: BuilderV,
    txs: Seq<Transaction>,
    cfg: BlockBuilderSettings,
)
    requires
        b0.bytes_so_far == 0,
        b0.txs == Seq::<Transaction>::empty(),
        spec_make_from_txs(ctx, b0, txs, cfg) is Ok,
    ensures
        ({
            let (b, size, cost) = spec_make_from_txs(ctx, b0, txs, cfg).unwrap();
            &&& size == sum_tx_len(b.txs)
            &&& b.header.tx_merkle_root == spec_merkle_root(b.txs)
        }),
{
    let info = spec_load_tenure_info(
        ctx,
        b0,
        crate::builder::spec_txs_tenure_cause(txs),
    ).unwrap();
    let s0 = spec_tenure_begin(info, cfg);
    assert(gate_accounted(gate_of(b0, s0))) by {
        assert(spec_txids(Seq::<Transaction>::empty()) =~= Seq::<u64>::empty());
    }
    lemma_mine_list_accounting(gate_of(b0, s0), cfg.exec_limit, txs, cfg);
}

/// Once the block-limit machine reads `LimitReached`, an admission call
/// returns a skip and changes nothing, never a success.
pub proof fn theorem_limit_reached_skips(
    st: GateState,
    budget: ExecCost,
    tx: Transaction,
    tx_len: u64,
    cfg: BlockBuilderSettings,
)
    ensures
        ({
            let r0 = spec_admit(st, budget, tx, tx_len, BlockLimitState::LimitReached, cfg);
            &&& r0.0 is Skipped
            &&& r0.1 == st
        }),
{
}

/// `LimitReached` is absorbing: the machine never regresses, and every
/// subsequent admission in a build leaves the state untouched.
pub proof fn theorem_limit_reached_absorbing(
    st: GateState,
    budget: ExecCost,
    txs: Seq<Transaction>,
    cfg: BlockBuilderSettings,
)
    ensures
        spec_build_loop(st, budget, BlockLimitState::LimitReached, txs, cfg) == Ok::<
            (GateState, BlockLimitState),
            BuildError,
        >((st, BlockLimitState::LimitReached)),
    decreases txs.len(),
{
    if txs.len() > 0 {
        theorem_limit_reached_absorbing(st, budget, txs.skip(1), cfg);
    }
}

/// Determinism: the result of a build is a mathematical function of the
/// parent reference, the tenure intent, the transaction list, and the
/// settings.  Every executable build is pinned to this function by its
/// contract, so two runs over identical inputs produce byte-identical
/// header digests.
pub proof fn theorem_build_deterministic(
    ctx: CtxV,
    parent_tenure_id: Seq<u8>,
    parent: ParentRefV,
    tenure_id_consensus_hash: u64,
    total_burn: u64,
    tinfo: NakamotoTenureInfo,
    txs: Seq<Transaction>,
    cfg: BlockBuilderSettings,
    r1: Result<(BlockV, ExecCost, u64), BuildError>,
    r2: Result<(BlockV, ExecCost, u64), BuildError>,
)
    requires
        r1 == spec_build_block(
            ctx,
            parent_tenure_id,
            parent,
            tenure_id_consensus_hash,
            total_burn,
            tinfo,
            txs,
            cfg,
        ),
        r2 == spec_build_block(
            ctx,
            parent_tenure_id,
            parent,
            tenure_id_consensus_hash,
            total_burn,
            tinfo,
            txs,
            cfg,
        ),
    ensures
        r1 == r2,
        r1 matches Ok(t1) ==> (r2 matches Ok(t2) && spec_block_hash(t1.0.header)
            == spec_block_hash(t2.0.header)),
{
}

/// A tenure-start request carrying a coinbase but no tenure-change
/// transaction fails resolution with the lifecycle error, whatever the
/// parent; a whole build with that intent fails the same way before any
/// transaction is processed.
pub proof fn theorem_missing_pairing_rejected(
    ctx: CtxV,
    parent_tenure_id: Seq<u8>,
    parent: ParentRefV,
    tenure_id_consensus_hash: u64,
    total_burn: u64,
    coinbase: Transaction,
    txs: Seq<Transaction>,
    cfg: BlockBuilderSettings,
)
    ensures
        spec_new_from_parent(
            parent_tenure_id,
            parent,
            tenure_id_consensus_hash,
            total_burn,
            None,
            Some(coinbase),
        ) == Err::<BuilderV, BuildError>(BuildError::ExpectedTenureChange),
        spec_build_block(
            ctx,
            parent_tenure_id,
            parent,
            tenure_id_consensus_hash,
            total_burn,
            NakamotoTenureInfo { coinbase_tx: Some(coinbase), tenure_change_tx: None },
            txs,
            cfg,
        ) == Err::<(BlockV, ExecCost, u64), BuildError>(BuildError::ExpectedTenureChange),
{
}

} // verus!

// Builder/validator agreement: a proposal assembled by the builder is
// accepted by the validator running against the same chain state.

use crate::builder::spec_first_coinbase;
use crate::builder::spec_first_tenure_change;
use crate::builder::spec_initial_txs;
use crate::builder::spec_tenure_info_cause;
use crate::chain::ctx_wf;
use crate::chain::lemma_store_find_wf;
use crate::chain::spec_store_find;
use crate::types::CHAIN_ID_MAINNET;
use crate::validate::ProposalV;
use crate::validate::ValidateRejectCode;
use crate::validate::spec_replay_txs;
use crate::validate::spec_validate;

verus! {

/// An admission that succeeds under any limit state succeeds identically
/// with the limit check disabled: that check only ever skips, and no
/// other part of the decision reads the limit state.
pub proof fn lemma_success_under_no_limit(
    st: GateState,
    budget: ExecCost,
    tx: Transaction,
    tx_len: u64,
    ls: BlockLimitState,
    cfg: BlockBuilderSettings,
)
    requires
        spec_admit(st, budget, tx, tx_len, ls, cfg).0 is Success,
    ensures
        spec_admit(st, budget, tx, tx_len, BlockLimitState::NoLimitHit, cfg) == spec_admit(
            st,
            budget,
            tx,
            tx_len,
            ls,
            cfg,
        ),
{
}

/// Replaying exactly the transactions a completed build admitted, from
/// the same starting state but with no limit gate, succeeds step for
/// step and reaches the same final state.  Skipped and dropped
/// transactions never changed the state, so their absence from the
/// replay changes nothing.
pub proof fn lemma_build_loop_replay(
    st: GateState,
    budget: ExecCost,
    ls: BlockLimitState,
    txs: Seq<Transaction>,
    cfg: BlockBuilderSettings,
)
    requires
        spec_build_loop(st, budget, ls, txs, cfg) is Ok,
    ensures
        ({
            let st2 = spec_build_loop(st, budget, ls, txs, cfg).unwrap().0;
            &&& st.txs.len() <= st2.txs.len()
            &&& st2.txs.take(st.txs.len() as int) == st.txs
            &&& spec_replay_txs(st, budget, st2.txs.skip(st.txs.len() as int), cfg) == Some(st2)
        }),
    decreases txs.len(),
{
    let st2 = spec_build_loop(st, budget, ls, txs, cfg).unwrap().0;
    let n = st.txs.len() as int;
    if txs.len() == 0 {
        assert(st2 == st);
        assert(st2.txs.take(n) =~= st.txs);
        assert(st2.txs.skip(n) =~= Seq::<Transaction>::empty());
    } else {
        let tl = spec_tx_len(txs[0]) as u64;
        let r0 = spec_admit(st, budget, txs[0], tl, ls, cfg);
        let ls2 = if r0.0 == TransactionOutcome::Skipped(SkipReason::BlockTooBig) {
            spec_advance_limit(ls)
        } else {
            ls
        };
        lemma_build_loop_replay(r0.1, budget, ls2, txs.skip(1), cfg);
        assert(spec_build_loop(r0.1, budget, ls2, txs.skip(1), cfg).unwrap().0 == st2);
        if r0.0 is Success {
            assert(r0.1.txs == st.txs.push(txs[0]));
            assert(r0.1.txs.len() == n + 1);
            assert(st2.txs.take(n + 1) == r0.1.txs);
            assert(st2.txs.take(n) =~= st2.txs.take(n + 1).take(n));
            assert(st2.txs.take(n + 1).take(n) =~= st.txs.push(txs[0]).take(n));
            assert(st.txs.push(txs[0]).take(n) =~= st.txs);
            let s = st2.txs.skip(n);
            assert(st2.txs[n] == st2.txs.take(n + 1)[n]);
            assert(s[0] == st2.txs[n]);
            assert(s[0] == txs[0]);
            assert(s.len() > 0);
            lemma_success_under_no_limit(st, budget, txs[0], tl, ls, cfg);
            assert(spec_admit(st, budget, s[0], spec_tx_len(s[0]) as u64,
                BlockLimitState::NoLimitHit, cfg) == r0);
            assert(s.skip(1) =~= st2.txs.skip(n + 1));
            assert(spec_replay_txs(st, budget, s, cfg) == spec_replay_txs(
                r0.1,
                budget,
                st2.txs.skip(n + 1),
                cfg,
            ));
        } else {
            assert(r0.1 == st);
        }
    }
}

/// Validator/builder agreement: a proposal carrying a block that
/// `spec_build_block` produced, addressed to the same network and judged
/// against the same chain state, is accepted with the same block, cost
/// and size.  The hypotheses say that storage resolves the block's
/// parent to the parent the build used, and that the tenure transactions
/// embedded in the block are the build's tenure intent.
pub proof fn theorem_validator_accepts_build(
    ctx: CtxV,
    parent_tenure_id: Seq<u8>,
    parent: ParentRefV,
    tenure_id_consensus_hash: u64,
    total_burn: u64,
    tinfo: NakamotoTenureInfo,
    txs: Seq<Transaction>,
    cfg: BlockBuilderSettings,
    b: BlockV,
    cost: ExecCost,
    size: u64,
)
    requires
        ctx_wf(ctx),
        (ctx.chain_id == CHAIN_ID_MAINNET) == ctx.mainnet,
        spec_build_block(
            ctx,
            parent_tenure_id,
            parent,
            tenure_id_consensus_hash,
            total_burn,
            tinfo,
            txs,
            cfg,
        ) == Ok::<(BlockV, ExecCost, u64), BuildError>((b, cost, size)),
        spec_store_find(ctx.store, b.header.parent_block_id) matches Some(rec) && rec.parent_ref
            == parent,
        spec_first_tenure_change(b.txs) == tinfo.tenure_change_tx,
        spec_first_coinbase(b.txs) == tinfo.coinbase_tx,
    ensures
        spec_validate(
            ProposalV { block: b, tenure_start_block: parent_tenure_id, chain_id: ctx.chain_id },
            ctx,
            cfg,
        ) == Ok::<(BlockV, ExecCost, u64), ValidateRejectCode>((b, cost, size)),
{
    let p = ProposalV { block: b, tenure_start_block: parent_tenure_id, chain_id: ctx.chain_id };
    let rec = spec_store_find(ctx.store, b.header.parent_block_id).unwrap();
    lemma_store_find_wf(ctx.store, b.header.parent_block_id);
    let b0 = spec_new_from_parent(
        parent_tenure_id,
        parent,
        tenure_id_consensus_hash,
        total_burn,
        tinfo.tenure_change_tx,
        tinfo.coinbase_tx,
    ).unwrap();
    let info = spec_load_tenure_info(ctx, b0, spec_tenure_info_cause(tinfo)).unwrap();
    let s0 = spec_tenure_begin(info, cfg);
    let all = spec_initial_txs(tinfo) + txs;
    let st2 = spec_build_loop(
        gate_of(b0, s0),
        cfg.exec_limit,
        BlockLimitState::NoLimitHit,
        all,
        cfg,
    ).unwrap().0;
    match parent {
        ParentRefV::NakamotoParent(h) => {
            assert(b0.header.consensus_hash == tenure_id_consensus_hash);
            assert(b0.header.burn_spent == total_burn);
        },
        ParentRefV::Epoch2Parent(e, pch) => {
            assert(b0.header.consensus_hash == tenure_id_consensus_hash);
            assert(b0.header.burn_spent == total_burn);
        },
        ParentRefV::Genesis => {
            assert(false);
        },
    }
    assert(b.header.consensus_hash == b0.header.consensus_hash);
    assert(b.header.burn_spent == b0.header.burn_spent);
    assert(spec_new_from_parent(
        p.tenure_start_block,
        rec.parent_ref,
        p.block.header.consensus_hash,
        p.block.header.burn_spent,
        spec_first_tenure_change(p.block.txs),
        spec_first_coinbase(p.block.txs),
    ) == Ok::<BuilderV, BuildError>(b0));
    assert(crate::builder::spec_txs_tenure_cause(p.block.txs) == spec_tenure_info_cause(tinfo));
    lemma_build_loop_replay(gate_of(b0, s0), cfg.exec_limit, BlockLimitState::NoLimitHit, all, cfg);
    assert(gate_of(b0, s0).txs =~= Seq::<Transaction>::empty());
    assert(b.txs == st2.txs);
    assert(st2.txs.skip(0) =~= st2.txs);
    assert(spec_replay_txs(gate_of(b0, s0), cfg.exec_limit, p.block.txs, cfg) == Some(st2));
}

} // verus!

// Tampering detection: altering a sealed header field after the fact is
// caught by the digest comparison.

use crate::chain::header_wf;
use crate::chain::lemma_block_hash_injective;

verus! {

/// Tampering detection.  Take a proposal the validator accepts, and a
/// tampered copy whose header differs in the chain length or in either
/// commitment digest, everything else equal.  The validator never accepts
/// the tampered proposal: the replay recomputes those fields from the
/// parent and the transactions, and the header digest is injective, so
/// the comparison cannot come out equal.
///
/// Fields outside this statement are covered elsewhere, not here: the two
/// signature fields are deliberately not part of the digest and are
/// checked by the signature stage that runs before this engine, and the
/// consensus hash, burn total and parent identifier are inputs that the
/// replay takes from the proposal itself, checked by the burnchain
/// validation stage that also runs before this engine.
pub proof fn theorem_tampering_detected(
    p0: ProposalV,
    p: ProposalV,
    ctx: CtxV,
    cfg: BlockBuilderSettings,
)
    requires
        spec_validate(p0, ctx, cfg) is Ok,
        header_wf(p0.block.header),
        header_wf(p.block.header),
        p.chain_id == p0.chain_id,
        p.tenure_start_block == p0.tenure_start_block,
        p.block.txs == p0.block.txs,
        p.block.header.parent_block_id == p0.block.header.parent_block_id,
        p.block.header.consensus_hash == p0.block.header.consensus_hash,
        p.block.header.burn_spent == p0.block.header.burn_spent,
        ({
            ||| p.block.header.chain_length != p0.block.header.chain_length
            ||| p.block.header.tx_merkle_root != p0.block.header.tx_merkle_root
            ||| p.block.header.state_index_root != p0.block.header.state_index_root
        }),
    ensures
        !(spec_validate(p, ctx, cfg) is Ok),
{
    if spec_validate(p, ctx, cfg) is Ok {
        assert(spec_block_hash(p.block.header) == spec_block_hash(p0.block.header));
        lemma_block_hash_injective(p.block.header, p0.block.header);
    }
}

} // verus!

// A forged parent reference is also caught: the sealed state commitment
// binds the parent linkage, so a header pointing at a different stored
// parent cannot reproduce the claimed state digest.

use crate::builder::ScratchV;
use crate::builder::TenureInfoV;
use crate::builder::spec_enc_cause_opt;
use crate::builder::spec_scratch_base;
use crate::builder::spec_seal;
use crate::chain::HeaderV;
use crate::chain::RecordV;
use crate::chain::record_wf;
use crate::chain::spec_block_id_of;
use crate::chain::spec_header_block_id;
use crate::chain::spec_parent_block_id;
use crate::codec::enc_le;
use crate::codec::lemma_enc_le_len;
use crate::codec::lemma_enc_u64_seq_len;
use crate::codec::lemma_pow256_vals;
use crate::codec::lemma_read_enc_bytes;
use crate::codec::lemma_read_enc_u64;
use crate::codec::pow256;
use crate::codec::spec_enc_bytes;
use crate::codec::spec_enc_id_list;
use crate::codec::spec_enc_u64;

verus! {

pub proof fn lemma_enc_bytes_len(b: Seq<u8>)
    ensures
        spec_enc_bytes(b).len() == 8 + b.len(),
{
    lemma_enc_le_len(b.len(), 8);
}

pub proof fn lemma_enc_id_list_len(ids: Seq<u64>)
    ensures
        spec_enc_id_list(ids).len() == 8 + 8 * ids.len(),
{
    lemma_enc_le_len(ids.len(), 8);
    lemma_enc_u64_seq_len(ids);
}

pub proof fn lemma_scratch_base_len(i: TenureInfoV)
    ensures
        spec_scratch_base(i).len() == 25 + i.parent_header_hash.len(),
{
    lemma_enc_le_len(i.parent_consensus_hash as nat, 8);
    lemma_enc_bytes_len(i.parent_header_hash);
    lemma_enc_le_len(i.coinbase_height as nat, 8);
    assert(spec_enc_cause_opt(i.cause).len() == 1);
}

/// Two length-prefixed byte strings with the same continuation bytes are
/// the same string.
pub proof fn lemma_bytes_prefix_injective(b1: Seq<u8>, rest1: Seq<u8>, b2: Seq<u8>, rest2: Seq<u8>)
    requires
        b1.len() < pow256(8),
        b2.len() < pow256(8),
        spec_enc_bytes(b1) + rest1 == spec_enc_bytes(b2) + rest2,
    ensures
        b1 == b2,
        rest1 == rest2,
{
    lemma_read_enc_bytes(b1, rest1);
    lemma_read_enc_bytes(b2, rest2);
}

/// The state-commitment seed pins the parent linkage: equal seeds mean
/// the same parent consensus hash and the same parent header hash.
pub proof fn lemma_scratch_base_injective(i1: TenureInfoV, i2: TenureInfoV)
    requires
        i1.parent_header_hash.len() < pow256(8),
        i2.parent_header_hash.len() < pow256(8),
        spec_scratch_base(i1) == spec_scratch_base(i2),
    ensures
        i1.parent_consensus_hash == i2.parent_consensus_hash,
        i1.parent_header_hash == i2.parent_header_hash,
{
    let r1 = spec_enc_u64(i1.coinbase_height) + spec_enc_cause_opt(i1.cause);
    let r2 = spec_enc_u64(i2.coinbase_height) + spec_enc_cause_opt(i2.cause);
    let t1 = spec_enc_bytes(i1.parent_header_hash) + r1;
    let t2 = spec_enc_bytes(i2.parent_header_hash) + r2;
    assert(spec_scratch_base(i1) =~= spec_enc_u64(i1.parent_consensus_hash) + t1);
    assert(spec_scratch_base(i2) =~= spec_enc_u64(i2.parent_consensus_hash) + t2);
    lemma_read_enc_u64(i1.parent_consensus_hash, t1);
    lemma_read_enc_u64(i2.parent_consensus_hash, t2);
    lemma_bytes_prefix_injective(i1.parent_header_hash, r1, i2.parent_header_hash, r2);
}

/// Strict replay keeps the accounting identity and admits at most one
/// transaction per list element.
pub proof fn lemma_replay_txs_accounting(
    st: GateState,
    budget: ExecCost,
    txs: Seq<Transaction>,
    cfg: BlockBuilderSettings,
)
    requires
        gate_accounted(st),
        spec_replay_txs(st, budget, txs, cfg) is Some,
    ensures
        ({
            let st2 = spec_replay_txs(st, budget, txs, cfg).unwrap();
            &&& gate_accounted(st2)
            &&& st2.txs.len() <= st.txs.len() + txs.len()
        }),
    decreases txs.len(),
{
    if txs.len() > 0 {
        let r0 = spec_admit(
            st,
            budget,
            txs[0],
            spec_tx_len(txs[0]) as u64,
            BlockLimitState::NoLimitHit,
            cfg,
        );
        lemma_admit_accounting(st, budget, txs[0], BlockLimitState::NoLimitHit, cfg);
        lemma_replay_txs_accounting(r0.1, budget, txs.skip(1), cfg);
    }
}

/// From an accepted proposal, recover the stored parent record, the
/// resolved linkage, and the applied identifier list, together with the
/// equations that tie the proposal's parent identifier and claimed state
/// digest to them.
pub proof fn lemma_validate_ok_linkage(p: ProposalV, ctx: CtxV, cfg: BlockBuilderSettings) -> (r: (
    RecordV,
    TenureInfoV,
    Seq<u64>,
))
    requires
        ctx_wf(ctx),
        spec_validate(p, ctx, cfg) is Ok,
        header_wf(p.block.header),
        p.block.txs.len() < pow256(7),
    ensures
        ({
            let (rec, info, applied) = r;
            &&& record_wf(rec)
            &&& rec.block_id == p.block.header.parent_block_id
            &&& info.parent_header_hash.len() < pow256(7)
            &&& p.block.header.parent_block_id == spec_block_id_of(
                info.parent_consensus_hash,
                info.parent_header_hash,
            )
            &&& p.block.header.state_index_root == spec_enc_bytes(spec_scratch_base(info))
                + spec_enc_id_list(applied)
        }),
{
    lemma_pow256_vals();
    let rec = spec_store_find(ctx.store, p.block.header.parent_block_id).unwrap();
    lemma_store_find_wf(ctx.store, p.block.header.parent_block_id);
    let b0 = spec_new_from_parent(
        p.tenure_start_block,
        rec.parent_ref,
        p.block.header.consensus_hash,
        p.block.header.burn_spent,
        spec_first_tenure_change(p.block.txs),
        spec_first_coinbase(p.block.txs),
    ).unwrap();
    let info = spec_load_tenure_info(
        ctx,
        b0,
        crate::builder::spec_txs_tenure_cause(p.block.txs),
    ).unwrap();
    let s0 = spec_tenure_begin(info, cfg);
    let st2 = spec_replay_txs(gate_of(b0, s0), cfg.exec_limit, p.block.txs, cfg).unwrap();
    let s1 = ScratchV { consumed: st2.consumed, applied: st2.applied, ..s0 };
    let hdr2 = HeaderV {
        tx_merkle_root: spec_merkle_root(st2.txs),
        state_index_root: spec_seal(s1),
        miner_signature: p.block.header.miner_signature,
        signer_signature: p.block.header.signer_signature,
        ..b0.header
    };
    assert(spec_block_hash(hdr2) == spec_block_hash(p.block.header));

    // The freshly resolved builder starts empty, so the accounting
    // identity holds from the start of the replay.
    assert(b0.txs =~= Seq::<Transaction>::empty());
    assert(s0.applied =~= Seq::<u64>::empty());
    assert(gate_accounted(gate_of(b0, s0))) by {
        assert(spec_txids(Seq::<Transaction>::empty()) =~= Seq::<u64>::empty());
    }
    lemma_replay_txs_accounting(gate_of(b0, s0), cfg.exec_limit, p.block.txs, cfg);
    assert(st2.applied.len() == st2.txs.len());
    assert(st2.txs.len() < pow256(7));

    // The linkage the replay resolved, and the bounds that make the
    // digest fields well formed.
    match rec.parent_ref {
        ParentRefV::NakamotoParent(h) => {
            assert(rec.block_id == spec_header_block_id(h));
            lemma_enc_le_len(h.consensus_hash as nat, 8);
            lemma_enc_bytes_len(spec_block_hash(h));
            assert(rec.block_id.len() == 16 + spec_block_hash(h).len());
            assert(info.parent_consensus_hash == h.consensus_hash);
            assert(info.parent_header_hash == spec_block_hash(h));
        },
        ParentRefV::Epoch2Parent(e, ch) => {
            assert(rec.block_id == spec_block_id_of(ch, e.block_hash));
            lemma_enc_le_len(ch as nat, 8);
            lemma_enc_bytes_len(e.block_hash);
            assert(rec.block_id.len() == 16 + e.block_hash.len());
            assert(info.parent_consensus_hash == ch);
            assert(info.parent_header_hash == e.block_hash);
        },
        ParentRefV::Genesis => {
            assert(false);
        },
    }
    assert(info.parent_header_hash.len() < pow256(7));

    // Well-formedness of the replayed header.
    lemma_scratch_base_len(info);
    lemma_enc_bytes_len(s0.base);
    lemma_enc_id_list_len(st2.applied);
    assert(spec_txids(st2.txs).len() == st2.txs.len());
    lemma_enc_id_list_len(spec_txids(st2.txs));
    assert(hdr2.parent_block_id == rec.block_id);
    assert(header_wf(hdr2));
    lemma_block_hash_injective(hdr2, p.block.header);
    assert(p.block.header.state_index_root == spec_seal(s1));
    assert(spec_seal(s1) == spec_enc_bytes(spec_scratch_base(info)) + spec_enc_id_list(
        st2.applied,
    ));
    (rec, info, st2.applied)
}

/// A forged parent reference is rejected.  Take a proposal the validator
/// accepts, and a copy whose header claims a different parent block,
/// everything else equal.  The validator never accepts the copy: the
/// state commitment binds the parent's consensus hash and header hash,
/// and those determine the parent identifier, so a replay from any other
/// stored parent cannot reproduce the claimed state digest.
pub proof fn theorem_tampered_parent_rejected(
    p0: ProposalV,
    p: ProposalV,
    ctx: CtxV,
    cfg: BlockBuilderSettings,
)
    requires
        ctx_wf(ctx),
        spec_validate(p0, ctx, cfg) is Ok,
        header_wf(p0.block.header),
        header_wf(p.block.header),
        p0.block.txs.len() < pow256(7),
        p.chain_id == p0.chain_id,
        p.tenure_start_block == p0.tenure_start_block,
        p.block.txs == p0.block.txs,
        p.block.header.consensus_hash == p0.block.header.consensus_hash,
        p.block.header.burn_spent == p0.block.header.burn_spent,
        p.block.header.state_index_root == p0.block.header.state_index_root,
        p.block.header.parent_block_id != p0.block.header.parent_block_id,
    ensures
        !(spec_validate(p, ctx, cfg) is Ok),
{
    if spec_validate(p, ctx, cfg) is Ok {
        lemma_pow256_vals();
        let (rec1, info1, ap1) = lemma_validate_ok_linkage(p, ctx, cfg);
        let (rec0, info0, ap0) = lemma_validate_ok_linkage(p0, ctx, cfg);
        lemma_scratch_base_len(info1);
        lemma_scratch_base_len(info0);
        lemma_bytes_prefix_injective(
            spec_scratch_base(info1),
            spec_enc_id_list(ap1),
            spec_scratch_base(info0),
            spec_enc_id_list(ap0),
        );
        lemma_scratch_base_injective(info1, info0);
        assert(p.block.header.parent_block_id == p0.block.header.parent_block_id);
    }
}

} // verus!

// Order preservation and limit-state monotonicity.

use crate::types::limit_rank;

verus! {

/// `a` occurs inside `b` in order (not necessarily contiguously).
pub open spec fn is_ordered_subseq(a: Seq<Transaction>, b: Seq<Transaction>) -> bool
    decreases b.len(),
{
    if a.len() == 0 {
        true
    } else if b.len() == 0 {
        false
    } else {
        ||| (a[0] == b[0] && is_ordered_subseq(a.skip(1), b.skip(1)))
        ||| is_ordered_subseq(a, b.skip(1))
    }
}

/// What a build admits is an order-preserving selection from what it was
/// offered: no reordering, no insertion.
pub proof fn lemma_build_loop_selects_in_order(
    st: GateState,
    budget: ExecCost,
    ls: BlockLimitState,
    txs: Seq<Transaction>,
    cfg: BlockBuilderSettings,
)
    requires
        spec_build_loop(st, budget, ls, txs, cfg) is Ok,
    ensures
        ({
            let st2 = spec_build_loop(st, budget, ls, txs, cfg).unwrap().0;
            &&& st.txs.len() <= st2.txs.len()
            &&& st2.txs.take(st.txs.len() as int) == st.txs
            &&& is_ordered_subseq(st2.txs.skip(st.txs.len() as int), txs)
        }),
    decreases txs.len(),
{
    let st2 = spec_build_loop(st, budget, ls, txs, cfg).unwrap().0;
    let n = st.txs.len() as int;
    if txs.len() == 0 {
        assert(st2.txs.take(n) =~= st.txs);
        assert(st2.txs.skip(n) =~= Seq::<Transaction>::empty());
    } else {
        let tl = spec_tx_len(txs[0]) as u64;
        let r0 = spec_admit(st, budget, txs[0], tl, ls, cfg);
        let ls2 = if r0.0 == TransactionOutcome::Skipped(SkipReason::BlockTooBig) {
            spec_advance_limit(ls)
        } else {
            ls
        };
        lemma_build_loop_selects_in_order(r0.1, budget, ls2, txs.skip(1), cfg);
        if r0.0 is Success {
            assert(r0.1.txs == st.txs.push(txs[0]));
            assert(st2.txs.take(n + 1) == r0.1.txs);
            assert(st2.txs.take(n) =~= st2.txs.take(n + 1).take(n));
            assert(st2.txs.take(n + 1).take(n) =~= st.txs.push(txs[0]).take(n));
            assert(st.txs.push(txs[0]).take(n) =~= st.txs);
            let s = st2.txs.skip(n);
            assert(st2.txs[n] == st2.txs.take(n + 1)[n]);
            assert(s[0] == txs[0]);
            assert(s.skip(1) =~= st2.txs.skip(n + 1));
        } else {
            assert(r0.1 == st);
        }
    }
}

/// The block-limit machine never regresses over a whole build.
pub proof fn theorem_limit_state_monotonic(
    st: GateState,
    budget: ExecCost,
    ls: BlockLimitState,
    txs: Seq<Transaction>,
    cfg: BlockBuilderSettings,
)
    requires
        spec_build_loop(st, budget, ls, txs, cfg) is Ok,
    ensures
        limit_rank(spec_build_loop(st, budget, ls, txs, cfg).unwrap().1) >= limit_rank(ls),
    decreases txs.len(),
{
    if txs.len() > 0 {
        let r0 = spec_admit(st, budget, txs[0], spec_tx_len(txs[0]) as u64, ls, cfg);
        let ls2 = if r0.0 == TransactionOutcome::Skipped(SkipReason::BlockTooBig) {
            spec_advance_limit(ls)
        } else {
            ls
        };
        theorem_limit_state_monotonic(r0.1, budget, ls2, txs.skip(1), cfg);
    }
}

/// A completed build's block holds an order-preserving selection of the
/// tenure transactions followed by the offered list.
pub proof fn theorem_build_selects_in_order(
    ctx: CtxV,
    parent_tenure_id: Seq<u8>,
    parent: ParentRefV,
    tenure_id_consensus_hash: u64,
    total_burn: u64,
    tinfo: NakamotoTenureInfo,
    txs: Seq<Transaction>,
    cfg: BlockBuilderSettings,
)
    requires
        spec_build_block(
            ctx,
            parent_tenure_id,
            parent,
            tenure_id_consensus_hash,
            total_burn,
            tinfo,
            txs,
            cfg,
        ) is Ok,
    ensures
        is_ordered_subseq(
            spec_build_block(
                ctx,
                parent_tenure_id,
                parent,
                tenure_id_consensus_hash,
                total_burn,
                tinfo,
                txs,
                cfg,
            ).unwrap().0.txs,
            spec_initial_txs(tinfo) + txs,
        ),
{
    let b0 = spec_new_from_parent(
        parent_tenure_id,
        parent,
        tenure_id_consensus_hash,
        total_burn,
        tinfo.tenure_change_tx,
        tinfo.coinbase_tx,
    ).unwrap();
    let info = spec_load_tenure_info(
        ctx,
        b0,
        crate::builder::spec_tenure_info_cause(tinfo),
    ).unwrap();
    let s0 = spec_tenure_begin(info, cfg);
    let all = spec_initial_txs(tinfo) + txs;
    lemma_build_loop_selects_in_order(
        gate_of(b0, s0),
        cfg.exec_limit,
        BlockLimitState::NoLimitHit,
        all,
        cfg,
    );
    let st2 = spec_build_loop(
        gate_of(b0, s0),
        cfg.exec_limit,
        BlockLimitState::NoLimitHit,
        all,
        cfg,
    ).unwrap().0;
    assert(gate_of(b0, s0).txs =~= Seq::<Transaction>::empty());
    assert(st2.txs.skip(0) =~= st2.txs);
}

} // verus!
