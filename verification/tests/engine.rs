use tenure_block_engine::builder::ExecScratch;
use tenure_block_engine::builder::NakamotoBlockBuilder;
use tenure_block_engine::builder::NakamotoTenureInfo;
use tenure_block_engine::chain::ChainContext;
use tenure_block_engine::chain::ChainRecord;
use tenure_block_engine::chain::ChainStore;
use tenure_block_engine::chain::NakamotoBlockHeader;
use tenure_block_engine::chain::TenureParentRef;
use tenure_block_engine::types::BlockBuilderSettings;
use tenure_block_engine::types::BlockLimitState;
use tenure_block_engine::types::BuildError;
use tenure_block_engine::types::ExecBehavior;
use tenure_block_engine::types::ExecCost;
use tenure_block_engine::types::SkipReason;
use tenure_block_engine::types::TenureChangeCause;
use tenure_block_engine::types::Transaction;
use tenure_block_engine::types::TransactionOutcome;
use tenure_block_engine::types::TxPayload;

fn small_cost(runtime: u64) -> ExecCost {
    ExecCost { write_length: 1, write_count: 1, read_length: 1, read_count: 1, runtime }
}

fn budget() -> ExecCost {
    ExecCost {
        write_length: 1000,
        write_count: 1000,
        read_length: 1000,
        read_count: 1000,
        runtime: 1000,
    }
}

fn settings() -> BlockBuilderSettings {
    BlockBuilderSettings {
        max_block_bytes: 10000,
        exec_limit: budget(),
        tx_limit_proportion_heuristic: 15,
    }
}

fn transfer(txid: u64, runtime: u64) -> Transaction {
    Transaction {
        txid,
        fee: 10,
        payload: TxPayload::TokenTransfer,
        flagged_unsafe: false,
        execution: ExecBehavior::Apply { cost: small_cost(runtime) },
    }
}

fn tenure_change_tx(txid: u64) -> Transaction {
    Transaction {
        txid,
        fee: 0,
        payload: TxPayload::TenureChange { cause: TenureChangeCause::BlockFound },
        flagged_unsafe: false,
        execution: ExecBehavior::Apply { cost: small_cost(1) },
    }
}

fn coinbase_tx(txid: u64) -> Transaction {
    Transaction {
        txid,
        fee: 0,
        payload: TxPayload::Coinbase,
        flagged_unsafe: false,
        execution: ExecBehavior::Apply { cost: small_cost(1) },
    }
}

fn parent_header() -> NakamotoBlockHeader {
    NakamotoBlockHeader {
        chain_length: 5,
        burn_spent: 100,
        consensus_hash: 77,
        parent_block_id: vec![1, 2, 3],
        tx_merkle_root: vec![],
        state_index_root: vec![],
        miner_signature: 0,
        signer_signature: 0,
    }
}

fn context_with_parent() -> (ChainContext, TenureParentRef) {
    let parent = TenureParentRef::NakamotoParent(parent_header());
    let rec = ChainRecord {
        block_id: parent.block_id(),
        parent_ref: parent.duplicate(),
        stacks_block_height: 5,
        burn_header_height: 10,
        coinbase_height: Some(3),
    };
    let ctx = ChainContext {
        store: ChainStore { records: vec![rec] },
        chain_id: 1,
        mainnet: true,
        burn_tip: 999,
        burn_tip_height: 12,
    };
    (ctx, parent)
}

fn fresh_builder(bytes_so_far: u64) -> NakamotoBlockBuilder {
    NakamotoBlockBuilder {
        epoch2_parent: None,
        nakamoto_parent: None,
        coinbase_tx: None,
        tenure_tx: None,
        total_burn: 0,
        parent_commit_hash_value: vec![],
        bytes_so_far,
        txs: vec![],
        header: NakamotoBlockHeader::genesis(),
    }
}

fn fresh_scratch() -> ExecScratch {
    ExecScratch { base: vec![], limit: budget(), consumed: ExecCost::zero(), applied: vec![] }
}

#[test]
fn byte_budget_skip_leaves_counter() {
    // A nearly full block of 100 bytes with 95 consumed skips a 10-byte
    // transaction without touching the counter or the oracle.
    let mut b = fresh_builder(95);
    let mut scratch = fresh_scratch();
    let cfg = BlockBuilderSettings {
        max_block_bytes: 100,
        exec_limit: budget(),
        tx_limit_proportion_heuristic: 15,
    };
    let tx = transfer(1, 1);
    let r = b.try_mine_tx_with_len(&mut scratch, &tx, 10, &BlockLimitState::NoLimitHit, &cfg);
    assert_eq!(r, TransactionOutcome::Skipped(SkipReason::BlockTooBig));
    assert_eq!(b.get_bytes_so_far(), 95);
    assert_eq!(b.txs.len(), 0);
    assert_eq!(scratch.consumed, ExecCost::zero());
}

#[test]
fn exact_boundary_also_skips() {
    // 95 consumed plus 5 equals the cap of 100: still skipped.
    let mut b = fresh_builder(95);
    let mut scratch = fresh_scratch();
    let cfg = BlockBuilderSettings {
        max_block_bytes: 100,
        exec_limit: budget(),
        tx_limit_proportion_heuristic: 15,
    };
    let tx = transfer(1, 1);
    let r = b.try_mine_tx_with_len(&mut scratch, &tx, 5, &BlockLimitState::NoLimitHit, &cfg);
    assert_eq!(r, TransactionOutcome::Skipped(SkipReason::BlockTooBig));
    assert_eq!(b.get_bytes_so_far(), 95);
}

#[test]
fn oversized_transaction_is_dropped_for_good() {
    // A transaction whose cost alone overflows a nearly empty budget is a
    // permanent processing error, not a retryable skip.
    let mut b = fresh_builder(0);
    let mut scratch = fresh_scratch();
    let cfg = settings();
    let tx = Transaction {
        txid: 9,
        fee: 10,
        payload: TxPayload::TokenTransfer,
        flagged_unsafe: false,
        execution: ExecBehavior::Apply { cost: small_cost(5000) },
    };
    let r = b.try_mine_tx_with_len(&mut scratch, &tx, 50, &BlockLimitState::NoLimitHit, &cfg);
    assert_eq!(r, TransactionOutcome::ProcessingError(BuildError::TransactionTooBigError));
    assert_eq!(b.get_bytes_so_far(), 0);
    assert_eq!(scratch.consumed, ExecCost::zero());
}

#[test]
fn cost_overflow_on_nearly_full_budget_is_a_skip() {
    // The same overflowing transaction against a budget already over the
    // heuristic threshold is merely skipped: the block is full.
    let mut b = fresh_builder(0);
    let mut scratch = fresh_scratch();
    scratch.consumed = ExecCost {
        write_length: 0,
        write_count: 0,
        read_length: 0,
        read_count: 0,
        runtime: 900,
    };
    let cfg = settings();
    let tx = Transaction {
        txid: 9,
        fee: 10,
        payload: TxPayload::TokenTransfer,
        flagged_unsafe: false,
        execution: ExecBehavior::Apply { cost: small_cost(5000) },
    };
    let r = b.try_mine_tx_with_len(&mut scratch, &tx, 50, &BlockLimitState::NoLimitHit, &cfg);
    assert_eq!(r, TransactionOutcome::Skipped(SkipReason::BlockTooBig));
}

#[test]
fn limit_reached_admits_nothing() {
    let mut b = fresh_builder(0);
    let mut scratch = fresh_scratch();
    let cfg = settings();
    let tx = transfer(1, 1);
    let r = b.try_mine_tx_with_len(&mut scratch, &tx, 50, &BlockLimitState::LimitReached, &cfg);
    assert_eq!(r, TransactionOutcome::Skipped(SkipReason::LimitReached));
    assert_eq!(b.txs.len(), 0);
}

#[test]
fn contract_limit_gates_contract_operations() {
    let mut b = fresh_builder(0);
    let mut scratch = fresh_scratch();
    let cfg = settings();
    let call = Transaction {
        txid: 2,
        fee: 1,
        payload: TxPayload::ContractCall { boot_code_addr: false },
        flagged_unsafe: false,
        execution: ExecBehavior::Apply { cost: small_cost(1) },
    };
    let r = b.try_mine_tx_with_len(&mut scratch, &call, 50, &BlockLimitState::ContractLimitHit, &cfg);
    assert_eq!(r, TransactionOutcome::Skipped(SkipReason::ContractLimitHit));
    let deploy = Transaction {
        txid: 3,
        fee: 1,
        payload: TxPayload::SmartContract,
        flagged_unsafe: false,
        execution: ExecBehavior::Apply { cost: small_cost(1) },
    };
    let r2 = b.try_mine_tx_with_len(&mut scratch, &deploy, 50, &BlockLimitState::ContractLimitHit, &cfg);
    assert_eq!(r2, TransactionOutcome::Skipped(SkipReason::ContractLimitHit));
    // A boot-address call is still attempted and succeeds.
    let boot = Transaction {
        txid: 4,
        fee: 1,
        payload: TxPayload::ContractCall { boot_code_addr: true },
        flagged_unsafe: false,
        execution: ExecBehavior::Apply { cost: small_cost(1) },
    };
    let r3 = b.try_mine_tx_with_len(&mut scratch, &boot, 50, &BlockLimitState::ContractLimitHit, &cfg);
    assert!(matches!(r3, TransactionOutcome::Success(..)));
    assert_eq!(b.txs.len(), 1);
}

#[test]
fn unsafe_transaction_is_problematic() {
    let mut b = fresh_builder(0);
    let mut scratch = fresh_scratch();
    let cfg = settings();
    let tx = Transaction {
        txid: 6,
        fee: 1,
        payload: TxPayload::TokenTransfer,
        flagged_unsafe: true,
        execution: ExecBehavior::Apply { cost: small_cost(1) },
    };
    let r = b.try_mine_tx_with_len(&mut scratch, &tx, 50, &BlockLimitState::NoLimitHit, &cfg);
    assert_eq!(r, TransactionOutcome::Problematic(BuildError::UnsafeTransaction(6)));
    assert_eq!(b.txs.len(), 0);
}

#[test]
fn invalid_transaction_is_a_processing_error() {
    let mut b = fresh_builder(0);
    let mut scratch = fresh_scratch();
    let cfg = settings();
    let tx = Transaction {
        txid: 7,
        fee: 1,
        payload: TxPayload::TokenTransfer,
        flagged_unsafe: false,
        execution: ExecBehavior::Reject,
    };
    let r = b.try_mine_tx_with_len(&mut scratch, &tx, 50, &BlockLimitState::NoLimitHit, &cfg);
    assert_eq!(r, TransactionOutcome::ProcessingError(BuildError::InvalidStacksTransaction));
}

#[test]
fn coinbase_without_tenure_change_is_rejected() {
    let (_, parent) = context_with_parent();
    let cb = coinbase_tx(1);
    let r = NakamotoBlockBuilder::new_from_parent(&vec![0u8; 4], &parent, 88, 200, None, Some(&cb));
    assert!(matches!(r, Err(BuildError::ExpectedTenureChange)));
}

#[test]
fn build_with_coinbase_only_fails_before_any_transaction() {
    let (ctx, parent) = context_with_parent();
    let tinfo = NakamotoTenureInfo { coinbase_tx: Some(coinbase_tx(1)), tenure_change_tx: None };
    // Even an unsafe transaction in the list is never reached.
    let poison = Transaction {
        txid: 66,
        fee: 0,
        payload: TxPayload::TokenTransfer,
        flagged_unsafe: true,
        execution: ExecBehavior::Reject,
    };
    let r = NakamotoBlockBuilder::build_nakamoto_block(
        &ctx,
        &vec![0u8; 4],
        &parent,
        88,
        200,
        &tinfo,
        &vec![poison],
        &settings(),
    );
    assert!(matches!(r, Err(BuildError::ExpectedTenureChange)));
}

#[test]
fn epoch2_parent_requires_new_tenure() {
    let parent = TenureParentRef::Epoch2Parent(
        tenure_block_engine::chain::Epoch2Header { total_work: 7, block_hash: vec![9, 9] },
        31,
    );
    let r = NakamotoBlockBuilder::new_from_parent(&vec![], &parent, 88, 200, None, None);
    assert!(matches!(r, Err(BuildError::ExpectedTenureChange)));
}

#[test]
fn missing_parent_is_no_such_block() {
    let parent = TenureParentRef::NakamotoParent(parent_header());
    let ctx = ChainContext {
        store: ChainStore { records: vec![] },
        chain_id: 1,
        mainnet: true,
        burn_tip: 999,
        burn_tip_height: 12,
    };
    let tc = tenure_change_tx(1);
    let cb = coinbase_tx(2);
    let b = NakamotoBlockBuilder::new_from_parent(&vec![], &parent, 88, 200, Some(&tc), Some(&cb))
        .unwrap();
    let r = b.load_tenure_info(&ctx, Some(TenureChangeCause::BlockFound));
    assert!(matches!(r, Err(BuildError::NoSuchBlockError)));
}

#[test]
fn build_accounts_every_byte_in_order() {
    let (ctx, parent) = context_with_parent();
    let tc = tenure_change_tx(1);
    let cb = coinbase_tx(2);
    let tinfo = NakamotoTenureInfo { coinbase_tx: Some(cb), tenure_change_tx: Some(tc) };
    let t1 = transfer(10, 5);
    let t2 = transfer(11, 6);
    let r = NakamotoBlockBuilder::build_nakamoto_block(
        &ctx,
        &vec![0u8; 4],
        &parent,
        88,
        200,
        &tinfo,
        &vec![t1, t2],
        &settings(),
    )
    .unwrap();
    let (block, _cost, size) = r;
    // All four transactions admitted, in admission order.
    let ids: Vec<u64> = block.txs.iter().map(|t| t.txid).collect();
    assert_eq!(ids, vec![1, 2, 10, 11]);
    // The reported size is the sum of the admitted byte lengths.
    let total: u64 = block.txs.iter().map(|t| t.tx_len()).sum();
    assert_eq!(size, total);
    // The header extends the parent.
    assert_eq!(block.header.chain_length, 6);
    assert_eq!(block.header.burn_spent, 200);
    assert_eq!(block.header.consensus_hash, 88);
}

#[test]
fn skipped_transactions_stay_out_of_the_block() {
    let (ctx, parent) = context_with_parent();
    let tinfo = NakamotoTenureInfo {
        coinbase_tx: Some(coinbase_tx(2)),
        tenure_change_tx: Some(tenure_change_tx(1)),
    };
    // The middle transaction is invalid and dropped; the rest go in.
    let bad = Transaction {
        txid: 50,
        fee: 0,
        payload: TxPayload::TokenTransfer,
        flagged_unsafe: false,
        execution: ExecBehavior::Reject,
    };
    let r = NakamotoBlockBuilder::build_nakamoto_block(
        &ctx,
        &vec![0u8; 4],
        &parent,
        88,
        200,
        &tinfo,
        &vec![transfer(10, 5), bad, transfer(11, 6)],
        &settings(),
    )
    .unwrap();
    let ids: Vec<u64> = r.0.txs.iter().map(|t| t.txid).collect();
    assert_eq!(ids, vec![1, 2, 10, 11]);
}

#[test]
fn problematic_transaction_aborts_whole_build() {
    let (ctx, parent) = context_with_parent();
    let tinfo = NakamotoTenureInfo {
        coinbase_tx: Some(coinbase_tx(2)),
        tenure_change_tx: Some(tenure_change_tx(1)),
    };
    let poison = Transaction {
        txid: 66,
        fee: 0,
        payload: TxPayload::TokenTransfer,
        flagged_unsafe: true,
        execution: ExecBehavior::Apply { cost: small_cost(1) },
    };
    let r = NakamotoBlockBuilder::build_nakamoto_block(
        &ctx,
        &vec![0u8; 4],
        &parent,
        88,
        200,
        &tinfo,
        &vec![transfer(10, 5), poison, transfer(11, 6)],
        &settings(),
    );
    assert_eq!(r, Err(BuildError::ProblematicTransaction(66)));
}

#[test]
fn building_twice_gives_identical_digests() {
    let (ctx, parent) = context_with_parent();
    let tinfo = NakamotoTenureInfo {
        coinbase_tx: Some(coinbase_tx(2)),
        tenure_change_tx: Some(tenure_change_tx(1)),
    };
    let txs = vec![transfer(10, 5), transfer(11, 6)];
    let r1 = NakamotoBlockBuilder::build_nakamoto_block(
        &ctx,
        &vec![0u8; 4],
        &parent,
        88,
        200,
        &tinfo,
        &txs,
        &settings(),
    )
    .unwrap();
    let tinfo2 = NakamotoTenureInfo {
        coinbase_tx: Some(coinbase_tx(2)),
        tenure_change_tx: Some(tenure_change_tx(1)),
    };
    let r2 = NakamotoBlockBuilder::build_nakamoto_block(
        &ctx,
        &vec![0u8; 4],
        &parent,
        88,
        200,
        &tinfo2,
        &txs,
        &settings(),
    )
    .unwrap();
    assert_eq!(r1.0.header.block_hash(), r2.0.header.block_hash());
    assert_eq!(r1.0, r2.0);
    assert_eq!(r1.1, r2.1);
    assert_eq!(r1.2, r2.2);
}

#[test]
fn tenure_info_cause_reads_the_tenure_change() {
    let tinfo = NakamotoTenureInfo {
        coinbase_tx: Some(coinbase_tx(2)),
        tenure_change_tx: Some(tenure_change_tx(1)),
    };
    assert_eq!(tinfo.cause(), Some(TenureChangeCause::BlockFound));
    assert!(tinfo.coinbase_tx().is_some());
    assert!(tinfo.tenure_change_tx().is_some());
    let none = NakamotoTenureInfo { coinbase_tx: None, tenure_change_tx: None };
    assert_eq!(none.cause(), None);
    assert!(none.coinbase_tx().is_none());
}

#[test]
fn proportion_tracks_fullest_dimension() {
    let limit = budget();
    let consumed = ExecCost {
        write_length: 500,
        write_count: 10,
        read_length: 0,
        read_count: 0,
        runtime: 900,
    };
    assert_eq!(limit.proportion_largest_dimension(&consumed), 90);
    assert_eq!(limit.proportion_largest_dimension(&ExecCost::zero()), 0);
}

#[test]
fn limit_state_machine_is_monotonic() {
    let s0 = BlockLimitState::NoLimitHit;
    let s1 = s0.advance();
    let s2 = s1.advance();
    let s3 = s2.advance();
    assert_eq!(s1, BlockLimitState::ContractLimitHit);
    assert_eq!(s2, BlockLimitState::LimitReached);
    assert_eq!(s3, BlockLimitState::LimitReached);
}

#[test]
fn zero_byte_cap_admits_nothing() {
    let mut b = fresh_builder(0);
    let mut scratch = fresh_scratch();
    let cfg = BlockBuilderSettings {
        max_block_bytes: 0,
        exec_limit: budget(),
        tx_limit_proportion_heuristic: 15,
    };
    let tx = transfer(1, 1);
    let r = b.try_mine_tx_with_len(&mut scratch, &tx, 0, &BlockLimitState::NoLimitHit, &cfg);
    assert_eq!(r, TransactionOutcome::Skipped(SkipReason::BlockTooBig));
    assert_eq!(b.get_bytes_so_far(), 0);
}

#[test]
fn empty_list_builds_an_empty_continuation_block() {
    let (ctx, parent) = context_with_parent();
    let tinfo = NakamotoTenureInfo { coinbase_tx: None, tenure_change_tx: None };
    let (block, _cost, size) = NakamotoBlockBuilder::build_nakamoto_block(
        &ctx,
        &vec![0u8; 4],
        &parent,
        88,
        200,
        &tinfo,
        &vec![],
        &settings(),
    )
    .unwrap();
    assert_eq!(block.txs.len(), 0);
    assert_eq!(size, 0);
    assert_eq!(block.header.chain_length, 6);
}
