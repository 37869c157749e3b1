use tenure_block_engine::builder::NakamotoBlockBuilder;
use tenure_block_engine::builder::NakamotoTenureInfo;
use tenure_block_engine::chain::ChainContext;
use tenure_block_engine::chain::ChainRecord;
use tenure_block_engine::chain::ChainStore;
use tenure_block_engine::chain::Epoch2Header;
use tenure_block_engine::chain::NakamotoBlockHeader;
use tenure_block_engine::chain::TenureParentRef;
use tenure_block_engine::types::BlockBuilderSettings;
use tenure_block_engine::types::ExecBehavior;
use tenure_block_engine::types::ExecCost;
use tenure_block_engine::types::TenureChangeCause;
use tenure_block_engine::types::Transaction;
use tenure_block_engine::types::TxPayload;
use tenure_block_engine::validate::NakamotoBlockProposal;

fn ten_cost() -> ExecCost {
    ExecCost { write_length: 1, write_count: 1, read_length: 1, read_count: 1, runtime: 1 }
}

fn ten_settings() -> BlockBuilderSettings {
    BlockBuilderSettings {
        max_block_bytes: 10000,
        exec_limit: ExecCost {
            write_length: 1000,
            write_count: 1000,
            read_length: 1000,
            read_count: 1000,
            runtime: 1000,
        },
        tx_limit_proportion_heuristic: 15,
    }
}

fn ten_tx(txid: u64, payload: TxPayload) -> Transaction {
    Transaction {
        txid,
        fee: 5,
        payload,
        flagged_unsafe: false,
        execution: ExecBehavior::Apply { cost: ten_cost() },
    }
}

#[test]
fn fixed_list_build_includes_everything_that_fits() {
    let parent = TenureParentRef::NakamotoParent(NakamotoBlockHeader {
        chain_length: 3,
        burn_spent: 50,
        consensus_hash: 42,
        parent_block_id: vec![7],
        tx_merkle_root: vec![],
        state_index_root: vec![],
        miner_signature: 0,
        signer_signature: 0,
    });
    let rec = ChainRecord {
        block_id: parent.block_id(),
        parent_ref: parent.duplicate(),
        stacks_block_height: 3,
        burn_header_height: 8,
        coinbase_height: Some(1),
    };
    let ctx = ChainContext {
        store: ChainStore { records: vec![rec] },
        chain_id: 1,
        mainnet: true,
        burn_tip: 4,
        burn_tip_height: 9,
    };
    let tc = ten_tx(1, TxPayload::TenureChange { cause: TenureChangeCause::BlockFound });
    let cb = ten_tx(2, TxPayload::Coinbase);
    let txs = vec![tc, cb, ten_tx(3, TxPayload::TokenTransfer)];
    let mut builder = match &parent {
        TenureParentRef::NakamotoParent(h) => NakamotoBlockBuilder::new_tenure_from_nakamoto_parent(
            &vec![0u8; 4],
            h,
            60,
            120,
            &tc,
            &cb,
        ),
        _ => unreachable!(),
    };
    let (block, size, _cost) = builder
        .make_nakamoto_block_from_txs(&ctx, &txs, &ten_settings())
        .unwrap();
    let ids: Vec<u64> = block.txs.iter().map(|t| t.txid).collect();
    assert_eq!(ids, vec![1, 2, 3]);
    let total: u64 = block.txs.iter().map(|t| t.tx_len()).sum();
    assert_eq!(size, total);
    assert_eq!(block.header.chain_length, 4);
    assert_eq!(block.header.consensus_hash, 60);
}

#[test]
fn epoch2_parent_build_and_validation_agree() {
    let parent = TenureParentRef::Epoch2Parent(
        Epoch2Header { total_work: 11, block_hash: vec![4, 5, 6] },
        33,
    );
    let rec = ChainRecord {
        block_id: parent.block_id(),
        parent_ref: parent.duplicate(),
        stacks_block_height: 11,
        burn_header_height: 20,
        coinbase_height: Some(10),
    };
    let ctx = ChainContext {
        store: ChainStore { records: vec![rec] },
        chain_id: 1,
        mainnet: true,
        burn_tip: 4,
        burn_tip_height: 9,
    };
    let tinfo = NakamotoTenureInfo {
        coinbase_tx: Some(ten_tx(2, TxPayload::Coinbase)),
        tenure_change_tx: Some(
            ten_tx(1, TxPayload::TenureChange { cause: TenureChangeCause::BlockFound }),
        ),
    };
    let (block, cost, size) = NakamotoBlockBuilder::build_nakamoto_block(
        &ctx,
        &vec![1u8; 4],
        &parent,
        70,
        300,
        &tinfo,
        &vec![ten_tx(5, TxPayload::TokenTransfer)],
        &ten_settings(),
    )
    .unwrap();
    assert_eq!(block.header.chain_length, 12);
    let proposal = NakamotoBlockProposal { block, tenure_start_block: vec![1u8; 4], chain_id: 1 };
    let ok = proposal.validate(&ctx, &ten_settings()).unwrap();
    assert_eq!(ok.block, proposal.block);
    assert_eq!(ok.cost, cost);
    assert_eq!(ok.size, size);
}

#[test]
fn genesis_build_starts_from_nothing() {
    let ctx = ChainContext {
        store: ChainStore { records: vec![] },
        chain_id: 1,
        mainnet: true,
        burn_tip: 0,
        burn_tip_height: 0,
    };
    let tinfo = NakamotoTenureInfo {
        coinbase_tx: Some(ten_tx(2, TxPayload::Coinbase)),
        tenure_change_tx: Some(
            ten_tx(1, TxPayload::TenureChange { cause: TenureChangeCause::BlockFound }),
        ),
    };
    let (block, _cost, _size) = NakamotoBlockBuilder::build_nakamoto_block(
        &ctx,
        &vec![],
        &TenureParentRef::Genesis,
        99,
        99,
        &tinfo,
        &vec![],
        &ten_settings(),
    )
    .unwrap();
    // The genesis header ignores the requested tenure values.
    assert_eq!(block.header.chain_length, 1);
    assert_eq!(block.header.burn_spent, 0);
    let ids: Vec<u64> = block.txs.iter().map(|t| t.txid).collect();
    assert_eq!(ids, vec![1, 2]);
}

#[test]
fn tenure_begin_budget_comes_from_settings() {
    let parent = TenureParentRef::NakamotoParent(NakamotoBlockHeader::genesis());
    let rec = ChainRecord {
        block_id: parent.block_id(),
        parent_ref: parent.duplicate(),
        stacks_block_height: 1,
        burn_header_height: 1,
        coinbase_height: None,
    };
    let ctx = ChainContext {
        store: ChainStore { records: vec![rec] },
        chain_id: 1,
        mainnet: true,
        burn_tip: 0,
        burn_tip_height: 0,
    };
    let tc = ten_tx(1, TxPayload::TenureChange { cause: TenureChangeCause::Extended });
    let builder = match &parent {
        TenureParentRef::NakamotoParent(h) => {
            NakamotoBlockBuilder::continue_tenure_from_nakamoto_parent(h, 5, 10, Some(&tc))
        }
        _ => unreachable!(),
    };
    let info = builder.load_tenure_info(&ctx, Some(TenureChangeCause::Extended)).unwrap();
    // A parent with no recorded coinbase height starts the count at zero.
    assert_eq!(info.coinbase_height, 0);
    assert_eq!(info.parent_stacks_block_height, 1);
    let scratch = builder.tenure_begin(&info, &ten_settings());
    assert_eq!(scratch.limit, ten_settings().exec_limit);
    assert_eq!(scratch.consumed, ExecCost::zero());
    assert!(scratch.applied.is_empty());
    // Finishing returns exactly what was consumed.
    let consumed = builder.tenure_finish(scratch);
    assert_eq!(consumed, ExecCost::zero());
}

#[test]
fn default_settings_carry_the_protocol_constants() {
    let d = BlockBuilderSettings::default();
    assert_eq!(d.max_block_bytes, 2 * 1024 * 1024);
    assert_eq!(d.tx_limit_proportion_heuristic, 15);
}
