use tenure_block_engine::builder::NakamotoBlockBuilder;
use tenure_block_engine::builder::NakamotoTenureInfo;
use tenure_block_engine::chain::ChainContext;
use tenure_block_engine::chain::ChainRecord;
use tenure_block_engine::chain::ChainStore;
use tenure_block_engine::chain::NakamotoBlock;
use tenure_block_engine::chain::NakamotoBlockHeader;
use tenure_block_engine::chain::TenureParentRef;
use tenure_block_engine::types::BlockBuilderSettings;
use tenure_block_engine::types::BuildError;
use tenure_block_engine::types::ExecBehavior;
use tenure_block_engine::types::ExecCost;
use tenure_block_engine::types::TenureChangeCause;
use tenure_block_engine::types::Transaction;
use tenure_block_engine::types::TxPayload;
use tenure_block_engine::validate::BlockValidateOk;
use tenure_block_engine::validate::BlockValidateReject;
use tenure_block_engine::validate::BlockValidateResponse;
use tenure_block_engine::validate::NakamotoBlockProposal;
use tenure_block_engine::validate::ValidateRejectCode;

fn small_cost(runtime: u64) -> ExecCost {
    ExecCost { write_length: 1, write_count: 1, read_length: 1, read_count: 1, runtime }
}

fn val_budget() -> ExecCost {
    ExecCost {
        write_length: 1000,
        write_count: 1000,
        read_length: 1000,
        read_count: 1000,
        runtime: 1000,
    }
}

fn val_settings() -> BlockBuilderSettings {
    BlockBuilderSettings {
        max_block_bytes: 10000,
        exec_limit: val_budget(),
        tx_limit_proportion_heuristic: 15,
    }
}

fn val_transfer(txid: u64, runtime: u64) -> Transaction {
    Transaction {
        txid,
        fee: 10,
        payload: TxPayload::TokenTransfer,
        flagged_unsafe: false,
        execution: ExecBehavior::Apply { cost: small_cost(runtime) },
    }
}

fn val_tenure_change() -> Transaction {
    Transaction {
        txid: 1,
        fee: 0,
        payload: TxPayload::TenureChange { cause: TenureChangeCause::BlockFound },
        flagged_unsafe: false,
        execution: ExecBehavior::Apply { cost: small_cost(1) },
    }
}

fn val_coinbase() -> Transaction {
    Transaction {
        txid: 2,
        fee: 0,
        payload: TxPayload::Coinbase,
        flagged_unsafe: false,
        execution: ExecBehavior::Apply { cost: small_cost(1) },
    }
}

fn val_parent_header() -> NakamotoBlockHeader {
    NakamotoBlockHeader {
        chain_length: 5,
        burn_spent: 100,
        consensus_hash: 77,
        parent_block_id: vec![1, 2, 3],
        tx_merkle_root: vec![],
        state_index_root: vec![],
        miner_signature: 0,
        signer_signature: 0,
    }
}

fn val_context() -> (ChainContext, TenureParentRef) {
    let parent = TenureParentRef::NakamotoParent(val_parent_header());
    let rec = ChainRecord {
        block_id: parent.block_id(),
        parent_ref: parent.duplicate(),
        stacks_block_height: 5,
        burn_header_height: 10,
        coinbase_height: Some(3),
    };
    let ctx = ChainContext {
        store: ChainStore { records: vec![rec] },
        chain_id: 1,
        mainnet: true,
        burn_tip: 999,
        burn_tip_height: 12,
    };
    (ctx, parent)
}

fn built_proposal() -> (ChainContext, NakamotoBlockProposal, ExecCost, u64) {
    let (ctx, parent) = val_context();
    let tinfo = NakamotoTenureInfo {
        coinbase_tx: Some(val_coinbase()),
        tenure_change_tx: Some(val_tenure_change()),
    };
    let (block, cost, size) = NakamotoBlockBuilder::build_nakamoto_block(
        &ctx,
        &vec![0u8; 4],
        &parent,
        88,
        200,
        &tinfo,
        &vec![val_transfer(10, 5), val_transfer(11, 6)],
        &val_settings(),
    )
    .unwrap();
    let proposal = NakamotoBlockProposal { block, tenure_start_block: vec![0u8; 4], chain_id: 1 };
    (ctx, proposal, cost, size)
}

fn duplicate_header(h: &NakamotoBlockHeader) -> NakamotoBlockHeader {
    NakamotoBlockHeader {
        chain_length: h.chain_length,
        burn_spent: h.burn_spent,
        consensus_hash: h.consensus_hash,
        parent_block_id: h.parent_block_id.clone(),
        tx_merkle_root: h.tx_merkle_root.clone(),
        state_index_root: h.state_index_root.clone(),
        miner_signature: h.miner_signature,
        signer_signature: h.signer_signature,
    }
}

fn duplicate_proposal(p: &NakamotoBlockProposal) -> NakamotoBlockProposal {
    NakamotoBlockProposal {
        block: NakamotoBlock {
            header: duplicate_header(&p.block.header),
            txs: p.block.txs.clone(),
        },
        tenure_start_block: p.tenure_start_block.clone(),
        chain_id: p.chain_id,
    }
}

#[test]
fn validator_accepts_built_block() {
    let (ctx, proposal, cost, size) = built_proposal();
    let ok = proposal.validate(&ctx, &val_settings()).unwrap();
    assert_eq!(ok.block, proposal.block);
    assert_eq!(ok.cost, cost);
    assert_eq!(ok.size, size);
}

#[test]
fn flipped_merkle_root_bit_is_rejected() {
    let (ctx, proposal, _, _) = built_proposal();
    let mut tampered = duplicate_proposal(&proposal);
    tampered.block.header.tx_merkle_root[0] ^= 1;
    let r = tampered.validate(&ctx, &val_settings());
    assert_eq!(r.unwrap_err().reason_code, ValidateRejectCode::BadBlockHash);
}

#[test]
fn flipped_state_root_bit_is_rejected() {
    let (ctx, proposal, _, _) = built_proposal();
    let mut tampered = duplicate_proposal(&proposal);
    let last = tampered.block.header.state_index_root.len() - 1;
    tampered.block.header.state_index_root[last] ^= 0x80;
    let r = tampered.validate(&ctx, &val_settings());
    assert_eq!(r.unwrap_err().reason_code, ValidateRejectCode::BadBlockHash);
}

#[test]
fn tampered_chain_length_is_rejected() {
    let (ctx, proposal, _, _) = built_proposal();
    let mut tampered = duplicate_proposal(&proposal);
    tampered.block.header.chain_length += 1;
    let r = tampered.validate(&ctx, &val_settings());
    assert_eq!(r.unwrap_err().reason_code, ValidateRejectCode::BadBlockHash);
}

#[test]
fn wrong_chain_id_is_invalid_block() {
    let (ctx, proposal, _, _) = built_proposal();
    let mut wrong = duplicate_proposal(&proposal);
    wrong.chain_id = 2;
    let r = wrong.validate(&ctx, &val_settings());
    assert_eq!(r.unwrap_err().reason_code, ValidateRejectCode::InvalidBlock);
}

#[test]
fn unknown_parent_is_invalid_block() {
    let (mut ctx, proposal, _, _) = built_proposal();
    ctx.store.records.clear();
    let r = proposal.validate(&ctx, &val_settings());
    assert_eq!(r.unwrap_err().reason_code, ValidateRejectCode::InvalidBlock);
}

#[test]
fn embedded_invalid_transaction_is_bad_transaction() {
    let (ctx, proposal, _, _) = built_proposal();
    let mut bad = duplicate_proposal(&proposal);
    bad.block.txs.push(Transaction {
        txid: 99,
        fee: 0,
        payload: TxPayload::TokenTransfer,
        flagged_unsafe: false,
        execution: ExecBehavior::Reject,
    });
    let r = bad.validate(&ctx, &val_settings());
    assert_eq!(r.unwrap_err().reason_code, ValidateRejectCode::BadTransaction);
}

#[test]
fn embedded_problematic_transaction_is_bad_transaction() {
    let (ctx, proposal, _, _) = built_proposal();
    let mut bad = duplicate_proposal(&proposal);
    bad.block.txs.push(Transaction {
        txid: 99,
        fee: 0,
        payload: TxPayload::TokenTransfer,
        flagged_unsafe: true,
        execution: ExecBehavior::Apply { cost: small_cost(1) },
    });
    let r = bad.validate(&ctx, &val_settings());
    assert_eq!(r.unwrap_err().reason_code, ValidateRejectCode::BadTransaction);
}

#[test]
fn signatures_are_copied_through() {
    let (ctx, proposal, _, _) = built_proposal();
    let mut signed = duplicate_proposal(&proposal);
    signed.block.header.miner_signature = 4242;
    signed.block.header.signer_signature = 2424;
    let ok = signed.validate(&ctx, &val_settings()).unwrap();
    assert_eq!(ok.block.header.miner_signature, 4242);
    assert_eq!(ok.block.header.signer_signature, 2424);
}

#[test]
fn response_from_result_keeps_the_verdict() {
    let ok = BlockValidateOk {
        block: NakamotoBlock { header: NakamotoBlockHeader::genesis(), txs: vec![] },
        cost: ExecCost::zero(),
        size: 0,
    };
    let r = BlockValidateResponse::from(Ok::<BlockValidateOk, BlockValidateReject>(ok));
    assert!(matches!(r, BlockValidateResponse::Accept(_)));
    let rej = BlockValidateReject {
        reason: "no".to_string(),
        reason_code: ValidateRejectCode::InvalidBlock,
    };
    let r2 = BlockValidateResponse::from(Err::<BlockValidateOk, BlockValidateReject>(rej));
    assert!(matches!(r2, BlockValidateResponse::Reject(_)));
}

#[test]
fn build_errors_surface_as_chainstate_rejections() {
    let rej = BlockValidateReject::from(BuildError::ExpectedTenureChange);
    assert_eq!(rej.reason_code, ValidateRejectCode::ChainstateError);
}

#[test]
fn claimed_tenure_start_block_is_not_cross_checked() {
    // Known protocol ambiguity, preserved deliberately: the claimed
    // tenure-start identifier rides along in the proposal but no step of
    // validation compares it against storage, so an otherwise identical
    // proposal with a different claim is still accepted.
    let (ctx, proposal, _, _) = built_proposal();
    let mut other = duplicate_proposal(&proposal);
    other.tenure_start_block = vec![9u8; 4];
    assert!(other.validate(&ctx, &val_settings()).is_ok());
}
