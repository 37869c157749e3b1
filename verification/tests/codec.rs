use tenure_block_engine::chain::NakamotoBlock;
use tenure_block_engine::chain::NakamotoBlockHeader;
use tenure_block_engine::types::ExecBehavior;
use tenure_block_engine::types::ExecCost;
use tenure_block_engine::types::TenureChangeCause;
use tenure_block_engine::types::Transaction;
use tenure_block_engine::types::TxPayload;
use tenure_block_engine::validate::CodecError;
use tenure_block_engine::validate::NakamotoBlockProposal;

fn codec_tx(txid: u64) -> Transaction {
    Transaction {
        txid,
        fee: 300,
        payload: TxPayload::TenureChange { cause: TenureChangeCause::Extended },
        flagged_unsafe: false,
        execution: ExecBehavior::Apply {
            cost: ExecCost {
                write_length: 1,
                write_count: 2,
                read_length: 3,
                read_count: 4,
                runtime: 5,
            },
        },
    }
}

fn codec_proposal() -> NakamotoBlockProposal {
    NakamotoBlockProposal {
        block: NakamotoBlock {
            header: NakamotoBlockHeader {
                chain_length: 9,
                burn_spent: 1000,
                consensus_hash: 0xdead,
                parent_block_id: vec![1, 2, 3, 4],
                tx_merkle_root: vec![5, 6],
                state_index_root: vec![7],
                miner_signature: 11,
                signer_signature: 22,
            },
            txs: vec![
                codec_tx(100),
                Transaction {
                    txid: 101,
                    fee: 0,
                    payload: TxPayload::ContractCall { boot_code_addr: true },
                    flagged_unsafe: true,
                    execution: ExecBehavior::RejectProblematic,
                },
                Transaction {
                    txid: 102,
                    fee: 7,
                    payload: TxPayload::SmartContract,
                    flagged_unsafe: false,
                    execution: ExecBehavior::Reject,
                },
            ],
        },
        tenure_start_block: vec![9, 8, 7],
        chain_id: 0x80000000,
    }
}

#[test]
fn proposal_round_trips_through_the_wire_format() {
    let p = codec_proposal();
    let bytes = p.consensus_serialize();
    let q = NakamotoBlockProposal::consensus_deserialize(&bytes).unwrap();
    assert_eq!(p, q);
}

#[test]
fn trailing_bytes_are_rejected() {
    let p = codec_proposal();
    let mut bytes = p.consensus_serialize();
    bytes.push(0);
    assert_eq!(
        NakamotoBlockProposal::consensus_deserialize(&bytes),
        Err(CodecError::DeserializeError)
    );
}

#[test]
fn truncated_input_is_rejected() {
    let p = codec_proposal();
    let mut bytes = p.consensus_serialize();
    bytes.pop();
    assert_eq!(
        NakamotoBlockProposal::consensus_deserialize(&bytes),
        Err(CodecError::DeserializeError)
    );
}

#[test]
fn corrupted_tag_is_rejected() {
    let p = codec_proposal();
    let mut bytes = p.consensus_serialize();
    // The first transaction's payload tag sits after the header and the
    // count; overwrite a byte deep enough to hit transaction data.
    let len = bytes.len();
    bytes[len - 50] = 0xff;
    // Whatever byte this hits, deserialization must not panic; it either
    // fails or yields a different proposal.
    match NakamotoBlockProposal::consensus_deserialize(&bytes) {
        Ok(q) => assert_ne!(p, q),
        Err(e) => assert_eq!(e, CodecError::DeserializeError),
    }
}

#[test]
fn empty_input_is_rejected() {
    let empty: Vec<u8> = vec![];
    assert_eq!(
        NakamotoBlockProposal::consensus_deserialize(&empty),
        Err(CodecError::DeserializeError)
    );
}

#[test]
fn tx_len_counts_the_canonical_encoding() {
    // Eight bytes of identifier, eight of fee, one payload tag, one
    // safety flag, one behaviour tag: nineteen in all.
    let tx = Transaction {
        txid: 1,
        fee: 2,
        payload: TxPayload::TokenTransfer,
        flagged_unsafe: false,
        execution: ExecBehavior::Reject,
    };
    assert_eq!(tx.tx_len(), 19);
    // An applying transaction adds the forty-byte cost vector.
    let applying = Transaction {
        txid: 1,
        fee: 2,
        payload: TxPayload::TokenTransfer,
        flagged_unsafe: false,
        execution: ExecBehavior::Apply { cost: ExecCost::zero() },
    };
    assert_eq!(applying.tx_len(), 59);
    // A tenure change carries one extra payload byte for the cause.
    let tc = Transaction {
        txid: 1,
        fee: 2,
        payload: TxPayload::TenureChange { cause: TenureChangeCause::BlockFound },
        flagged_unsafe: false,
        execution: ExecBehavior::Reject,
    };
    assert_eq!(tc.tx_len(), 20);
}

#[test]
fn block_hash_pins_every_digested_field() {
    let h = NakamotoBlockHeader {
        chain_length: 9,
        burn_spent: 1000,
        consensus_hash: 3,
        parent_block_id: vec![1, 2],
        tx_merkle_root: vec![3],
        state_index_root: vec![4],
        miner_signature: 0,
        signer_signature: 0,
    };
    let base = h.block_hash();
    let mut other = NakamotoBlockHeader {
        chain_length: 10,
        burn_spent: 1000,
        consensus_hash: 3,
        parent_block_id: vec![1, 2],
        tx_merkle_root: vec![3],
        state_index_root: vec![4],
        miner_signature: 0,
        signer_signature: 0,
    };
    assert_ne!(base, other.block_hash());
    other.chain_length = 9;
    assert_eq!(base, other.block_hash());
    // Signatures are not part of the digest.
    other.miner_signature = 77;
    other.signer_signature = 88;
    assert_eq!(base, other.block_hash());
    // The identifier, by contrast, pins the consensus hash too.
    let id1 = h.block_id();
    other.consensus_hash = 4;
    assert_ne!(id1, other.block_id());
}

#[test]
fn little_endian_fields_are_least_byte_first() {
    let p = NakamotoBlockProposal {
        block: NakamotoBlock {
            header: NakamotoBlockHeader {
                chain_length: 0x0102,
                burn_spent: 0,
                consensus_hash: 0,
                parent_block_id: vec![],
                tx_merkle_root: vec![],
                state_index_root: vec![],
                miner_signature: 0,
                signer_signature: 0,
            },
            txs: vec![],
        },
        tenure_start_block: vec![],
        chain_id: 0,
    };
    let bytes = p.consensus_serialize();
    assert_eq!(&bytes[0..8], &[0x02, 0x01, 0, 0, 0, 0, 0, 0]);
}

#[test]
fn absurd_transaction_count_fails_fast() {
    // A buffer claiming billions of transactions but holding none must be
    // rejected without looping over the claimed count.
    let p = NakamotoBlockProposal {
        block: NakamotoBlock {
            header: NakamotoBlockHeader::genesis(),
            txs: vec![],
        },
        tenure_start_block: vec![],
        chain_id: 0,
    };
    let mut bytes = p.consensus_serialize();
    // The transaction count sits right after the header encoding; the
    // header of a transaction-free genesis proposal is followed by the
    // eight-byte count, then the empty start block and the chain id.
    // Corrupt the count's most significant byte.
    let tail = bytes.len() - 12 - 1;
    bytes[tail] = 0xff;
    assert_eq!(
        NakamotoBlockProposal::consensus_deserialize(&bytes),
        Err(CodecError::DeserializeError)
    );
}
