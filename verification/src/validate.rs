//! Proposal validation: the wire format of a block proposal, and the
//! validator that replays a proposed block through the identical builder
//! pipeline and compares the resulting header digest.

use vstd::prelude::*;
use vstd::string::StringExecFns;

use crate::builder::GateState;
use crate::builder::NakamotoBlockBuilder;
use crate::builder::ScratchV;
use crate::builder::BuilderV;
use crate::builder::find_tenure_cause;
use crate::builder::gate_of;
use crate::builder::scratch_wf;
use crate::builder::spec_admit;
use crate::builder::spec_finalize;
use crate::builder::spec_first_coinbase;
use crate::builder::spec_first_tenure_change;
use crate::builder::spec_load_tenure_info;
use crate::builder::spec_new_from_parent;
use crate::builder::spec_tenure_begin;
use crate::builder::spec_txs_tenure_cause;
use crate::builder::TenureInfoV;
use crate::chain::BlockV;
use crate::chain::ChainContext;
use crate::chain::CtxV;
use crate::chain::HeaderV;
use crate::chain::NakamotoBlock;
use crate::chain::NakamotoBlockHeader;
use crate::chain::bytes_eq;
use crate::chain::ctx_wf;
use crate::chain::header_wf;
use crate::chain::lemma_store_find_wf;
use crate::chain::spec_block_hash;
use crate::chain::spec_enc_header;
use crate::chain::spec_read_header;
use crate::chain::spec_store_find;
use crate::codec::enc_le;
use crate::codec::lemma_read_enc_bytes;
use crate::codec::lemma_read_enc_le;
use crate::codec::lemma_read_enc_tx_seq;
use crate::codec::lemma_read_enc_u32;
use crate::codec::pow256;
use crate::codec::push_bytes;
use crate::codec::push_le;
use crate::codec::push_tx;
use crate::codec::push_u32;
use crate::codec::push_u64;
use crate::codec::read_bytesx;
use crate::codec::read_tx_seqx;
use crate::codec::read_u32x;
use crate::codec::read_u64x;
use crate::codec::spec_enc_bytes;
use crate::codec::spec_enc_tx_seq;
use crate::codec::spec_enc_u32;
use crate::codec::spec_read_bytes;
use crate::codec::spec_read_le;
use crate::codec::spec_read_tx_seq;
use crate::codec::spec_read_u32;
use crate::codec::spec_tx_len;
use crate::types::BlockBuilderSettings;
use crate::types::BlockLimitState;
use crate::types::BuildError;
use crate::types::ExecCost;
use crate::types::Transaction;
use crate::types::TransactionOutcome;
use crate::types::TxPayload;
use crate::types::CHAIN_ID_MAINNET;

verus! {

/// Error raised when a byte string is not a proposal's encoding.
#[derive(Clone, Copy, Debug, PartialEq, Eq)]
pub enum CodecError {
    DeserializeError,
}

/// Mathematical model of a block proposal.
pub ghost struct ProposalV {
    pub block: BlockV,
    pub tenure_start_block: Seq<u8>,
    pub chain_id: u32,
}

/// A block proposed by a peer for validation: the candidate block, the
/// identifier of the start block of the parent tenure, and the network
/// the block is for.  Consumed read-only.
#[derive(Debug, PartialEq, Eq)]
pub struct NakamotoBlockProposal {
    /// Proposed block.
    pub block: NakamotoBlock,
    /// Identifier of the block that started the parent tenure.
    pub tenure_start_block: Vec<u8>,
    /// Identifies which chain the block is for.
    pub chain_id: u32,
}

impl View for NakamotoBlockProposal {
    type V = ProposalV;

    open spec fn view(&self) -> ProposalV {
        ProposalV {
            block: self.block@,
            tenure_start_block: self.tenure_start_block@,
            chain_id: self.chain_id,
        }
    }
}

/// Wire encoding of a block: header, transaction count, transactions.
pub open spec fn spec_enc_block(b: BlockV) -> Seq<u8> {
    spec_enc_header(b.header) + enc_le(b.txs.len(), 8) + spec_enc_tx_seq(b.txs)
}

pub open spec fn spec_read_block(s: Seq<u8>) -> Option<(BlockV, Seq<u8>)> {
    match spec_read_header(s) {
        Some((h, s1)) => match spec_read_le(s1, 8) {
            Some((n, s2)) => match spec_read_tx_seq(s2, n) {
                Some((txs, s3)) => Some((BlockV { header: h, txs }, s3)),
                None => None,
            },
            None => None,
        },
        None => None,
    }
}

/// Wire encoding of a proposal: block, parent-tenure start block, chain.
pub open spec fn spec_enc_proposal(p: ProposalV) -> Seq<u8> {
    spec_enc_block(p.block) + spec_enc_bytes(p.tenure_start_block) + spec_enc_u32(p.chain_id)
}

pub open spec fn spec_read_proposal(s: Seq<u8>) -> Option<(ProposalV, Seq<u8>)> {
    match spec_read_block(s) {
        Some((b, s1)) => match spec_read_bytes(s1) {
            Some((tsb, s2)) => match spec_read_u32(s2) {
                Some((cid, s3)) => Some(
                    (ProposalV { block: b, tenure_start_block: tsb, chain_id: cid }, s3),
                ),
                None => None,
            },
            None => None,
        },
        None => None,
    }
}

/// A block whose byte-string fields and transaction count fit their
/// length prefixes; true of every block an execution builds.
pub open spec fn block_wf(b: BlockV) -> bool {
    &&& header_wf(b.header)
    &&& b.txs.len() < pow256(8)
}

pub open spec fn proposal_wf(p: ProposalV) -> bool {
    &&& block_wf(p.block)
    &&& p.tenure_start_block.len() < pow256(8)
}

pub proof fn lemma_read_enc_block(b: BlockV, rest: Seq<u8>)
    requires
        block_wf(b),
    ensures
        spec_read_block(spec_enc_block(b) + rest) == Some((b, rest)),
{
    let t2 = spec_enc_tx_seq(b.txs) + rest;
    let t1 = enc_le(b.txs.len(), 8) + t2;
    let s = spec_enc_block(b) + rest;
    assert(s =~= spec_enc_header(b.header) + t1);
    crate::chain::lemma_read_enc_header(b.header, t1);
    assert(t1 =~= enc_le(b.txs.len(), 8) + t2);
    lemma_read_enc_le(b.txs.len(), 8, t2);
    lemma_read_enc_tx_seq(b.txs, rest);
}

pub proof fn lemma_read_enc_proposal(p: ProposalV, rest: Seq<u8>)
    requires
        proposal_wf(p),
    ensures
        spec_read_proposal(spec_enc_proposal(p) + rest) == Some((p, rest)),
{
    let t2 = spec_enc_u32(p.chain_id) + rest;
    let t1 = spec_enc_bytes(p.tenure_start_block) + t2;
    let s = spec_enc_proposal(p) + rest;
    assert(s =~= spec_enc_block(p.block) + t1);
    lemma_read_enc_block(p.block, t1);
    assert(t1 =~= spec_enc_bytes(p.tenure_start_block) + t2);
    lemma_read_enc_bytes(p.tenure_start_block, t2);
    lemma_read_enc_u32(p.chain_id, rest);
}

/// Serialization inverts to the same proposal with nothing left over.
pub proof fn lemma_proposal_round_trip(p: ProposalV)
    requires
        proposal_wf(p),
    ensures
        spec_read_proposal(spec_enc_proposal(p)) == Some((p, Seq::<u8>::empty())),
{
    lemma_read_enc_proposal(p, Seq::empty());
    assert(spec_enc_proposal(p) + Seq::<u8>::empty() =~= spec_enc_proposal(p));
}

/// Append a header's wire encoding.
pub fn push_header(out: &mut Vec<u8>, h: &NakamotoBlockHeader)
    ensures
        final(out)@ == old(out)@ + spec_enc_header(h@),
{
    push_u64(out, h.chain_length);
    push_u64(out, h.burn_spent);
    push_u64(out, h.consensus_hash);
    push_bytes(out, &h.parent_block_id);
    push_bytes(out, &h.tx_merkle_root);
    push_bytes(out, &h.state_index_root);
    push_u64(out, h.miner_signature);
    push_u64(out, h.signer_signature);
    proof {
        assert(out@ =~= old(out)@ + spec_enc_header(h@));
    }
}

/// Extending a transaction prefix by one element appends its encoding.
pub proof fn lemma_enc_tx_seq_take_snoc(txs: Seq<Transaction>, i: int)
    requires
        0 <= i < txs.len(),
    ensures
        spec_enc_tx_seq(txs.take(i + 1)) == spec_enc_tx_seq(txs.take(i)) + crate::codec::spec_enc_tx(
            txs[i],
        ),
    decreases i,
{
    if i == 0 {
        assert(txs.take(1).len() == 1);
        assert(txs.take(1)[0] == txs[0]);
        assert(txs.take(1).skip(1) =~= Seq::<Transaction>::empty());
        assert(spec_enc_tx_seq(txs.take(1)) == crate::codec::spec_enc_tx(txs.take(1)[0])
            + spec_enc_tx_seq(txs.take(1).skip(1)));
        assert(crate::codec::spec_enc_tx(txs[0]) + Seq::<u8>::empty() =~= crate::codec::spec_enc_tx(
            txs[0],
        ));
        assert(txs.take(0) =~= Seq::<Transaction>::empty());
        assert(Seq::<u8>::empty() + crate::codec::spec_enc_tx(txs[0])
            =~= crate::codec::spec_enc_tx(txs[0]));
    } else {
        let t = txs.skip(1);
        lemma_enc_tx_seq_take_snoc(t, i - 1);
        assert(txs.take(i + 1)[0] == txs[0]);
        assert(txs.take(i + 1).skip(1) =~= t.take(i));
        assert(txs.take(i).skip(1) =~= t.take(i - 1));
        assert(txs.take(i)[0] == txs[0]);
        assert(spec_enc_tx_seq(txs.take(i + 1)) == crate::codec::spec_enc_tx(txs[0])
            + spec_enc_tx_seq(t.take(i)));
        assert(spec_enc_tx_seq(txs.take(i)) == crate::codec::spec_enc_tx(txs[0])
            + spec_enc_tx_seq(t.take(i - 1)));
        assert(t[i - 1] == txs[i]);
        assert(crate::codec::spec_enc_tx(txs[0]) + (spec_enc_tx_seq(t.take(i - 1))
            + crate::codec::spec_enc_tx(txs[i])) =~= (crate::codec::spec_enc_tx(txs[0])
            + spec_enc_tx_seq(t.take(i - 1))) + crate::codec::spec_enc_tx(txs[i]));
    }
}

/// Append a block's wire encoding.
pub fn push_block(out: &mut Vec<u8>, b: &NakamotoBlock)
    ensures
        final(out)@ == old(out)@ + spec_enc_block(b@),
{
    push_header(out, &b.header);
    push_le(out, b.txs.len() as u64, 8);
    let ghost mid = out@;
    let mut i: usize = 0;
    while i < b.txs.len()
        invariant
            i <= b.txs@.len(),
            out@ == mid + spec_enc_tx_seq(b.txs@.take(i as int)),
        decreases b.txs.len() - i,
    {
        push_tx(out, &b.txs[i]);
        proof {
            lemma_enc_tx_seq_take_snoc(b.txs@, i as int);
            assert(out@ =~= mid + spec_enc_tx_seq(b.txs@.take(i + 1)));
        }
        i = i + 1;
    }
    proof {
        assert(b.txs@.take(b.txs@.len() as int) =~= b.txs@);
        assert(out@ =~= old(out)@ + spec_enc_block(b@));
    }
}

/// Read a header from the buffer.
pub fn read_headerx(buf: &Vec<u8>, pos: usize) -> (r: Option<(NakamotoBlockHeader, usize)>)
    requires
        pos <= buf@.len(),
    ensures
        match spec_read_header(buf@.skip(pos as int)) {
            Some((h, rest)) => {
                &&& r matches Some(t)
                &&& t.0@ == h
                &&& pos <= t.1 <= buf@.len()
                &&& buf@.skip(t.1 as int) == rest
            },
            None => r is None,
        },
{
    match read_u64x(buf, pos) {
        Some((chain_length, p1)) => match read_u64x(buf, p1) {
            Some((burn_spent, p2)) => match read_u64x(buf, p2) {
                Some((consensus_hash, p3)) => match read_bytesx(buf, p3) {
                    Some((parent_block_id, p4)) => match read_bytesx(buf, p4) {
                        Some((tx_merkle_root, p5)) => match read_bytesx(buf, p5) {
                            Some((state_index_root, p6)) => match read_u64x(buf, p6) {
                                Some((miner_signature, p7)) => match read_u64x(buf, p7) {
                                    Some((signer_signature, p8)) => Some(
                                        (
                                            NakamotoBlockHeader {
                                                chain_length,
                                                burn_spent,
                                                consensus_hash,
                                                parent_block_id,
                                                tx_merkle_root,
                                                state_index_root,
                                                miner_signature,
                                                signer_signature,
                                            },
                                            p8,
                                        ),
                                    ),
                                    None => None,
                                },
                                None => None,
                            },
                            None => None,
                        },
                        None => None,
                    },
                    None => None,
                },
                None => None,
            },
            None => None,
        },
        None => None,
    }
}

/// Read a block from the buffer.
pub fn read_blockx(buf: &Vec<u8>, pos: usize) -> (r: Option<(NakamotoBlock, usize)>)
    requires
        pos <= buf@.len(),
    ensures
        match spec_read_block(buf@.skip(pos as int)) {
            Some((b, rest)) => {
                &&& r matches Some(t)
                &&& t.0@ == b
                &&& pos <= t.1 <= buf@.len()
                &&& buf@.skip(t.1 as int) == rest
            },
            None => r is None,
        },
{
    proof {
        let s1 = buf@.skip(pos as int);
        match spec_read_header(s1) {
            Some(t) => {
                if t.1.len() >= 8 {
                    crate::codec::lemma_dec_le_bound(t.1.take(8));
                    crate::codec::lemma_pow256_vals();
                }
            },
            None => {},
        }
    }
    match read_headerx(buf, pos) {
        Some((header, p1)) => match read_u64x(buf, p1) {
            Some((n, p2)) => match read_tx_seqx(buf, p2, n) {
                Some((txs, p3)) => Some((NakamotoBlock { header, txs }, p3)),
                None => None,
            },
            None => None,
        },
        None => None,
    }
}

impl NakamotoBlockProposal {
    /// Serialize to the stable wire format that both builder and
    /// validator hash.
    pub fn consensus_serialize(&self) -> (r: Vec<u8>)
        ensures
            r@ == spec_enc_proposal(self@),
    {
        let mut out: Vec<u8> = Vec::new();
        push_block(&mut out, &self.block);
        push_bytes(&mut out, &self.tenure_start_block);
        push_u32(&mut out, self.chain_id);
        proof {
            assert(out@ =~= spec_enc_proposal(self@));
        }
        out
    }

    /// Deserialize from the wire format; the whole buffer must be
    /// consumed.  Never panics: a malformed buffer yields the error.
    pub fn consensus_deserialize(buf: &Vec<u8>) -> (r: Result<NakamotoBlockProposal, CodecError>)
        ensures
            match spec_read_proposal(buf@) {
                Some((pv, rest)) => {
                    &&& rest.len() == 0 ==> (r matches Ok(p) && p@ == pv)
                    &&& rest.len() != 0 ==> r is Err
                },
                None => r is Err,
            },
    {
        proof {
            assert(buf@.skip(0) =~= buf@);
        }
        match read_blockx(buf, 0) {
            Some((block, p1)) => match read_bytesx(buf, p1) {
                Some((tenure_start_block, p2)) => match read_u32x(buf, p2) {
                    Some((chain_id, p3)) => {
                        if p3 == buf.len() {
                            proof {
                                assert(buf@.skip(p3 as int).len() == 0);
                            }
                            Ok(NakamotoBlockProposal { block, tenure_start_block, chain_id })
                        } else {
                            proof {
                                assert(buf@.skip(p3 as int).len() != 0);
                            }
                            Err(CodecError::DeserializeError)
                        }
                    },
                    None => Err(CodecError::DeserializeError),
                },
                None => Err(CodecError::DeserializeError),
            },
            None => Err(CodecError::DeserializeError),
        }
    }
}

} // verus!

// The validator: replay the proposed block through the identical builder
// pipeline and compare header digests.

verus! {

/// Reason category of a validation rejection.
#[derive(Clone, Copy, Debug, PartialEq, Eq)]
pub enum ValidateRejectCode {
    BadBlockHash,
    BadTransaction,
    InvalidBlock,
    ChainstateError,
    UnknownParent,
}

/// A proposal the node rejects, with the reason category and a free-form
/// description.
#[derive(Debug, PartialEq, Eq)]
pub struct BlockValidateReject {
    pub reason: String,
    pub reason_code: ValidateRejectCode,
}

/// A proposal the node accepts: the replayed block with the proposal's
/// signatures overlaid, the execution cost consumed, and the byte size.
#[derive(Debug, PartialEq, Eq)]
pub struct BlockValidateOk {
    pub block: NakamotoBlock,
    pub cost: ExecCost,
    pub size: u64,
}

/// Outcome of proposal validation, in the shape the transport layer
/// serializes.
#[derive(Debug, PartialEq, Eq)]
pub enum BlockValidateResponse {
    Accept(BlockValidateOk),
    Reject(BlockValidateReject),
}

impl vstd::std_specs::convert::FromSpecImpl<Result<BlockValidateOk, BlockValidateReject>> for BlockValidateResponse {
    open spec fn obeys_from_spec() -> bool {
        true
    }

    open spec fn from_spec(v: Result<BlockValidateOk, BlockValidateReject>) -> Self {
        match v {
            Ok(o) => BlockValidateResponse::Accept(o),
            Err(e) => BlockValidateResponse::Reject(e),
        }
    }
}

impl From<Result<BlockValidateOk, BlockValidateReject>> for BlockValidateResponse {
    fn from(value: Result<BlockValidateOk, BlockValidateReject>) -> (r: Self)
        ensures
            (value matches Ok(o) ==> r == BlockValidateResponse::Accept(o)),
            (value matches Err(e) ==> r == BlockValidateResponse::Reject(e)),
    {
        match value {
            Ok(o) => BlockValidateResponse::Accept(o),
            Err(e) => BlockValidateResponse::Reject(e),
        }
    }
}

impl vstd::std_specs::convert::FromSpecImpl<BuildError> for BlockValidateReject {
    open spec fn obeys_from_spec() -> bool {
        false
    }

    open spec fn from_spec(v: BuildError) -> Self {
        arbitrary()
    }
}

impl From<BuildError> for BlockValidateReject {
    /// Construction errors surface as chain-state rejections.
    fn from(value: BuildError) -> (r: Self)
        ensures
            r.reason_code == ValidateRejectCode::ChainstateError,
    {
        BlockValidateReject {
            reason: String::from_str("chainstate error"),
            reason_code: ValidateRejectCode::ChainstateError,
        }
    }
}

/// First tenure-change transaction of a list.
pub fn find_first_tenure_change(txs: &Vec<Transaction>) -> (r: Option<Transaction>)
    ensures
        r == spec_first_tenure_change(txs@),
{
    let mut i: usize = 0;
    proof {
        assert(txs@.skip(0) =~= txs@);
    }
    while i < txs.len()
        invariant
            i <= txs@.len(),
            spec_first_tenure_change(txs@) == spec_first_tenure_change(txs@.skip(i as int)),
        decreases txs.len() - i,
    {
        match txs[i].payload {
            TxPayload::TenureChange { .. } => {
                proof {
                    assert(txs@.skip(i as int)[0] == txs@[i as int]);
                }
                return Some(txs[i]);
            },
            _ => {},
        }
        proof {
            assert(txs@.skip(i as int)[0] == txs@[i as int]);
            assert(txs@.skip(i as int).skip(1) =~= txs@.skip(i + 1));
        }
        i = i + 1;
    }
    proof {
        assert(txs@.skip(txs@.len() as int).len() == 0);
    }
    None
}

/// First coinbase transaction of a list.
pub fn find_first_coinbase(txs: &Vec<Transaction>) -> (r: Option<Transaction>)
    ensures
        r == spec_first_coinbase(txs@),
{
    let mut i: usize = 0;
    proof {
        assert(txs@.skip(0) =~= txs@);
    }
    while i < txs.len()
        invariant
            i <= txs@.len(),
            spec_first_coinbase(txs@) == spec_first_coinbase(txs@.skip(i as int)),
        decreases txs.len() - i,
    {
        match txs[i].payload {
            TxPayload::Coinbase => {
                proof {
                    assert(txs@.skip(i as int)[0] == txs@[i as int]);
                }
                return Some(txs[i]);
            },
            _ => {},
        }
        proof {
            assert(txs@.skip(i as int)[0] == txs@[i as int]);
            assert(txs@.skip(i as int).skip(1) =~= txs@.skip(i + 1));
        }
        i = i + 1;
    }
    proof {
        assert(txs@.skip(txs@.len() as int).len() == 0);
    }
    None
}

/// Strict replay: every transaction must be admitted successfully under
/// no limit gate; anything else fails the replay.
pub open spec fn spec_replay_txs(
    st: GateState,
    budget: ExecCost,
    txs: Seq<Transaction>,
    cfg: BlockBuilderSettings,
) -> Option<GateState>
    decreases txs.len(),
{
    if txs.len() == 0 {
        Some(st)
    } else {
        let r0 = spec_admit(
            st,
            budget,
            txs[0],
            spec_tx_len(txs[0]) as u64,
            BlockLimitState::NoLimitHit,
            cfg,
        );
        if r0.0 is Success {
            spec_replay_txs(r0.1, budget, txs.skip(1), cfg)
        } else {
            None
        }
    }
}

/// Proposal validation: reject a wrong network, resolve the claimed
/// parent, re-run the tenure resolution and the whole admission pipeline
/// over the proposal's own transaction list in its given order, seal,
/// overlay the claimed signatures, and compare header digests.  Every
/// malformed input resolves to a typed rejection.
pub open spec fn spec_validate(p: ProposalV, ctx: CtxV, cfg: BlockBuilderSettings) -> Result<
    (BlockV, ExecCost, u64),
    ValidateRejectCode,
> {
    let mainnet = p.chain_id == CHAIN_ID_MAINNET;
    if p.chain_id != ctx.chain_id || mainnet != ctx.mainnet {
        Err(ValidateRejectCode::InvalidBlock)
    } else {
        match spec_store_find(ctx.store, p.block.header.parent_block_id) {
            None => Err(ValidateRejectCode::InvalidBlock),
            Some(rec) => {
                match spec_new_from_parent(
                    p.tenure_start_block,
                    rec.parent_ref,
                    p.block.header.consensus_hash,
                    p.block.header.burn_spent,
                    spec_first_tenure_change(p.block.txs),
                    spec_first_coinbase(p.block.txs),
                ) {
                    Err(_) => Err(ValidateRejectCode::ChainstateError),
                    Ok(b0) => match spec_load_tenure_info(
                        ctx,
                        b0,
                        spec_txs_tenure_cause(p.block.txs),
                    ) {
                        Err(_) => Err(ValidateRejectCode::ChainstateError),
                        Ok(info) => {
                            let s0 = spec_tenure_begin(info, cfg);
                            match spec_replay_txs(gate_of(b0, s0), cfg.exec_limit, p.block.txs, cfg) {
                                None => Err(ValidateRejectCode::BadTransaction),
                                Some(st) => {
                                    let b1 = BuilderV {
                                        bytes_so_far: st.bytes_so_far,
                                        txs: st.txs,
                                        ..b0
                                    };
                                    let s1 = ScratchV {
                                        consumed: st.consumed,
                                        applied: st.applied,
                                        ..s0
                                    };
                                    let blk = spec_finalize(b1, s1);
                                    let blk2 = BlockV {
                                        header: HeaderV {
                                            miner_signature: p.block.header.miner_signature,
                                            signer_signature: p.block.header.signer_signature,
                                            ..blk.header
                                        },
                                        txs: blk.txs,
                                    };
                                    if spec_block_hash(blk2.header) == spec_block_hash(
                                        p.block.header,
                                    ) {
                                        Ok((blk2, st.consumed, st.bytes_so_far))
                                    } else {
                                        Err(ValidateRejectCode::BadBlockHash)
                                    }
                                },
                            }
                        },
                    },
                }
            },
        }
    }
}

impl NakamotoBlockProposal {
    /// Test this proposal against local chain state and either accept or
    /// reject it.
    pub fn validate(&self, ctx: &ChainContext, settings: &BlockBuilderSettings) -> (r: Result<
        BlockValidateOk,
        BlockValidateReject,
    >)
        requires
            ctx_wf(ctx@),
        ensures
            match spec_validate(self@, ctx@, *settings) {
                Ok((bv, cost, sz)) => {
                    &&& r matches Ok(ok)
                    &&& ok.block@ == bv
                    &&& ok.cost == cost
                    &&& ok.size == sz
                },
                Err(code) => r matches Err(rej) && rej.reason_code == code,
            },
    {
        let mainnet = self.chain_id == CHAIN_ID_MAINNET;
        if self.chain_id != ctx.chain_id || mainnet != ctx.mainnet {
            return Err(BlockValidateReject {
                reason: String::from_str("wrong network or chain identifier"),
                reason_code: ValidateRejectCode::InvalidBlock,
            });
        }
        let idx = match ctx.store.find_record(&self.block.header.parent_block_id) {
            Some(i) => i,
            None => {
                return Err(BlockValidateReject {
                    reason: String::from_str("invalid parent block"),
                    reason_code: ValidateRejectCode::InvalidBlock,
                });
            },
        };
        let ghost recv = ctx.store.records@[idx as int]@;
        proof {
            lemma_store_find_wf(ctx@.store, self@.block.header.parent_block_id);
        }
        let tc = find_first_tenure_change(&self.block.txs);
        let cb = find_first_coinbase(&self.block.txs);
        let tenure_cause = find_tenure_cause(&self.block.txs);
        let mut builder = match NakamotoBlockBuilder::new_from_parent(
            &self.tenure_start_block,
            &ctx.store.records[idx].parent_ref,
            self.block.header.consensus_hash,
            self.block.header.burn_spent,
            tc.as_ref(),
            cb.as_ref(),
        ) {
            Ok(b) => b,
            Err(_) => {
                return Err(BlockValidateReject {
                    reason: String::from_str("malformed tenure intent"),
                    reason_code: ValidateRejectCode::ChainstateError,
                });
            },
        };
        let ghost b0 = builder@;
        let info = match builder.load_tenure_info(ctx, tenure_cause) {
            Ok(info) => info,
            Err(_) => {
                return Err(BlockValidateReject {
                    reason: String::from_str("failed to load tenure context"),
                    reason_code: ValidateRejectCode::ChainstateError,
                });
            },
        };
        let mut scratch = builder.tenure_begin(&info, settings);
        let ghost s0 = scratch@;
        let mut i: usize = 0;
        proof {
            assert(self.block.txs@.skip(0) =~= self.block.txs@);
        }
        while i < self.block.txs.len()
            invariant
                i <= self.block.txs@.len(),
                ctx_wf(ctx@),
                scratch_wf(scratch@),
                self@.chain_id == ctx@.chain_id,
                (self@.chain_id == CHAIN_ID_MAINNET) == ctx@.mainnet,
                spec_store_find(ctx@.store, self@.block.header.parent_block_id) == Some(recv),
                spec_new_from_parent(
                    self@.tenure_start_block,
                    recv.parent_ref,
                    self@.block.header.consensus_hash,
                    self@.block.header.burn_spent,
                    spec_first_tenure_change(self@.block.txs),
                    spec_first_coinbase(self@.block.txs),
                ) == Ok::<BuilderV, BuildError>(b0),
                spec_load_tenure_info(ctx@, b0, spec_txs_tenure_cause(self@.block.txs)) == Ok::<
                    TenureInfoV,
                    BuildError,
                >(info@),
                s0 == spec_tenure_begin(info@, *settings),
                builder@ == (BuilderV {
                    bytes_so_far: builder@.bytes_so_far,
                    txs: builder@.txs,
                    ..b0
                }),
                scratch@ == (ScratchV {
                    consumed: scratch@.consumed,
                    applied: scratch@.applied,
                    ..s0
                }),
                spec_replay_txs(gate_of(b0, s0), s0.limit, self@.block.txs, *settings)
                    == spec_replay_txs(
                    gate_of(builder@, scratch@),
                    s0.limit,
                    self@.block.txs.skip(i as int),
                    *settings,
                ),
            decreases self.block.txs.len() - i,
        {
            let tx = self.block.txs[i];
            let tl = tx.tx_len();
            let ghost pre_b = builder@;
            let ghost pre_s = scratch@;
            proof {
                assert(self@.block.txs.skip(i as int)[0] == self@.block.txs[i as int]);
                assert(self@.block.txs.skip(i as int).skip(1) =~= self@.block.txs.skip(i + 1));
            }
            let outcome = builder.try_mine_tx_with_len(
                &mut scratch,
                &tx,
                tl,
                &BlockLimitState::NoLimitHit,
                settings,
            );
            match outcome {
                TransactionOutcome::Success(_, _) => {},
                _ => {
                    proof {
                        let r0 = spec_admit(
                            gate_of(pre_b, pre_s),
                            pre_s.limit,
                            tx,
                            tl,
                            BlockLimitState::NoLimitHit,
                            *settings,
                        );
                        assert(outcome == r0.0);
                        assert(spec_tx_len(tx) as u64 == tl);
                        assert(spec_replay_txs(
                            gate_of(pre_b, pre_s),
                            s0.limit,
                            self@.block.txs.skip(i as int),
                            *settings,
                        ) is None);
                        assert(spec_validate(self@, ctx@, *settings) == Err::<
                            (BlockV, ExecCost, u64),
                            ValidateRejectCode,
                        >(ValidateRejectCode::BadTransaction));
                    }
                    return Err(BlockValidateReject {
                        reason: String::from_str("transaction replay failed"),
                        reason_code: ValidateRejectCode::BadTransaction,
                    });
                },
            }
            i = i + 1;
        }
        proof {
            assert(self@.block.txs.skip(self@.block.txs.len() as int).len() == 0);
        }
        let mut block = builder.mine_nakamoto_block(&scratch);
        let size = builder.get_bytes_so_far();
        let cost = builder.tenure_finish(scratch);
        block.header.miner_signature = self.block.header.miner_signature;
        block.header.signer_signature = self.block.header.signer_signature;
        let expected_block_header_hash = self.block.header.block_hash();
        let computed_block_header_hash = block.header.block_hash();
        if !bytes_eq(&computed_block_header_hash, &expected_block_header_hash) {
            return Err(BlockValidateReject {
                reason: String::from_str("block hash is not as expected"),
                reason_code: ValidateRejectCode::BadBlockHash,
            });
        }
        Ok(BlockValidateOk { block, cost, size })
    }
}

} // verus!
