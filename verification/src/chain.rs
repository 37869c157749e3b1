//! Chain data model: block headers, parent references, candidate blocks,
//! and the read-only view of chain storage that construction and
//! validation consult.
//!
//! Cryptographic digests are out of this crate's scope; the commitment
//! digests (block hash, block identifier, transaction and state
//! commitments) are modelled as the canonical encodings of what they
//! commit to.  The encodings are proved injective, which is exactly the
//! property the protocol assumes of its hashes: identical digests mean
//! identical committed data.

use vstd::prelude::*;

use crate::codec::lemma_read_enc_bytes;
use crate::codec::lemma_read_enc_u64;
use crate::codec::pow256;
use crate::codec::push_bytes;
use crate::codec::push_u64;
use crate::codec::spec_enc_bytes;
use crate::codec::spec_enc_u64;
use crate::codec::spec_read_bytes;
use crate::codec::spec_read_u64;
use crate::types::Transaction;

verus! {

/// Consensus hash of the genesis burnchain block.
pub const FIRST_BURNCHAIN_CONSENSUS_HASH: u64 = 0;

/// Compare two byte strings.
pub fn bytes_eq(a: &Vec<u8>, b: &Vec<u8>) -> (r: bool)
    ensures
        r == (a@ == b@),
{
    if a.len() != b.len() {
        return false;
    }
    let mut i: usize = 0;
    while i < a.len()
        invariant
            i <= a.len(),
            a@.len() == b@.len(),
            forall|j: int| 0 <= j < i ==> a@[j] == b@[j],
        decreases a.len() - i,
    {
        if a[i] != b[i] {
            return false;
        }
        i = i + 1;
    }
    proof {
        assert(a@ =~= b@);
    }
    true
}

/// Copy a byte string.
pub fn copy_bytes(v: &Vec<u8>) -> (r: Vec<u8>)
    ensures
        r@ == v@,
{
    let mut r: Vec<u8> = Vec::new();
    let mut i: usize = 0;
    while i < v.len()
        invariant
            i <= v.len(),
            r@ == v@.take(i as int),
        decreases v.len() - i,
    {
        r.push(v[i]);
        proof {
            assert(v@.take(i + 1) =~= v@.take(i as int).push(v@[i as int]));
        }
        i = i + 1;
    }
    proof {
        assert(v@.take(v@.len() as int) =~= v@);
    }
    r
}

/// Mathematical model of a block header.
pub ghost struct HeaderV {
    pub chain_length: u64,
    pub burn_spent: u64,
    pub consensus_hash: u64,
    pub parent_block_id: Seq<u8>,
    pub tx_merkle_root: Seq<u8>,
    pub state_index_root: Seq<u8>,
    pub miner_signature: u64,
    pub signer_signature: u64,
}

/// Header of a candidate or accepted block.
#[derive(Debug, PartialEq, Eq)]
pub struct NakamotoBlockHeader {
    /// One more than the parent's chain length.
    pub chain_length: u64,
    /// Total burn up to and including this block's tenure.
    pub burn_spent: u64,
    /// Consensus hash of the tenure this block belongs to.
    pub consensus_hash: u64,
    /// Identifier of the parent block.
    pub parent_block_id: Vec<u8>,
    /// Transaction-commitment digest over the ordered transaction ids.
    pub tx_merkle_root: Vec<u8>,
    /// State-commitment digest after applying the block.
    pub state_index_root: Vec<u8>,
    /// Miner signature; not part of the deterministic digest.
    pub miner_signature: u64,
    /// Signer signature; not part of the deterministic digest.
    pub signer_signature: u64,
}

impl View for NakamotoBlockHeader {
    type V = HeaderV;

    open spec fn view(&self) -> HeaderV {
        HeaderV {
            chain_length: self.chain_length,
            burn_spent: self.burn_spent,
            consensus_hash: self.consensus_hash,
            parent_block_id: self.parent_block_id@,
            tx_merkle_root: self.tx_merkle_root@,
            state_index_root: self.state_index_root@,
            miner_signature: self.miner_signature,
            signer_signature: self.signer_signature,
        }
    }
}

/// The byte-string fields fit their length prefixes.
pub open spec fn header_wf(h: HeaderV) -> bool {
    &&& h.parent_block_id.len() < pow256(8)
    &&& h.tx_merkle_root.len() < pow256(8)
    &&& h.state_index_root.len() < pow256(8)
}

/// Encoding of the header fields that the deterministic digest covers:
/// everything except the two signatures.
pub open spec fn spec_enc_header_core(h: HeaderV) -> Seq<u8> {
    spec_enc_u64(h.chain_length) + spec_enc_u64(h.burn_spent) + spec_enc_u64(h.consensus_hash)
        + spec_enc_bytes(h.parent_block_id) + spec_enc_bytes(h.tx_merkle_root) + spec_enc_bytes(
        h.state_index_root,
    )
}

/// The block hash: the digest of the signature-free header, modelled as
/// its canonical encoding.
pub open spec fn spec_block_hash(h: HeaderV) -> Seq<u8> {
    spec_enc_header_core(h)
}

/// A block identifier combines the tenure's consensus hash with the block
/// hash.
pub open spec fn spec_block_id_of(consensus_hash: u64, block_hash: Seq<u8>) -> Seq<u8> {
    spec_enc_u64(consensus_hash) + spec_enc_bytes(block_hash)
}

pub open spec fn spec_header_block_id(h: HeaderV) -> Seq<u8> {
    spec_block_id_of(h.consensus_hash, spec_block_hash(h))
}

/// Hash of the synthetic first block, extended by genesis builds.
pub open spec fn spec_first_block_hash() -> Seq<u8> {
    Seq::empty()
}

pub open spec fn spec_first_block_id() -> Seq<u8> {
    spec_block_id_of(FIRST_BURNCHAIN_CONSENSUS_HASH, spec_first_block_hash())
}

/// Full wire encoding of a header: the digested core plus signatures.
pub open spec fn spec_enc_header(h: HeaderV) -> Seq<u8> {
    spec_enc_header_core(h) + spec_enc_u64(h.miner_signature) + spec_enc_u64(h.signer_signature)
}

pub open spec fn spec_read_header(s: Seq<u8>) -> Option<(HeaderV, Seq<u8>)> {
    match spec_read_u64(s) {
        Some((chain_length, s1)) => match spec_read_u64(s1) {
            Some((burn_spent, s2)) => match spec_read_u64(s2) {
                Some((consensus_hash, s3)) => match spec_read_bytes(s3) {
                    Some((parent_block_id, s4)) => match spec_read_bytes(s4) {
                        Some((tx_merkle_root, s5)) => match spec_read_bytes(s5) {
                            Some((state_index_root, s6)) => match spec_read_u64(s6) {
                                Some((miner_signature, s7)) => match spec_read_u64(s7) {
                                    Some((signer_signature, s8)) => Some(
                                        (
                                            HeaderV {
                                                chain_length,
                                                burn_spent,
                                                consensus_hash,
                                                parent_block_id,
                                                tx_merkle_root,
                                                state_index_root,
                                                miner_signature,
                                                signer_signature,
                                            },
                                            s8,
                                        ),
                                    ),
                                    None => None,
                                },
                                None => None,
                            },
                            None => None,
                        },
                        None => None,
                    },
                    None => None,
                },
                None => None,
            },
            None => None,
        },
        None => None,
    }
}

#[verifier::rlimit(60)]
pub proof fn lemma_read_enc_header(h: HeaderV, rest: Seq<u8>)
    requires
        header_wf(h),
    ensures
        spec_read_header(spec_enc_header(h) + rest) == Some((h, rest)),
{
    let t7 = spec_enc_u64(h.signer_signature) + rest;
    let t6 = spec_enc_u64(h.miner_signature) + t7;
    let t5 = spec_enc_bytes(h.state_index_root) + t6;
    let t4 = spec_enc_bytes(h.tx_merkle_root) + t5;
    let t3 = spec_enc_bytes(h.parent_block_id) + t4;
    let t2 = spec_enc_u64(h.consensus_hash) + t3;
    let t1 = spec_enc_u64(h.burn_spent) + t2;
    let s = spec_enc_header(h) + rest;
    assert(s =~= spec_enc_u64(h.chain_length) + t1);
    lemma_read_enc_u64(h.chain_length, t1);
    lemma_read_enc_u64(h.burn_spent, t2);
    lemma_read_enc_u64(h.consensus_hash, t3);
    lemma_read_enc_bytes(h.parent_block_id, t4);
    lemma_read_enc_bytes(h.tx_merkle_root, t5);
    lemma_read_enc_bytes(h.state_index_root, t6);
    lemma_read_enc_u64(h.miner_signature, t7);
    lemma_read_enc_u64(h.signer_signature, rest);
}

/// Equal block hashes mean equal digested header fields: the modelled
/// digest is injective on everything except the signatures.
pub proof fn lemma_block_hash_injective(a: HeaderV, b: HeaderV)
    requires
        header_wf(a),
        header_wf(b),
        spec_block_hash(a) == spec_block_hash(b),
    ensures
        a.chain_length == b.chain_length,
        a.burn_spent == b.burn_spent,
        a.consensus_hash == b.consensus_hash,
        a.parent_block_id == b.parent_block_id,
        a.tx_merkle_root == b.tx_merkle_root,
        a.state_index_root == b.state_index_root,
{
    let za = HeaderV { miner_signature: 0, signer_signature: 0, ..a };
    let zb = HeaderV { miner_signature: 0, signer_signature: 0, ..b };
    assert(spec_enc_header(za) =~= spec_enc_header_core(a) + spec_enc_u64(0) + spec_enc_u64(0));
    assert(spec_enc_header(zb) =~= spec_enc_header_core(b) + spec_enc_u64(0) + spec_enc_u64(0));
    assert(spec_enc_header(za) == spec_enc_header(zb));
    lemma_read_enc_header(za, Seq::empty());
    lemma_read_enc_header(zb, Seq::empty());
}

impl NakamotoBlockHeader {
    /// The digest of the signature-free header.
    pub fn block_hash(&self) -> (r: Vec<u8>)
        ensures
            r@ == spec_block_hash(self@),
    {
        let mut out: Vec<u8> = Vec::new();
        push_u64(&mut out, self.chain_length);
        push_u64(&mut out, self.burn_spent);
        push_u64(&mut out, self.consensus_hash);
        push_bytes(&mut out, &self.parent_block_id);
        push_bytes(&mut out, &self.tx_merkle_root);
        push_bytes(&mut out, &self.state_index_root);
        proof {
            assert(out@ =~= spec_block_hash(self@));
        }
        out
    }

    /// The block identifier: consensus hash plus block hash.
    pub fn block_id(&self) -> (r: Vec<u8>)
        ensures
            r@ == spec_header_block_id(self@),
    {
        let h = self.block_hash();
        let mut out: Vec<u8> = Vec::new();
        push_u64(&mut out, self.consensus_hash);
        push_bytes(&mut out, &h);
        proof {
            assert(out@ =~= spec_header_block_id(self@));
        }
        out
    }

    /// A header extending `parent_block_id`, with the commitment digests
    /// and signatures still empty.
    pub fn from_parent_empty(
        chain_length: u64,
        burn_spent: u64,
        consensus_hash: u64,
        parent_block_id: Vec<u8>,
    ) -> (r: NakamotoBlockHeader)
        ensures
            r@ == (HeaderV {
                chain_length,
                burn_spent,
                consensus_hash,
                parent_block_id: parent_block_id@,
                tx_merkle_root: Seq::empty(),
                state_index_root: Seq::empty(),
                miner_signature: 0,
                signer_signature: 0,
            }),
    {
        let r = NakamotoBlockHeader {
            chain_length,
            burn_spent,
            consensus_hash,
            parent_block_id,
            tx_merkle_root: Vec::new(),
            state_index_root: Vec::new(),
            miner_signature: 0,
            signer_signature: 0,
        };
        r
    }

    /// The header a genesis build starts from (bootstrap and testing).
    pub fn genesis() -> (r: NakamotoBlockHeader)
        ensures
            r@.chain_length == 1,
            r@.burn_spent == 0,
            r@.consensus_hash == FIRST_BURNCHAIN_CONSENSUS_HASH,
            r@.parent_block_id == spec_first_block_id(),
            r@.tx_merkle_root == Seq::<u8>::empty(),
            r@.state_index_root == Seq::<u8>::empty(),
            r@.miner_signature == 0,
            r@.signer_signature == 0,
    {
        let mut id: Vec<u8> = Vec::new();
        push_u64(&mut id, FIRST_BURNCHAIN_CONSENSUS_HASH);
        let empty: Vec<u8> = Vec::new();
        push_bytes(&mut id, &empty);
        proof {
            assert(id@ =~= spec_first_block_id());
        }
        NakamotoBlockHeader::from_parent_empty(1, 0, FIRST_BURNCHAIN_CONSENSUS_HASH, id)
    }

    /// A field-for-field copy.
    pub fn duplicate(&self) -> (r: NakamotoBlockHeader)
        ensures
            r@ == self@,
    {
        NakamotoBlockHeader {
            chain_length: self.chain_length,
            burn_spent: self.burn_spent,
            consensus_hash: self.consensus_hash,
            parent_block_id: copy_bytes(&self.parent_block_id),
            tx_merkle_root: copy_bytes(&self.tx_merkle_root),
            state_index_root: copy_bytes(&self.state_index_root),
            miner_signature: self.miner_signature,
            signer_signature: self.signer_signature,
        }
    }
}

/// Mathematical model of a prior-generation block header.
pub ghost struct Epoch2V {
    pub total_work: u64,
    pub block_hash: Seq<u8>,
}

/// Summary of a prior-generation (pre-upgrade) block header: the fields
/// block construction reads from it.
#[derive(Debug, PartialEq, Eq)]
pub struct Epoch2Header {
    /// Cumulative chain work, whose count plays the role of chain length.
    pub total_work: u64,
    /// That block format's own header digest, carried as given data.
    pub block_hash: Vec<u8>,
}

impl View for Epoch2Header {
    type V = Epoch2V;

    open spec fn view(&self) -> Epoch2V {
        Epoch2V { total_work: self.total_work, block_hash: self.block_hash@ }
    }
}

impl Epoch2Header {
    pub fn duplicate(&self) -> (r: Epoch2Header)
        ensures
            r@ == self@,
    {
        Epoch2Header { total_work: self.total_work, block_hash: copy_bytes(&self.block_hash) }
    }
}

/// Mathematical model of a parent reference.
pub ghost enum ParentRefV {
    NakamotoParent(HeaderV),
    Epoch2Parent(Epoch2V, u64),
    Genesis,
}

/// Which block the candidate extends: a same-generation parent, a
/// prior-generation parent (with the consensus hash that locates it), or
/// the synthetic genesis parent used by bootstrap and testing paths.
#[derive(Debug, PartialEq, Eq)]
pub enum TenureParentRef {
    NakamotoParent(NakamotoBlockHeader),
    Epoch2Parent(Epoch2Header, u64),
    Genesis,
}

impl View for TenureParentRef {
    type V = ParentRefV;

    open spec fn view(&self) -> ParentRefV {
        match self {
            TenureParentRef::NakamotoParent(h) => ParentRefV::NakamotoParent(h@),
            TenureParentRef::Epoch2Parent(e, ch) => ParentRefV::Epoch2Parent(e@, *ch),
            TenureParentRef::Genesis => ParentRefV::Genesis,
        }
    }
}

/// Block identifier of the referenced parent.
pub open spec fn spec_parent_block_id(p: ParentRefV) -> Seq<u8> {
    match p {
        ParentRefV::NakamotoParent(h) => spec_header_block_id(h),
        ParentRefV::Epoch2Parent(e, ch) => spec_block_id_of(ch, e.block_hash),
        ParentRefV::Genesis => spec_first_block_id(),
    }
}

impl TenureParentRef {
    pub fn duplicate(&self) -> (r: TenureParentRef)
        ensures
            r@ == self@,
    {
        match self {
            TenureParentRef::NakamotoParent(h) => TenureParentRef::NakamotoParent(h.duplicate()),
            TenureParentRef::Epoch2Parent(e, ch) => TenureParentRef::Epoch2Parent(
                e.duplicate(),
                *ch,
            ),
            TenureParentRef::Genesis => TenureParentRef::Genesis,
        }
    }

    /// Identifier of the referenced block.
    pub fn block_id(&self) -> (r: Vec<u8>)
        ensures
            r@ == spec_parent_block_id(self@),
    {
        match self {
            TenureParentRef::NakamotoParent(h) => h.block_id(),
            TenureParentRef::Epoch2Parent(e, ch) => {
                let mut out: Vec<u8> = Vec::new();
                push_u64(&mut out, *ch);
                push_bytes(&mut out, &e.block_hash);
                proof {
                    assert(out@ =~= spec_parent_block_id(self@));
                }
                out
            },
            TenureParentRef::Genesis => {
                let mut out: Vec<u8> = Vec::new();
                push_u64(&mut out, FIRST_BURNCHAIN_CONSENSUS_HASH);
                let empty: Vec<u8> = Vec::new();
                push_bytes(&mut out, &empty);
                proof {
                    assert(out@ =~= spec_first_block_id());
                }
                out
            },
        }
    }
}

/// Mathematical model of a candidate block.
pub ghost struct BlockV {
    pub header: HeaderV,
    pub txs: Seq<Transaction>,
}

/// An assembled block: header plus ordered transaction list.  Immutable
/// once produced by the finalizer.
#[derive(Debug, PartialEq, Eq)]
pub struct NakamotoBlock {
    pub header: NakamotoBlockHeader,
    pub txs: Vec<Transaction>,
}

impl View for NakamotoBlock {
    type V = BlockV;

    open spec fn view(&self) -> BlockV {
        BlockV { header: self.header@, txs: self.txs@ }
    }
}

/// Mathematical model of one chain-storage entry.
pub ghost struct RecordV {
    pub block_id: Seq<u8>,
    pub parent_ref: ParentRefV,
    pub stacks_block_height: u64,
    pub burn_header_height: u32,
    pub coinbase_height: Option<u64>,
}

/// One block known to chain storage, keyed by its identifier.
#[derive(Debug, PartialEq, Eq)]
pub struct ChainRecord {
    pub block_id: Vec<u8>,
    /// The block's header, in the shape construction consumes.
    pub parent_ref: TenureParentRef,
    pub stacks_block_height: u64,
    pub burn_header_height: u32,
    /// Count of reward-bearing tenures up to this block, if recorded.
    pub coinbase_height: Option<u64>,
}

impl View for ChainRecord {
    type V = RecordV;

    open spec fn view(&self) -> RecordV {
        RecordV {
            block_id: self.block_id@,
            parent_ref: self.parent_ref@,
            stacks_block_height: self.stacks_block_height,
            burn_header_height: self.burn_header_height,
            coinbase_height: self.coinbase_height,
        }
    }
}

/// Read-only snapshot of chain storage: the headers that lookups may
/// resolve, keyed by block identifier.
#[derive(Debug, PartialEq, Eq)]
pub struct ChainStore {
    pub records: Vec<ChainRecord>,
}

impl View for ChainStore {
    type V = Seq<RecordV>;

    open spec fn view(&self) -> Seq<RecordV> {
        self.records@.map_values(|r: ChainRecord| r@)
    }
}

/// First record with the given identifier, if any.
pub open spec fn spec_store_find(recs: Seq<RecordV>, id: Seq<u8>) -> Option<RecordV>
    decreases recs.len(),
{
    if recs.len() == 0 {
        None
    } else if recs[0].block_id == id {
        Some(recs[0])
    } else {
        spec_store_find(recs.skip(1), id)
    }
}

impl ChainStore {
    /// Index of the first record with the given identifier.
    pub fn find_record(&self, id: &Vec<u8>) -> (r: Option<usize>)
        ensures
            match spec_store_find(self@, id@) {
                Some(rec) => {
                    &&& r matches Some(i)
                    &&& i < self.records@.len()
                    &&& self.records@[i as int]@ == rec
                },
                None => r is None,
            },
    {
        let mut i: usize = 0;
        proof {
            assert(self@.skip(0) =~= self@);
        }
        while i < self.records.len()
            invariant
                i <= self.records@.len(),
                self@.len() == self.records@.len(),
                forall|j: int| 0 <= j < self@.len() ==> self@[j] == self.records@[j]@,
                spec_store_find(self@, id@) == spec_store_find(self@.skip(i as int), id@),
            decreases self.records.len() - i,
        {
            if bytes_eq(&self.records[i].block_id, id) {
                proof {
                    assert(self@.skip(i as int)[0] == self@[i as int]);
                    assert(spec_store_find(self@.skip(i as int), id@) == Some(self@[i as int]));
                }
                return Some(i);
            }
            proof {
                assert(self@.skip(i as int)[0] == self@[i as int]);
                assert(self@.skip(i as int).skip(1) =~= self@.skip(i + 1));
            }
            i = i + 1;
        }
        proof {
            assert(self@.skip(self@.len() as int).len() == 0);
        }
        None
    }
}

/// Everything well-formed chain storage guarantees of a record: the key
/// really is the identifier of the stored header, stored parents are real
/// blocks rather than the synthetic genesis, and the bookkeeping counters
/// have room to advance.
pub open spec fn record_wf(r: RecordV) -> bool {
    &&& r.block_id == spec_parent_block_id(r.parent_ref)
    &&& r.block_id.len() < pow256(7)
    &&& !(r.parent_ref is Genesis)
    &&& (r.parent_ref matches ParentRefV::NakamotoParent(h) ==> h.chain_length < u64::MAX
        && header_wf(h))
    &&& (r.parent_ref matches ParentRefV::Epoch2Parent(e, ch) ==> e.total_work < u64::MAX
        && e.block_hash.len() < pow256(8))
    &&& (r.coinbase_height matches Some(h) ==> h < u64::MAX)
}

/// Mathematical model of the chain context.
pub ghost struct CtxV {
    pub store: Seq<RecordV>,
    pub chain_id: u32,
    pub mainnet: bool,
    pub burn_tip: u64,
    pub burn_tip_height: u32,
}

/// Local chain state a build or validation runs against: the storage
/// snapshot, the network identity, and the burn-chain tip.
#[derive(Debug, PartialEq, Eq)]
pub struct ChainContext {
    pub store: ChainStore,
    /// Network identifier this node is configured for.
    pub chain_id: u32,
    pub mainnet: bool,
    /// Canonical burn-chain tip hash.
    pub burn_tip: u64,
    /// Canonical burn-chain tip height.
    pub burn_tip_height: u32,
}

impl View for ChainContext {
    type V = CtxV;

    open spec fn view(&self) -> CtxV {
        CtxV {
            store: self.store@,
            chain_id: self.chain_id,
            mainnet: self.mainnet,
            burn_tip: self.burn_tip,
            burn_tip_height: self.burn_tip_height,
        }
    }
}

/// Well-formedness of the trusted local chain state.
pub open spec fn ctx_wf(c: CtxV) -> bool {
    forall|j: int| 0 <= j < c.store.len() ==> record_wf(#[trigger] c.store[j])
}

/// The found record of a well-formed store is itself well-formed.
pub proof fn lemma_store_find_wf(recs: Seq<RecordV>, id: Seq<u8>)
    requires
        forall|j: int| 0 <= j < recs.len() ==> record_wf(#[trigger] recs[j]),
        spec_store_find(recs, id) is Some,
    ensures
        record_wf(spec_store_find(recs, id).unwrap()),
        spec_store_find(recs, id).unwrap().block_id == id,
    decreases recs.len(),
{
    if recs.len() > 0 && recs[0].block_id != id {
        assert(forall|j: int|
            0 <= j < recs.skip(1).len() ==> record_wf(#[trigger] recs.skip(1)[j]));
        lemma_store_find_wf(recs.skip(1), id);
    }
}

} // verus!
