//! Canonical binary encoding: length-prefixed, field-ordered, little-endian.
//!
//! Builder and validator must hash the identical byte representation of a
//! block, so one stable encoding serves as the wire format and as the byte
//! string that the commitment digests are computed over.  Every encoder has
//! a matching decoder and a proved round trip, which also makes the
//! encoding injective: two values with the same bytes are the same value.

use vstd::prelude::*;

use crate::types::ExecBehavior;
use crate::types::ExecCost;
use crate::types::TenureChangeCause;
use crate::types::Transaction;
use crate::types::TxPayload;

verus! {

/// 256 to the power `n`: the number of values an `n`-byte field can hold.
pub open spec fn pow256(n: nat) -> nat
    decreases n,
{
    if n == 0 {
        1
    } else {
        256 * pow256((n - 1) as nat)
    }
}

/// Little-endian encoding of `v` into exactly `n` bytes.
pub open spec fn enc_le(v: nat, n: nat) -> Seq<u8>
    decreases n,
{
    if n == 0 {
        Seq::empty()
    } else {
        seq![(v % 256) as u8] + enc_le(v / 256, (n - 1) as nat)
    }
}

/// Little-endian value of a byte string.
pub open spec fn dec_le(s: Seq<u8>) -> nat
    decreases s.len(),
{
    if s.len() == 0 {
        0
    } else {
        (s[0] as nat) + 256 * dec_le(s.subrange(1, s.len() as int))
    }
}

pub proof fn lemma_enc_le_len(v: nat, n: nat)
    ensures
        enc_le(v, n).len() == n,
    decreases n,
{
    if n > 0 {
        lemma_enc_le_len(v / 256, (n - 1) as nat);
    }
}

pub proof fn lemma_dec_le_bound(s: Seq<u8>)
    ensures
        dec_le(s) < pow256(s.len()),
    decreases s.len(),
{
    if s.len() > 0 {
        lemma_dec_le_bound(s.subrange(1, s.len() as int));
    }
}

/// Decoding inverts encoding for every value that fits the field width.
pub proof fn lemma_dec_enc_le(v: nat, n: nat)
    requires
        v < pow256(n),
    ensures
        dec_le(enc_le(v, n)) == v,
    decreases n,
{
    if n == 0 {
        assert(v == 0);
    } else {
        let e = enc_le(v, n);
        lemma_enc_le_len(v / 256, (n - 1) as nat);
        assert(e.subrange(1, e.len() as int) =~= enc_le(v / 256, (n - 1) as nat));
        assert(v / 256 < pow256((n - 1) as nat)) by (nonlinear_arith)
            requires
                v < 256 * pow256((n - 1) as nat),
        ;
        lemma_dec_enc_le(v / 256, (n - 1) as nat);
        assert(v % 256 + 256 * (v / 256) == v) by (nonlinear_arith);
    }
}

/// Widths of the fixed numeric fields.
pub proof fn lemma_pow256_vals()
    ensures
        pow256(8) == 0x10000000000000000,
        pow256(7) == 0x100000000000000,
        pow256(4) == 0x100000000,
{
    reveal_with_fuel(pow256, 9);
    assert(pow256(8) == 0x10000000000000000 && pow256(7) == 0x100000000000000 && pow256(4)
        == 0x100000000);
}

/// Read an `n`-byte little-endian field from the front of `s`.
pub open spec fn spec_read_le(s: Seq<u8>, n: nat) -> Option<(nat, Seq<u8>)> {
    if s.len() >= n {
        Some((dec_le(s.take(n as int)), s.skip(n as int)))
    } else {
        None
    }
}

pub proof fn lemma_read_enc_le(v: nat, n: nat, rest: Seq<u8>)
    requires
        v < pow256(n),
    ensures
        spec_read_le(enc_le(v, n) + rest, n) == Some((v, rest)),
{
    let s = enc_le(v, n) + rest;
    lemma_enc_le_len(v, n);
    assert(s.take(n as int) =~= enc_le(v, n));
    assert(s.skip(n as int) =~= rest);
    lemma_dec_enc_le(v, n);
}

/// Eight-byte field holding a machine word.
pub open spec fn spec_enc_u64(v: u64) -> Seq<u8> {
    enc_le(v as nat, 8)
}

pub open spec fn spec_read_u64(s: Seq<u8>) -> Option<(u64, Seq<u8>)> {
    match spec_read_le(s, 8) {
        Some((v, rest)) => Some((v as u64, rest)),
        None => None,
    }
}

pub proof fn lemma_read_enc_u64(v: u64, rest: Seq<u8>)
    ensures
        spec_read_u64(spec_enc_u64(v) + rest) == Some((v, rest)),
{
    lemma_pow256_vals();
    lemma_read_enc_le(v as nat, 8, rest);
}

/// Four-byte field holding a network identifier.
pub open spec fn spec_enc_u32(v: u32) -> Seq<u8> {
    enc_le(v as nat, 4)
}

pub open spec fn spec_read_u32(s: Seq<u8>) -> Option<(u32, Seq<u8>)> {
    match spec_read_le(s, 4) {
        Some((v, rest)) => Some((v as u32, rest)),
        None => None,
    }
}

pub proof fn lemma_read_enc_u32(v: u32, rest: Seq<u8>)
    ensures
        spec_read_u32(spec_enc_u32(v) + rest) == Some((v, rest)),
{
    lemma_pow256_vals();
    lemma_read_enc_le(v as nat, 4, rest);
}

/// Length-prefixed byte string.
pub open spec fn spec_enc_bytes(b: Seq<u8>) -> Seq<u8> {
    enc_le(b.len(), 8) + b
}

pub open spec fn spec_read_bytes(s: Seq<u8>) -> Option<(Seq<u8>, Seq<u8>)> {
    match spec_read_le(s, 8) {
        Some((l, rest)) => if rest.len() >= l {
            Some((rest.take(l as int), rest.skip(l as int)))
        } else {
            None
        },
        None => None,
    }
}

pub proof fn lemma_read_enc_bytes(b: Seq<u8>, rest: Seq<u8>)
    requires
        b.len() < pow256(8),
    ensures
        spec_read_bytes(spec_enc_bytes(b) + rest) == Some((b, rest)),
{
    assert(spec_enc_bytes(b) + rest =~= enc_le(b.len(), 8) + (b + rest));
    lemma_read_enc_le(b.len(), 8, b + rest);
    assert((b + rest).take(b.len() as int) =~= b);
    assert((b + rest).skip(b.len() as int) =~= rest);
}

/// One tag byte for the tenure-change cause.
pub open spec fn spec_enc_cause(c: TenureChangeCause) -> Seq<u8> {
    match c {
        TenureChangeCause::BlockFound => seq![0u8],
        TenureChangeCause::Extended => seq![1u8],
    }
}

pub open spec fn spec_read_cause(s: Seq<u8>) -> Option<(TenureChangeCause, Seq<u8>)> {
    if s.len() >= 1 {
        if s[0] == 0u8 {
            Some((TenureChangeCause::BlockFound, s.skip(1)))
        } else if s[0] == 1u8 {
            Some((TenureChangeCause::Extended, s.skip(1)))
        } else {
            None
        }
    } else {
        None
    }
}

pub proof fn lemma_read_enc_cause(c: TenureChangeCause, rest: Seq<u8>)
    ensures
        spec_read_cause(spec_enc_cause(c) + rest) == Some((c, rest)),
{
    assert((spec_enc_cause(c) + rest).skip(1) =~= rest);
}

/// Tagged payload encoding.
pub open spec fn spec_enc_payload(p: TxPayload) -> Seq<u8> {
    match p {
        TxPayload::TokenTransfer => seq![0u8],
        TxPayload::ContractCall { boot_code_addr } => seq![
            1u8,
            if boot_code_addr {
                1u8
            } else {
                0u8
            },
        ],
        TxPayload::SmartContract => seq![2u8],
        TxPayload::Coinbase => seq![3u8],
        TxPayload::TenureChange { cause } => seq![4u8] + spec_enc_cause(cause),
    }
}

pub open spec fn spec_read_payload(s: Seq<u8>) -> Option<(TxPayload, Seq<u8>)> {
    if s.len() >= 1 {
        if s[0] == 0u8 {
            Some((TxPayload::TokenTransfer, s.skip(1)))
        } else if s[0] == 1u8 {
            if s.len() >= 2 {
                if s[1] == 0u8 {
                    Some((TxPayload::ContractCall { boot_code_addr: false }, s.skip(2)))
                } else if s[1] == 1u8 {
                    Some((TxPayload::ContractCall { boot_code_addr: true }, s.skip(2)))
                } else {
                    None
                }
            } else {
                None
            }
        } else if s[0] == 2u8 {
            Some((TxPayload::SmartContract, s.skip(1)))
        } else if s[0] == 3u8 {
            Some((TxPayload::Coinbase, s.skip(1)))
        } else if s[0] == 4u8 {
            match spec_read_cause(s.skip(1)) {
                Some((c, rest)) => Some((TxPayload::TenureChange { cause: c }, rest)),
                None => None,
            }
        } else {
            None
        }
    } else {
        None
    }
}

pub proof fn lemma_read_enc_payload(p: TxPayload, rest: Seq<u8>)
    ensures
        spec_read_payload(spec_enc_payload(p) + rest) == Some((p, rest)),
{
    let s = spec_enc_payload(p) + rest;
    match p {
        TxPayload::TokenTransfer => {
            assert(s.skip(1) =~= rest);
        },
        TxPayload::ContractCall { boot_code_addr } => {
            assert(s.skip(2) =~= rest);
        },
        TxPayload::SmartContract => {
            assert(s.skip(1) =~= rest);
        },
        TxPayload::Coinbase => {
            assert(s.skip(1) =~= rest);
        },
        TxPayload::TenureChange { cause } => {
            assert(s.skip(1) =~= spec_enc_cause(cause) + rest);
            lemma_read_enc_cause(cause, rest);
        },
    }
}

/// Five eight-byte fields, in declaration order.
pub open spec fn spec_enc_cost(c: ExecCost) -> Seq<u8> {
    spec_enc_u64(c.write_length) + spec_enc_u64(c.write_count) + spec_enc_u64(c.read_length)
        + spec_enc_u64(c.read_count) + spec_enc_u64(c.runtime)
}

pub open spec fn spec_read_cost(s: Seq<u8>) -> Option<(ExecCost, Seq<u8>)> {
    match spec_read_u64(s) {
        Some((wl, s1)) => match spec_read_u64(s1) {
            Some((wc, s2)) => match spec_read_u64(s2) {
                Some((rl, s3)) => match spec_read_u64(s3) {
                    Some((rc, s4)) => match spec_read_u64(s4) {
                        Some((rt, s5)) => Some(
                            (
                                ExecCost {
                                    write_length: wl,
                                    write_count: wc,
                                    read_length: rl,
                                    read_count: rc,
                                    runtime: rt,
                                },
                                s5,
                            ),
                        ),
                        None => None,
                    },
                    None => None,
                },
                None => None,
            },
            None => None,
        },
        None => None,
    }
}

pub proof fn lemma_read_enc_cost(c: ExecCost, rest: Seq<u8>)
    ensures
        spec_read_cost(spec_enc_cost(c) + rest) == Some((c, rest)),
{
    let t4 = spec_enc_u64(c.runtime) + rest;
    let t3 = spec_enc_u64(c.read_count) + t4;
    let t2 = spec_enc_u64(c.read_length) + t3;
    let t1 = spec_enc_u64(c.write_count) + t2;
    assert(spec_enc_cost(c) + rest =~= spec_enc_u64(c.write_length) + t1);
    assert(t1 =~= spec_enc_u64(c.write_count) + t2);
    assert(t2 =~= spec_enc_u64(c.read_length) + t3);
    assert(t3 =~= spec_enc_u64(c.read_count) + t4);
    lemma_read_enc_u64(c.write_length, t1);
    lemma_read_enc_u64(c.write_count, t2);
    lemma_read_enc_u64(c.read_length, t3);
    lemma_read_enc_u64(c.read_count, t4);
    lemma_read_enc_u64(c.runtime, rest);
}

/// Tagged oracle-behaviour encoding.
pub open spec fn spec_enc_behavior(b: ExecBehavior) -> Seq<u8> {
    match b {
        ExecBehavior::Apply { cost } => seq![0u8] + spec_enc_cost(cost),
        ExecBehavior::Reject => seq![1u8],
        ExecBehavior::RejectProblematic => seq![2u8],
    }
}

pub open spec fn spec_read_behavior(s: Seq<u8>) -> Option<(ExecBehavior, Seq<u8>)> {
    if s.len() >= 1 {
        if s[0] == 0u8 {
            match spec_read_cost(s.skip(1)) {
                Some((c, rest)) => Some((ExecBehavior::Apply { cost: c }, rest)),
                None => None,
            }
        } else if s[0] == 1u8 {
            Some((ExecBehavior::Reject, s.skip(1)))
        } else if s[0] == 2u8 {
            Some((ExecBehavior::RejectProblematic, s.skip(1)))
        } else {
            None
        }
    } else {
        None
    }
}

pub proof fn lemma_read_enc_behavior(b: ExecBehavior, rest: Seq<u8>)
    ensures
        spec_read_behavior(spec_enc_behavior(b) + rest) == Some((b, rest)),
{
    let s = spec_enc_behavior(b) + rest;
    match b {
        ExecBehavior::Apply { cost } => {
            assert(s.skip(1) =~= spec_enc_cost(cost) + rest);
            lemma_read_enc_cost(cost, rest);
        },
        ExecBehavior::Reject => {
            assert(s.skip(1) =~= rest);
        },
        ExecBehavior::RejectProblematic => {
            assert(s.skip(1) =~= rest);
        },
    }
}

/// Canonical transaction encoding, in field order.
pub open spec fn spec_enc_tx(tx: Transaction) -> Seq<u8> {
    spec_enc_u64(tx.txid) + spec_enc_u64(tx.fee) + spec_enc_payload(tx.payload) + seq![
        if tx.flagged_unsafe {
            1u8
        } else {
            0u8
        },
    ] + spec_enc_behavior(tx.execution)
}

pub open spec fn spec_read_tx(s: Seq<u8>) -> Option<(Transaction, Seq<u8>)> {
    match spec_read_u64(s) {
        Some((txid, s1)) => match spec_read_u64(s1) {
            Some((fee, s2)) => match spec_read_payload(s2) {
                Some((payload, s3)) => if s3.len() >= 1 && (s3[0] == 0u8 || s3[0] == 1u8) {
                    match spec_read_behavior(s3.skip(1)) {
                        Some((behavior, s4)) => Some(
                            (
                                Transaction {
                                    txid,
                                    fee,
                                    payload,
                                    flagged_unsafe: s3[0] == 1u8,
                                    execution: behavior,
                                },
                                s4,
                            ),
                        ),
                        None => None,
                    }
                } else {
                    None
                },
                None => None,
            },
            None => None,
        },
        None => None,
    }
}

#[verifier::rlimit(60)]
pub proof fn lemma_read_enc_tx(tx: Transaction, rest: Seq<u8>)
    ensures
        spec_read_tx(spec_enc_tx(tx) + rest) == Some((tx, rest)),
{
    let fb: u8 = if tx.flagged_unsafe {
        1u8
    } else {
        0u8
    };
    let flag = seq![fb];
    let t3 = flag + (spec_enc_behavior(tx.execution) + rest);
    let t2 = spec_enc_payload(tx.payload) + t3;
    let t1 = spec_enc_u64(tx.fee) + t2;
    let s = spec_enc_tx(tx) + rest;
    assert(s =~= spec_enc_u64(tx.txid) + t1);
    lemma_read_enc_u64(tx.txid, t1);
    assert(spec_read_u64(s) == Some((tx.txid, t1)));
    lemma_read_enc_u64(tx.fee, t2);
    assert(spec_read_u64(t1) == Some((tx.fee, t2)));
    lemma_read_enc_payload(tx.payload, t3);
    assert(spec_read_payload(t2) == Some((tx.payload, t3)));
    assert(t3.len() >= 1 && t3[0] == fb);
    assert(t3.skip(1) =~= spec_enc_behavior(tx.execution) + rest);
    lemma_read_enc_behavior(tx.execution, rest);
    assert(spec_read_behavior(t3.skip(1)) == Some((tx.execution, rest)));
    assert((tx.flagged_unsafe ==> fb == 1u8) && (!tx.flagged_unsafe ==> fb == 0u8));
}

/// Concatenated transaction encodings (the count travels separately).
pub open spec fn spec_enc_tx_seq(txs: Seq<Transaction>) -> Seq<u8>
    decreases txs.len(),
{
    if txs.len() == 0 {
        Seq::empty()
    } else {
        spec_enc_tx(txs[0]) + spec_enc_tx_seq(txs.skip(1))
    }
}

pub open spec fn spec_read_tx_seq(s: Seq<u8>, count: nat) -> Option<(Seq<Transaction>, Seq<u8>)>
    decreases count,
{
    if count == 0 {
        Some((Seq::empty(), s))
    } else {
        match spec_read_tx(s) {
            Some((tx, s1)) => match spec_read_tx_seq(s1, (count - 1) as nat) {
                Some((txs, s2)) => Some((seq![tx] + txs, s2)),
                None => None,
            },
            None => None,
        }
    }
}

pub proof fn lemma_read_enc_tx_seq(txs: Seq<Transaction>, rest: Seq<u8>)
    ensures
        spec_read_tx_seq(spec_enc_tx_seq(txs) + rest, txs.len()) == Some((txs, rest)),
    decreases txs.len(),
{
    if txs.len() == 0 {
        assert(spec_enc_tx_seq(txs) + rest =~= rest);
    } else {
        let tail = txs.skip(1);
        assert(spec_enc_tx_seq(txs) + rest =~= spec_enc_tx(txs[0]) + (spec_enc_tx_seq(tail)
            + rest));
        lemma_read_enc_tx(txs[0], spec_enc_tx_seq(tail) + rest);
        lemma_read_enc_tx_seq(tail, rest);
        assert(seq![txs[0]] + tail =~= txs);
    }
}

/// Length-prefixed list of transaction identifiers; the form of the
/// transaction-commitment digest.
pub open spec fn spec_enc_u64_seq(ids: Seq<u64>) -> Seq<u8>
    decreases ids.len(),
{
    if ids.len() == 0 {
        Seq::empty()
    } else {
        spec_enc_u64(ids[0]) + spec_enc_u64_seq(ids.skip(1))
    }
}

pub open spec fn spec_enc_id_list(ids: Seq<u64>) -> Seq<u8> {
    enc_le(ids.len(), 8) + spec_enc_u64_seq(ids)
}

pub open spec fn spec_read_u64_seq(s: Seq<u8>, count: nat) -> Option<(Seq<u64>, Seq<u8>)>
    decreases count,
{
    if count == 0 {
        Some((Seq::empty(), s))
    } else {
        match spec_read_u64(s) {
            Some((v, s1)) => match spec_read_u64_seq(s1, (count - 1) as nat) {
                Some((vs, s2)) => Some((seq![v] + vs, s2)),
                None => None,
            },
            None => None,
        }
    }
}

pub proof fn lemma_read_enc_u64_seq(ids: Seq<u64>, rest: Seq<u8>)
    ensures
        spec_read_u64_seq(spec_enc_u64_seq(ids) + rest, ids.len()) == Some((ids, rest)),
    decreases ids.len(),
{
    if ids.len() == 0 {
        assert(spec_enc_u64_seq(ids) + rest =~= rest);
    } else {
        let tail = ids.skip(1);
        assert(spec_enc_u64_seq(ids) + rest =~= spec_enc_u64(ids[0]) + (spec_enc_u64_seq(tail)
            + rest));
        lemma_read_enc_u64(ids[0], spec_enc_u64_seq(tail) + rest);
        lemma_read_enc_u64_seq(tail, rest);
        assert(seq![ids[0]] + tail =~= ids);
    }
}

/// Two identifier lists with the same bytes are the same list.
pub proof fn lemma_enc_id_list_injective(a: Seq<u64>, b: Seq<u64>)
    requires
        a.len() < pow256(8),
        b.len() < pow256(8),
        spec_enc_id_list(a) == spec_enc_id_list(b),
    ensures
        a == b,
{
    lemma_read_enc_le(a.len(), 8, spec_enc_u64_seq(a));
    lemma_read_enc_le(b.len(), 8, spec_enc_u64_seq(b));
    assert(a.len() == b.len());
    assert(spec_enc_u64_seq(a) == spec_enc_u64_seq(b));
    lemma_read_enc_u64_seq(a, Seq::empty());
    lemma_read_enc_u64_seq(b, Seq::empty());
    assert(spec_enc_u64_seq(a) + Seq::<u8>::empty() =~= spec_enc_u64_seq(a));
    assert(spec_enc_u64_seq(b) + Seq::<u8>::empty() =~= spec_enc_u64_seq(b));
}

pub proof fn lemma_enc_u64_seq_len(ids: Seq<u64>)
    ensures
        spec_enc_u64_seq(ids).len() == 8 * ids.len(),
    decreases ids.len(),
{
    if ids.len() == 0 {
    } else {
        lemma_enc_le_len(ids[0] as nat, 8);
        lemma_enc_u64_seq_len(ids.skip(1));
    }
}

} // verus!

// The executable encoders append to a byte vector and are proved to emit
// exactly the canonical encoding.

verus! {

/// Byte length of a transaction's canonical encoding; the byte cost a
/// transaction is charged against the block's size budget.
pub open spec fn spec_tx_len(tx: Transaction) -> nat {
    spec_enc_tx(tx).len()
}

/// A transaction's encoding is short; in particular it fits a machine word.
pub proof fn lemma_spec_tx_len_bound(tx: Transaction)
    ensures
        19 <= spec_tx_len(tx) <= 60,
{
    lemma_enc_le_len(tx.txid as nat, 8);
    lemma_enc_le_len(tx.fee as nat, 8);
    match tx.payload {
        TxPayload::TenureChange { cause } => {
            assert(spec_enc_payload(tx.payload).len() == 2);
        },
        _ => {},
    }
    match tx.execution {
        ExecBehavior::Apply { cost } => {
            lemma_enc_le_len(cost.write_length as nat, 8);
            lemma_enc_le_len(cost.write_count as nat, 8);
            lemma_enc_le_len(cost.read_length as nat, 8);
            lemma_enc_le_len(cost.read_count as nat, 8);
            lemma_enc_le_len(cost.runtime as nat, 8);
        },
        _ => {},
    }
}

/// Append the `n`-byte little-endian encoding of `v`.
pub fn push_le(out: &mut Vec<u8>, v: u64, n: usize)
    ensures
        final(out)@ == old(out)@ + enc_le(v as nat, n as nat),
    decreases n,
{
    if n == 0 {
        proof {
            assert(out@ + enc_le(v as nat, 0) =~= out@);
        }
    } else {
        let b: u8 = (v % 256) as u8;
        out.push(b);
        push_le(out, v / 256, n - 1);
        proof {
            assert(b as nat == (v as nat) % 256);
            assert((v / 256) as nat == (v as nat) / 256);
            assert(old(out)@ + enc_le(v as nat, n as nat) =~= (old(out)@.push(b)) + enc_le(
                (v as nat) / 256,
                (n - 1) as nat,
            ));
        }
    }
}

pub fn push_u64(out: &mut Vec<u8>, v: u64)
    ensures
        final(out)@ == old(out)@ + spec_enc_u64(v),
{
    push_le(out, v, 8);
}

pub fn push_u32(out: &mut Vec<u8>, v: u32)
    ensures
        final(out)@ == old(out)@ + spec_enc_u32(v),
{
    push_le(out, v as u64, 4);
}

/// Append a length-prefixed byte string.
pub fn push_bytes(out: &mut Vec<u8>, b: &Vec<u8>)
    ensures
        final(out)@ == old(out)@ + spec_enc_bytes(b@),
{
    push_le(out, b.len() as u64, 8);
    let ghost mid = out@;
    let mut i: usize = 0;
    while i < b.len()
        invariant
            i <= b.len(),
            mid == old(out)@ + enc_le(b@.len(), 8),
            out@ == mid + b@.take(i as int),
        decreases b.len() - i,
    {
        out.push(b[i]);
        proof {
            assert(mid + b@.take(i + 1) =~= (mid + b@.take(i as int)).push(b@[i as int]));
        }
        i = i + 1;
    }
    proof {
        assert(b@.take(b@.len() as int) =~= b@);
        assert(mid + b@ =~= old(out)@ + spec_enc_bytes(b@));
    }
}

pub fn push_cause(out: &mut Vec<u8>, c: &TenureChangeCause)
    ensures
        final(out)@ == old(out)@ + spec_enc_cause(*c),
{
    match c {
        TenureChangeCause::BlockFound => out.push(0u8),
        TenureChangeCause::Extended => out.push(1u8),
    }
    proof {
        assert(out@ =~= old(out)@ + spec_enc_cause(*c));
    }
}

pub fn push_payload(out: &mut Vec<u8>, p: &TxPayload)
    ensures
        final(out)@ == old(out)@ + spec_enc_payload(*p),
{
    match p {
        TxPayload::TokenTransfer => out.push(0u8),
        TxPayload::ContractCall { boot_code_addr } => {
            out.push(1u8);
            if *boot_code_addr {
                out.push(1u8);
            } else {
                out.push(0u8);
            }
        },
        TxPayload::SmartContract => out.push(2u8),
        TxPayload::Coinbase => out.push(3u8),
        TxPayload::TenureChange { cause } => {
            out.push(4u8);
            push_cause(out, cause);
        },
    }
    proof {
        assert(out@ =~= old(out)@ + spec_enc_payload(*p));
    }
}

pub fn push_cost(out: &mut Vec<u8>, c: &ExecCost)
    ensures
        final(out)@ == old(out)@ + spec_enc_cost(*c),
{
    push_u64(out, c.write_length);
    push_u64(out, c.write_count);
    push_u64(out, c.read_length);
    push_u64(out, c.read_count);
    push_u64(out, c.runtime);
    proof {
        assert(out@ =~= old(out)@ + spec_enc_cost(*c));
    }
}

pub fn push_behavior(out: &mut Vec<u8>, b: &ExecBehavior)
    ensures
        final(out)@ == old(out)@ + spec_enc_behavior(*b),
{
    match b {
        ExecBehavior::Apply { cost } => {
            out.push(0u8);
            push_cost(out, cost);
        },
        ExecBehavior::Reject => out.push(1u8),
        ExecBehavior::RejectProblematic => out.push(2u8),
    }
    proof {
        assert(out@ =~= old(out)@ + spec_enc_behavior(*b));
    }
}

pub fn push_tx(out: &mut Vec<u8>, tx: &Transaction)
    ensures
        final(out)@ == old(out)@ + spec_enc_tx(*tx),
{
    push_u64(out, tx.txid);
    push_u64(out, tx.fee);
    push_payload(out, &tx.payload);
    if tx.flagged_unsafe {
        out.push(1u8);
    } else {
        out.push(0u8);
    }
    push_behavior(out, &tx.execution);
    proof {
        assert(out@ =~= old(out)@ + spec_enc_tx(*tx));
    }
}

impl Transaction {
    /// Byte length of this transaction's canonical encoding.
    pub fn tx_len(&self) -> (r: u64)
        ensures
            r == spec_tx_len(*self),
    {
        let mut buf: Vec<u8> = Vec::new();
        push_tx(&mut buf, self);
        proof {
            lemma_spec_tx_len_bound(*self);
            assert(buf@ =~= spec_enc_tx(*self));
        }
        buf.len() as u64
    }
}

/// Append a length-prefixed identifier list: the transaction-commitment form.
pub fn push_id_list(out: &mut Vec<u8>, ids: &Vec<u64>)
    ensures
        final(out)@ == old(out)@ + spec_enc_id_list(ids@),
{
    push_le(out, ids.len() as u64, 8);
    let ghost mid = out@;
    let mut i: usize = 0;
    while i < ids.len()
        invariant
            i <= ids.len(),
            mid == old(out)@ + enc_le(ids@.len(), 8),
            out@ == mid + spec_enc_u64_seq(ids@.take(i as int)),
        decreases ids.len() - i,
    {
        let ghost pre = out@;
        push_u64(out, ids[i]);
        proof {
            lemma_enc_u64_seq_take_snoc(ids@, i as int);
            assert(out@ =~= mid + spec_enc_u64_seq(ids@.take(i + 1)));
        }
        i = i + 1;
    }
    proof {
        assert(ids@.take(ids@.len() as int) =~= ids@);
        assert(mid + spec_enc_u64_seq(ids@) =~= old(out)@ + spec_enc_id_list(ids@));
    }
}

/// Extending an identifier prefix by one element appends that element's
/// encoding.
pub proof fn lemma_enc_u64_seq_take_snoc(ids: Seq<u64>, i: int)
    requires
        0 <= i < ids.len(),
    ensures
        spec_enc_u64_seq(ids.take(i + 1)) == spec_enc_u64_seq(ids.take(i)) + spec_enc_u64(
            ids[i],
        ),
    decreases i,
{
    if i == 0 {
        assert(ids.take(1).len() == 1);
        assert(ids.take(1)[0] == ids[0]);
        assert(ids.take(1).skip(1) =~= Seq::<u64>::empty());
        assert(spec_enc_u64_seq(ids.take(1)) == spec_enc_u64(ids.take(1)[0]) + spec_enc_u64_seq(
            ids.take(1).skip(1),
        ));
        assert(spec_enc_u64(ids[0]) + Seq::<u8>::empty() =~= spec_enc_u64(ids[0]));
        assert(ids.take(0) =~= Seq::<u64>::empty());
        assert(Seq::<u8>::empty() + spec_enc_u64(ids[0]) =~= spec_enc_u64(ids[0]));
    } else {
        let t = ids.skip(1);
        lemma_enc_u64_seq_take_snoc(t, i - 1);
        assert(ids.take(i + 1)[0] == ids[0]);
        assert(ids.take(i + 1).skip(1) =~= t.take(i));
        assert(ids.take(i).skip(1) =~= t.take(i - 1));
        assert(ids.take(i)[0] == ids[0]);
        assert(spec_enc_u64_seq(ids.take(i + 1)) == spec_enc_u64(ids[0]) + spec_enc_u64_seq(
            t.take(i),
        ));
        assert(spec_enc_u64_seq(ids.take(i)) == spec_enc_u64(ids[0]) + spec_enc_u64_seq(
            t.take(i - 1),
        ));
        assert(t[i - 1] == ids[i]);
        assert(spec_enc_u64(ids[0]) + (spec_enc_u64_seq(t.take(i - 1)) + spec_enc_u64(ids[i]))
            =~= (spec_enc_u64(ids[0]) + spec_enc_u64_seq(t.take(i - 1))) + spec_enc_u64(
            ids[i],
        ));
    }
}

} // verus!

// The executable decoders walk a buffer with a cursor and are proved to
// agree with the specification readers on the remaining suffix.

verus! {

/// A wider field never holds fewer values.
pub proof fn lemma_pow256_le(a: nat, b: nat)
    requires
        a <= b,
    ensures
        pow256(a) <= pow256(b),
    decreases b,
{
    if a < b {
        lemma_pow256_le(a, (b - 1) as nat);
    }
}

/// Little-endian value of the `n` bytes at `pos`.
pub fn read_le_val(buf: &Vec<u8>, pos: usize, n: usize) -> (r: u64)
    requires
        n <= 8,
        pos + n <= buf@.len(),
    ensures
        r == dec_le(buf@.subrange(pos as int, pos + n)),
        r < pow256(n as nat),
    decreases n,
{
    if n == 0 {
        proof {
            assert(buf@.subrange(pos as int, pos as int).len() == 0);
        }
        0
    } else {
        proof {
            vstd::std_specs::vec::axiom_spec_len(buf);
        }
        let rest = read_le_val(buf, pos + 1, n - 1);
        let b = buf[pos];
        proof {
            lemma_pow256_vals();
            lemma_pow256_le(n as nat, 8);
            let s = buf@.subrange(pos as int, pos + n);
            assert(s[0] == buf@[pos as int]);
            assert(s.subrange(1, s.len() as int) =~= buf@.subrange(pos + 1, pos + n));
        }
        b as u64 + 256 * rest
    }
}

/// Read an eight-byte machine word.
pub fn read_u64x(buf: &Vec<u8>, pos: usize) -> (r: Option<(u64, usize)>)
    requires
        pos <= buf@.len(),
    ensures
        match spec_read_u64(buf@.skip(pos as int)) {
            Some((v, rest)) => {
                &&& r matches Some(t)
                &&& t.0 == v
                &&& pos <= t.1 <= buf@.len()
                &&& buf@.skip(t.1 as int) == rest
            },
            None => r is None,
        },
{
    if buf.len() - pos >= 8 {
        let v = read_le_val(buf, pos, 8);
        proof {
            let s = buf@.skip(pos as int);
            assert(s.take(8) =~= buf@.subrange(pos as int, pos + 8));
            assert(s.skip(8) =~= buf@.skip(pos + 8));
        }
        Some((v, pos + 8))
    } else {
        None
    }
}

/// Read a four-byte network identifier.
pub fn read_u32x(buf: &Vec<u8>, pos: usize) -> (r: Option<(u32, usize)>)
    requires
        pos <= buf@.len(),
    ensures
        match spec_read_u32(buf@.skip(pos as int)) {
            Some((v, rest)) => {
                &&& r matches Some(t)
                &&& t.0 == v
                &&& pos <= t.1 <= buf@.len()
                &&& buf@.skip(t.1 as int) == rest
            },
            None => r is None,
        },
{
    if buf.len() - pos >= 4 {
        let v = read_le_val(buf, pos, 4);
        proof {
            lemma_pow256_vals();
            let s = buf@.skip(pos as int);
            assert(s.take(4) =~= buf@.subrange(pos as int, pos + 4));
            assert(s.skip(4) =~= buf@.skip(pos + 4));
        }
        Some((v as u32, pos + 4))
    } else {
        None
    }
}

/// Read a length-prefixed byte string.
pub fn read_bytesx(buf: &Vec<u8>, pos: usize) -> (r: Option<(Vec<u8>, usize)>)
    requires
        pos <= buf@.len(),
    ensures
        match spec_read_bytes(buf@.skip(pos as int)) {
            Some((bs, rest)) => {
                &&& r matches Some(t)
                &&& t.0@ == bs
                &&& pos <= t.1 <= buf@.len()
                &&& buf@.skip(t.1 as int) == rest
            },
            None => r is None,
        },
{
    proof {
        let s = buf@.skip(pos as int);
        if s.len() >= 8 {
            lemma_dec_le_bound(s.take(8));
            lemma_pow256_vals();
        }
    }
    match read_u64x(buf, pos) {
        Some((l, p1)) => {
            if l <= (buf.len() - p1) as u64 {
                let lu: usize = l as usize;
                let mut out: Vec<u8> = Vec::new();
                let mut i: usize = 0;
                proof {
                    vstd::std_specs::vec::axiom_spec_len(buf);
                }
                while i < lu
                    invariant
                        buf@.len() <= usize::MAX,
                        p1 + lu <= buf@.len(),
                        i <= lu,
                        out@ == buf@.subrange(p1 as int, p1 + i),
                    decreases lu - i,
                {
                    out.push(buf[p1 + i]);
                    proof {
                        assert(buf@.subrange(p1 as int, p1 + i + 1) =~= buf@.subrange(
                            p1 as int,
                            p1 + i,
                        ).push(buf@[p1 + i]));
                    }
                    i = i + 1;
                }
                proof {
                    assert(buf@.skip(p1 as int).take(l as int) =~= buf@.subrange(
                        p1 as int,
                        p1 + l,
                    ));
                    assert(buf@.skip(p1 as int).skip(l as int) =~= buf@.skip(p1 + l));
                }
                Some((out, p1 + lu))
            } else {
                None
            }
        },
        None => None,
    }
}

/// Read a tenure-change cause tag.
pub fn read_causex(buf: &Vec<u8>, pos: usize) -> (r: Option<(TenureChangeCause, usize)>)
    requires
        pos <= buf@.len(),
    ensures
        match spec_read_cause(buf@.skip(pos as int)) {
            Some((c, rest)) => {
                &&& r matches Some(t)
                &&& t.0 == c
                &&& pos <= t.1 <= buf@.len()
                &&& buf@.skip(t.1 as int) == rest
            },
            None => r is None,
        },
{
    if buf.len() - pos >= 1 {
        proof {
            assert(buf@.skip(pos as int)[0] == buf@[pos as int]);
            assert(buf@.skip(pos as int).skip(1) =~= buf@.skip(pos + 1));
        }
        let b = buf[pos];
        if b == 0 {
            Some((TenureChangeCause::BlockFound, pos + 1))
        } else if b == 1 {
            Some((TenureChangeCause::Extended, pos + 1))
        } else {
            None
        }
    } else {
        None
    }
}

/// Read a tagged payload.
pub fn read_payloadx(buf: &Vec<u8>, pos: usize) -> (r: Option<(TxPayload, usize)>)
    requires
        pos <= buf@.len(),
    ensures
        match spec_read_payload(buf@.skip(pos as int)) {
            Some((p, rest)) => {
                &&& r matches Some(t)
                &&& t.0 == p
                &&& pos <= t.1 <= buf@.len()
                &&& buf@.skip(t.1 as int) == rest
            },
            None => r is None,
        },
{
    if buf.len() - pos >= 1 {
        proof {
            assert(buf@.skip(pos as int)[0] == buf@[pos as int]);
            assert(buf@.skip(pos as int).skip(1) =~= buf@.skip(pos + 1));
        }
        let b = buf[pos];
        if b == 0 {
            Some((TxPayload::TokenTransfer, pos + 1))
        } else if b == 1 {
            if buf.len() - pos >= 2 {
                proof {
                    assert(buf@.skip(pos as int)[1] == buf@[pos + 1]);
                    assert(buf@.skip(pos as int).skip(2) =~= buf@.skip(pos + 2));
                }
                let b2 = buf[pos + 1];
                if b2 == 0 {
                    Some((TxPayload::ContractCall { boot_code_addr: false }, pos + 2))
                } else if b2 == 1 {
                    Some((TxPayload::ContractCall { boot_code_addr: true }, pos + 2))
                } else {
                    None
                }
            } else {
                None
            }
        } else if b == 2 {
            Some((TxPayload::SmartContract, pos + 1))
        } else if b == 3 {
            Some((TxPayload::Coinbase, pos + 1))
        } else if b == 4 {
            match read_causex(buf, pos + 1) {
                Some((c, p2)) => Some((TxPayload::TenureChange { cause: c }, p2)),
                None => None,
            }
        } else {
            None
        }
    } else {
        None
    }
}

/// Read a five-dimension cost.
pub fn read_costx(buf: &Vec<u8>, pos: usize) -> (r: Option<(ExecCost, usize)>)
    requires
        pos <= buf@.len(),
    ensures
        match spec_read_cost(buf@.skip(pos as int)) {
            Some((c, rest)) => {
                &&& r matches Some(t)
                &&& t.0 == c
                &&& pos <= t.1 <= buf@.len()
                &&& buf@.skip(t.1 as int) == rest
            },
            None => r is None,
        },
{
    match read_u64x(buf, pos) {
        Some((wl, p1)) => match read_u64x(buf, p1) {
            Some((wc, p2)) => match read_u64x(buf, p2) {
                Some((rl, p3)) => match read_u64x(buf, p3) {
                    Some((rc, p4)) => match read_u64x(buf, p4) {
                        Some((rt, p5)) => Some(
                            (
                                ExecCost {
                                    write_length: wl,
                                    write_count: wc,
                                    read_length: rl,
                                    read_count: rc,
                                    runtime: rt,
                                },
                                p5,
                            ),
                        ),
                        None => None,
                    },
                    None => None,
                },
                None => None,
            },
            None => None,
        },
        None => None,
    }
}

/// Read a tagged oracle behaviour.
pub fn read_behaviorx(buf: &Vec<u8>, pos: usize) -> (r: Option<(ExecBehavior, usize)>)
    requires
        pos <= buf@.len(),
    ensures
        match spec_read_behavior(buf@.skip(pos as int)) {
            Some((b, rest)) => {
                &&& r matches Some(t)
                &&& t.0 == b
                &&& pos <= t.1 <= buf@.len()
                &&& buf@.skip(t.1 as int) == rest
            },
            None => r is None,
        },
{
    if buf.len() - pos >= 1 {
        proof {
            assert(buf@.skip(pos as int)[0] == buf@[pos as int]);
            assert(buf@.skip(pos as int).skip(1) =~= buf@.skip(pos + 1));
        }
        let b = buf[pos];
        if b == 0 {
            match read_costx(buf, pos + 1) {
                Some((c, p2)) => Some((ExecBehavior::Apply { cost: c }, p2)),
                None => None,
            }
        } else if b == 1 {
            Some((ExecBehavior::Reject, pos + 1))
        } else if b == 2 {
            Some((ExecBehavior::RejectProblematic, pos + 1))
        } else {
            None
        }
    } else {
        None
    }
}

/// Read one transaction.
pub fn read_txx(buf: &Vec<u8>, pos: usize) -> (r: Option<(Transaction, usize)>)
    requires
        pos <= buf@.len(),
    ensures
        match spec_read_tx(buf@.skip(pos as int)) {
            Some((tx, rest)) => {
                &&& r matches Some(t)
                &&& t.0 == tx
                &&& pos <= t.1 <= buf@.len()
                &&& buf@.skip(t.1 as int) == rest
            },
            None => r is None,
        },
{
    match read_u64x(buf, pos) {
        Some((txid, p1)) => match read_u64x(buf, p1) {
            Some((fee, p2)) => match read_payloadx(buf, p2) {
                Some((payload, p3)) => {
                    if buf.len() - p3 >= 1 {
                        proof {
                            assert(buf@.skip(p3 as int)[0] == buf@[p3 as int]);
                            assert(buf@.skip(p3 as int).skip(1) =~= buf@.skip(p3 + 1));
                        }
                        let fb = buf[p3];
                        if fb == 0 || fb == 1 {
                            match read_behaviorx(buf, p3 + 1) {
                                Some((behavior, p4)) => Some(
                                    (
                                        Transaction {
                                            txid,
                                            fee,
                                            payload,
                                            flagged_unsafe: fb == 1,
                                            execution: behavior,
                                        },
                                        p4,
                                    ),
                                ),
                                None => None,
                            }
                        } else {
                            None
                        }
                    } else {
                        None
                    }
                },
                None => None,
            },
            None => None,
        },
        None => None,
    }
}

/// Read `count` consecutive transactions.
pub fn read_tx_seqx(buf: &Vec<u8>, pos: usize, count: u64) -> (r: Option<
    (Vec<Transaction>, usize),
>)
    requires
        pos <= buf@.len(),
    ensures
        match spec_read_tx_seq(buf@.skip(pos as int), count as nat) {
            Some((txs, rest)) => {
                &&& r matches Some(t)
                &&& t.0@ == txs
                &&& pos <= t.1 <= buf@.len()
                &&& buf@.skip(t.1 as int) == rest
            },
            None => r is None,
        },
    decreases count,
{
    if count == 0 {
        proof {
            assert(spec_read_tx_seq(buf@.skip(pos as int), 0) == Some(
                (Seq::<Transaction>::empty(), buf@.skip(pos as int)),
            ));
        }
        let empty: Vec<Transaction> = Vec::new();
        proof {
            assert(empty@ =~= Seq::<Transaction>::empty());
        }
        Some((empty, pos))
    } else {
        match read_txx(buf, pos) {
            Some((tx, p1)) => match read_tx_seqx(buf, p1, count - 1) {
                Some((mut txs, p2)) => {
                    txs.insert(0, tx);
                    proof {
                        assert(txs@ =~= seq![tx] + txs@.skip(1));
                    }
                    Some((txs, p2))
                },
                None => None,
            },
            None => None,
        }
    }
}

} // verus!
