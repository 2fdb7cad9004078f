//! Transactions and block headers as plain values, and what the `bitcoin`
//! crate computes from them.

use crate::hashes::{BlockHash, OutPoint, Txid};
use bitcoin::absolute::LockTime;
use bitcoin::transaction::Version;
use bitcoin::{Amount, ScriptBuf, Sequence, Witness};
use vstd::prelude::*;

verus! {

/// An output of a transaction: an amount in satoshis, locked by a script.
#[derive(Clone, Debug, PartialEq, Eq)]
pub struct TxOut {
    pub value: u64,
    pub script_pubkey: Vec<u8>,
}

/// An input of a transaction: the output it spends and what unlocks it.
#[derive(Clone, Debug, PartialEq, Eq)]
pub struct TxIn {
    pub previous_output: OutPoint,
    pub script_sig: Vec<u8>,
    pub sequence: u32,
    pub witness: Vec<Vec<u8>>,
}

/// A transaction. `lock_time` is the lock time as consensus encodes it.
#[derive(Clone, Debug, PartialEq, Eq)]
pub struct TransactionData {
    pub version: i32,
    pub lock_time: u32,
    pub input: Vec<TxIn>,
    pub output: Vec<TxOut>,
}

/// A block header. `bits` is the target in its compact form.
#[derive(Clone, Copy, Debug, PartialEq, Eq)]
pub struct Header {
    pub version: i32,
    pub prev_blockhash: BlockHash,
    pub merkle_root: [u8; 32],
    pub time: u32,
    pub bits: u32,
    pub nonce: u32,
}

/// What a [`TxOut`] holds.
pub struct TxOutView {
    pub value: u64,
    pub script_pubkey: Seq<u8>,
}

/// What a [`TxIn`] holds.
pub struct TxInView {
    pub previous_output: OutPoint,
    pub script_sig: Seq<u8>,
    pub sequence: u32,
    pub witness: Seq<Seq<u8>>,
}

/// What a [`TransactionData`] holds.
pub struct TransactionView {
    pub version: i32,
    pub lock_time: u32,
    pub input: Seq<TxInView>,
    pub output: Seq<TxOutView>,
}

impl View for TxOut {
    type V = TxOutView;

    open spec fn view(&self) -> TxOutView {
        TxOutView { value: self.value, script_pubkey: self.script_pubkey@ }
    }
}

impl View for TxIn {
    type V = TxInView;

    open spec fn view(&self) -> TxInView {
        TxInView {
            previous_output: self.previous_output,
            script_sig: self.script_sig@,
            sequence: self.sequence,
            witness: Seq::new(self.witness@.len(), |i: int| self.witness@[i]@),
        }
    }
}

impl View for TransactionData {
    type V = TransactionView;

    open spec fn view(&self) -> TransactionView {
        TransactionView {
            version: self.version,
            lock_time: self.lock_time,
            input: Seq::new(self.input@.len(), |i: int| self.input@[i]@),
            output: Seq::new(self.output@.len(), |i: int| self.output@[i]@),
        }
    }
}

/// The number of bytes that the length prefix `n` takes in an encoding, as
/// `bitcoin::consensus::encode::VarInt::size` gives it.
pub open spec fn var_int_size(n: int) -> int {
    if n <= 0xFC {
        1
    } else if n <= 0xFFFF {
        3
    } else if n <= 0xFFFF_FFFF {
        5
    } else {
        9
    }
}

/// The number of bytes that the length prefix `n` takes in an encoding.
pub fn length_prefix_size(n: u64) -> (r: u64)
    ensures
        r == var_int_size(n as int),
{
    if n <= 0xFC {
        1
    } else if n <= 0xFFFF {
        3
    } else if n <= 0xFFFF_FFFF {
        5
    } else {
        9
    }
}

/// The number of bytes that the witness items `items` take when each is
/// written behind its length.
pub open spec fn witness_size(items: Seq<Seq<u8>>) -> int
    decreases items.len(),
{
    if items.len() == 0 {
        0
    } else {
        witness_size(items.drop_last()) + var_int_size(items.last().len() as int)
            + items.last().len()
    }
}

/// True if the witness of every input of `tx` can be held by the `bitcoin`
/// crate, which counts the bytes of a witness in 32 bits.
pub open spec fn witnesses_fit(tx: TransactionView) -> bool {
    forall|i: int| 0 <= i < tx.input.len() ==> witness_size((#[trigger] tx.input[i]).witness) <= u32::MAX
}

/// The bytes of the first items of a witness never exceed those of all.
pub proof fn witness_size_grows(items: Seq<Seq<u8>>, k: int)
    requires
        0 <= k <= items.len(),
    ensures
        0 <= witness_size(items.take(k)) <= witness_size(items),
    decreases items.len(),
{
    if k == items.len() {
        assert(items.take(k) == items);
        if k > 0 {
            witness_size_grows(items.drop_last(), k - 1);
        }
    } else {
        witness_size_grows(items.drop_last(), k);
        assert(items.drop_last().take(k) == items.take(k));
    }
}

/// Tells whether the witness items `items` take no more than `u32::MAX`
/// bytes when each is written behind its length.
pub fn witness_fits(items: &Vec<Vec<u8>>) -> (r: bool)
    ensures
        r == (witness_size(Seq::new(items@.len(), |k: int| items@[k]@)) <= u32::MAX),
{
    let ghost all = Seq::new(items@.len(), |k: int| items@[k]@);
    let mut size: u64 = 0;
    let mut k: usize = 0;
    while k < items.len()
        invariant
            k <= items@.len(),
            all == Seq::new(items@.len(), |k: int| items@[k]@),
            size == witness_size(all.take(k as int)),
            size <= u32::MAX,
        decreases items@.len() - k,
    {
        let len = items[k].len();
        proof {
            assert(all.take(k + 1).drop_last() == all.take(k as int));
            assert(all.take(k + 1).last() == items@[k as int]@);
            witness_size_grows(all, k + 1);
        }
        if len > 0xFFFF_FFFF {
            return false;
        }
        size = size + length_prefix_size(len as u64) + len as u64;
        if size > 0xFFFF_FFFF {
            return false;
        }
        k += 1;
    }
    assert(all.take(k as int) == all);
    true
}

/// Tells whether the `bitcoin` crate can hold the witness of every input of
/// `tx`.
pub fn has_fitting_witnesses(tx: &TransactionData) -> (r: bool)
    ensures
        r == witnesses_fit(tx@),
{
    let mut i: usize = 0;
    while i < tx.input.len()
        invariant
            i <= tx.input@.len(),
            forall|j: int| 0 <= j < i ==> witness_size((#[trigger] tx@.input[j]).witness) <= u32::MAX,
        decreases tx.input@.len() - i,
    {
        if !witness_fits(&tx.input[i].witness) {
            assert(tx@.input[i as int].witness == Seq::new(
                tx.input@[i as int].witness@.len(),
                |k: int| tx.input@[i as int].witness@[k]@,
            ));
            return false;
        }
        assert(tx@.input[i as int].witness == Seq::new(
            tx.input@[i as int].witness@.len(),
            |k: int| tx.input@[i as int].witness@[k]@,
        ));
        i += 1;
    }
    true
}

/// The id of a transaction: the hash of its encoding without witness data.
pub uninterp spec fn txid_of(tx: TransactionView) -> Txid;

/// The number of bytes of a transaction's encoding, witness data included.
pub uninterp spec fn total_size_of(tx: TransactionView) -> usize;

/// The weight of a transaction, in weight units.
pub uninterp spec fn weight_of(tx: TransactionView) -> u64;

/// The hash of a block header.
pub uninterp spec fn block_hash_of(header: Header) -> BlockHash;

/// `bitcoin::Transaction::compute_txid` on the `bitcoin::Transaction` that
/// holds, field by field, what `tx` holds: the result depends on what `tx`
/// holds and on nothing else. `bitcoin::Witness::from_slice` gives up on a
/// witness whose bytes it cannot count in 32 bits, which the `requires`
/// leaves out.
#[verifier::external_body]
pub(crate) fn compute_txid(tx: &TransactionData) -> (r: Txid)
    requires
        witnesses_fit(tx@),
    ensures
        r == txid_of(tx@),
{
    let input = tx.input.iter().map(|i| bitcoin::TxIn {
        previous_output: bitcoin::OutPoint::new(bitcoin::hashes::Hash::from_byte_array(i.previous_output.txid.bytes), i.previous_output.vout),
        script_sig: ScriptBuf::from_bytes(i.script_sig.clone()),
        sequence: Sequence(i.sequence),
        witness: Witness::from_slice(&i.witness),
    }).collect();
    let output = tx.output.iter().map(|o| bitcoin::TxOut {
        value: Amount::from_sat(o.value),
        script_pubkey: ScriptBuf::from_bytes(o.script_pubkey.clone()),
    }).collect();
    let (version, lock_time) = (Version(tx.version), LockTime::from_consensus(tx.lock_time));
    Txid { bytes: *bitcoin::Transaction { version, lock_time, input, output }.compute_txid().as_ref() }
}

/// `bitcoin::Transaction::total_size` on the `bitcoin::Transaction` that
/// holds, field by field, what `tx` holds: the result depends on what `tx`
/// holds and on nothing else. `bitcoin::Witness::from_slice` gives up on a
/// witness whose bytes it cannot count in 32 bits, which the `requires`
/// leaves out.
#[verifier::external_body]
pub(crate) fn total_size(tx: &TransactionData) -> (r: usize)
    requires
        witnesses_fit(tx@),
    ensures
        r == total_size_of(tx@),
{
    let input = tx.input.iter().map(|i| bitcoin::TxIn {
        previous_output: bitcoin::OutPoint::new(bitcoin::hashes::Hash::from_byte_array(i.previous_output.txid.bytes), i.previous_output.vout),
        script_sig: ScriptBuf::from_bytes(i.script_sig.clone()),
        sequence: Sequence(i.sequence),
        witness: Witness::from_slice(&i.witness),
    }).collect();
    let output = tx.output.iter().map(|o| bitcoin::TxOut {
        value: Amount::from_sat(o.value),
        script_pubkey: ScriptBuf::from_bytes(o.script_pubkey.clone()),
    }).collect();
    let (version, lock_time) = (Version(tx.version), LockTime::from_consensus(tx.lock_time));
    bitcoin::Transaction { version, lock_time, input, output }.total_size()
}

/// `bitcoin::Transaction::weight`, in weight units, on the
/// `bitcoin::Transaction` that holds, field by field, what `tx` holds: the
/// result depends on what `tx` holds and on nothing else.
/// `bitcoin::Witness::from_slice` gives up on a witness whose bytes it cannot
/// count in 32 bits, which the `requires` leaves out.
#[verifier::external_body]
pub(crate) fn weight(tx: &TransactionData) -> (r: u64)
    requires
        witnesses_fit(tx@),
    ensures
        r == weight_of(tx@),
{
    let input = tx.input.iter().map(|i| bitcoin::TxIn {
        previous_output: bitcoin::OutPoint::new(bitcoin::hashes::Hash::from_byte_array(i.previous_output.txid.bytes), i.previous_output.vout),
        script_sig: ScriptBuf::from_bytes(i.script_sig.clone()),
        sequence: Sequence(i.sequence),
        witness: Witness::from_slice(&i.witness),
    }).collect();
    let output = tx.output.iter().map(|o| bitcoin::TxOut {
        value: Amount::from_sat(o.value),
        script_pubkey: ScriptBuf::from_bytes(o.script_pubkey.clone()),
    }).collect();
    let (version, lock_time) = (Version(tx.version), LockTime::from_consensus(tx.lock_time));
    bitcoin::Transaction { version, lock_time, input, output }.weight().to_wu()
}

/// `bitcoin::block::Header::block_hash` on the header that `header` describes:
/// the result depends on the header's six fields and on nothing else.
#[verifier::external_body]
pub(crate) fn block_hash(header: &Header) -> (r: BlockHash)
    ensures
        r == block_hash_of(*header),
{
    let outside = bitcoin::block::Header {
        version: bitcoin::block::Version::from_consensus(header.version),
        prev_blockhash: bitcoin::hashes::Hash::from_byte_array(header.prev_blockhash.bytes),
        merkle_root: bitcoin::hashes::Hash::from_byte_array(header.merkle_root),
        time: header.time,
        bits: bitcoin::CompactTarget::from_consensus(header.bits),
        nonce: header.nonce,
    };
    BlockHash { bytes: bitcoin::hashes::Hash::to_byte_array(outside.block_hash()) }
}

} // verus!
