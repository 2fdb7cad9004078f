//! The checks that turn a server's answers about one transaction into a
//! confirmation, and the order in which confirmations are handed on.

use crate::common::ConfirmedTx;
use crate::error::InternalError;
use crate::hashes::{BlockHash, Txid};
use crate::merkle::{extract_matches, merkle_matches, MerkleBlock};
use crate::transaction::{
    block_hash, block_hash_of, compute_txid, has_fitting_witnesses, total_size, total_size_of,
    txid_of, witnesses_fit, TransactionData, TransactionView,
};
use vstd::prelude::*;
use vstd::seq_lib::{to_multiset_insert, to_multiset_remove};

verus! {

/// Whether a block is in the best chain, and at which height.
#[derive(Clone, Copy, Debug, PartialEq, Eq)]
pub struct BlockStatus {
    pub in_best_chain: bool,
    pub height: Option<u32>,
}

/// Whether a transaction is confirmed, and where.
#[derive(Clone, Copy, Debug, PartialEq, Eq)]
pub struct TxStatus {
    pub confirmed: bool,
    pub block_height: Option<u32>,
    pub block_hash: Option<BlockHash>,
}

/// What a server knows of the spending of an output.
#[derive(Clone, Copy, Debug, PartialEq, Eq)]
pub struct OutputStatus {
    /// The transaction that spends the output.
    pub txid: Option<Txid>,
    /// The status of that transaction.
    pub status: Option<TxStatus>,
}

/// A transaction whose confirmation is to be looked up.
#[derive(Clone, Copy, Debug, PartialEq, Eq)]
pub struct Candidate {
    pub txid: Txid,
    /// The block in which an earlier answer placed the transaction.
    pub expected_block_hash: Option<BlockHash>,
    /// The height of that block, where an earlier answer gave it.
    pub known_block_height: Option<u32>,
}

/// True if a proof that matched `found` is well formed: it decodes and
/// matches exactly one transaction at exactly one position.
pub open spec fn single_match(found: Option<(Seq<Txid>, Seq<u32>)>) -> bool {
    found matches Some((matches, indexes)) && matches.len() == 1 && indexes.len() == 1
}

/// What a proof says of `txid`: the proof is for the block `block_hash` and
/// matched `found`.
///
/// A proof that does not decode, or that matches no transaction or several,
/// is a failure whatever block was expected. A well-formed proof for a block
/// other than the expected one is an inconsistency. A well-formed proof for
/// another transaction is a failure. Else the result is the position of
/// `txid` in its block.
pub open spec fn proof_outcome(
    txid: Txid,
    expected_block_hash: Option<BlockHash>,
    block_hash: BlockHash,
    found: Option<(Seq<Txid>, Seq<u32>)>,
) -> Result<usize, InternalError> {
    match found {
        Some((matches, indexes)) => if matches.len() != 1 || indexes.len() != 1 {
            Err(InternalError::Failed)
        } else if expected_block_hash is Some && expected_block_hash->0 != block_hash {
            Err(InternalError::Inconsistency)
        } else if matches[0] != txid {
            Err(InternalError::Failed)
        } else {
            Ok(indexes[0] as usize)
        },
        None => Err(InternalError::Failed),
    }
}

/// What is to be done with a transaction that a server sent for `txid`, whose
/// id is in fact `computed` and which takes `size` bytes: `Ok(true)` to go on
/// with it, `Ok(false)` to pass over it. A transaction of 64 bytes could be
/// taken for an inner node of a Merkle tree, and is passed over.
pub open spec fn transaction_outcome(txid: Txid, computed: Txid, size: usize) -> Result<
    bool,
    InternalError,
> {
    if computed != txid {
        Err(InternalError::Failed)
    } else if size == 64 {
        Ok(false)
    } else {
        Ok(true)
    }
}

/// What is to be done with the transaction `tx` that a server sent for
/// `txid`. A transaction with a witness that the `bitcoin` crate cannot hold
/// is no transaction of the chain, and a failure; of any other its id and
/// size decide, as [`transaction_outcome`] says.
pub open spec fn transaction_verdict(txid: Txid, tx: TransactionView) -> Result<
    bool,
    InternalError,
> {
    if !witnesses_fit(tx) {
        Err(InternalError::Failed)
    } else {
        transaction_outcome(txid, txid_of(tx), total_size_of(tx))
    }
}

/// What the server's answers about `candidate` amount to, when it answers
/// the request for a Merkle block with `merkle_block`, the request for the
/// transaction with `tx`, and the request for the status of the proof's
/// block with `status`: `Ok(Some(..))` with the confirmation, `Ok(None)` if
/// there is none to take note of. Later answers count only where the earlier
/// ones lead to their request.
pub open spec fn confirmation_outcome(
    candidate: Candidate,
    merkle_block: Option<MerkleBlock>,
    tx: Option<TransactionData>,
    status: BlockStatus,
) -> Result<Option<ConfirmedTx>, InternalError> {
    match merkle_block {
        None => Ok(None),
        Some(block) => match proof_outcome(
            candidate.txid,
            candidate.expected_block_hash,
            block_hash_of(block.header),
            merkle_matches(block.txn@),
        ) {
            Err(e) => Err(e),
            Ok(pos) => match tx {
                None => Ok(None),
                Some(tx) => match transaction_verdict(candidate.txid, tx@) {
                    Err(e) => Err(e),
                    Ok(false) => Ok(None),
                    Ok(true) => {
                        let height = if candidate.known_block_height is Some {
                            candidate.known_block_height
                        } else {
                            status.height
                        };
                        match height {
                            Some(block_height) => Ok(
                                Some(
                                    ConfirmedTx {
                                        tx,
                                        txid: candidate.txid,
                                        block_header: block.header,
                                        block_height,
                                        pos,
                                    },
                                ),
                            ),
                            None => Err(InternalError::Inconsistency),
                        }
                    },
                },
            },
        },
    }
}

/// The view of what [`extract_matches`] hands back.
pub open spec fn found_view(found: Option<(Vec<Txid>, Vec<u32>)>) -> Option<(Seq<Txid>, Seq<u32>)> {
    match found {
        Some(pair) => Some((pair.0@, pair.1@)),
        None => None,
    }
}

/// Checks what a proof matched against the transaction it was asked for.
pub fn validate_proof(
    txid: &Txid,
    expected_block_hash: &Option<BlockHash>,
    block_hash: &BlockHash,
    found: &Option<(Vec<Txid>, Vec<u32>)>,
) -> (r: Result<usize, InternalError>)
    ensures
        r == proof_outcome(*txid, *expected_block_hash, *block_hash, found_view(*found)),
{
    match found {
        Some(pair) => {
            if pair.0.len() != 1 || pair.1.len() != 1 {
                return Err(InternalError::Failed);
            }
            if let Some(expected) = expected_block_hash {
                if *expected != *block_hash {
                    return Err(InternalError::Inconsistency);
                }
            }
            if pair.0[0] != *txid {
                Err(InternalError::Failed)
            } else {
                Ok(pair.1[0] as usize)
            }
        },
        None => Err(InternalError::Failed),
    }
}

/// Checks the proof in `merkle_block` against `txid`. On success, the hash of
/// the proof's block and the position of `txid` in it.
pub fn check_merkle_block(
    txid: &Txid,
    expected_block_hash: &Option<BlockHash>,
    merkle_block: &MerkleBlock,
) -> (r: Result<(BlockHash, usize), InternalError>)
    ensures
        r == (match proof_outcome(
            *txid,
            *expected_block_hash,
            block_hash_of(merkle_block.header),
            merkle_matches(merkle_block.txn@),
        ) {
            Ok(pos) => Ok((block_hash_of(merkle_block.header), pos)),
            Err(e) => Err(e),
        }),
{
    let hash = block_hash(&merkle_block.header);
    let found = extract_matches(&merkle_block.txn);
    match validate_proof(txid, expected_block_hash, &hash, &found) {
        Ok(pos) => Ok((hash, pos)),
        Err(e) => Err(e),
    }
}

/// Decides what to do with a transaction from its id and size.
pub fn validate_transaction(txid: &Txid, computed: &Txid, size: usize) -> (r: Result<
    bool,
    InternalError,
>)
    ensures
        r == transaction_outcome(*txid, *computed, size),
{
    if *computed != *txid {
        Err(InternalError::Failed)
    } else if size == 64 {
        Ok(false)
    } else {
        Ok(true)
    }
}

/// Decides what to do with the transaction `tx` that a server sent for
/// `txid`.
pub fn check_transaction(txid: &Txid, tx: &TransactionData) -> (r: Result<bool, InternalError>)
    ensures
        r == transaction_verdict(*txid, tx@),
{
    if !has_fitting_witnesses(tx) {
        return Err(InternalError::Failed);
    }
    let computed = compute_txid(tx);
    let size = total_size(tx);
    validate_transaction(txid, &computed, size)
}

/// The height of a block according to its status. A block without a height
/// has left the best chain.
pub fn resolve_height(status: &BlockStatus) -> (r: Result<u32, InternalError>)
    ensures
        r == (match status.height {
            Some(height) => Ok::<u32, InternalError>(height),
            None => Err(InternalError::Inconsistency),
        }),
{
    match status.height {
        Some(height) => Ok(height),
        None => Err(InternalError::Inconsistency),
    }
}

/// True if one of `found` is the transaction `txid`.
pub open spec fn is_found(found: Seq<ConfirmedTx>, txid: Txid) -> bool {
    exists|i: int| 0 <= i < found.len() && (#[trigger] found[i]).txid == txid
}

/// True if no two of `txs` are the same transaction.
pub open spec fn distinct_txids(txs: Seq<ConfirmedTx>) -> bool {
    forall|i: int, j: int|
        0 <= i < j < txs.len() ==> (#[trigger] txs[i]).txid != (#[trigger] txs[j]).txid
}

/// Tells whether no two of `txs` are the same transaction.
pub fn has_distinct_txids(txs: &Vec<ConfirmedTx>) -> (r: bool)
    ensures
        r == distinct_txids(txs@),
{
    let mut i: usize = 0;
    while i < txs.len()
        invariant
            i <= txs.len(),
            forall|a: int, b: int|
                0 <= a < b < i ==> (#[trigger] txs@[a]).txid != (#[trigger] txs@[b]).txid,
        decreases txs.len() - i,
    {
        let mut j: usize = 0;
        while j < i
            invariant
                j <= i < txs.len(),
                forall|a: int| 0 <= a < j ==> (#[trigger] txs@[a]).txid != txs@[i as int].txid,
            decreases i - j,
        {
            if txs[j].txid == txs[i].txid {
                return false;
            }
            j += 1;
        }
        i += 1;
    }
    true
}

/// Tells whether one of `found` is the transaction `txid`.
pub fn contains_confirmed(found: &Vec<ConfirmedTx>, txid: &Txid) -> (r: bool)
    ensures
        r == is_found(found@, *txid),
{
    let mut i: usize = 0;
    while i < found.len()
        invariant
            i <= found.len(),
            forall|j: int| 0 <= j < i ==> found@[j].txid != *txid,
        decreases found.len() - i,
    {
        if found[i].txid == *txid {
            return true;
        }
        i += 1;
    }
    false
}

/// What a server's answer about a watched output leads to, when `found` are
/// the confirmations found so far in this pass: `Ok(None)` where nothing is
/// to be looked up, `Ok(Some(..))` with the spending transaction to look up.
/// A spending transaction that was found confirmed earlier in the pass and is
/// now said to be unconfirmed is an inconsistency.
pub open spec fn spending_candidate(found: Seq<ConfirmedTx>, status: Option<OutputStatus>) -> Result<
    Option<Candidate>,
    InternalError,
> {
    match status {
        Some(OutputStatus { txid: Some(spending_txid), status: Some(tx_status) }) => {
            if is_found(found, spending_txid) {
                if tx_status.confirmed {
                    Ok(None)
                } else {
                    Err(InternalError::Inconsistency)
                }
            } else {
                Ok(
                    Some(
                        Candidate {
                            txid: spending_txid,
                            expected_block_hash: tx_status.block_hash,
                            known_block_height: tx_status.block_height,
                        },
                    ),
                )
            }
        },
        _ => Ok(None),
    }
}

/// Decides what a server's answer about a watched output leads to.
pub fn check_output_status(found: &Vec<ConfirmedTx>, status: &Option<OutputStatus>) -> (r: Result<
    Option<Candidate>,
    InternalError,
>)
    ensures
        r == spending_candidate(found@, *status),
{
    if let Some(output_status) = status {
        if let Some(spending_txid) = output_status.txid {
            if let Some(tx_status) = output_status.status {
                if contains_confirmed(found, &spending_txid) {
                    if tx_status.confirmed {
                        return Ok(None);
                    } else {
                        return Err(InternalError::Inconsistency);
                    }
                }
                return Ok(
                    Some(
                        Candidate {
                            txid: spending_txid,
                            expected_block_hash: tx_status.block_hash,
                            known_block_height: tx_status.block_height,
                        },
                    ),
                );
            }
        }
    }
    Ok(None)
}

/// True if `a` does not come after `b`: it is in a lower block, or in the
/// same block at a position that is not higher.
pub open spec fn not_after(a: ConfirmedTx, b: ConfirmedTx) -> bool {
    a.block_height < b.block_height || (a.block_height == b.block_height && a.pos <= b.pos)
}

/// True if `txs` go by block height and, within a block, by position.
pub open spec fn in_block_order(txs: Seq<ConfirmedTx>) -> bool {
    forall|i: int, j: int| 0 <= i < j < txs.len() ==> not_after(#[trigger] txs[i], #[trigger] txs[j])
}

/// Tells whether `a` does not come after `b`.
pub fn is_not_after(a: &ConfirmedTx, b: &ConfirmedTx) -> (r: bool)
    ensures
        r == not_after(*a, *b),
{
    a.block_height < b.block_height || (a.block_height == b.block_height && a.pos <= b.pos)
}

/// Tells whether `txs` go by block height and, within a block, by position.
pub fn is_in_block_order(txs: &Vec<ConfirmedTx>) -> (r: bool)
    ensures
        r == in_block_order(txs@),
{
    if txs.len() == 0 {
        return true;
    }
    let mut i: usize = 1;
    while i < txs.len()
        invariant
            1 <= i <= txs.len(),
            in_block_order(txs@.take(i as int)),
        decreases txs.len() - i,
    {
        if !is_not_after(&txs[i - 1], &txs[i]) {
            return false;
        }
        proof {
            let prefix = txs@.take(i + 1);
            assert forall|a: int, b: int| 0 <= a < b < prefix.len() implies not_after(
                #[trigger] prefix[a],
                #[trigger] prefix[b],
            ) by {
                if b == i && a < i - 1 {
                    assert(not_after(txs@.take(i as int)[a], txs@.take(i as int)[i - 1]));
                } else if b < i {
                    assert(not_after(txs@.take(i as int)[a], txs@.take(i as int)[b]));
                }
            }
        }
        i += 1;
    }
    assert(txs@.take(i as int) == txs@);
    true
}

/// Puts `txs` in block order.
pub fn sort_confirmed(txs: &mut Vec<ConfirmedTx>)
    ensures
        in_block_order(final(txs)@),
        final(txs)@.to_multiset() == old(txs)@.to_multiset(),
        final(txs)@.len() == old(txs)@.len(),
        distinct_txids(old(txs)@) ==> distinct_txids(final(txs)@),
{
    let mut i: usize = 0;
    while i < txs.len()
        invariant
            i <= txs@.len(),
            txs@.len() == old(txs)@.len(),
            txs@.to_multiset() == old(txs)@.to_multiset(),
            distinct_txids(old(txs)@) ==> distinct_txids(txs@),
            in_block_order(txs@.take(i as int)),
        decreases txs@.len() - i,
    {
        let ghost before = txs@;
        let tx = txs.remove(i);
        let ghost without = txs@;
        let mut j: usize = i;
        while j > 0 && !is_not_after(&txs[j - 1], &tx)
            invariant
                j <= i <= txs@.len(),
                txs@ == without,
                forall|k: int| j <= k < i ==> !not_after(#[trigger] txs@[k], tx),
            decreases j,
        {
            j -= 1;
        }
        txs.insert(j, tx);
        proof {
            broadcast use to_multiset_remove, to_multiset_insert;

            assert(without == before.remove(i as int));
            assert(txs@ == without.insert(j as int, tx));
            assert(before.to_multiset().remove(tx).insert(tx) =~= before.to_multiset()) by {
                assert(before[i as int] == tx);
                assert(before.to_multiset().count(tx) > 0) by {
                    before.to_multiset_ensures();
                    assert(before.contains(tx));
                }
            }
            if distinct_txids(before) {
                assert forall|a: int, b: int| 0 <= a < b < txs@.len() implies (
                #[trigger] txs@[a]).txid != (#[trigger] txs@[b]).txid by {
                    let wa = if a < j { a } else { a - 1 };
                    let wb = if b < j { b } else { b - 1 };
                    let from_a = if a == j { i as int } else if wa < i { wa } else { wa + 1 };
                    let from_b = if b == j { i as int } else if wb < i { wb } else { wb + 1 };
                    assert(txs@[a] == before[from_a]);
                    assert(txs@[b] == before[from_b]);
                    if from_a < from_b {
                        assert(before[from_a].txid != before[from_b].txid);
                    } else {
                        assert(before[from_b].txid != before[from_a].txid);
                    }
                }
            }
            let after = txs@.take(i + 1);
            assert forall|a: int, b: int| 0 <= a < b < after.len() implies not_after(
                #[trigger] after[a],
                #[trigger] after[b],
            ) by {
                let prefix = before.take(i as int);
                let ia = if a < j { a } else { a - 1 };
                let ib = if b < j { b } else { b - 1 };
                if a != j && b != j {
                    assert(after[a] == prefix[ia]);
                    assert(after[b] == prefix[ib]);
                } else if a == j {
                    assert(after[b] == without[ib]);
                    assert(!not_after(without[ib], tx));
                } else {
                    assert(after[a] == without[ia]);
                    if j > 0 {
                        assert(not_after(without[j - 1], tx));
                        if ia < j - 1 {
                            assert(prefix[ia] == without[ia]);
                            assert(prefix[j - 1] == without[j - 1]);
                            assert(not_after(prefix[ia], prefix[j - 1]));
                        }
                    }
                }
            }
        }
        i += 1;
    }
    assert(txs@.take(i as int) == txs@);
}

/// The first index from `from` on at which `watched` holds a transaction
/// that is not among `found`; the length of `watched` if there is none.
pub open spec fn next_unfound(watched: Seq<Txid>, found: Seq<ConfirmedTx>, from: int) -> int
    decreases watched.len() - from,
{
    if from < 0 || from >= watched.len() {
        watched.len() as int
    } else if !is_found(found, watched[from]) {
        from
    } else {
        next_unfound(watched, found, from + 1)
    }
}

/// Finds the next transaction of `watched`, from index `from` on, that is not
/// among `found`.
pub fn find_unfound(watched: &Vec<Txid>, found: &Vec<ConfirmedTx>, from: usize) -> (r: usize)
    requires
        from <= watched.len(),
    ensures
        r == next_unfound(watched@, found@, from as int),
        from <= r <= watched.len(),
        r < watched.len() ==> !is_found(found@, watched@[r as int]),
{
    let mut i: usize = from;
    while i < watched.len()
        invariant
            from <= i <= watched.len(),
            next_unfound(watched@, found@, from as int) == next_unfound(watched@, found@, i as int),
        decreases watched.len() - i,
    {
        if !contains_confirmed(found, &watched[i]) {
            return i;
        }
        i += 1;
    }
    i
}

} // verus!
