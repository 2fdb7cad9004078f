//! What holds of every synchronisation, whatever the server answers.

use crate::common::{
    holds_outpoint, next_unspent, spend_after_confirmations, spend_after_pruning,
    spend_after_unconfirmation, with_output, with_outputs, with_txid, with_txids, ConfirmedTx,
    FilterQueue, SpendStatus, SyncState, WatchedOutput,
};
use crate::confirmation::{
    confirmation_outcome, distinct_txids, in_block_order, is_found, single_match, BlockStatus,
    Candidate, OutputStatus, TxStatus,
};
use crate::error::{InternalError, TxSyncError};
use crate::esplora::{
    distinct_relevant, Phase, RelevantTxid, SyncAction, SyncEvent, SyncMachine,
};
use crate::hashes::{BlockHash, OutPoint, Txid};
use crate::merkle::{merkle_matches, MerkleBlock};
use crate::transaction::{
    block_hash_of, total_size_of, txid_of, witnesses_fit, Header, TransactionData,
};
use vstd::prelude::*;

verus! {

/// Adding transactions never takes one away, and every added one is there
/// afterwards.
pub proof fn added_txids_are_watched(watched: Seq<Txid>, added: Seq<Txid>)
    ensures
        forall|t: Txid| watched.contains(t) ==> #[trigger] with_txids(watched, added).contains(t),
        forall|t: Txid| added.contains(t) ==> #[trigger] with_txids(watched, added).contains(t),
        watched.len() <= with_txids(watched, added).len(),
        with_txids(watched, added).take(watched.len() as int) == watched,
    decreases added.len(),
{
    if added.len() > 0 {
        let before = with_txids(watched, added.drop_last());
        added_txids_are_watched(watched, added.drop_last());
        let after = with_txids(watched, added);
        assert forall|t: Txid| watched.contains(t) implies after.contains(t) by {
            assert(before.contains(t));
            let i = choose|i: int| 0 <= i < before.len() && before[i] == t;
            assert(after[i] == t);
        }
        assert forall|t: Txid| added.contains(t) implies after.contains(t) by {
            let i = choose|i: int| 0 <= i < added.len() && added[i] == t;
            if i < added.len() - 1 {
                assert(added.drop_last()[i] == t);
                assert(before.contains(t));
                let j = choose|j: int| 0 <= j < before.len() && before[j] == t;
                assert(after[j] == t);
            } else {
                if before.contains(t) {
                } else {
                    assert(after[before.len() as int] == t);
                }
            }
        }
        assert(after.take(watched.len() as int) =~= before.take(watched.len() as int));
    } else {
        assert(watched.take(watched.len() as int) =~= watched);
    }
}

/// Adding transactions that are all watched already changes nothing.
pub proof fn adding_watched_txids_changes_nothing(watched: Seq<Txid>, added: Seq<Txid>)
    requires
        forall|t: Txid| added.contains(t) ==> watched.contains(t),
    ensures
        with_txids(watched, added) == watched,
    decreases added.len(),
{
    if added.len() > 0 {
        assert forall|t: Txid| added.drop_last().contains(t) implies watched.contains(t) by {
            let i = choose|i: int| 0 <= i < added.drop_last().len() && added.drop_last()[i] == t;
            assert(added[i] == t);
        }
        adding_watched_txids_changes_nothing(watched, added.drop_last());
        assert(added[added.len() - 1] == added.last());
        assert(watched.contains(added.last()));
    }
}

/// Adding outputs never takes an outpoint away, every added outpoint is
/// there afterwards, and what was watched before stays in its place.
pub proof fn added_outputs_are_watched(outputs: Seq<WatchedOutput>, added: Seq<WatchedOutput>)
    ensures
        forall|i: int|
            0 <= i < added.len() ==> holds_outpoint(
                with_outputs(outputs, added),
                (#[trigger] added[i]).outpoint,
            ),
        outputs.len() <= with_outputs(outputs, added).len(),
        with_outputs(outputs, added).take(outputs.len() as int) == outputs,
    decreases added.len(),
{
    if added.len() > 0 {
        let before = with_outputs(outputs, added.drop_last());
        added_outputs_are_watched(outputs, added.drop_last());
        let after = with_outputs(outputs, added);
        assert forall|i: int| 0 <= i < added.len() implies holds_outpoint(
            after,
            (#[trigger] added[i]).outpoint,
        ) by {
            if i < added.len() - 1 {
                assert(added.drop_last()[i] == added[i]);
                assert(holds_outpoint(before, added.drop_last()[i].outpoint));
                let j = choose|j: int|
                    0 <= j < before.len() && (#[trigger] before[j]).outpoint == added[i].outpoint;
                assert(after[j].outpoint == added[i].outpoint);
            } else {
                if holds_outpoint(before, added.last().outpoint) {
                } else {
                    assert(after[before.len() as int].outpoint == added[i].outpoint);
                }
            }
        }
        assert(after.take(outputs.len() as int) =~= before.take(outputs.len() as int));
    } else {
        assert(outputs.take(outputs.len() as int) =~= outputs);
    }
}

/// Adding outputs whose outpoints are all watched already changes nothing.
pub proof fn adding_watched_outputs_changes_nothing(
    outputs: Seq<WatchedOutput>,
    added: Seq<WatchedOutput>,
)
    requires
        forall|i: int| 0 <= i < added.len() ==> holds_outpoint(outputs, (#[trigger] added[i]).outpoint),
    ensures
        with_outputs(outputs, added) == outputs,
    decreases added.len(),
{
    if added.len() > 0 {
        assert forall|i: int| 0 <= i < added.drop_last().len() implies holds_outpoint(
            outputs,
            (#[trigger] added.drop_last()[i]).outpoint,
        ) by {
            assert(added[i] == added.drop_last()[i]);
        }
        adding_watched_outputs_changes_nothing(outputs, added.drop_last());
        assert(added[added.len() - 1] == added.last());
    }
}

/// Registering a transaction a second time leaves a queue as it is.
pub proof fn registering_a_transaction_twice(queued: Seq<Txid>, txid: Txid)
    ensures
        with_txid(with_txid(queued, txid), txid) == with_txid(queued, txid),
{
    let once = with_txid(queued, txid);
    if !queued.contains(txid) {
        assert(once[queued.len() as int] == txid);
    }
}

/// Registering an outpoint a second time leaves a queue as it is, whatever
/// else the second registration says of the output.
pub proof fn registering_an_outpoint_twice(
    queued: Seq<WatchedOutput>,
    output: WatchedOutput,
    again: WatchedOutput,
)
    requires
        again.outpoint == output.outpoint,
    ensures
        with_output(with_output(queued, output), again) == with_output(queued, output),
{
    let once = with_output(queued, output);
    if !holds_outpoint(queued, output.outpoint) {
        assert(once[queued.len() as int].outpoint == again.outpoint);
    }
}

/// Taking the same registrations in a second time leaves what is watched as
/// it is: the same transactions, the same outputs, and the same knowledge of
/// their spending.
pub proof fn merging_twice_is_merging_once(
    state: SyncState,
    transactions: Seq<Txid>,
    outputs: Seq<WatchedOutput>,
    once: SyncState,
    twice: SyncState,
)
    requires
        state.merged(transactions, outputs, once),
        once.merged(transactions, outputs, twice),
    ensures
        twice.watched_transactions@ == once.watched_transactions@,
        twice.watched_outputs@ == once.watched_outputs@,
        twice.output_spends@ == once.output_spends@,
        twice.last_sync_hash == once.last_sync_hash,
        twice.pending_sync == once.pending_sync,
        twice.anti_reorg_delay == once.anti_reorg_delay,
{
    added_txids_are_watched(state.watched_transactions@, transactions);
    adding_watched_txids_changes_nothing(once.watched_transactions@, transactions);
    added_outputs_are_watched(state.watched_outputs@, outputs);
    adding_watched_outputs_changes_nothing(once.watched_outputs@, outputs);
    assert(twice.output_spends@ =~= once.output_spends@);
}

/// The steps by which a candidate is looked up amount to
/// [`confirmation_outcome`]: whatever the server answers, a confirmation is
/// added to those found exactly where the answers make one, an inconsistency
/// gives the round up, and a failure ends the pass. The transaction is asked
/// for only after a proof that holds, and the block's status only for a
/// transaction that holds and whose height is not known.
pub proof fn a_lookup_amounts_to_its_outcome(
    pre: SyncMachine,
    candidate: Candidate,
    merkle_block: Option<MerkleBlock>,
    tx: Option<TransactionData>,
    status: BlockStatus,
    after_proof: (SyncMachine, SyncAction),
    after_tx: (SyncMachine, SyncAction),
    after_status: (SyncMachine, SyncAction),
)
    requires
        pre.phase == (Phase::MerkleBlock { candidate }),
        pre.step(SyncEvent::MerkleBlock(merkle_block), after_proof.0, after_proof.1),
        after_proof.0.phase is Tx ==> after_proof.0.step(SyncEvent::Tx(tx), after_tx.0, after_tx.1),
        after_proof.0.phase is Tx && after_tx.0.phase is TxBlockStatus ==> after_tx.0.step(
            SyncEvent::BlockStatus(status),
            after_status.0,
            after_status.1,
        ),
    ensures
        ({
            let end = if !(after_proof.0.phase is Tx) {
                after_proof
            } else if !(after_tx.0.phase is TxBlockStatus) {
                after_tx
            } else {
                after_status
            };
            match confirmation_outcome(candidate, merkle_block, tx, status) {
                Ok(Some(confirmed)) => pre.candidate_done(
                    pre.confirmed_txs@.push(confirmed),
                    end.0,
                    end.1,
                ),
                Ok(None) => pre.candidate_done(pre.confirmed_txs@, end.0, end.1),
                Err(InternalError::Inconsistency) => pre.restarted(pre.tip_hash, end.0, end.1),
                Err(InternalError::Failed) => pre.failed(TxSyncError::Failed, end.0, end.1),
            }
        }),
        after_proof.0.phase is Tx ==> after_proof.1 == SyncAction::GetTx(candidate.txid),
        after_proof.0.phase is Tx && after_tx.0.phase is TxBlockStatus ==> merkle_block is Some
            && after_tx.1 == SyncAction::GetBlockStatus(block_hash_of(merkle_block->0.header)),
{
}

/// A confirmed spend of a watched output is found with what the server said
/// of it. When the server names the confirmed spender of the output in turn
/// with its block and height, the spender is not among the confirmations
/// found so far, the proof is for that block and matches the spender alone,
/// and the transaction sent has the spender's id and is not 64 bytes long,
/// then three steps add one confirmation: the spender, at the height that
/// came with the output's status, at the position and under the header of
/// the proof. The block's status is not asked for.
pub proof fn a_confirmed_spend_is_found(
    pre: SyncMachine,
    spender: Txid,
    block: BlockHash,
    height: u32,
    merkle_block: MerkleBlock,
    pos: u32,
    tx: TransactionData,
    after_status: (SyncMachine, SyncAction),
    after_proof: (SyncMachine, SyncAction),
    after_tx: (SyncMachine, SyncAction),
)
    requires
        pre.phase == Phase::OutputStatus,
        !is_found(pre.confirmed_txs@, spender),
        pre.step(
            SyncEvent::OutputStatus(
                Some(
                    OutputStatus {
                        txid: Some(spender),
                        status: Some(
                            TxStatus {
                                confirmed: true,
                                block_height: Some(height),
                                block_hash: Some(block),
                            },
                        ),
                    },
                ),
            ),
            after_status.0,
            after_status.1,
        ),
        block_hash_of(merkle_block.header) == block,
        merkle_matches(merkle_block.txn@) == Some((seq![spender], seq![pos])),
        after_status.0.step(SyncEvent::MerkleBlock(Some(merkle_block)), after_proof.0, after_proof.1),
        witnesses_fit(tx@),
        txid_of(tx@) == spender,
        total_size_of(tx@) != 64,
        after_proof.0.step(SyncEvent::Tx(Some(tx)), after_tx.0, after_tx.1),
    ensures
        after_status.1 == SyncAction::GetMerkleBlock(spender),
        after_proof.1 == SyncAction::GetTx(spender),
        pre.candidate_done(
            pre.confirmed_txs@.push(
                ConfirmedTx {
                    tx,
                    txid: spender,
                    block_header: merkle_block.header,
                    block_height: height,
                    pos: pos as usize,
                },
            ),
            after_tx.0,
            after_tx.1,
        ),
{
    let matches = seq![spender];
    let indexes = seq![pos];
    assert(matches.len() == 1 && indexes.len() == 1);
    assert(matches[0] == spender && indexes[0] == pos);
}

/// A proof that does not decode, or that matches no transaction or more
/// than one, ends the pass with an error, whatever block was expected: the
/// transaction is not passed over and the round is not begun anew.
pub proof fn malformed_proof_ends_the_pass(
    pre: SyncMachine,
    candidate: Candidate,
    block: MerkleBlock,
    post: SyncMachine,
    action: SyncAction,
)
    requires
        pre.phase == (Phase::MerkleBlock { candidate }),
        pre.step(SyncEvent::MerkleBlock(Some(block)), post, action),
        !single_match(merkle_matches(block.txn@)),
    ensures
        action == SyncAction::Finished(Err(TxSyncError::Failed)),
        post.phase == Phase::Idle,
        post.sync_state.pending_sync,
        post.sync_state.last_sync_hash == pre.sync_state.last_sync_hash,
        post.confirmed_txs == pre.confirmed_txs,
{
}

/// A transaction of exactly 64 bytes whose id is the one asked for is passed
/// over: no confirmation is added for it, the pass goes on, and no error is
/// reported. This is said of what can be a transaction at all: one whose
/// witnesses the `bitcoin` crate can hold.
pub proof fn transaction_of_64_bytes_is_passed_over(
    pre: SyncMachine,
    candidate: Candidate,
    header: Header,
    block_hash: BlockHash,
    pos: usize,
    tx: TransactionData,
    post: SyncMachine,
    action: SyncAction,
)
    requires
        pre.phase == (Phase::Tx { candidate, header, block_hash, pos }),
        pre.step(SyncEvent::Tx(Some(tx)), post, action),
        witnesses_fit(tx@),
        txid_of(tx@) == candidate.txid,
        total_size_of(tx@) == 64,
    ensures
        post.confirmed_txs@.to_multiset() == pre.confirmed_txs@.to_multiset(),
        !(action is Finished),
        !(action is TransactionsConfirmed),
        post.sync_state == pre.sync_state,
        post.phase != Phase::Idle,
{
}

/// When the tip has changed by the time the confirmations are collected,
/// none of them is handed on or taken note of: the round is given up, what
/// it found is dropped, and a new round begins that goes by the new tip.
pub proof fn moved_tip_restarts_confirmations(
    pre: SyncMachine,
    tip: BlockHash,
    post: SyncMachine,
    action: SyncAction,
)
    requires
        pre.phase == Phase::ConfirmedTip,
        pre.step(SyncEvent::TipHash(tip), post, action),
        tip != pre.tip_hash,
    ensures
        action == SyncAction::TakeRegistrations,
        post.phase == Phase::Registrations,
        post.tip_hash == tip,
        post.sync_state.pending_sync,
        post.confirmed_txs@ == Seq::<ConfirmedTx>::empty(),
        post.sync_state.watched_transactions == pre.sync_state.watched_transactions,
        post.sync_state.watched_outputs == pre.sync_state.watched_outputs,
        post.sync_state.output_spends == pre.sync_state.output_spends,
        post.sync_state.last_sync_hash == pre.sync_state.last_sync_hash,
{
}

/// When the tip has changed by the time the blocks of the sinks'
/// transactions were looked up, no transaction is reported as unconfirmed:
/// the round is given up and a new one begins that goes by the new tip.
pub proof fn moved_tip_restarts_unconfirmations(
    pre: SyncMachine,
    tip: BlockHash,
    post: SyncMachine,
    action: SyncAction,
)
    requires
        pre.phase == Phase::UnconfirmedTip,
        pre.step(SyncEvent::TipHash(tip), post, action),
        tip != pre.tip_hash,
    ensures
        action == SyncAction::TakeRegistrations,
        post.phase == Phase::Registrations,
        post.tip_hash == tip,
        post.sync_state.pending_sync,
        post.unconfirmed_txs@ == Seq::<Txid>::empty(),
        post.sync_state.watched_transactions == pre.sync_state.watched_transactions,
        post.sync_state.watched_outputs == pre.sync_state.watched_outputs,
        post.sync_state.output_spends == pre.sync_state.output_spends,
        post.sync_state.last_sync_hash == pre.sync_state.last_sync_hash,
{
}

/// When a transaction was found confirmed earlier in a round and the server
/// then names it as the unconfirmed spender of a watched output, the round
/// is given up: what it found is dropped and nothing is handed on.
pub proof fn contradicting_spend_restarts(
    pre: SyncMachine,
    spending_txid: Txid,
    tx_status: TxStatus,
    post: SyncMachine,
    action: SyncAction,
)
    requires
        pre.phase == Phase::OutputStatus,
        is_found(pre.confirmed_txs@, spending_txid),
        !tx_status.confirmed,
        pre.step(
            SyncEvent::OutputStatus(
                Some(OutputStatus { txid: Some(spending_txid), status: Some(tx_status) }),
            ),
            post,
            action,
        ),
    ensures
        action == SyncAction::TakeRegistrations,
        post.phase == Phase::Registrations,
        post.tip_hash == pre.tip_hash,
        post.sync_state.pending_sync,
        post.confirmed_txs@ == Seq::<ConfirmedTx>::empty(),
        post.sync_state.last_sync_hash == pre.sync_state.last_sync_hash,
{
}

/// Whatever is handed on as confirmed is in block order: by height, and
/// within a block by position.
pub proof fn confirmations_are_handed_on_in_block_order(
    pre: SyncMachine,
    event: SyncEvent,
    post: SyncMachine,
    action: SyncAction,
)
    requires
        pre.wf(),
        pre.step(event, post, action),
    ensures
        action matches SyncAction::TransactionsConfirmed(txs) ==> in_block_order(txs@),
{
}

/// No transaction is handed on twice in one batch of confirmations: one that
/// is found both as a watched transaction and as the spender of a watched
/// output is in the batch once.
pub proof fn no_transaction_is_handed_on_twice(
    pre: SyncMachine,
    event: SyncEvent,
    post: SyncMachine,
    action: SyncAction,
)
    requires
        pre.wf(),
        pre.step(event, post, action),
    ensures
        action matches SyncAction::TransactionsConfirmed(txs) ==> distinct_txids(txs@),
{
}

/// True if `event` is the unchanged tip arriving while the machine waits for
/// it with the confirmations collected.
pub open spec fn commits(pre: SyncMachine, event: SyncEvent) -> bool {
    pre.phase == Phase::ConfirmedTip && event == SyncEvent::TipHash(pre.tip_hash)
}

/// A pass that is due stays due until a round runs to its end: only the tip
/// that arrives unchanged after the confirmations were collected clears the
/// mark, and only then does the last synchronised tip change, to that tip.
pub proof fn only_a_finished_round_commits(
    pre: SyncMachine,
    event: SyncEvent,
    post: SyncMachine,
    action: SyncAction,
)
    requires
        pre.step(event, post, action),
    ensures
        commits(pre, event) ==> !post.sync_state.pending_sync && post.sync_state.last_sync_hash
            == Some(pre.tip_hash),
        !commits(pre, event) ==> (pre.sync_state.pending_sync ==> post.sync_state.pending_sync)
            && post.sync_state.last_sync_hash == pre.sync_state.last_sync_hash,
{
}

/// A pass that ends with an error leaves the next pass due, and a pass that
/// ends well leaves none due.
pub proof fn how_a_pass_ends(
    pre: SyncMachine,
    event: SyncEvent,
    post: SyncMachine,
    action: SyncAction,
)
    requires
        pre.step(event, post, action),
    ensures
        action matches SyncAction::Finished(Err(_)) ==> post.sync_state.pending_sync,
        action matches SyncAction::Finished(Ok(_)) ==> !post.sync_state.pending_sync
            && post.sync_state.last_sync_hash == Some(pre.tip_hash),
        action is Finished ==> post.phase == Phase::Idle,
{
}

/// An inconsistency never reaches the caller: whatever happens, a pass ends
/// with one of the two errors that a caller can be told, and the one that
/// cannot be retried comes only from a sink's transaction without a block.
pub proof fn untracked_confirmation_comes_from_a_sink(
    pre: SyncMachine,
    event: SyncEvent,
    post: SyncMachine,
    action: SyncAction,
)
    requires
        pre.wf(),
        pre.step(event, post, action),
        action == SyncAction::Finished(Err(TxSyncError::UntrackedConfirmation)),
    ensures
        pre.phase == Phase::RelevantTxids || pre.phase == Phase::RelevantBlockStatus,
        post.next_relevant < post.relevant_txids@.len(),
        post.relevant_txids@[post.next_relevant as int].2 is None,
{
    assert(pre.relevant_txids.len() <= usize::MAX);
    assert(post.relevant_txids.len() <= usize::MAX);
}

/// Whatever the registration queue held at the start of a round is watched
/// from then on: every transaction, and every output by its outpoint.
pub proof fn registrations_are_watched(
    pre: SyncMachine,
    queue: FilterQueue,
    post: SyncMachine,
    action: SyncAction,
)
    requires
        pre.phase == Phase::Registrations,
        pre.step(SyncEvent::Registrations(queue), post, action),
    ensures
        forall|t: Txid|
            queue.transactions@.contains(t) ==> #[trigger] post.sync_state.watched_transactions@.contains(t),
        forall|i: int|
            0 <= i < queue.outputs@.len() ==> holds_outpoint(
                post.sync_state.watched_outputs@,
                (#[trigger] queue.outputs@[i]).outpoint,
            ),
        post.sync_state.watched_transactions@.take(
            pre.sync_state.watched_transactions@.len() as int,
        ) == pre.sync_state.watched_transactions@,
        post.sync_state.watched_outputs@.take(pre.sync_state.watched_outputs@.len() as int)
            == pre.sync_state.watched_outputs@,
{
    added_txids_are_watched(pre.sync_state.watched_transactions@, queue.transactions@);
    added_outputs_are_watched(pre.sync_state.watched_outputs@, queue.outputs@);
}

/// The search for the next output stops at one of which no spend is known,
/// and passes over none of them.
pub proof fn next_unspent_is_unspent(spends: Seq<SpendStatus>, from: int)
    requires
        0 <= from,
    ensures
        from <= next_unspent(spends, from) || spends.len() < from,
        next_unspent(spends, from) <= spends.len(),
        next_unspent(spends, from) < spends.len() ==> spends[next_unspent(spends, from)] is Unspent,
        forall|i: int| from <= i < next_unspent(spends, from) ==> !(#[trigger] spends[i] is Unspent),
    decreases spends.len() - from,
{
    if from < spends.len() && !(spends[from] is Unspent) {
        next_unspent_is_unspent(spends, from + 1);
    }
}

/// An output is looked up only while no spend of it is known: one that is
/// marked as spent, or whose spend is settled, is asked for no more.
pub proof fn only_unspent_outputs_are_looked_up(
    pre: SyncMachine,
    event: SyncEvent,
    post: SyncMachine,
    action: SyncAction,
)
    requires
        pre.wf(),
        pre.step(event, post, action),
        action is GetOutputStatus,
    ensures
        post.next_output < post.sync_state.watched_outputs@.len(),
        post.next_output < post.sync_state.output_spends@.len(),
        action == SyncAction::GetOutputStatus(
            post.sync_state.watched_outputs@[post.next_output as int].outpoint,
        ),
        post.sync_state.output_spends@[post.next_output as int] is Unspent,
{
    assert(pre.sync_state.watched_outputs.len() <= usize::MAX);
    assert(post.sync_state.output_spends.len() <= usize::MAX);
    next_unspent_is_unspent(post.sync_state.output_spends@, 0);
    next_unspent_is_unspent(post.sync_state.output_spends@, pre.next_output as int);
    next_unspent_is_unspent(post.sync_state.output_spends@, pre.next_output + 1);
    if pre.phase == Phase::Registrations {
        let queue = event->Registrations_0;
        added_outputs_are_watched(pre.sync_state.watched_outputs@, queue.outputs@);
    }
}

/// A settled spend stays settled, whatever is confirmed or unconfirmed
/// later and however high the chain grows.
pub proof fn a_settled_spend_stays_settled(
    outpoint: OutPoint,
    confirmed: Seq<ConfirmedTx>,
    unconfirmed: Seq<Txid>,
    cur_height: u32,
    delay: u32,
)
    ensures
        spend_after_confirmations(SpendStatus::Settled, outpoint, confirmed) == SpendStatus::Settled,
        spend_after_unconfirmation(SpendStatus::Settled, unconfirmed) == SpendStatus::Settled,
        spend_after_pruning(SpendStatus::Settled, cur_height, delay) == SpendStatus::Settled,
    decreases confirmed.len(),
{
    if confirmed.len() > 0 {
        a_settled_spend_stays_settled(outpoint, confirmed.drop_last(), unconfirmed, cur_height, delay);
    }
}

/// A spend is settled by the block that gives it as many confirmations as
/// the delay asks for, and not before.
pub proof fn a_spend_is_settled_at_the_delay(txid: Txid, height: u32, cur_height: u32, delay: u32)
    ensures
        spend_after_pruning(SpendStatus::Spent { txid, height }, cur_height, delay)
            == SpendStatus::Settled <==> cur_height - height + 1 >= delay,
{
}

/// The transactions of `entries` whose blocks are outside the best chain, in
/// the order of the entries, when `in_best_chain` tells of each block
/// whether it is in the best chain.
pub open spec fn unconfirmed_among(
    entries: Seq<RelevantTxid>,
    in_best_chain: spec_fn(BlockHash) -> bool,
) -> Seq<Txid>
    decreases entries.len(),
{
    if entries.len() == 0 {
        Seq::empty()
    } else {
        let before = unconfirmed_among(entries.drop_last(), in_best_chain);
        match entries.last().2 {
            Some(block) => if in_best_chain(block) {
                before
            } else {
                before.push(entries.last().0)
            },
            None => before,
        }
    }
}

/// True if, while the blocks of the sinks' transactions are looked up, the
/// machine holds as unconfirmed exactly those among the entries dealt with
/// whose blocks `in_best_chain` puts outside the best chain.
pub open spec fn tracks_unconfirmed(
    machine: SyncMachine,
    in_best_chain: spec_fn(BlockHash) -> bool,
) -> bool {
    machine.phase == Phase::RelevantBlockStatus || machine.phase == Phase::UnconfirmedTip ==> {
        &&& machine.next_relevant <= machine.relevant_txids@.len()
        &&& machine.phase == Phase::UnconfirmedTip ==> machine.next_relevant
            == machine.relevant_txids@.len()
        &&& machine.unconfirmed_txs@ == unconfirmed_among(
            machine.relevant_txids@.take(machine.next_relevant as int),
            in_best_chain,
        )
    }
}

/// Every entry that a sink reports is among those whose blocks are looked
/// up.
pub proof fn every_relevant_entry_is_listed(entries: Seq<RelevantTxid>, entry: RelevantTxid)
    requires
        entries.contains(entry),
    ensures
        distinct_relevant(entries).contains(entry),
    decreases entries.len(),
{
    let listed = distinct_relevant(entries);
    let before = distinct_relevant(entries.drop_last());
    if entries.last() == entry {
        if !before.contains(entry) {
            assert(listed[before.len() as int] == entry);
        }
    } else {
        let i = choose|i: int| 0 <= i < entries.len() && entries[i] == entry;
        assert(entries.drop_last()[i] == entry);
        every_relevant_entry_is_listed(entries.drop_last(), entry);
        let j = choose|j: int| 0 <= j < before.len() && before[j] == entry;
        assert(listed[j] == entry);
    }
}

/// A transaction whose block is outside the best chain is among the
/// unconfirmed ones.
pub proof fn a_transaction_outside_the_best_chain_is_unconfirmed(
    entries: Seq<RelevantTxid>,
    in_best_chain: spec_fn(BlockHash) -> bool,
    txid: Txid,
    height: u32,
    block: BlockHash,
)
    requires
        entries.contains((txid, height, Some(block))),
        !in_best_chain(block),
    ensures
        unconfirmed_among(entries, in_best_chain).contains(txid),
    decreases entries.len(),
{
    let entry = (txid, height, Some(block));
    let all = unconfirmed_among(entries, in_best_chain);
    let before = unconfirmed_among(entries.drop_last(), in_best_chain);
    if entries.last() == entry {
        assert(all[before.len() as int] == txid);
    } else {
        let i = choose|i: int| 0 <= i < entries.len() && entries[i] == entry;
        assert(entries.drop_last()[i] == entry);
        a_transaction_outside_the_best_chain_is_unconfirmed(
            entries.drop_last(),
            in_best_chain,
            txid,
            height,
            block,
        );
        let j = choose|j: int| 0 <= j < before.len() && before[j] == txid;
        assert(all[j] == txid);
    }
}

/// While a server whose answers about blocks are those of `in_best_chain`
/// is asked about the sinks' transactions, every step keeps the machine
/// holding exactly the unconfirmed among the entries dealt with.
pub proof fn unconfirmed_transactions_are_tracked(
    pre: SyncMachine,
    in_best_chain: spec_fn(BlockHash) -> bool,
    event: SyncEvent,
    post: SyncMachine,
    action: SyncAction,
)
    requires
        pre.wf(),
        tracks_unconfirmed(pre, in_best_chain),
        pre.step(event, post, action),
        pre.phase == Phase::RelevantBlockStatus ==> (event matches SyncEvent::BlockStatus(status)
            && status.in_best_chain == in_best_chain(
            pre.relevant_txids@[pre.next_relevant as int].2->0,
        )),
    ensures
        tracks_unconfirmed(post, in_best_chain),
{
    assert(pre.relevant_txids.len() <= usize::MAX);
    assert(post.relevant_txids.len() <= usize::MAX);
    if pre.phase == Phase::RelevantBlockStatus {
        let entries = pre.relevant_txids@;
        let next = pre.next_relevant as int;
        assert(entries.take(next + 1).drop_last() == entries.take(next));
        assert(entries.take(next + 1).last() == entries[next]);
    } else if pre.phase == Phase::RelevantTxids {
        assert(post.relevant_txids@.take(0) == Seq::<RelevantTxid>::empty());
    }
}

/// When the blocks of all the sinks' transactions were looked up at a server
/// whose answers are those of `in_best_chain`, and the tip has not moved,
/// the sinks are told of exactly the transactions whose blocks are outside
/// the best chain, each entry in its turn.
pub proof fn the_unconfirmed_are_told(
    pre: SyncMachine,
    in_best_chain: spec_fn(BlockHash) -> bool,
    post: SyncMachine,
    action: SyncAction,
)
    requires
        pre.phase == Phase::UnconfirmedTip,
        tracks_unconfirmed(pre, in_best_chain),
        pre.step(SyncEvent::TipHash(pre.tip_hash), post, action),
    ensures
        action matches SyncAction::TransactionsUnconfirmed(txids) && txids@ == unconfirmed_among(
            pre.relevant_txids@,
            in_best_chain,
        ),
        post.sync_state.watched_transactions@ == with_txids(
            pre.sync_state.watched_transactions@,
            unconfirmed_among(pre.relevant_txids@, in_best_chain),
        ),
{
    assert(pre.relevant_txids@.take(pre.relevant_txids@.len() as int) == pre.relevant_txids@);
}

/// One step of a pass: what happened, what the machine became, and what it
/// asked for.
pub struct Step {
    pub event: SyncEvent,
    pub post: SyncMachine,
    pub action: SyncAction,
}

/// The machine as it is before step `k` of `steps`, which begin at `start`.
pub open spec fn before_step(start: SyncMachine, steps: Seq<Step>, k: int) -> SyncMachine {
    if k == 0 {
        start
    } else {
        steps[k - 1].post
    }
}

/// True if `steps` are steps that the machine makes one after another from
/// `start`, as [`crate::esplora::EsploraSyncClient::sync`] makes them.
pub open spec fn is_run(start: SyncMachine, steps: Seq<Step>) -> bool {
    forall|k: int|
        0 <= k < steps.len() ==> {
            &&& (#[trigger] before_step(start, steps, k)).step(
                steps[k].event,
                steps[k].post,
                steps[k].action,
            )
            &&& steps[k].post.wf()
        }
}

/// A chain that stands still while a pass is made, as the sinks and the
/// server see it: the tip, the transactions that the sinks hold to be
/// confirmed, and the blocks of the best chain.
pub struct StableChain {
    pub tip: BlockHash,
    pub relevant: Seq<RelevantTxid>,
    pub in_best_chain: spec_fn(BlockHash) -> bool,
}

/// True if `event` is an answer to `action` that `chain` allows: the tip,
/// the sinks' transactions and the place of a block are those of `chain`,
/// every query succeeds, and every notification is acknowledged.
pub open spec fn answers(chain: StableChain, action: SyncAction, event: SyncEvent) -> bool {
    match action {
        SyncAction::GetTipHash => event == SyncEvent::TipHash(chain.tip),
        SyncAction::TakeRegistrations => event is Registrations,
        SyncAction::GetRelevantTxids => event matches SyncEvent::RelevantTxids(entries)
            && entries@ == chain.relevant,
        SyncAction::GetBlockStatus(block) => event matches SyncEvent::BlockStatus(status)
            && status.in_best_chain == (chain.in_best_chain)(block),
        SyncAction::GetHeaderByHash(_) => event is Header,
        SyncAction::GetOutputStatus(_) => event is OutputStatus,
        SyncAction::GetMerkleBlock(_) => event is MerkleBlock,
        SyncAction::GetTx(_) => event is Tx,
        SyncAction::TransactionsUnconfirmed(_) => event == SyncEvent::Notified,
        SyncAction::BestBlockUpdated(_, _) => event == SyncEvent::Notified,
        SyncAction::TransactionsConfirmed(_) => event == SyncEvent::Notified,
        SyncAction::Finished(_) => false,
    }
}

/// True if `steps` are one pass against `chain`: they begin with the request
/// for a synchronisation, and each further event answers the action before
/// it.
pub open spec fn driven_by(chain: StableChain, steps: Seq<Step>) -> bool {
    &&& steps.len() > 0 ==> steps[0].event == SyncEvent::Start
    &&& forall|k: int|
        1 <= k < steps.len() ==> answers(chain, steps[k - 1].action, (#[trigger] steps[k]).event)
}

/// True if one of the first `k` steps tells the sinks that `txid` is
/// unconfirmed.
pub open spec fn told_unconfirmed(steps: Seq<Step>, txid: Txid, k: int) -> bool {
    exists|j: int|
        0 <= j < k && j < steps.len() && ((#[trigger] steps[j]).action
            matches SyncAction::TransactionsUnconfirmed(txids) && txids@.contains(txid))
}

/// True if `machine`, whose last action was `last`, is on its way through
/// the first round of a pass against `chain` and has not told the sinks of
/// unconfirmed transactions yet.
pub open spec fn before_unconfirmations(
    machine: SyncMachine,
    last: SyncAction,
    start: SyncMachine,
    chain: StableChain,
) -> bool {
    &&& machine.sync_state.last_sync_hash == start.sync_state.last_sync_hash
    &&& match machine.phase {
        Phase::InitialTip => last == SyncAction::GetTipHash,
        Phase::Registrations => machine.tip_hash == chain.tip && last
            == SyncAction::TakeRegistrations,
        Phase::RelevantTxids => machine.tip_hash == chain.tip && last
            == SyncAction::GetRelevantTxids,
        Phase::RelevantBlockStatus => {
            &&& machine.tip_hash == chain.tip
            &&& machine.relevant_txids@ == distinct_relevant(chain.relevant)
            &&& tracks_unconfirmed(machine, chain.in_best_chain)
            &&& last == SyncAction::GetBlockStatus(
                machine.relevant_txids@[machine.next_relevant as int].2->0,
            )
        },
        Phase::UnconfirmedTip => {
            &&& machine.tip_hash == chain.tip
            &&& machine.relevant_txids@ == distinct_relevant(chain.relevant)
            &&& tracks_unconfirmed(machine, chain.in_best_chain)
            &&& last == SyncAction::GetTipHash
        },
        _ => false,
    }
}

/// Every entry whose block is looked up is one that a sink reported.
pub proof fn every_listed_entry_is_relevant(entries: Seq<RelevantTxid>, i: int)
    requires
        0 <= i < distinct_relevant(entries).len(),
    ensures
        entries.contains(distinct_relevant(entries)[i]),
    decreases entries.len(),
{
    let before = distinct_relevant(entries.drop_last());
    if i < before.len() {
        every_listed_entry_is_relevant(entries.drop_last(), i);
        let j = choose|j: int|
            0 <= j < entries.drop_last().len() && entries.drop_last()[j] == before[i];
        assert(entries[j] == before[i]);
    } else {
        assert(entries[entries.len() - 1] == entries.last());
    }
}

/// Until the sinks are told of `txid`, a pass against a chain that stands
/// still, with a tip that is new and a block for every relevant entry, is on
/// its way through the blocks of the sinks' transactions.
pub proof fn a_pass_comes_to_the_unconfirmed(
    start: SyncMachine,
    steps: Seq<Step>,
    chain: StableChain,
    txid: Txid,
    height: u32,
    block: BlockHash,
    k: int,
)
    requires
        start.wf(),
        start.phase == Phase::Idle,
        is_run(start, steps),
        driven_by(chain, steps),
        Some(chain.tip) != start.sync_state.last_sync_hash,
        chain.relevant.contains((txid, height, Some(block))),
        !(chain.in_best_chain)(block),
        forall|i: int| 0 <= i < chain.relevant.len() ==> (#[trigger] chain.relevant[i]).2 is Some,
        1 <= k <= steps.len(),
    ensures
        told_unconfirmed(steps, txid, k) || before_unconfirmations(
            steps[k - 1].post,
            steps[k - 1].action,
            start,
            chain,
        ),
    decreases k,
{
    let step = steps[k - 1];
    let pre = before_step(start, steps, k - 1);
    assert(pre.step(step.event, step.post, step.action));
    assert(step.post.wf());
    if k == 1 {
        assert(step.event == SyncEvent::Start);
    } else {
        a_pass_comes_to_the_unconfirmed(start, steps, chain, txid, height, block, k - 1);
        if told_unconfirmed(steps, txid, k - 1) {
            let j = choose|j: int|
                0 <= j < k - 1 && j < steps.len() && ((#[trigger] steps[j]).action
                    matches SyncAction::TransactionsUnconfirmed(txids) && txids@.contains(txid));
            assert(told_unconfirmed(steps, txid, k));
        } else {
            let last = steps[k - 2].action;
            assert(pre == steps[k - 2].post);
            assert(before_step(start, steps, k - 2).step(
                steps[k - 2].event,
                steps[k - 2].post,
                steps[k - 2].action,
            ));
            assert(pre.wf());
            assert(before_unconfirmations(pre, last, start, chain));
            assert(answers(chain, last, steps[k - 1].event));
            let listed = distinct_relevant(chain.relevant);
            assert forall|i: int| 0 <= i < listed.len() implies (#[trigger] listed[i]).2 is Some by {
                every_listed_entry_is_relevant(chain.relevant, i);
                let j = choose|j: int|
                    0 <= j < chain.relevant.len() && chain.relevant[j] == listed[i];
                assert(chain.relevant[j].2 is Some);
            }
            assert(pre.relevant_txids.len() <= usize::MAX);
            assert(step.post.relevant_txids.len() <= usize::MAX);
            if pre.phase == Phase::RelevantTxids {
                assert(step.post.relevant_txids@.take(0) == Seq::<RelevantTxid>::empty());
            } else if pre.phase == Phase::RelevantBlockStatus {
                unconfirmed_transactions_are_tracked(
                    pre,
                    chain.in_best_chain,
                    step.event,
                    step.post,
                    step.action,
                );
            } else if pre.phase == Phase::UnconfirmedTip {
                the_unconfirmed_are_told(pre, chain.in_best_chain, step.post, step.action);
                every_relevant_entry_is_listed(chain.relevant, (txid, height, Some(block)));
                a_transaction_outside_the_best_chain_is_unconfirmed(
                    listed,
                    chain.in_best_chain,
                    txid,
                    height,
                    block,
                );
                assert(steps[k - 1].action matches SyncAction::TransactionsUnconfirmed(txids)
                    && txids@.contains(txid));
                assert(told_unconfirmed(steps, txid, k));
            }
        }
    }
}

/// A transaction that a sink holds to be confirmed in a block that has left
/// the best chain is told to the sinks as unconfirmed in every pass that
/// runs to its end, whatever else is watched, when the tip is new and does
/// not move, every relevant entry names its block, and every query
/// succeeds.
pub proof fn a_transaction_that_left_the_chain_is_told(
    start: SyncMachine,
    steps: Seq<Step>,
    chain: StableChain,
    txid: Txid,
    height: u32,
    block: BlockHash,
)
    requires
        start.wf(),
        start.phase == Phase::Idle,
        is_run(start, steps),
        driven_by(chain, steps),
        Some(chain.tip) != start.sync_state.last_sync_hash,
        chain.relevant.contains((txid, height, Some(block))),
        !(chain.in_best_chain)(block),
        forall|i: int| 0 <= i < chain.relevant.len() ==> (#[trigger] chain.relevant[i]).2 is Some,
        steps.len() > 0,
        steps.last().action is Finished,
    ensures
        told_unconfirmed(steps, txid, steps.len() as int),
{
    a_pass_comes_to_the_unconfirmed(start, steps, chain, txid, height, block, steps.len() as int);
}

} // verus!
