//! What a whole round of lookups collects from a server that stands still.
//!
//! [`collected`] says, as one function of what is watched and of the
//! server's answers, which confirmations a round finds. The laws show that
//! the machine, step by step, collects exactly those.

use crate::common::{next_unspent, ConfirmedTx, SpendStatus, SyncState};
use crate::confirmation::{
    confirmation_outcome, in_block_order, is_found, next_unfound, proof_outcome,
    spending_candidate, transaction_verdict, BlockStatus, Candidate, OutputStatus, TxStatus,
};
use crate::error::{InternalError, TxSyncError};
use crate::esplora::{Phase, SyncAction, SyncEvent, SyncMachine};
use crate::hashes::{BlockHash, OutPoint, Txid};
use crate::laws::{before_step, is_run, next_unspent_is_unspent, Step};
use crate::merkle::{merkle_matches, MerkleBlock};
use crate::transaction::{
    block_hash_of, total_size_of, txid_of, witnesses_fit, Header, TransactionData,
};
use vstd::prelude::*;

verus! {

/// A server whose answers do not change while a round is made.
pub struct StableServer {
    pub merkle_block: spec_fn(Txid) -> Option<MerkleBlock>,
    pub tx: spec_fn(Txid) -> Option<TransactionData>,
    pub block_status: spec_fn(BlockHash) -> BlockStatus,
    pub output_status: spec_fn(OutPoint) -> Option<OutputStatus>,
}

/// The candidate for a watched transaction: nothing is known of its block.
pub open spec fn direct(txid: Txid) -> Candidate {
    Candidate { txid, expected_block_hash: None, known_block_height: None }
}

/// What looking `candidate` up at `server` amounts to.
pub open spec fn lookup(server: StableServer, candidate: Candidate) -> Result<
    Option<ConfirmedTx>,
    InternalError,
> {
    let merkle_block = (server.merkle_block)(candidate.txid);
    confirmation_outcome(
        candidate,
        merkle_block,
        (server.tx)(candidate.txid),
        (server.block_status)(block_hash_of(merkle_block->0.header)),
    )
}

/// The confirmations `found` with what the lookup of `candidate` adds.
pub open spec fn with_lookup(
    server: StableServer,
    found: Seq<ConfirmedTx>,
    candidate: Candidate,
) -> Result<Seq<ConfirmedTx>, InternalError> {
    match lookup(server, candidate) {
        Ok(Some(confirmed)) => Ok(found.push(confirmed)),
        Ok(None) => Ok(found),
        Err(e) => Err(e),
    }
}

/// The confirmations found once the watched transaction `txid` is dealt
/// with: one that is among `found` already is not looked up.
pub open spec fn after_transaction(
    server: StableServer,
    found: Seq<ConfirmedTx>,
    txid: Txid,
) -> Result<Seq<ConfirmedTx>, InternalError> {
    if is_found(found, txid) {
        Ok(found)
    } else {
        with_lookup(server, found, direct(txid))
    }
}

/// The confirmations found once the watched output `outpoint` with the
/// status `spend` is dealt with: only an output of which no spend is known
/// is asked for, and its spender is looked up unless it was found already.
pub open spec fn after_output(
    server: StableServer,
    found: Seq<ConfirmedTx>,
    spend: SpendStatus,
    outpoint: OutPoint,
) -> Result<Seq<ConfirmedTx>, InternalError> {
    if !(spend is Unspent) {
        Ok(found)
    } else {
        match spending_candidate(found, (server.output_status)(outpoint)) {
            Err(e) => Err(e),
            Ok(None) => Ok(found),
            Ok(Some(candidate)) => with_lookup(server, found, candidate),
        }
    }
}

/// The confirmations found once the first `upto` watched transactions of
/// `state` are dealt with, or the error that ends the round before.
pub open spec fn after_transactions(server: StableServer, state: SyncState, upto: int) -> Result<
    Seq<ConfirmedTx>,
    InternalError,
>
    decreases upto,
{
    if upto <= 0 {
        Ok(Seq::empty())
    } else {
        match after_transactions(server, state, upto - 1) {
            Ok(found) => after_transaction(server, found, state.watched_transactions@[upto - 1]),
            Err(e) => Err(e),
        }
    }
}

/// The confirmations found once all watched transactions and the first
/// `upto` watched outputs of `state` are dealt with, or the error that ends
/// the round before.
pub open spec fn after_outputs(server: StableServer, state: SyncState, upto: int) -> Result<
    Seq<ConfirmedTx>,
    InternalError,
>
    decreases upto,
{
    if upto <= 0 {
        after_transactions(server, state, state.watched_transactions@.len() as int)
    } else {
        match after_outputs(server, state, upto - 1) {
            Ok(found) => after_output(
                server,
                found,
                state.output_spends@[upto - 1],
                state.watched_outputs@[upto - 1].outpoint,
            ),
            Err(e) => Err(e),
        }
    }
}

/// The confirmations that a round finds for what `state` watches, in the
/// order in which they are found: `Err(Inconsistency)` where the round is
/// given up, `Err(Failed)` where the pass ends.
pub open spec fn collected(server: StableServer, state: SyncState) -> Result<
    Seq<ConfirmedTx>,
    InternalError,
> {
    after_outputs(server, state, state.watched_outputs@.len() as int)
}

/// True if the confirmations that `machine` holds are those found once the
/// entries before the one in turn are dealt with.
pub open spec fn collected_so_far(machine: SyncMachine, server: StableServer) -> bool {
    if machine.next_transaction < machine.sync_state.watched_transactions@.len() {
        &&& machine.next_output == 0
        &&& after_transactions(server, machine.sync_state, machine.next_transaction as int) == Ok::<
            Seq<ConfirmedTx>,
            InternalError,
        >(machine.confirmed_txs@)
    } else {
        after_outputs(server, machine.sync_state, machine.next_output as int) == Ok::<
            Seq<ConfirmedTx>,
            InternalError,
        >(machine.confirmed_txs@)
    }
}

/// True if `candidate` is what the entry in turn asks to look up.
pub open spec fn candidate_in_turn(
    machine: SyncMachine,
    server: StableServer,
    candidate: Candidate,
) -> bool {
    let watched = machine.sync_state.watched_transactions@;
    let outputs = machine.sync_state.watched_outputs@;
    let spends = machine.sync_state.output_spends@;
    if machine.next_transaction < watched.len() {
        &&& candidate == direct(watched[machine.next_transaction as int])
        &&& !is_found(machine.confirmed_txs@, candidate.txid)
    } else {
        &&& machine.next_output < outputs.len()
        &&& spends[machine.next_output as int] is Unspent
        &&& spending_candidate(
            machine.confirmed_txs@,
            (server.output_status)(outputs[machine.next_output as int].outpoint),
        ) == Ok::<Option<Candidate>, InternalError>(Some(candidate))
    }
}

/// True if the server's proof for `candidate` is for the block with the
/// header `header` and puts the candidate at position `pos`.
pub open spec fn proved(
    server: StableServer,
    candidate: Candidate,
    header: Header,
    pos: usize,
) -> bool {
    &&& (server.merkle_block)(candidate.txid) matches Some(block)
    &&& block.header == header
    &&& proof_outcome(
        candidate.txid,
        candidate.expected_block_hash,
        block_hash_of(header),
        merkle_matches(block.txn@),
    ) == Ok::<usize, InternalError>(pos)
}

/// True if, while a round collects confirmations, `machine` holds exactly
/// what [`collected`] says of the entries dealt with, and what it has learnt
/// of the candidate in turn is what `server` says.
pub open spec fn tracks_confirmations(machine: SyncMachine, server: StableServer) -> bool {
    match machine.phase {
        Phase::OutputStatus => {
            &&& collected_so_far(machine, server)
            &&& machine.sync_state.output_spends@[machine.next_output as int] is Unspent
        },
        Phase::MerkleBlock { candidate } => {
            &&& collected_so_far(machine, server)
            &&& candidate_in_turn(machine, server, candidate)
        },
        Phase::Tx { candidate, header, block_hash, pos } => {
            &&& collected_so_far(machine, server)
            &&& candidate_in_turn(machine, server, candidate)
            &&& proved(server, candidate, header, pos)
            &&& block_hash == block_hash_of(header)
        },
        Phase::TxBlockStatus { candidate, header, pos, tx } => {
            &&& collected_so_far(machine, server)
            &&& candidate_in_turn(machine, server, candidate)
            &&& proved(server, candidate, header, pos)
            &&& (server.tx)(candidate.txid) == Some(tx)
            &&& transaction_verdict(candidate.txid, tx@) == Ok::<bool, InternalError>(true)
            &&& candidate.known_block_height is None
        },
        Phase::ConfirmedTip => {
            &&& collected(server, machine.sync_state) matches Ok(found)
            &&& machine.confirmed_txs@.to_multiset() == found.to_multiset()
        },
        _ => true,
    }
}

/// True if `event` is the answer of `server` to what `machine` waits for.
pub open spec fn server_answers(
    machine: SyncMachine,
    server: StableServer,
    event: SyncEvent,
) -> bool {
    match machine.phase {
        Phase::OutputStatus => event == SyncEvent::OutputStatus(
            (server.output_status)(
                machine.sync_state.watched_outputs@[machine.next_output as int].outpoint,
            ),
        ),
        Phase::MerkleBlock { candidate } => event == SyncEvent::MerkleBlock(
            (server.merkle_block)(candidate.txid),
        ),
        Phase::Tx { candidate, .. } => event == SyncEvent::Tx((server.tx)(candidate.txid)),
        Phase::TxBlockStatus { header, .. } => event == SyncEvent::BlockStatus(
            (server.block_status)(block_hash_of(header)),
        ),
        _ => true,
    }
}

/// The search for the next watched transaction passes over those that were
/// found, and over no other.
pub proof fn next_unfound_is_unfound(watched: Seq<Txid>, found: Seq<ConfirmedTx>, from: int)
    requires
        0 <= from <= watched.len(),
    ensures
        from <= next_unfound(watched, found, from) <= watched.len(),
        next_unfound(watched, found, from) < watched.len() ==> !is_found(
            found,
            watched[next_unfound(watched, found, from)],
        ),
        forall|i: int|
            from <= i < next_unfound(watched, found, from) ==> is_found(found, #[trigger] watched[i]),
    decreases watched.len() - from,
{
    if from < watched.len() && is_found(found, watched[from]) {
        next_unfound_is_unfound(watched, found, from + 1);
    }
}

/// Watched transactions that were found already add nothing.
pub proof fn found_transactions_add_nothing(
    server: StableServer,
    state: SyncState,
    found: Seq<ConfirmedTx>,
    from: int,
    to: int,
)
    requires
        0 <= from <= to <= state.watched_transactions@.len(),
        after_transactions(server, state, from) == Ok::<Seq<ConfirmedTx>, InternalError>(found),
        forall|i: int| from <= i < to ==> is_found(found, #[trigger] state.watched_transactions@[i]),
    ensures
        after_transactions(server, state, to) == Ok::<Seq<ConfirmedTx>, InternalError>(found),
    decreases to - from,
{
    if from < to {
        found_transactions_add_nothing(server, state, found, from, to - 1);
        assert(is_found(found, state.watched_transactions@[to - 1]));
    }
}

/// Watched outputs of which a spend is known add nothing.
pub proof fn spent_outputs_add_nothing(
    server: StableServer,
    state: SyncState,
    found: Seq<ConfirmedTx>,
    from: int,
    to: int,
)
    requires
        0 <= from <= to <= state.output_spends@.len(),
        after_outputs(server, state, from) == Ok::<Seq<ConfirmedTx>, InternalError>(found),
        forall|i: int| from <= i < to ==> !(#[trigger] state.output_spends@[i] is Unspent),
    ensures
        after_outputs(server, state, to) == Ok::<Seq<ConfirmedTx>, InternalError>(found),
    decreases to - from,
{
    if from < to {
        spent_outputs_add_nothing(server, state, found, from, to - 1);
        assert(!(state.output_spends@[to - 1] is Unspent));
    }
}

/// The search for the next entry keeps the machine on track: when `found`
/// is what the entries before `from_tx` and `from_output` give, the machine
/// that the search leaves holds what the entries before the one it stops at
/// give.
pub proof fn the_search_keeps_track(
    frame: SyncMachine,
    server: StableServer,
    state: SyncState,
    found: Seq<ConfirmedTx>,
    from_tx: int,
    from_output: int,
    post: SyncMachine,
    action: SyncAction,
)
    requires
        state.wf(),
        0 <= from_tx <= state.watched_transactions@.len(),
        0 <= from_output <= state.watched_outputs@.len(),
        from_tx < state.watched_transactions@.len() ==> from_output == 0,
        if from_output == 0 {
            after_transactions(server, state, from_tx) == Ok::<Seq<ConfirmedTx>, InternalError>(
                found,
            )
        } else {
            after_outputs(server, state, from_output) == Ok::<Seq<ConfirmedTx>, InternalError>(
                found,
            )
        },
        frame.queried(state, found, from_tx, from_output, post, action),
    ensures
        tracks_confirmations(post, server),
{
    let watched = state.watched_transactions@;
    let spends = state.output_spends@;
    let t = next_unfound(watched, found, from_tx);
    let o = next_unspent(spends, from_output);
    assert(state.watched_transactions.len() <= usize::MAX);
    assert(state.output_spends.len() <= usize::MAX);
    next_unfound_is_unfound(watched, found, from_tx);
    next_unspent_is_unspent(spends, from_output);
    if from_output == 0 {
        found_transactions_add_nothing(server, state, found, from_tx, t);
    }
    if t >= watched.len() {
        assert(after_outputs(server, state, from_output) == Ok::<
            Seq<ConfirmedTx>,
            InternalError,
        >(found));
        spent_outputs_add_nothing(server, state, found, from_output, o);
    }
}

/// When a round begins to collect confirmations, the machine is on track:
/// nothing is found yet, and the first entry is in turn.
pub proof fn a_round_begins_on_track(
    pre: SyncMachine,
    server: StableServer,
    event: SyncEvent,
    post: SyncMachine,
    action: SyncAction,
)
    requires
        pre.wf(),
        post.wf(),
        pre.phase is Registrations || pre.phase is TipStatus || pre.phase is BestBlockNotified,
        pre.step(event, post, action),
    ensures
        tracks_confirmations(post, server),
{
    if post.phase is OutputStatus || post.phase is MerkleBlock || post.phase is ConfirmedTip {
        the_search_keeps_track(
            pre,
            server,
            post.sync_state,
            Seq::empty(),
            0,
            0,
            post,
            action,
        );
    }
}

/// While a round collects confirmations from a server that stands still,
/// every step keeps the machine on track: it holds exactly the confirmations
/// that [`collected`] gives for the entries dealt with.
pub proof fn confirmations_are_tracked(
    pre: SyncMachine,
    server: StableServer,
    event: SyncEvent,
    post: SyncMachine,
    action: SyncAction,
)
    requires
        pre.wf(),
        pre.phase is OutputStatus || pre.phase is MerkleBlock || pre.phase is Tx
            || pre.phase is TxBlockStatus,
        tracks_confirmations(pre, server),
        server_answers(pre, server, event),
        pre.step(event, post, action),
    ensures
        tracks_confirmations(post, server),
{
    let state = pre.sync_state;
    let watched = state.watched_transactions@;
    let found = pre.confirmed_txs@;
    let nt = pre.next_transaction as int;
    let no = pre.next_output as int;
    assert(state.watched_transactions.len() <= usize::MAX);
    assert(state.watched_outputs.len() <= usize::MAX);
    assert(state.output_spends.len() <= usize::MAX);
    if post.phase is OutputStatus || post.phase is MerkleBlock || post.phase is ConfirmedTip {
        match pre.phase {
            Phase::OutputStatus => {
                let status = (server.output_status)(state.watched_outputs@[no].outpoint);
                match spending_candidate(found, status) {
                    Ok(None) => {
                        assert(after_outputs(server, state, no + 1) == Ok::<
                            Seq<ConfirmedTx>,
                            InternalError,
                        >(found));
                        the_search_keeps_track(pre, server, state, found, nt, no + 1, post, action);
                    },
                    Ok(Some(candidate)) => {},
                    Err(_) => {},
                }
            },
            Phase::MerkleBlock { candidate } => {
                // no Merkle block: the candidate is not confirmed
                assert((server.merkle_block)(candidate.txid) is None);
                assert(lookup(server, candidate) == Ok::<Option<ConfirmedTx>, InternalError>(None));
                candidate_is_dealt_with(pre, server, candidate, found, post, action);
            },
            Phase::Tx { candidate, header, block_hash, pos } => {
                let tx = (server.tx)(candidate.txid);
                match tx {
                    None => {
                        assert(lookup(server, candidate) == Ok::<
                            Option<ConfirmedTx>,
                            InternalError,
                        >(None));
                        candidate_is_dealt_with(pre, server, candidate, found, post, action);
                    },
                    Some(tx) => {
                        match transaction_verdict(candidate.txid, tx@) {
                            Ok(false) => {
                                assert(lookup(server, candidate) == Ok::<
                                    Option<ConfirmedTx>,
                                    InternalError,
                                >(None));
                                candidate_is_dealt_with(pre, server, candidate, found, post, action);
                            },
                            Ok(true) => {
                                let confirmed = ConfirmedTx {
                                    tx,
                                    txid: candidate.txid,
                                    block_header: header,
                                    block_height: candidate.known_block_height->0,
                                    pos,
                                };
                                assert(lookup(server, candidate) == Ok::<
                                    Option<ConfirmedTx>,
                                    InternalError,
                                >(Some(confirmed)));
                                candidate_is_dealt_with(
                                    pre,
                                    server,
                                    candidate,
                                    found.push(confirmed),
                                    post,
                                    action,
                                );
                            },
                            Err(_) => {},
                        }
                    },
                }
            },
            Phase::TxBlockStatus { candidate, header, pos, tx } => {
                let status = (server.block_status)(block_hash_of(header));
                let confirmed = ConfirmedTx {
                    tx,
                    txid: candidate.txid,
                    block_header: header,
                    block_height: status.height->0,
                    pos,
                };
                assert(lookup(server, candidate) == Ok::<Option<ConfirmedTx>, InternalError>(
                    Some(confirmed),
                ));
                candidate_is_dealt_with(
                    pre,
                    server,
                    candidate,
                    found.push(confirmed),
                    post,
                    action,
                );
            },
            _ => {},
        }
    }
}

/// Once the lookup of the candidate in turn has given `found`, the search
/// behind it keeps the machine on track.
pub proof fn candidate_is_dealt_with(
    pre: SyncMachine,
    server: StableServer,
    candidate: Candidate,
    found: Seq<ConfirmedTx>,
    post: SyncMachine,
    action: SyncAction,
)
    requires
        pre.wf(),
        pre.in_turn(),
        collected_so_far(pre, server),
        candidate_in_turn(pre, server, candidate),
        with_lookup(server, pre.confirmed_txs@, candidate) == Ok::<
            Seq<ConfirmedTx>,
            InternalError,
        >(found),
        pre.candidate_done(found, post, action),
    ensures
        tracks_confirmations(post, server),
{
    let state = pre.sync_state;
    let nt = pre.next_transaction as int;
    let no = pre.next_output as int;
    assert(state.watched_transactions.len() <= usize::MAX);
    assert(state.watched_outputs.len() <= usize::MAX);
    if nt < state.watched_transactions@.len() {
        assert(after_transactions(server, state, nt + 1) == Ok::<Seq<ConfirmedTx>, InternalError>(
            found,
        ));
        the_search_keeps_track(pre, server, state, found, nt + 1, no, post, action);
    } else {
        assert(after_outputs(server, state, no + 1) == Ok::<Seq<ConfirmedTx>, InternalError>(
            found,
        ));
        the_search_keeps_track(pre, server, state, found, nt, no + 1, post, action);
    }
}

/// When a round has collected its confirmations from a server that stands
/// still and the tip has not moved, the sinks are handed exactly what
/// [`collected`] gives for what is watched, put in block order; and a round
/// comes this far only where [`collected`] gives no error.
pub proof fn the_collected_are_handed_on(
    pre: SyncMachine,
    server: StableServer,
    post: SyncMachine,
    action: SyncAction,
)
    requires
        pre.wf(),
        pre.phase == Phase::ConfirmedTip,
        tracks_confirmations(pre, server),
        pre.step(SyncEvent::TipHash(pre.tip_hash), post, action),
    ensures
        collected(server, pre.sync_state) is Ok,
        action matches SyncAction::TransactionsConfirmed(txs) && txs@.to_multiset() == collected(
            server,
            pre.sync_state,
        )->Ok_0.to_multiset() && in_block_order(txs@),
        post.sync_state.last_sync_hash == Some(pre.tip_hash),
        !post.sync_state.pending_sync,
{
}

/// A round over one watched output, of which no spend is known and whose
/// confirmed spender the server names with its block and height, collects
/// exactly one confirmation: the spender, at that height, at the position
/// and under the header of the proof. This is said of a proof for that
/// block that matches the spender alone, and of a transaction with the
/// spender's id that is not 64 bytes long and whose witnesses can be held.
pub proof fn one_spent_output_gives_one_confirmation(
    server: StableServer,
    state: SyncState,
    spender: Txid,
    block: BlockHash,
    height: u32,
    merkle_block: MerkleBlock,
    pos: u32,
    tx: TransactionData,
)
    requires
        state.watched_transactions@.len() == 0,
        state.watched_outputs@.len() == 1,
        state.output_spends@.len() == 1,
        state.output_spends@[0] is Unspent,
        (server.output_status)(state.watched_outputs@[0].outpoint) == Some(
            OutputStatus {
                txid: Some(spender),
                status: Some(
                    TxStatus { confirmed: true, block_height: Some(height), block_hash: Some(block) },
                ),
            },
        ),
        (server.merkle_block)(spender) == Some(merkle_block),
        block_hash_of(merkle_block.header) == block,
        merkle_matches(merkle_block.txn@) == Some((seq![spender], seq![pos])),
        (server.tx)(spender) == Some(tx),
        witnesses_fit(tx@),
        txid_of(tx@) == spender,
        total_size_of(tx@) != 64,
    ensures
        collected(server, state) == Ok::<Seq<ConfirmedTx>, InternalError>(
            seq![
                ConfirmedTx {
                    tx,
                    txid: spender,
                    block_header: merkle_block.header,
                    block_height: height,
                    pos: pos as usize,
                },
            ],
        ),
{
    let none = Seq::<ConfirmedTx>::empty();
    let matches = seq![spender];
    let indexes = seq![pos];
    assert(matches.len() == 1 && indexes.len() == 1 && matches[0] == spender && indexes[0] == pos);
    assert(after_transactions(server, state, 0) == Ok::<Seq<ConfirmedTx>, InternalError>(none));
    assert(after_outputs(server, state, 0) == Ok::<Seq<ConfirmedTx>, InternalError>(none));
    assert(!is_found(none, spender));
    let confirmed = ConfirmedTx {
        tx,
        txid: spender,
        block_header: merkle_block.header,
        block_height: height,
        pos: pos as usize,
    };
    assert(none.push(confirmed) == seq![confirmed]);
    reveal_with_fuel(after_outputs, 2);
}

/// An error among the watched transactions is the error of all that
/// follows.
pub proof fn an_error_among_transactions_stays(
    server: StableServer,
    state: SyncState,
    from: int,
    to: int,
)
    requires
        0 <= from <= to,
        after_transactions(server, state, from) is Err,
    ensures
        after_transactions(server, state, to) == after_transactions(server, state, from),
    decreases to - from,
{
    if from < to {
        an_error_among_transactions_stays(server, state, from, to - 1);
    }
}

/// An error among the watched outputs, or among the transactions before
/// them, is the error of all that follows.
pub proof fn an_error_among_outputs_stays(
    server: StableServer,
    state: SyncState,
    from: int,
    to: int,
)
    requires
        0 <= from <= to,
        after_outputs(server, state, from) is Err,
    ensures
        after_outputs(server, state, to) == after_outputs(server, state, from),
    decreases to - from,
{
    if from < to {
        an_error_among_outputs_stays(server, state, from, to - 1);
    }
}

/// Where the lookup of the candidate in turn gives an error, the whole
/// round gives that error.
pub proof fn the_error_of_a_candidate_is_that_of_the_round(
    pre: SyncMachine,
    server: StableServer,
    candidate: Candidate,
    e: InternalError,
)
    requires
        pre.wf(),
        pre.in_turn(),
        collected_so_far(pre, server),
        candidate_in_turn(pre, server, candidate),
        with_lookup(server, pre.confirmed_txs@, candidate) == Err::<
            Seq<ConfirmedTx>,
            InternalError,
        >(e),
    ensures
        collected(server, pre.sync_state) == Err::<Seq<ConfirmedTx>, InternalError>(e),
{
    let state = pre.sync_state;
    let nt = pre.next_transaction as int;
    let no = pre.next_output as int;
    let all = state.watched_transactions@.len() as int;
    let outputs = state.watched_outputs@.len() as int;
    if nt < all {
        assert(after_transactions(server, state, nt + 1) == Err::<Seq<ConfirmedTx>, InternalError>(
            e,
        ));
        an_error_among_transactions_stays(server, state, nt + 1, all);
        assert(after_outputs(server, state, 0) == Err::<Seq<ConfirmedTx>, InternalError>(e));
        an_error_among_outputs_stays(server, state, 0, outputs);
    } else {
        assert(after_outputs(server, state, no + 1) == Err::<Seq<ConfirmedTx>, InternalError>(e));
        an_error_among_outputs_stays(server, state, no + 1, outputs);
    }
}

/// A round is given up, or the pass ended, only where [`collected`] gives
/// the error: while a server that stands still is asked, a step that leaves
/// the round does so with the error that [`collected`] gives for what is
/// watched, and every other step stays in the round and changes nothing of
/// what is watched.
pub proof fn a_round_is_left_where_collected_fails(
    pre: SyncMachine,
    server: StableServer,
    event: SyncEvent,
    post: SyncMachine,
    action: SyncAction,
)
    requires
        pre.wf(),
        pre.phase is OutputStatus || pre.phase is MerkleBlock || pre.phase is Tx
            || pre.phase is TxBlockStatus,
        tracks_confirmations(pre, server),
        server_answers(pre, server, event),
        pre.step(event, post, action),
    ensures
        match collected(server, pre.sync_state) {
            Ok(_) => {
                &&& post.phase is OutputStatus || post.phase is MerkleBlock || post.phase is Tx
                    || post.phase is TxBlockStatus || post.phase is ConfirmedTip
                &&& post.sync_state == pre.sync_state
                &&& post.tip_hash == pre.tip_hash
                &&& !(action is Finished) && !(action is TransactionsConfirmed)
            },
            Err(_) => true,
        },
        post.phase is Registrations ==> collected(server, pre.sync_state) == Err::<
            Seq<ConfirmedTx>,
            InternalError,
        >(InternalError::Inconsistency),
        action is Finished ==> collected(server, pre.sync_state) == Err::<
            Seq<ConfirmedTx>,
            InternalError,
        >(InternalError::Failed) && action == SyncAction::Finished(Err(TxSyncError::Failed)),
{
    let state = pre.sync_state;
    let found = pre.confirmed_txs@;
    let no = pre.next_output as int;
    let outputs = state.watched_outputs@.len() as int;
    assert(state.watched_outputs.len() <= usize::MAX);
    if post.phase is Registrations || post.phase is Idle {
        match pre.phase {
            Phase::OutputStatus => {
                let status = (server.output_status)(state.watched_outputs@[no].outpoint);
                assert(spending_candidate(found, status) is Err);
                assert(after_outputs(server, state, no + 1) is Err);
                an_error_among_outputs_stays(server, state, no + 1, outputs);
            },
            Phase::MerkleBlock { candidate } => {
                assert(lookup(server, candidate) is Err);
                the_error_of_a_candidate_is_that_of_the_round(
                    pre,
                    server,
                    candidate,
                    lookup(server, candidate)->Err_0,
                );
            },
            Phase::Tx { candidate, .. } => {
                assert(lookup(server, candidate) is Err);
                the_error_of_a_candidate_is_that_of_the_round(
                    pre,
                    server,
                    candidate,
                    lookup(server, candidate)->Err_0,
                );
            },
            Phase::TxBlockStatus { candidate, .. } => {
                assert(lookup(server, candidate) is Err);
                the_error_of_a_candidate_is_that_of_the_round(
                    pre,
                    server,
                    candidate,
                    lookup(server, candidate)->Err_0,
                );
            },
            _ => {},
        }
    }
}

/// True if, in the steps `steps` from `start`, every event is the answer of
/// `server` to what the machine waits for, and the tip is found unmoved when
/// the confirmations are collected.
pub open spec fn round_driven_by(
    server: StableServer,
    start: SyncMachine,
    steps: Seq<Step>,
) -> bool {
    forall|k: int|
        0 <= k < steps.len() ==> {
            let machine = before_step(start, steps, k);
            &&& server_answers(machine, server, (#[trigger] steps[k]).event)
            &&& machine.phase == Phase::ConfirmedTip ==> steps[k].event == SyncEvent::TipHash(
                machine.tip_hash,
            )
        }
}

/// True if one of the first `k` steps hands the confirmations `found` on to
/// the sinks, in block order.
pub open spec fn handed_on(steps: Seq<Step>, found: Seq<ConfirmedTx>, k: int) -> bool {
    exists|j: int|
        0 <= j < k && j < steps.len() && ((#[trigger] steps[j]).action
            matches SyncAction::TransactionsConfirmed(txs) && txs@.to_multiset()
            == found.to_multiset() && in_block_order(txs@))
}

/// True if `machine` is collecting the confirmations of a round for what
/// `state` watches, and is on track.
pub open spec fn collecting_for(
    machine: SyncMachine,
    server: StableServer,
    state: SyncState,
) -> bool {
    &&& machine.phase is OutputStatus || machine.phase is MerkleBlock || machine.phase is Tx
        || machine.phase is TxBlockStatus || machine.phase is ConfirmedTip
    &&& machine.sync_state == state
    &&& tracks_confirmations(machine, server)
}

/// Until the confirmations are handed on, a round against a server that
/// stands still, for which [`collected`] gives no error, goes on collecting.
pub proof fn a_round_comes_to_its_confirmations(
    start: SyncMachine,
    steps: Seq<Step>,
    server: StableServer,
    found: Seq<ConfirmedTx>,
    k: int,
)
    requires
        start.wf(),
        collecting_for(start, server, start.sync_state),
        is_run(start, steps),
        round_driven_by(server, start, steps),
        collected(server, start.sync_state) == Ok::<Seq<ConfirmedTx>, InternalError>(found),
        0 <= k <= steps.len(),
    ensures
        handed_on(steps, found, k) || collecting_for(
            before_step(start, steps, k),
            server,
            start.sync_state,
        ),
        !handed_on(steps, found, k) ==> forall|j: int|
            0 <= j < k ==> !(#[trigger] steps[j].action is Finished),
    decreases k,
{
    if k > 0 {
        a_round_comes_to_its_confirmations(start, steps, server, found, k - 1);
        let step = steps[k - 1];
        let pre = before_step(start, steps, k - 1);
        assert(pre.step(step.event, step.post, step.action));
        assert(server_answers(pre, server, step.event));
        if handed_on(steps, found, k - 1) {
            let j = choose|j: int|
                0 <= j < k - 1 && j < steps.len() && ((#[trigger] steps[j]).action
                    matches SyncAction::TransactionsConfirmed(txs) && txs@.to_multiset()
                    == found.to_multiset() && in_block_order(txs@));
            assert(handed_on(steps, found, k));
        } else {
            assert(pre.wf()) by {
                if k - 1 > 0 {
                    assert(before_step(start, steps, k - 2).step(
                        steps[k - 2].event,
                        steps[k - 2].post,
                        steps[k - 2].action,
                    ));
                }
            }
            if pre.phase == Phase::ConfirmedTip {
                the_collected_are_handed_on(pre, server, step.post, step.action);
                assert(steps[k - 1].action matches SyncAction::TransactionsConfirmed(txs)
                    && txs@.to_multiset() == found.to_multiset() && in_block_order(txs@));
                assert(handed_on(steps, found, k));
            } else {
                confirmations_are_tracked(pre, server, step.event, step.post, step.action);
                a_round_is_left_where_collected_fails(
                    pre,
                    server,
                    step.event,
                    step.post,
                    step.action,
                );
                assert forall|j: int| 0 <= j < k implies !(#[trigger] steps[j].action is Finished) by {
                    if j == k - 1 {
                        assert(!(step.action is Finished));
                    }
                }
            }
        }
    }
}

/// What a round against a server that stands still collects is handed on in
/// every pass that runs to its end: when [`collected`] gives no error for
/// what is watched and the tip does not move, the sinks are given exactly
/// the confirmations that it gives, put in block order, before the pass
/// ends.
pub proof fn what_a_round_collects_is_handed_on(
    start: SyncMachine,
    steps: Seq<Step>,
    server: StableServer,
    found: Seq<ConfirmedTx>,
)
    requires
        start.wf(),
        collecting_for(start, server, start.sync_state),
        is_run(start, steps),
        round_driven_by(server, start, steps),
        collected(server, start.sync_state) == Ok::<Seq<ConfirmedTx>, InternalError>(found),
        steps.len() > 0,
        steps.last().action is Finished,
    ensures
        handed_on(steps, found, steps.len() as int),
{
    a_round_comes_to_its_confirmations(start, steps, server, found, steps.len() as int);
    if !handed_on(steps, found, steps.len() as int) {
        assert(!(steps[steps.len() - 1].action is Finished));
    }
}

} // verus!
