//! The synchronisation of what is watched with an Esplora server, as a
//! machine that is driven one answer at a time.
//!
//! The machine never queries anything itself. [`EsploraSyncClient::sync`]
//! takes what happened last and tells what is to be done next; the caller
//! does it and comes back with the outcome, until the machine says that the
//! pass is finished.

use crate::common::{
    find_unspent, next_unspent, ConfirmedTx, FilterQueue, SpendStatus, SyncState, WatchedOutput,
};
use crate::confirmation::{
    check_merkle_block, check_output_status, check_transaction, contains_confirmed,
    distinct_txids, find_unfound, has_distinct_txids, in_block_order, is_found,
    is_in_block_order, next_unfound, proof_outcome, resolve_height, sort_confirmed,
    spending_candidate, transaction_verdict, BlockStatus, Candidate, OutputStatus,
};
use crate::error::{InternalError, TxSyncError};
use crate::hashes::{BlockHash, OutPoint, Txid};
use crate::merkle::{merkle_matches, MerkleBlock};
use crate::transaction::{block_hash_of, Header, TransactionData};
use vstd::prelude::*;

verus! {

/// `esplora_client::BlockingClient`, of which nothing is known here: the
/// machine only keeps it for its caller.
#[verifier::external_type_specification]
#[verifier::external_body]
pub struct ExBlockingClient(esplora_client::BlockingClient);

/// `esplora_client::Builder::new` on `server_url`, then `build_blocking` on
/// the builder. Nothing is claimed of the client that comes back.
#[verifier::external_body]
fn build_blocking_client(server_url: &str) -> esplora_client::BlockingClient {
    esplora_client::Builder::new(server_url).build_blocking()
}

/// A transaction that a sink holds to be confirmed: its id, the height of the
/// block that confirmed it, and that block's hash.
pub type RelevantTxid = (Txid, u32, Option<BlockHash>);

/// What the machine waits for.
#[derive(Clone, Debug, PartialEq, Eq)]
pub enum Phase {
    /// No pass is under way.
    Idle,
    /// The tip, at the start of a pass.
    InitialTip,
    /// What was registered since the queue was last emptied.
    Registrations,
    /// The transactions that the sinks hold to be confirmed.
    RelevantTxids,
    /// The status of the block of the relevant transaction in turn.
    RelevantBlockStatus,
    /// The tip, after the blocks of the relevant transactions were looked up.
    UnconfirmedTip,
    /// Word that the sinks were told of the unconfirmed transactions.
    UnconfirmedNotified,
    /// The header of the tip.
    TipHeader,
    /// The status of the tip, whose header is `header`.
    TipStatus { header: Header },
    /// Word that the sinks were told of the best block.
    BestBlockNotified,
    /// The spending status of the watched output in turn.
    OutputStatus,
    /// The Merkle block for `candidate`.
    MerkleBlock { candidate: Candidate },
    /// The transaction `candidate`, proved to be at position `pos` of the
    /// block with header `header` and hash `block_hash`.
    Tx { candidate: Candidate, header: Header, block_hash: BlockHash, pos: usize },
    /// The status of the block that holds `tx`.
    TxBlockStatus { candidate: Candidate, header: Header, pos: usize, tx: TransactionData },
    /// The tip, after the confirmations were collected.
    ConfirmedTip,
    /// Word that the sinks were told of the confirmed transactions.
    ConfirmedNotified,
}

/// What the caller is to do next.
#[derive(Debug, PartialEq, Eq)]
pub enum SyncAction {
    /// Ask the server for the hash of the tip.
    GetTipHash,
    /// Empty the registration queue and hand over what it held.
    TakeRegistrations,
    /// Ask every sink for the transactions it holds to be confirmed.
    GetRelevantTxids,
    /// Ask the server for the status of a block.
    GetBlockStatus(BlockHash),
    /// Ask the server for the header of a block.
    GetHeaderByHash(BlockHash),
    /// Ask the server whether an output is spent.
    GetOutputStatus(OutPoint),
    /// Ask the server for the Merkle block of a transaction.
    GetMerkleBlock(Txid),
    /// Ask the server for a transaction.
    GetTx(Txid),
    /// Tell every sink that these transactions are no longer confirmed.
    TransactionsUnconfirmed(Vec<Txid>),
    /// Tell every sink of the best block and its height.
    BestBlockUpdated(Header, u32),
    /// Tell every sink of these confirmed transactions, in this order.
    TransactionsConfirmed(Vec<ConfirmedTx>),
    /// The pass is over, with this result.
    Finished(Result<(), TxSyncError>),
}

/// What happened since the machine last said what to do.
#[derive(Clone, Debug, PartialEq, Eq)]
pub enum SyncEvent {
    /// A synchronisation is asked for.
    Start,
    /// The server named this block as the tip.
    TipHash(BlockHash),
    /// The registration queue held this.
    Registrations(FilterQueue),
    /// The sinks hold these transactions to be confirmed.
    RelevantTxids(Vec<RelevantTxid>),
    /// The server gave this status for the block.
    BlockStatus(BlockStatus),
    /// The server gave this header for the block.
    Header(Header),
    /// The server gave this answer about the output.
    OutputStatus(Option<OutputStatus>),
    /// The server gave this answer to the request for a Merkle block.
    MerkleBlock(Option<MerkleBlock>),
    /// The server gave this answer to the request for a transaction.
    Tx(Option<TransactionData>),
    /// The sinks were told.
    Notified,
    /// The query failed.
    QueryFailed,
}

/// `entries` without repetitions: of equal entries the first stays.
pub open spec fn distinct_relevant(entries: Seq<RelevantTxid>) -> Seq<RelevantTxid>
    decreases entries.len(),
{
    if entries.len() == 0 {
        Seq::empty()
    } else {
        let before = distinct_relevant(entries.drop_last());
        if before.contains(entries.last()) {
            before
        } else {
            before.push(entries.last())
        }
    }
}

/// Tells whether `entries` holds `entry`.
pub fn contains_relevant(entries: &Vec<RelevantTxid>, entry: &RelevantTxid) -> (r: bool)
    ensures
        r == entries@.contains(*entry),
{
    let mut i: usize = 0;
    while i < entries.len()
        invariant
            i <= entries.len(),
            forall|j: int| 0 <= j < i ==> entries@[j] != *entry,
        decreases entries.len() - i,
    {
        let other = &entries[i];
        if other.0 == entry.0 && other.1 == entry.1 && other.2 == entry.2 {
            return true;
        }
        i += 1;
    }
    false
}

/// Drops the repetitions from `entries`.
pub fn dedup_relevant(entries: &Vec<RelevantTxid>) -> (r: Vec<RelevantTxid>)
    ensures
        r@ == distinct_relevant(entries@),
{
    let mut r: Vec<RelevantTxid> = Vec::new();
    let mut i: usize = 0;
    while i < entries.len()
        invariant
            i <= entries.len(),
            r@ == distinct_relevant(entries@.take(i as int)),
        decreases entries.len() - i,
    {
        assert(entries@.take(i + 1).drop_last() == entries@.take(i as int));
        let entry = entries[i];
        if !contains_relevant(&r, &entry) {
            r.push(entry);
        }
        i += 1;
    }
    assert(entries@.take(i as int) == entries@);
    r
}

/// The state of a synchronisation: what is watched, what the pass under way
/// waits for, and what it has collected.
///
/// This is what an [`EsploraSyncClient`] holds, and what its contracts speak
/// of. Only an [`EsploraSyncClient`] runs one.
#[derive(Debug)]
pub struct SyncMachine {
    /// What is watched, and how far the last pass came.
    pub sync_state: SyncState,
    /// What the machine waits for.
    pub phase: Phase,
    /// The tip that the pass under way goes by.
    pub tip_hash: BlockHash,
    /// The transactions that the sinks hold to be confirmed, each once.
    pub relevant_txids: Vec<RelevantTxid>,
    /// The index in `relevant_txids` of the entry in turn.
    pub next_relevant: usize,
    /// The transactions found to have left the chain in this round.
    pub unconfirmed_txs: Vec<Txid>,
    /// The confirmations found in this round.
    pub confirmed_txs: Vec<ConfirmedTx>,
    /// The index among the watched transactions of the one in turn.
    pub next_transaction: usize,
    /// The index among the watched outputs of the one in turn.
    pub next_output: usize,
}

impl SyncMachine {
    /// True if a watched transaction or a watched output is in turn.
    pub open spec fn in_turn(&self) -> bool {
        &&& self.next_transaction <= self.sync_state.watched_transactions@.len()
        &&& self.next_output <= self.sync_state.watched_outputs@.len()
        &&& (self.next_transaction < self.sync_state.watched_transactions@.len()
            || self.next_output < self.sync_state.watched_outputs@.len())
    }

    /// True if a watched transaction or a watched output is in turn and no
    /// transaction occurs twice among the confirmations found in this round.
    pub open spec fn collecting(&self) -> bool {
        &&& self.in_turn()
        &&& distinct_txids(self.confirmed_txs@)
    }

    /// True if `candidate` can be looked up: the round is collecting, and the
    /// candidate is not among the confirmations found so far.
    pub open spec fn looking_up(&self, candidate: Candidate) -> bool {
        &&& self.collecting()
        &&& !is_found(self.confirmed_txs@, candidate.txid)
    }

    /// True if what is watched is well formed, the entry in turn exists
    /// wherever the machine waits for an answer about one, and no transaction
    /// occurs twice among the confirmations of a round, the one that is being
    /// looked up included.
    pub open spec fn wf(&self) -> bool {
        &&& self.sync_state.wf()
        &&& match self.phase {
            Phase::RelevantBlockStatus => {
                &&& self.next_relevant < self.relevant_txids@.len()
                &&& self.relevant_txids@[self.next_relevant as int].2 is Some
            },
            Phase::OutputStatus => {
                &&& self.next_transaction >= self.sync_state.watched_transactions@.len()
                &&& self.collecting()
            },
            Phase::MerkleBlock { candidate } => self.looking_up(candidate),
            Phase::Tx { candidate, .. } => self.looking_up(candidate),
            Phase::TxBlockStatus { candidate, .. } => self.looking_up(candidate),
            Phase::ConfirmedTip => {
                &&& in_block_order(self.confirmed_txs@)
                &&& distinct_txids(self.confirmed_txs@)
            },
            _ => true,
        }
    }

    /// True if `post` and `action` are what a pass that is broken off with
    /// `err` leaves: the machine is idle, and the next pass is due whatever
    /// the tip is then.
    pub open spec fn failed(self, err: TxSyncError, post: Self, action: SyncAction) -> bool {
        &&& post == (Self {
            phase: Phase::Idle,
            sync_state: SyncState { pending_sync: true, ..self.sync_state },
            ..self
        })
        &&& action == SyncAction::Finished(Err(err))
    }

    /// True if `post` and `action` are what a round that is given up leaves:
    /// what the round had found is dropped, nothing of it was handed on, and
    /// the pass begins a new round that goes by the tip `tip`.
    pub open spec fn restarted(self, tip: BlockHash, post: Self, action: SyncAction) -> bool {
        &&& post == (Self {
            phase: Phase::Registrations,
            tip_hash: tip,
            sync_state: SyncState { pending_sync: true, ..self.sync_state },
            unconfirmed_txs: post.unconfirmed_txs,
            confirmed_txs: post.confirmed_txs,
            ..self
        })
        &&& post.unconfirmed_txs@ == Seq::<Txid>::empty()
        &&& post.confirmed_txs@ == Seq::<ConfirmedTx>::empty()
        &&& action == SyncAction::TakeRegistrations
    }

    /// True if `post` and `action` are what the search for the next block to
    /// look up leaves, when `relevant` are the sinks' transactions, those
    /// before index `from` are dealt with, and `unconfirmed` were found to
    /// have left the chain. An entry without a block ends the pass.
    pub open spec fn relevant_queried(
        self,
        relevant: Seq<RelevantTxid>,
        from: int,
        unconfirmed: Seq<Txid>,
        post: Self,
        action: SyncAction,
    ) -> bool {
        let listed = post.relevant_txids@ == relevant && post.unconfirmed_txs@ == unconfirmed;
        if from < relevant.len() {
            match relevant[from].2 {
                Some(block_hash) => {
                    &&& post == (Self {
                        phase: Phase::RelevantBlockStatus,
                        relevant_txids: post.relevant_txids,
                        next_relevant: from as usize,
                        unconfirmed_txs: post.unconfirmed_txs,
                        ..self
                    })
                    &&& listed
                    &&& action == SyncAction::GetBlockStatus(block_hash)
                },
                None => {
                    &&& post == (Self {
                        phase: Phase::Idle,
                        sync_state: SyncState { pending_sync: true, ..self.sync_state },
                        relevant_txids: post.relevant_txids,
                        next_relevant: from as usize,
                        unconfirmed_txs: post.unconfirmed_txs,
                        ..self
                    })
                    &&& listed
                    &&& action == SyncAction::Finished(Err(TxSyncError::UntrackedConfirmation))
                },
            }
        } else {
            &&& post == (Self {
                phase: Phase::UnconfirmedTip,
                relevant_txids: post.relevant_txids,
                next_relevant: from as usize,
                unconfirmed_txs: post.unconfirmed_txs,
                ..self
            })
            &&& listed
            &&& action == SyncAction::GetTipHash
        }
    }

    /// True if `post` and `action` are what the search for the next
    /// confirmation to look up leaves, when `state` is what is watched,
    /// `found` are the confirmations found so far, and the watched
    /// transactions before index `from_tx` and outputs before index
    /// `from_output` are dealt with.
    ///
    /// The watched transactions come first, but for those among `found`; then
    /// the watched outputs of which no spend is known. When none is left,
    /// the confirmations are put in block order and the tip is asked for
    /// once more.
    pub open spec fn queried(
        self,
        state: SyncState,
        found: Seq<ConfirmedTx>,
        from_tx: int,
        from_output: int,
        post: Self,
        action: SyncAction,
    ) -> bool {
        let watched = state.watched_transactions@;
        let t = next_unfound(watched, found, from_tx);
        let o = next_unspent(state.output_spends@, from_output);
        &&& post == (Self {
            sync_state: state,
            phase: post.phase,
            confirmed_txs: post.confirmed_txs,
            next_transaction: post.next_transaction,
            next_output: post.next_output,
            ..self
        })
        &&& if t < watched.len() {
            &&& post.phase == (Phase::MerkleBlock {
                candidate: Candidate {
                    txid: watched[t],
                    expected_block_hash: None,
                    known_block_height: None,
                },
            })
            &&& post.confirmed_txs@ == found
            &&& post.next_transaction == t
            &&& post.next_output == from_output
            &&& action == SyncAction::GetMerkleBlock(watched[t])
        } else if o < state.output_spends@.len() {
            &&& post.phase == Phase::OutputStatus
            &&& post.confirmed_txs@ == found
            &&& post.next_transaction == watched.len()
            &&& post.next_output == o
            &&& action == SyncAction::GetOutputStatus(state.watched_outputs@[o].outpoint)
        } else {
            &&& post.phase == Phase::ConfirmedTip
            &&& in_block_order(post.confirmed_txs@)
            &&& post.confirmed_txs@.to_multiset() == found.to_multiset()
            &&& post.next_transaction == watched.len()
            &&& post.next_output == state.output_spends@.len()
            &&& action == SyncAction::GetTipHash
        }
    }

    /// True if `post` and `action` are what is left once the transaction or
    /// output in turn is dealt with and `found` are the confirmations found
    /// so far: the search goes on behind it.
    pub open spec fn candidate_done(
        self,
        found: Seq<ConfirmedTx>,
        post: Self,
        action: SyncAction,
    ) -> bool {
        if self.next_transaction < self.sync_state.watched_transactions@.len() {
            self.queried(
                self.sync_state,
                found,
                self.next_transaction + 1,
                self.next_output as int,
                post,
                action,
            )
        } else {
            self.queried(
                self.sync_state,
                found,
                self.next_transaction as int,
                self.next_output + 1,
                post,
                action,
            )
        }
    }

    /// True if `post` and `action` are what the registrations `queue` lead
    /// to at the start of a round. They are taken in first. A pass ends here
    /// if none is due, the queue was empty and the tip is the one of the
    /// last pass. With a new tip the round begins with the sinks'
    /// transactions, else with the confirmations.
    pub open spec fn round_started(self, queue: FilterQueue, post: Self, action: SyncAction) -> bool {
        let pending_registrations = queue.transactions@.len() > 0 || queue.outputs@.len() > 0;
        let tip_is_new = Some(self.tip_hash) != self.sync_state.last_sync_hash;
        &&& self.sync_state.merged(queue.transactions@, queue.outputs@, post.sync_state)
        &&& if !self.sync_state.pending_sync && !pending_registrations && !tip_is_new {
            &&& post == (Self { phase: Phase::Idle, sync_state: post.sync_state, ..self })
            &&& action == SyncAction::Finished(Ok(()))
        } else if tip_is_new {
            &&& post == (Self { phase: Phase::RelevantTxids, sync_state: post.sync_state, ..self })
            &&& action == SyncAction::GetRelevantTxids
        } else {
            self.queried(post.sync_state, Seq::empty(), 0, 0, post, action)
        }
    }

    /// True if `post` and `action` are what the tip `tip` leads to once the
    /// blocks of the sinks' transactions were looked up. A tip that has
    /// changed gives the round up. Else the transactions that left the chain
    /// are taken note of and the sinks are to be told.
    pub open spec fn unconfirmed_committed(
        self,
        tip: BlockHash,
        post: Self,
        action: SyncAction,
    ) -> bool {
        if tip != self.tip_hash {
            self.restarted(tip, post, action)
        } else {
            &&& self.sync_state.unconfirmed(self.unconfirmed_txs@, post.sync_state)
            &&& post == (Self {
                phase: Phase::UnconfirmedNotified,
                sync_state: post.sync_state,
                unconfirmed_txs: post.unconfirmed_txs,
                ..self
            })
            &&& post.unconfirmed_txs@ == Seq::<Txid>::empty()
            &&& action matches SyncAction::TransactionsUnconfirmed(txids)
            &&& txids@ == self.unconfirmed_txs@
        }
    }

    /// True if `post` and `action` are what the status `status` of the tip,
    /// whose header is `header`, leads to. A tip outside the best chain gives
    /// the round up. A tip with a height has the deep spends settled and the
    /// sinks told; one without goes straight on to the confirmations.
    pub open spec fn best_block_checked(
        self,
        header: Header,
        status: BlockStatus,
        post: Self,
        action: SyncAction,
    ) -> bool {
        if !status.in_best_chain {
            self.restarted(self.tip_hash, post, action)
        } else {
            match status.height {
                Some(height) => {
                    &&& self.sync_state.pruned(height, post.sync_state)
                    &&& post == (Self {
                        phase: Phase::BestBlockNotified,
                        sync_state: post.sync_state,
                        ..self
                    })
                    &&& action == SyncAction::BestBlockUpdated(header, height)
                },
                None => self.queried(self.sync_state, Seq::empty(), 0, 0, post, action),
            }
        }
    }

    /// True if `post` and `action` are what the server's answer `status`
    /// about the output in turn leads to.
    pub open spec fn output_checked(
        self,
        status: Option<OutputStatus>,
        post: Self,
        action: SyncAction,
    ) -> bool {
        match spending_candidate(self.confirmed_txs@, status) {
            Err(_) => self.restarted(self.tip_hash, post, action),
            Ok(None) => self.queried(
                self.sync_state,
                self.confirmed_txs@,
                self.next_transaction as int,
                self.next_output + 1,
                post,
                action,
            ),
            Ok(Some(candidate)) => {
                &&& post == (Self { phase: Phase::MerkleBlock { candidate }, ..self })
                &&& action == SyncAction::GetMerkleBlock(candidate.txid)
            },
        }
    }

    /// True if `post` and `action` are what the server's answer
    /// `merkle_block` for `candidate` leads to. Without a Merkle block the
    /// transaction is not confirmed. A proof that is not well formed ends
    /// the pass, whatever block was expected. A well-formed proof for
    /// another block than the expected one gives the round up, and one for
    /// another transaction ends the pass.
    pub open spec fn proof_checked(
        self,
        candidate: Candidate,
        merkle_block: Option<MerkleBlock>,
        post: Self,
        action: SyncAction,
    ) -> bool {
        match merkle_block {
            None => self.candidate_done(self.confirmed_txs@, post, action),
            Some(block) => match proof_outcome(
                candidate.txid,
                candidate.expected_block_hash,
                block_hash_of(block.header),
                merkle_matches(block.txn@),
            ) {
                Err(InternalError::Inconsistency) => self.restarted(self.tip_hash, post, action),
                Err(InternalError::Failed) => self.failed(TxSyncError::Failed, post, action),
                Ok(pos) => {
                    &&& post == (Self {
                        phase: Phase::Tx {
                            candidate,
                            header: block.header,
                            block_hash: block_hash_of(block.header),
                            pos,
                        },
                        ..self
                    })
                    &&& action == SyncAction::GetTx(candidate.txid)
                },
            },
        }
    }

    /// True if `post` and `action` are what the server's answer `tx` for
    /// `candidate` leads to, after a proof placed the candidate at position
    /// `pos` of the block with header `header` and hash `block_hash`.
    /// Without a transaction there is nothing to confirm. A transaction with
    /// another id, or with a witness that cannot be held, ends the pass; one
    /// of 64 bytes is passed over. Else the confirmation is found if the
    /// height is known, and the block's status is asked for if it is not.
    pub open spec fn transaction_checked(
        self,
        candidate: Candidate,
        header: Header,
        block_hash: BlockHash,
        pos: usize,
        tx: Option<TransactionData>,
        post: Self,
        action: SyncAction,
    ) -> bool {
        match tx {
            None => self.candidate_done(self.confirmed_txs@, post, action),
            Some(tx) => match transaction_verdict(candidate.txid, tx@) {
                Err(_) => self.failed(TxSyncError::Failed, post, action),
                Ok(false) => self.candidate_done(self.confirmed_txs@, post, action),
                Ok(true) => match candidate.known_block_height {
                    Some(block_height) => self.candidate_done(
                        self.confirmed_txs@.push(
                            ConfirmedTx {
                                tx,
                                txid: candidate.txid,
                                block_header: header,
                                block_height,
                                pos,
                            },
                        ),
                        post,
                        action,
                    ),
                    None => {
                        &&& post == (Self {
                            phase: Phase::TxBlockStatus { candidate, header, pos, tx },
                            ..self
                        })
                        &&& action == SyncAction::GetBlockStatus(block_hash)
                    },
                },
            },
        }
    }

    /// True if `post` and `action` are what the status `status` of the block
    /// that holds `tx` leads to. With a height the confirmation is found; a
    /// block without one has left the best chain, which gives the round up.
    pub open spec fn height_checked(
        self,
        candidate: Candidate,
        header: Header,
        pos: usize,
        tx: TransactionData,
        status: BlockStatus,
        post: Self,
        action: SyncAction,
    ) -> bool {
        match status.height {
            Some(block_height) => self.candidate_done(
                self.confirmed_txs@.push(
                    ConfirmedTx { tx, txid: candidate.txid, block_header: header, block_height, pos },
                ),
                post,
                action,
            ),
            None => self.restarted(self.tip_hash, post, action),
        }
    }

    /// True if `post` and `action` are what the tip `tip` leads to once the
    /// confirmations were collected. A tip that has changed gives the round
    /// up. Else the confirmations are taken note of, the pass has come to
    /// this tip, and the sinks are to be told.
    pub open spec fn confirmed_committed(
        self,
        tip: BlockHash,
        post: Self,
        action: SyncAction,
    ) -> bool {
        if tip != self.tip_hash {
            self.restarted(tip, post, action)
        } else {
            &&& self.sync_state.confirmed(
                self.confirmed_txs@,
                SyncState {
                    last_sync_hash: self.sync_state.last_sync_hash,
                    pending_sync: self.sync_state.pending_sync,
                    ..post.sync_state
                },
            )
            &&& post.sync_state.last_sync_hash == Some(self.tip_hash)
            &&& !post.sync_state.pending_sync
            &&& post == (Self {
                phase: Phase::ConfirmedNotified,
                sync_state: post.sync_state,
                confirmed_txs: post.confirmed_txs,
                ..self
            })
            &&& post.confirmed_txs@ == Seq::<ConfirmedTx>::empty()
            &&& action matches SyncAction::TransactionsConfirmed(txs)
            &&& txs@ == self.confirmed_txs@
        }
    }

    /// True if `post` and `action` are what `event` leads to from this
    /// state. An event that is not the answer awaited, a failed query among
    /// them, ends the pass with an error.
    pub open spec fn step(self, event: SyncEvent, post: Self, action: SyncAction) -> bool {
        match (self.phase, event) {
            (Phase::Idle, SyncEvent::Start) => {
                &&& post == (Self { phase: Phase::InitialTip, ..self })
                &&& action == SyncAction::GetTipHash
            },
            (Phase::InitialTip, SyncEvent::TipHash(tip)) => {
                &&& post == (Self { phase: Phase::Registrations, tip_hash: tip, ..self })
                &&& action == SyncAction::TakeRegistrations
            },
            (Phase::Registrations, SyncEvent::Registrations(queue)) => self.round_started(
                queue,
                post,
                action,
            ),
            (Phase::RelevantTxids, SyncEvent::RelevantTxids(entries)) => self.relevant_queried(
                distinct_relevant(entries@),
                0,
                Seq::empty(),
                post,
                action,
            ),
            (Phase::RelevantBlockStatus, SyncEvent::BlockStatus(status)) => self.relevant_queried(
                self.relevant_txids@,
                self.next_relevant + 1,
                if status.in_best_chain {
                    self.unconfirmed_txs@
                } else {
                    self.unconfirmed_txs@.push(self.relevant_txids@[self.next_relevant as int].0)
                },
                post,
                action,
            ),
            (Phase::UnconfirmedTip, SyncEvent::TipHash(tip)) => self.unconfirmed_committed(
                tip,
                post,
                action,
            ),
            (Phase::UnconfirmedNotified, SyncEvent::Notified) => {
                &&& post == (Self { phase: Phase::TipHeader, ..self })
                &&& action == SyncAction::GetHeaderByHash(self.tip_hash)
            },
            (Phase::TipHeader, SyncEvent::Header(header)) => {
                &&& post == (Self { phase: Phase::TipStatus { header }, ..self })
                &&& action == SyncAction::GetBlockStatus(self.tip_hash)
            },
            (Phase::TipStatus { header }, SyncEvent::BlockStatus(status)) => self.best_block_checked(
                header,
                status,
                post,
                action,
            ),
            (Phase::BestBlockNotified, SyncEvent::Notified) => self.queried(
                self.sync_state,
                Seq::empty(),
                0,
                0,
                post,
                action,
            ),
            (Phase::OutputStatus, SyncEvent::OutputStatus(status)) => self.output_checked(
                status,
                post,
                action,
            ),
            (Phase::MerkleBlock { candidate }, SyncEvent::MerkleBlock(merkle_block)) =>
                self.proof_checked(candidate, merkle_block, post, action),
            (Phase::Tx { candidate, header, block_hash, pos }, SyncEvent::Tx(tx)) =>
                self.transaction_checked(candidate, header, block_hash, pos, tx, post, action),
            (
                Phase::TxBlockStatus { candidate, header, pos, tx },
                SyncEvent::BlockStatus(status),
            ) => self.height_checked(candidate, header, pos, tx, status, post, action),
            (Phase::ConfirmedTip, SyncEvent::TipHash(tip)) => self.confirmed_committed(
                tip,
                post,
                action,
            ),
            (Phase::ConfirmedNotified, SyncEvent::Notified) => {
                &&& post == (Self { phase: Phase::Registrations, ..self })
                &&& action == SyncAction::TakeRegistrations
            },
            _ => self.failed(TxSyncError::Failed, post, action),
        }
    }

    /// True of a machine that watches nothing, has never synchronised and
    /// has no pass under way.
    pub open spec fn is_fresh(self) -> bool {
        &&& self.phase == Phase::Idle
        &&& self.sync_state.watched_transactions@ == Seq::<Txid>::empty()
        &&& self.sync_state.watched_outputs@ == Seq::<WatchedOutput>::empty()
        &&& self.sync_state.output_spends@ == Seq::<SpendStatus>::empty()
        &&& self.sync_state.last_sync_hash is None
        &&& !self.sync_state.pending_sync
        &&& self.sync_state.anti_reorg_delay == crate::common::ANTI_REORG_DELAY
        &&& self.relevant_txids@ == Seq::<RelevantTxid>::empty()
        &&& self.unconfirmed_txs@ == Seq::<Txid>::empty()
        &&& self.confirmed_txs@ == Seq::<ConfirmedTx>::empty()
    }

    /// A machine that watches nothing and has no pass under way.
    pub(crate) fn new() -> (r: Self)
        ensures
            r.wf(),
            r.is_fresh(),
    {
        SyncMachine {
            sync_state: SyncState::new(),
            phase: Phase::Idle,
            tip_hash: BlockHash { bytes: [0u8; 32] },
            relevant_txids: Vec::new(),
            next_relevant: 0,
            unconfirmed_txs: Vec::new(),
            confirmed_txs: Vec::new(),
            next_transaction: 0,
            next_output: 0,
        }
    }

    /// Tells whether the machine is well formed.
    pub(crate) fn is_wf(&self) -> (r: bool)
        ensures
            r == self.wf(),
    {
        if !self.sync_state.is_wf() {
            return false;
        }
        let in_turn = self.next_transaction <= self.sync_state.watched_transactions.len()
            && self.next_output <= self.sync_state.watched_outputs.len() && (self.next_transaction
            < self.sync_state.watched_transactions.len() || self.next_output
            < self.sync_state.watched_outputs.len());
        match &self.phase {
            Phase::RelevantBlockStatus => self.next_relevant < self.relevant_txids.len()
                && self.relevant_txids[self.next_relevant].2.is_some(),
            Phase::OutputStatus => self.next_transaction
                >= self.sync_state.watched_transactions.len() && in_turn && has_distinct_txids(
                &self.confirmed_txs,
            ),
            Phase::MerkleBlock { candidate } => in_turn && has_distinct_txids(&self.confirmed_txs)
                && !contains_confirmed(&self.confirmed_txs, &candidate.txid),
            Phase::Tx { candidate, .. } => in_turn && has_distinct_txids(&self.confirmed_txs)
                && !contains_confirmed(&self.confirmed_txs, &candidate.txid),
            Phase::TxBlockStatus { candidate, .. } => in_turn && has_distinct_txids(
                &self.confirmed_txs,
            ) && !contains_confirmed(&self.confirmed_txs, &candidate.txid),
            Phase::ConfirmedTip => is_in_block_order(&self.confirmed_txs) && has_distinct_txids(
                &self.confirmed_txs,
            ),
            _ => true,
        }
    }

    /// Sets the number of confirmations after which a spend is settled.
    pub(crate) fn set_anti_reorg_delay(&mut self, delay: u32)
        requires
            old(self).wf(),
        ensures
            final(self).wf(),
            *final(self) == (Self {
                sync_state: SyncState { anti_reorg_delay: delay, ..old(self).sync_state },
                ..*old(self)
            }),
    {
        self.sync_state.anti_reorg_delay = delay;
    }

    /// Breaks the pass off with `err`.
    fn fail(&mut self, err: TxSyncError) -> (action: SyncAction)
        requires
            old(self).sync_state.wf(),
        ensures
            final(self).wf(),
            old(self).failed(err, *final(self), action),
    {
        self.sync_state.pending_sync = true;
        self.phase = Phase::Idle;
        SyncAction::Finished(Err(err))
    }

    /// Gives the round up and begins a new one that goes by `tip`.
    fn restart(&mut self, tip: BlockHash) -> (action: SyncAction)
        requires
            old(self).sync_state.wf(),
        ensures
            final(self).wf(),
            old(self).restarted(tip, *final(self), action),
    {
        self.sync_state.pending_sync = true;
        self.tip_hash = tip;
        self.unconfirmed_txs = Vec::new();
        self.confirmed_txs = Vec::new();
        self.phase = Phase::Registrations;
        SyncAction::TakeRegistrations
    }

    /// Looks for the next of the sinks' transactions, from index `from` on,
    /// and asks for the status of its block.
    fn query_relevant(&mut self, from: usize) -> (action: SyncAction)
        requires
            old(self).sync_state.wf(),
            from <= old(self).relevant_txids@.len(),
        ensures
            final(self).wf(),
            old(self).relevant_queried(
                old(self).relevant_txids@,
                from as int,
                old(self).unconfirmed_txs@,
                *final(self),
                action,
            ),
    {
        self.next_relevant = from;
        if from < self.relevant_txids.len() {
            match self.relevant_txids[from].2 {
                Some(block_hash) => {
                    self.phase = Phase::RelevantBlockStatus;
                    SyncAction::GetBlockStatus(block_hash)
                },
                None => {
                    self.sync_state.pending_sync = true;
                    self.phase = Phase::Idle;
                    SyncAction::Finished(Err(TxSyncError::UntrackedConfirmation))
                },
            }
        } else {
            self.phase = Phase::UnconfirmedTip;
            SyncAction::GetTipHash
        }
    }

    /// Looks for the next confirmation to look up, among the watched
    /// transactions from index `from_tx` on and then among the watched
    /// outputs from index `from_output` on.
    fn query_confirmation(&mut self, from_tx: usize, from_output: usize) -> (action: SyncAction)
        requires
            old(self).sync_state.wf(),
            from_tx <= old(self).sync_state.watched_transactions@.len(),
            from_output <= old(self).sync_state.watched_outputs@.len(),
            distinct_txids(old(self).confirmed_txs@),
        ensures
            final(self).wf(),
            old(self).queried(
                old(self).sync_state,
                old(self).confirmed_txs@,
                from_tx as int,
                from_output as int,
                *final(self),
                action,
            ),
    {
        let t = find_unfound(&self.sync_state.watched_transactions, &self.confirmed_txs, from_tx);
        if t < self.sync_state.watched_transactions.len() {
            let txid = self.sync_state.watched_transactions[t];
            self.next_transaction = t;
            self.next_output = from_output;
            self.phase = Phase::MerkleBlock {
                candidate: Candidate { txid, expected_block_hash: None, known_block_height: None },
            };
            return SyncAction::GetMerkleBlock(txid);
        }
        self.next_transaction = t;
        let o = find_unspent(&self.sync_state.output_spends, from_output);
        self.next_output = o;
        if o < self.sync_state.output_spends.len() {
            self.phase = Phase::OutputStatus;
            return SyncAction::GetOutputStatus(self.sync_state.watched_outputs[o].outpoint);
        }
        sort_confirmed(&mut self.confirmed_txs);
        self.phase = Phase::ConfirmedTip;
        SyncAction::GetTipHash
    }

    /// Goes on behind the transaction or output in turn.
    fn finish_candidate(&mut self) -> (action: SyncAction)
        requires
            old(self).sync_state.wf(),
            old(self).collecting(),
        ensures
            final(self).wf(),
            old(self).candidate_done(old(self).confirmed_txs@, *final(self), action),
    {
        if self.next_transaction < self.sync_state.watched_transactions.len() {
            self.query_confirmation(self.next_transaction + 1, self.next_output)
        } else {
            assert(self.next_output < self.sync_state.watched_outputs.len());
            self.query_confirmation(self.next_transaction, self.next_output + 1)
        }
    }

    /// Begins a round with what the registration queue held.
    fn start_round(&mut self, queue: FilterQueue) -> (action: SyncAction)
        requires
            old(self).sync_state.wf(),
        ensures
            final(self).wf(),
            old(self).round_started(queue, *final(self), action),
    {
        let mut queue = queue;
        let pending_registrations = queue.process_queues(&mut self.sync_state);
        let tip_is_new = Some(self.tip_hash) != self.sync_state.last_sync_hash;
        if !self.sync_state.pending_sync && !pending_registrations && !tip_is_new {
            self.phase = Phase::Idle;
            SyncAction::Finished(Ok(()))
        } else if tip_is_new {
            self.phase = Phase::RelevantTxids;
            SyncAction::GetRelevantTxids
        } else {
            self.confirmed_txs = Vec::new();
            self.query_confirmation(0, 0)
        }
    }

    /// Takes the sinks' transactions and asks for the first block.
    fn check_relevant(&mut self, entries: Vec<RelevantTxid>) -> (action: SyncAction)
        requires
            old(self).sync_state.wf(),
        ensures
            final(self).wf(),
            old(self).relevant_queried(
                distinct_relevant(entries@),
                0,
                Seq::empty(),
                *final(self),
                action,
            ),
    {
        self.relevant_txids = dedup_relevant(&entries);
        self.unconfirmed_txs = Vec::new();
        self.query_relevant(0)
    }

    /// Takes the status of the block of the relevant transaction in turn.
    fn check_relevant_block(&mut self, status: BlockStatus) -> (action: SyncAction)
        requires
            old(self).sync_state.wf(),
            old(self).next_relevant < old(self).relevant_txids@.len(),
        ensures
            final(self).wf(),
            old(self).relevant_queried(
                old(self).relevant_txids@,
                old(self).next_relevant + 1,
                if status.in_best_chain {
                    old(self).unconfirmed_txs@
                } else {
                    old(self).unconfirmed_txs@.push(
                        old(self).relevant_txids@[old(self).next_relevant as int].0,
                    )
                },
                *final(self),
                action,
            ),
    {
        assert(self.next_relevant < self.relevant_txids.len());
        if !status.in_best_chain {
            let txid = self.relevant_txids[self.next_relevant].0;
            self.unconfirmed_txs.push(txid);
        }
        self.query_relevant(self.next_relevant + 1)
    }

    /// Takes the tip as it is after the unconfirmed transactions were found.
    fn commit_unconfirmed(&mut self, tip: BlockHash) -> (action: SyncAction)
        requires
            old(self).sync_state.wf(),
        ensures
            final(self).wf(),
            old(self).unconfirmed_committed(tip, *final(self), action),
    {
        if tip != self.tip_hash {
            return self.restart(tip);
        }
        self.sync_state.sync_unconfirmed_transactions(&self.unconfirmed_txs);
        let mut txids: Vec<Txid> = Vec::new();
        core::mem::swap(&mut self.unconfirmed_txs, &mut txids);
        self.phase = Phase::UnconfirmedNotified;
        SyncAction::TransactionsUnconfirmed(txids)
    }

    /// Takes the status of the tip, whose header is `header`.
    fn check_best_block(&mut self, header: Header, status: BlockStatus) -> (action: SyncAction)
        requires
            old(self).sync_state.wf(),
        ensures
            final(self).wf(),
            old(self).best_block_checked(header, status, *final(self), action),
    {
        if !status.in_best_chain {
            return self.restart(self.tip_hash);
        }
        match status.height {
            Some(height) => {
                self.sync_state.prune_output_spends(height);
                self.phase = Phase::BestBlockNotified;
                SyncAction::BestBlockUpdated(header, height)
            },
            None => self.start_confirmations(),
        }
    }

    /// Begins to collect the confirmations of a round.
    fn start_confirmations(&mut self) -> (action: SyncAction)
        requires
            old(self).sync_state.wf(),
        ensures
            final(self).wf(),
            old(self).queried(old(self).sync_state, Seq::empty(), 0, 0, *final(self), action),
    {
        self.confirmed_txs = Vec::new();
        self.query_confirmation(0, 0)
    }

    /// Takes the server's answer about the output in turn.
    fn check_output(&mut self, status: Option<OutputStatus>) -> (action: SyncAction)
        requires
            old(self).sync_state.wf(),
            old(self).collecting(),
            old(self).next_transaction >= old(self).sync_state.watched_transactions@.len(),
        ensures
            final(self).wf(),
            old(self).output_checked(status, *final(self), action),
    {
        match check_output_status(&self.confirmed_txs, &status) {
            Err(_) => self.restart(self.tip_hash),
            Ok(None) => {
                assert(self.next_output < self.sync_state.watched_outputs.len());
                self.query_confirmation(self.next_transaction, self.next_output + 1)
            },
            Ok(Some(candidate)) => {
                self.phase = Phase::MerkleBlock { candidate };
                SyncAction::GetMerkleBlock(candidate.txid)
            },
        }
    }

    /// Takes the server's answer to the request for the candidate's Merkle
    /// block.
    fn check_proof(&mut self, candidate: Candidate, merkle_block: Option<MerkleBlock>) -> (action:
        SyncAction)
        requires
            old(self).sync_state.wf(),
            old(self).looking_up(candidate),
        ensures
            final(self).wf(),
            old(self).proof_checked(candidate, merkle_block, *final(self), action),
    {
        match merkle_block {
            None => self.finish_candidate(),
            Some(block) => {
                match check_merkle_block(&candidate.txid, &candidate.expected_block_hash, &block) {
                    Err(InternalError::Inconsistency) => self.restart(self.tip_hash),
                    Err(InternalError::Failed) => self.fail(TxSyncError::Failed),
                    Ok((block_hash, pos)) => {
                        self.phase = Phase::Tx { candidate, header: block.header, block_hash, pos };
                        SyncAction::GetTx(candidate.txid)
                    },
                }
            },
        }
    }

    /// Takes the server's answer to the request for the candidate's
    /// transaction.
    fn check_tx(
        &mut self,
        candidate: Candidate,
        header: Header,
        block_hash: BlockHash,
        pos: usize,
        tx: Option<TransactionData>,
    ) -> (action: SyncAction)
        requires
            old(self).sync_state.wf(),
            old(self).looking_up(candidate),
        ensures
            final(self).wf(),
            old(self).transaction_checked(
                candidate,
                header,
                block_hash,
                pos,
                tx,
                *final(self),
                action,
            ),
    {
        match tx {
            None => self.finish_candidate(),
            Some(tx) => {
                match check_transaction(&candidate.txid, &tx) {
                    Err(_) => self.fail(TxSyncError::Failed),
                    Ok(false) => self.finish_candidate(),
                    Ok(true) => {
                        match candidate.known_block_height {
                            Some(block_height) => {
                                self.confirmed_txs.push(
                                    ConfirmedTx {
                                        tx,
                                        txid: candidate.txid,
                                        block_header: header,
                                        block_height,
                                        pos,
                                    },
                                );
                                assert(distinct_txids(self.confirmed_txs@)) by {
                                    let found = old(self).confirmed_txs@;
                                    assert(forall|i: int|
                                        0 <= i < found.len() ==> #[trigger] self.confirmed_txs@[i]
                                            == found[i]);
                                }
                                self.finish_candidate()
                            },
                            None => {
                                self.phase = Phase::TxBlockStatus { candidate, header, pos, tx };
                                SyncAction::GetBlockStatus(block_hash)
                            },
                        }
                    },
                }
            },
        }
    }

    /// Takes the status of the block that holds the candidate's transaction.
    fn check_height(
        &mut self,
        candidate: Candidate,
        header: Header,
        pos: usize,
        tx: TransactionData,
        status: BlockStatus,
    ) -> (action: SyncAction)
        requires
            old(self).sync_state.wf(),
            old(self).looking_up(candidate),
        ensures
            final(self).wf(),
            old(self).height_checked(candidate, header, pos, tx, status, *final(self), action),
    {
        match resolve_height(&status) {
            Ok(block_height) => {
                self.confirmed_txs.push(
                    ConfirmedTx { tx, txid: candidate.txid, block_header: header, block_height, pos },
                );
                assert(distinct_txids(self.confirmed_txs@)) by {
                    let found = old(self).confirmed_txs@;
                    assert(forall|i: int|
                        0 <= i < found.len() ==> #[trigger] self.confirmed_txs@[i] == found[i]);
                }
                self.finish_candidate()
            },
            Err(_) => self.restart(self.tip_hash),
        }
    }

    /// Takes the tip as it is after the confirmations were collected.
    fn commit_confirmed(&mut self, tip: BlockHash) -> (action: SyncAction)
        requires
            old(self).sync_state.wf(),
        ensures
            final(self).wf(),
            old(self).confirmed_committed(tip, *final(self), action),
    {
        if tip != self.tip_hash {
            return self.restart(tip);
        }
        self.sync_state.sync_confirmed_transactions(&self.confirmed_txs);
        self.sync_state.last_sync_hash = Some(self.tip_hash);
        self.sync_state.pending_sync = false;
        let mut txs: Vec<ConfirmedTx> = Vec::new();
        core::mem::swap(&mut self.confirmed_txs, &mut txs);
        self.phase = Phase::ConfirmedNotified;
        SyncAction::TransactionsConfirmed(txs)
    }

    /// Takes what happened last and tells what is to be done next.
    pub(crate) fn sync(&mut self, event: SyncEvent) -> (action: SyncAction)
        requires
            old(self).wf(),
        ensures
            final(self).wf(),
            old(self).step(event, *final(self), action),
            action matches SyncAction::TransactionsConfirmed(txs) ==> in_block_order(txs@),
    {
        let mut phase = Phase::Idle;
        core::mem::swap(&mut self.phase, &mut phase);
        match (phase, event) {
            (Phase::Idle, SyncEvent::Start) => {
                self.phase = Phase::InitialTip;
                SyncAction::GetTipHash
            },
            (Phase::InitialTip, SyncEvent::TipHash(tip)) => {
                self.tip_hash = tip;
                self.phase = Phase::Registrations;
                SyncAction::TakeRegistrations
            },
            (Phase::Registrations, SyncEvent::Registrations(queue)) => self.start_round(queue),
            (Phase::RelevantTxids, SyncEvent::RelevantTxids(entries)) => self.check_relevant(
                entries,
            ),
            (Phase::RelevantBlockStatus, SyncEvent::BlockStatus(status)) =>
                self.check_relevant_block(status),
            (Phase::UnconfirmedTip, SyncEvent::TipHash(tip)) => self.commit_unconfirmed(tip),
            (Phase::UnconfirmedNotified, SyncEvent::Notified) => {
                self.phase = Phase::TipHeader;
                SyncAction::GetHeaderByHash(self.tip_hash)
            },
            (Phase::TipHeader, SyncEvent::Header(header)) => {
                self.phase = Phase::TipStatus { header };
                SyncAction::GetBlockStatus(self.tip_hash)
            },
            (Phase::TipStatus { header }, SyncEvent::BlockStatus(status)) => self.check_best_block(
                header,
                status,
            ),
            (Phase::BestBlockNotified, SyncEvent::Notified) => self.start_confirmations(),
            (Phase::OutputStatus, SyncEvent::OutputStatus(status)) => self.check_output(status),
            (Phase::MerkleBlock { candidate }, SyncEvent::MerkleBlock(merkle_block)) =>
                self.check_proof(candidate, merkle_block),
            (Phase::Tx { candidate, header, block_hash, pos }, SyncEvent::Tx(tx)) => self.check_tx(
                candidate,
                header,
                block_hash,
                pos,
                tx,
            ),
            (
                Phase::TxBlockStatus { candidate, header, pos, tx },
                SyncEvent::BlockStatus(status),
            ) => self.check_height(candidate, header, pos, tx, status),
            (Phase::ConfirmedTip, SyncEvent::TipHash(tip)) => self.commit_confirmed(tip),
            (Phase::ConfirmedNotified, SyncEvent::Notified) => {
                self.phase = Phase::Registrations;
                SyncAction::TakeRegistrations
            },
            _ => self.fail(TxSyncError::Failed),
        }
    }
}

/// Synchronises what is watched with an Esplora server.
///
/// The transactions and outputs to watch come in through a [`FilterQueue`]
/// and are taken over at the start of each round of a pass. Nothing else
/// changes what is watched: the machine can be read, and is changed by
/// [`EsploraSyncClient::sync`] alone.
#[derive(Debug)]
pub struct EsploraSyncClient {
    machine: SyncMachine,
    client: esplora_client::BlockingClient,
}

impl View for EsploraSyncClient {
    type V = SyncMachine;

    closed spec fn view(&self) -> SyncMachine {
        self.machine
    }
}

impl EsploraSyncClient {
    /// The machine of a client is well formed at all times.
    #[verifier::type_invariant]
    spec fn well_formed(self) -> bool {
        self.machine.wf()
    }

    /// The client through which the server is to be queried.
    pub closed spec fn outside_client(&self) -> esplora_client::BlockingClient {
        self.client
    }

    /// A client for the server at `server_url`, which watches nothing yet.
    pub fn new(server_url: String) -> (r: Self)
        ensures
            r@.wf(),
            r@.is_fresh(),
    {
        Self::from_client(build_blocking_client(server_url.as_str()))
    }

    /// A client that queries through `client` and watches nothing yet.
    pub fn from_client(client: esplora_client::BlockingClient) -> (r: Self)
        ensures
            r@.wf(),
            r@.is_fresh(),
            r.outside_client() == client,
    {
        EsploraSyncClient { machine: SyncMachine::new(), client }
    }

    /// The client through which the server is to be queried.
    pub fn client(&self) -> (r: &esplora_client::BlockingClient)
        ensures
            *r == self.outside_client(),
    {
        &self.client
    }

    /// What is watched, and how far the last pass came.
    pub fn sync_state(&self) -> (r: &SyncState)
        ensures
            *r == self@.sync_state,
    {
        &self.machine.sync_state
    }

    /// What the machine waits for.
    pub fn phase(&self) -> (r: &Phase)
        ensures
            *r == self@.phase,
    {
        &self.machine.phase
    }

    /// The tip that the pass under way goes by.
    pub fn tip_hash(&self) -> (r: BlockHash)
        ensures
            r == self@.tip_hash,
    {
        self.machine.tip_hash
    }

    /// The transactions that the sinks hold to be confirmed, each once.
    pub fn relevant_txids(&self) -> (r: &Vec<RelevantTxid>)
        ensures
            *r == self@.relevant_txids,
    {
        &self.machine.relevant_txids
    }

    /// The confirmations found in the round under way.
    pub fn confirmed_txs(&self) -> (r: &Vec<ConfirmedTx>)
        ensures
            *r == self@.confirmed_txs,
    {
        &self.machine.confirmed_txs
    }

    /// Tells whether the machine is well formed.
    pub fn is_wf(&self) -> (r: bool)
        ensures
            r == self@.wf(),
    {
        self.machine.is_wf()
    }

    /// Sets the number of confirmations after which a spend is settled.
    pub fn set_anti_reorg_delay(&mut self, delay: u32)
        ensures
            old(self)@.wf(),
            final(self)@.wf(),
            final(self)@ == (SyncMachine {
                sync_state: SyncState { anti_reorg_delay: delay, ..old(self)@.sync_state },
                ..old(self)@
            }),
            final(self).outside_client() == old(self).outside_client(),
    {
        proof {
            use_type_invariant(&*self);
        }
        let mut machine = SyncMachine::new();
        core::mem::swap(&mut self.machine, &mut machine);
        machine.set_anti_reorg_delay(delay);
        core::mem::swap(&mut self.machine, &mut machine);
    }

    /// Takes what happened last and tells what is to be done next.
    ///
    /// A pass begins with [`SyncEvent::Start`] and is over when the answer is
    /// [`SyncAction::Finished`]. In between, each answer names one query or
    /// one notification, and the next call brings its outcome. Confirmed
    /// transactions are only ever handed on in block order, and none twice
    /// in one batch.
    pub fn sync(&mut self, event: SyncEvent) -> (action: SyncAction)
        ensures
            old(self)@.wf(),
            final(self)@.wf(),
            old(self)@.step(event, final(self)@, action),
            action matches SyncAction::TransactionsConfirmed(txs) ==> in_block_order(txs@)
                && distinct_txids(txs@),
            final(self).outside_client() == old(self).outside_client(),
    {
        proof {
            use_type_invariant(&*self);
        }
        // The machine is taken out for the step, so that what the client
        // holds is well formed at every moment.
        let mut machine = SyncMachine::new();
        core::mem::swap(&mut self.machine, &mut machine);
        let action = machine.sync(event);
        core::mem::swap(&mut self.machine, &mut machine);
        action
    }
}

} // verus!
