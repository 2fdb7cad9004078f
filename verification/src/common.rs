//! What is watched, what waits to be watched, and what was found confirmed.

use crate::hashes::{BlockHash, OutPoint, Txid};
use crate::transaction::{Header, TransactionData};
use vstd::prelude::*;

verus! {

/// The number of confirmations after which a spend is taken to be final.
pub const ANTI_REORG_DELAY: u32 = 6;

/// An output whose spending the caller wants to hear of.
#[derive(Clone, Debug, PartialEq, Eq)]
pub struct WatchedOutput {
    /// The first block in which the output may have been spent, if known.
    pub block_hash: Option<BlockHash>,
    pub outpoint: OutPoint,
    pub script_pubkey: Vec<u8>,
}

/// What is known of the spending of a watched output.
#[derive(Clone, Copy, Debug, PartialEq, Eq)]
pub enum SpendStatus {
    /// No confirmed spend is known: the output is looked up in every pass.
    Unspent,
    /// Transaction `txid` spends the output and was confirmed at `height`.
    Spent { txid: Txid, height: u32 },
    /// The spend is buried deep enough: the output is looked up no more.
    Settled,
}

/// A transaction found in a block, with the place where it was found.
#[derive(Clone, Debug, PartialEq, Eq)]
pub struct ConfirmedTx {
    pub tx: TransactionData,
    pub txid: Txid,
    pub block_header: Header,
    pub block_height: u32,
    pub pos: usize,
}

/// `watched` with `txid` at its end, unless `watched` holds it already.
pub open spec fn with_txid(watched: Seq<Txid>, txid: Txid) -> Seq<Txid> {
    if watched.contains(txid) {
        watched
    } else {
        watched.push(txid)
    }
}

/// `watched` after the ids of `added` were added one by one, first to last.
pub open spec fn with_txids(watched: Seq<Txid>, added: Seq<Txid>) -> Seq<Txid>
    decreases added.len(),
{
    if added.len() == 0 {
        watched
    } else {
        with_txid(with_txids(watched, added.drop_last()), added.last())
    }
}

/// True if one of `outputs` has the outpoint `outpoint`.
pub open spec fn holds_outpoint(outputs: Seq<WatchedOutput>, outpoint: OutPoint) -> bool {
    exists|i: int| 0 <= i < outputs.len() && (#[trigger] outputs[i]).outpoint == outpoint
}

/// `outputs` with `output` at its end, unless its outpoint is there already.
pub open spec fn with_output(outputs: Seq<WatchedOutput>, output: WatchedOutput) -> Seq<
    WatchedOutput,
> {
    if holds_outpoint(outputs, output.outpoint) {
        outputs
    } else {
        outputs.push(output)
    }
}

/// `outputs` after `added` were added one by one, first to last.
pub open spec fn with_outputs(outputs: Seq<WatchedOutput>, added: Seq<WatchedOutput>) -> Seq<
    WatchedOutput,
>
    decreases added.len(),
{
    if added.len() == 0 {
        outputs
    } else {
        with_output(with_outputs(outputs, added.drop_last()), added.last())
    }
}

/// True if no two entries of `outputs` have the same outpoint.
pub open spec fn distinct_outpoints(outputs: Seq<WatchedOutput>) -> bool {
    forall|i: int, j: int|
        0 <= i < j < outputs.len() ==> (#[trigger] outputs[i]).outpoint != (
        #[trigger] outputs[j]).outpoint
}

/// Tells whether `watched` holds `txid`.
pub fn contains_txid(watched: &Vec<Txid>, txid: &Txid) -> (r: bool)
    ensures
        r == watched@.contains(*txid),
{
    let mut i: usize = 0;
    while i < watched.len()
        invariant
            i <= watched.len(),
            forall|j: int| 0 <= j < i ==> watched@[j] != *txid,
        decreases watched.len() - i,
    {
        if watched[i] == *txid {
            return true;
        }
        i += 1;
    }
    false
}

/// The index of the entry of `outputs` with the outpoint `outpoint`, if there
/// is one; the first, should there be several.
pub fn find_outpoint(outputs: &Vec<WatchedOutput>, outpoint: &OutPoint) -> (r: Option<usize>)
    ensures
        r is Some <==> holds_outpoint(outputs@, *outpoint),
        r matches Some(i) ==> i < outputs.len() && outputs@[i as int].outpoint == *outpoint
            && forall|j: int| 0 <= j < i ==> outputs@[j].outpoint != *outpoint,
{
    let mut i: usize = 0;
    while i < outputs.len()
        invariant
            i <= outputs.len(),
            forall|j: int| 0 <= j < i ==> outputs@[j].outpoint != *outpoint,
        decreases outputs.len() - i,
    {
        if outputs[i].outpoint == *outpoint {
            return Some(i);
        }
        i += 1;
    }
    None
}

/// Takes `txid` out of `watched`, if it is there.
pub fn remove_txid(watched: &mut Vec<Txid>, txid: &Txid)
    requires
        old(watched)@.no_duplicates(),
    ensures
        final(watched)@ == old(watched)@.remove_value(*txid),
        final(watched)@.no_duplicates(),
        !final(watched)@.contains(*txid),
{
    let mut i: usize = 0;
    while i < watched.len()
        invariant
            i <= watched.len(),
            *watched == *old(watched),
            watched@.no_duplicates(),
            forall|j: int| 0 <= j < i ==> watched@[j] != *txid,
        decreases watched.len() - i,
    {
        if watched[i] == *txid {
            let ghost before = watched@;
            proof {
                before.index_of_first_ensures(*txid);
                assert(before.contains(*txid));
                assert(before.index_of_first(*txid) == Some(i as int));
            }
            watched.remove(i);
            assert forall|j: int, k: int| 0 <= j < k < watched@.len() implies watched@[j]
                != watched@[k] by {
                let jj = if j < i { j } else { j + 1 };
                let kk = if k < i { k } else { k + 1 };
                assert(before[jj] != before[kk]);
            }
            assert forall|j: int| 0 <= j < watched@.len() implies watched@[j] != *txid by {
                let jj = if j < i { j } else { j + 1 };
                assert(before[jj] != before[i as int]);
            }
            return ;
        }
        i += 1;
    }
    proof {
        watched@.index_of_first_ensures(*txid);
    }
}

/// Tells whether `txids` holds no transaction twice.
pub fn has_no_duplicates(txids: &Vec<Txid>) -> (r: bool)
    ensures
        r == txids@.no_duplicates(),
{
    let mut i: usize = 0;
    while i < txids.len()
        invariant
            i <= txids.len(),
            forall|a: int, b: int| 0 <= a < b < i ==> txids@[a] != txids@[b],
        decreases txids.len() - i,
    {
        let mut j: usize = 0;
        while j < i
            invariant
                j <= i < txids.len(),
                forall|a: int| 0 <= a < j ==> txids@[a] != txids@[i as int],
            decreases i - j,
        {
            if txids[j] == txids[i] {
                return false;
            }
            j += 1;
        }
        i += 1;
    }
    true
}

/// Tells whether no two of `outputs` have the same outpoint.
pub fn has_distinct_outpoints(outputs: &Vec<WatchedOutput>) -> (r: bool)
    ensures
        r == distinct_outpoints(outputs@),
{
    let mut i: usize = 0;
    while i < outputs.len()
        invariant
            i <= outputs.len(),
            forall|a: int, b: int|
                0 <= a < b < i ==> (#[trigger] outputs@[a]).outpoint != (
                #[trigger] outputs@[b]).outpoint,
        decreases outputs.len() - i,
    {
        let mut j: usize = 0;
        while j < i
            invariant
                j <= i < outputs.len(),
                forall|a: int|
                    0 <= a < j ==> (#[trigger] outputs@[a]).outpoint != outputs@[i as int].outpoint,
            decreases i - j,
        {
            if outputs[j].outpoint == outputs[i].outpoint {
                return false;
            }
            j += 1;
        }
        i += 1;
    }
    true
}

/// Registrations that wait for the next safe point of a synchronisation.
#[derive(Clone, Debug, PartialEq, Eq)]
pub struct FilterQueue {
    /// The transactions registered since the queue was last emptied, each once.
    pub transactions: Vec<Txid>,
    /// The outputs registered since then, one for each outpoint.
    pub outputs: Vec<WatchedOutput>,
}

impl FilterQueue {
    /// True if the queue holds no transaction twice and no outpoint twice.
    pub open spec fn wf(&self) -> bool {
        &&& self.transactions@.no_duplicates()
        &&& distinct_outpoints(self.outputs@)
    }

    /// Tells whether the queue is well formed.
    pub fn is_wf(&self) -> (r: bool)
        ensures
            r == self.wf(),
    {
        has_no_duplicates(&self.transactions) && has_distinct_outpoints(&self.outputs)
    }

    /// An empty queue.
    pub fn new() -> (r: Self)
        ensures
            r.transactions@ == Seq::<Txid>::empty(),
            r.outputs@ == Seq::<WatchedOutput>::empty(),
            r.wf(),
    {
        FilterQueue { transactions: Vec::new(), outputs: Vec::new() }
    }

    /// Empties the queue and hands back what it held.
    pub fn take(&mut self) -> (r: Self)
        ensures
            r == *old(self),
            final(self).transactions@ == Seq::<Txid>::empty(),
            final(self).outputs@ == Seq::<WatchedOutput>::empty(),
            final(self).wf(),
    {
        let mut held = FilterQueue::new();
        core::mem::swap(self, &mut held);
        held
    }

    /// Registers a transaction. One that is in the queue already is not added
    /// again.
    pub fn register_tx(&mut self, txid: Txid)
        ensures
            old(self).wf() ==> final(self).wf(),
            final(self).transactions@ == with_txid(old(self).transactions@, txid),
            final(self).outputs@ == old(self).outputs@,
    {
        if !contains_txid(&self.transactions, &txid) {
            self.transactions.push(txid);
        }
    }

    /// Registers an output. Where the queue holds one with the same outpoint
    /// already, that one stays and `output` is dropped.
    pub fn register_output(&mut self, output: WatchedOutput)
        ensures
            old(self).wf() ==> final(self).wf(),
            final(self).outputs@ == with_output(old(self).outputs@, output),
            final(self).transactions@ == old(self).transactions@,
    {
        if find_outpoint(&self.outputs, &output.outpoint).is_none() {
            self.outputs.push(output);
        }
    }

    /// Moves every registration into `sync_state` and leaves the queue empty.
    /// A transaction or an outpoint that `sync_state` holds already is dropped.
    /// Tells whether the queue held anything.
    pub fn process_queues(&mut self, sync_state: &mut SyncState) -> (pending_registrations: bool)
        requires
            old(sync_state).wf(),
        ensures
            pending_registrations == (old(self).transactions@.len() > 0 || old(self).outputs@.len()
                > 0),
            final(self).transactions@ == Seq::<Txid>::empty(),
            final(self).outputs@ == Seq::<WatchedOutput>::empty(),
            final(self).wf(),
            final(sync_state).wf(),
            old(sync_state).merged(old(self).transactions@, old(self).outputs@, *final(sync_state)),
    {
        let mut transactions: Vec<Txid> = Vec::new();
        let mut outputs: Vec<WatchedOutput> = Vec::new();
        core::mem::swap(&mut self.transactions, &mut transactions);
        core::mem::swap(&mut self.outputs, &mut outputs);
        let pending_registrations = transactions.len() > 0 || outputs.len() > 0;

        let mut i: usize = 0;
        while i < transactions.len()
            invariant
                i <= transactions.len(),
                sync_state.watched_transactions@.no_duplicates(),
                sync_state.watched_transactions@ == with_txids(
                    old(sync_state).watched_transactions@,
                    transactions@.take(i as int),
                ),
                sync_state.watched_outputs == old(sync_state).watched_outputs,
                sync_state.output_spends == old(sync_state).output_spends,
                sync_state.last_sync_hash == old(sync_state).last_sync_hash,
                sync_state.pending_sync == old(sync_state).pending_sync,
                sync_state.anti_reorg_delay == old(sync_state).anti_reorg_delay,
            decreases transactions.len() - i,
        {
            let txid = transactions[i];
            assert(transactions@.take(i + 1).drop_last() == transactions@.take(i as int));
            if !contains_txid(&sync_state.watched_transactions, &txid) {
                sync_state.watched_transactions.push(txid);
            }
            i += 1;
        }
        assert(transactions@.take(i as int) == transactions@);

        let ghost all_outputs = outputs@;
        let ghost spends = old(sync_state).output_spends@;
        let ghost watched = old(sync_state).watched_outputs@;
        for output in it: outputs
            invariant
                it.seq() == all_outputs,
                distinct_outpoints(sync_state.watched_outputs@),
                sync_state.watched_outputs@ == with_outputs(
                    watched,
                    all_outputs.take(it.index() as int),
                ),
                sync_state.watched_outputs@.len() >= watched.len(),
                sync_state.output_spends@ == spends + Seq::new(
                    (sync_state.watched_outputs@.len() - watched.len()) as nat,
                    |i: int| SpendStatus::Unspent,
                ),
                sync_state.watched_transactions@ == with_txids(
                    old(sync_state).watched_transactions@,
                    transactions@,
                ),
                sync_state.watched_transactions@.no_duplicates(),
                spends.len() == watched.len(),
                sync_state.last_sync_hash == old(sync_state).last_sync_hash,
                sync_state.pending_sync == old(sync_state).pending_sync,
                sync_state.anti_reorg_delay == old(sync_state).anti_reorg_delay,
        {
            assert(all_outputs.take(it.index() + 1).drop_last() == all_outputs.take(
                it.index() as int,
            ));
            if find_outpoint(&sync_state.watched_outputs, &output.outpoint).is_none() {
                sync_state.watched_outputs.push(output);
                sync_state.output_spends.push(SpendStatus::Unspent);
            }
        }
        assert(all_outputs.take(all_outputs.len() as int) == all_outputs);
        pending_registrations
    }
}

/// True if one of the inputs of `tx` spends `outpoint`.
pub open spec fn spends(tx: TransactionData, outpoint: OutPoint) -> bool {
    exists|i: int| 0 <= i < tx.input@.len() && (#[trigger] tx.input@[i]).previous_output == outpoint
}

/// The status of the output `outpoint` once `confirmed` is known to be
/// confirmed: a spend is recorded only where none was known.
pub open spec fn spend_after_confirmation(
    status: SpendStatus,
    outpoint: OutPoint,
    confirmed: ConfirmedTx,
) -> SpendStatus {
    if status is Unspent && spends(confirmed.tx, outpoint) {
        SpendStatus::Spent { txid: confirmed.txid, height: confirmed.block_height }
    } else {
        status
    }
}

/// True if one of the first `upto` inputs of `confirmed` spends `outpoint`.
pub open spec fn spent_among(confirmed: ConfirmedTx, outpoint: OutPoint, upto: int) -> bool {
    exists|k: int|
        0 <= k < upto && k < confirmed.tx.input@.len() && (
        #[trigger] confirmed.tx.input@[k]).previous_output == outpoint
}

/// The status of the output `outpoint` once the first `upto` inputs of
/// `confirmed` are taken note of.
pub open spec fn spend_after_inputs(
    status: SpendStatus,
    outpoint: OutPoint,
    confirmed: ConfirmedTx,
    upto: int,
) -> SpendStatus {
    if status is Unspent && spent_among(confirmed, outpoint, upto) {
        SpendStatus::Spent { txid: confirmed.txid, height: confirmed.block_height }
    } else {
        status
    }
}

/// The status of the output `outpoint` after each of `confirmed` in turn.
pub open spec fn spend_after_confirmations(
    status: SpendStatus,
    outpoint: OutPoint,
    confirmed: Seq<ConfirmedTx>,
) -> SpendStatus
    decreases confirmed.len(),
{
    if confirmed.len() == 0 {
        status
    } else {
        spend_after_confirmation(
            spend_after_confirmations(status, outpoint, confirmed.drop_last()),
            outpoint,
            confirmed.last(),
        )
    }
}

/// `watched` without the ids of `confirmed`.
pub open spec fn without_confirmed(watched: Seq<Txid>, confirmed: Seq<ConfirmedTx>) -> Seq<Txid>
    decreases confirmed.len(),
{
    if confirmed.len() == 0 {
        watched
    } else {
        without_confirmed(watched, confirmed.drop_last()).remove_value(confirmed.last().txid)
    }
}

/// The status of an output once the transactions `unconfirmed` have left the
/// chain: a spend by one of them is forgotten.
pub open spec fn spend_after_unconfirmation(
    status: SpendStatus,
    unconfirmed: Seq<Txid>,
) -> SpendStatus {
    match status {
        SpendStatus::Spent { txid, height } => if unconfirmed.contains(txid) {
            SpendStatus::Unspent
        } else {
            status
        },
        _ => status,
    }
}

/// True if a spend confirmed at `conf_height` still has fewer than `delay`
/// confirmations when the chain is `cur_height` blocks high.
pub open spec fn below_threshold(cur_height: u32, conf_height: u32, delay: u32) -> bool {
    cur_height < conf_height + delay - 1
}

/// The status of an output once the chain is `cur_height` blocks high: a spend
/// with `delay` confirmations or more is settled.
pub open spec fn spend_after_pruning(status: SpendStatus, cur_height: u32, delay: u32) -> SpendStatus {
    match status {
        SpendStatus::Spent { txid, height } => if below_threshold(cur_height, height, delay) {
            status
        } else {
            SpendStatus::Settled
        },
        _ => status,
    }
}

/// The first index from `from` on at which `spends` says `Unspent`; the
/// length of `spends` if there is none.
pub open spec fn next_unspent(spends: Seq<SpendStatus>, from: int) -> int
    decreases spends.len() - from,
{
    if from < 0 || from >= spends.len() {
        spends.len() as int
    } else if spends[from] is Unspent {
        from
    } else {
        next_unspent(spends, from + 1)
    }
}

/// Finds the next output, from index `from` on, of which no spend is known.
pub fn find_unspent(spends: &Vec<SpendStatus>, from: usize) -> (r: usize)
    requires
        from <= spends.len(),
    ensures
        r == next_unspent(spends@, from as int),
        from <= r <= spends.len(),
{
    let mut i: usize = from;
    while i < spends.len()
        invariant
            from <= i <= spends.len(),
            next_unspent(spends@, from as int) == next_unspent(spends@, i as int),
        decreases spends.len() - i,
    {
        match spends[i] {
            SpendStatus::Unspent => {
                return i;
            },
            _ => {},
        }
        i += 1;
    }
    i
}

/// The transactions and outputs that a synchronisation looks after, and how
/// far it has come.
#[derive(Clone, Debug, PartialEq, Eq)]
pub struct SyncState {
    /// The transactions whose confirmation is awaited, in the order in which
    /// they came to be watched.
    pub watched_transactions: Vec<Txid>,
    /// Every output that was ever registered, in the order of registration.
    pub watched_outputs: Vec<WatchedOutput>,
    /// For each entry of `watched_outputs`, what is known of its spending.
    pub output_spends: Vec<SpendStatus>,
    /// The tip at the end of the last pass that ran to its end.
    pub last_sync_hash: Option<BlockHash>,
    /// True while a pass was broken off and has to be made up for.
    pub pending_sync: bool,
    /// The number of confirmations after which a spend is settled.
    pub anti_reorg_delay: u32,
}

impl SyncState {
    /// True if no transaction and no outpoint is held twice and every output
    /// has its status.
    pub open spec fn wf(&self) -> bool {
        &&& self.watched_transactions@.no_duplicates()
        &&& distinct_outpoints(self.watched_outputs@)
        &&& self.output_spends@.len() == self.watched_outputs@.len()
    }

    /// True if `post` is this state after the registrations `transactions`
    /// and `outputs` were taken in, in that order: what was watched already
    /// stays as it is, and each new output starts as unspent.
    pub open spec fn merged(
        self,
        transactions: Seq<Txid>,
        outputs: Seq<WatchedOutput>,
        post: SyncState,
    ) -> bool {
        &&& post.watched_transactions@ == with_txids(self.watched_transactions@, transactions)
        &&& post.watched_outputs@ == with_outputs(self.watched_outputs@, outputs)
        &&& post.output_spends@ == self.output_spends@ + Seq::new(
            (post.watched_outputs@.len() - self.watched_outputs@.len()) as nat,
            |i: int| SpendStatus::Unspent,
        )
        &&& post.last_sync_hash == self.last_sync_hash
        &&& post.pending_sync == self.pending_sync
        &&& post.anti_reorg_delay == self.anti_reorg_delay
    }

    /// True if `post` is this state after the transaction `confirmed` was
    /// found in a block: its confirmation is awaited no more, and each output
    /// that it spends, and of which no spend was known, is marked as spent
    /// by it.
    pub open spec fn confirmed_one(self, confirmed: ConfirmedTx, post: SyncState) -> bool {
        &&& post.watched_transactions@ == self.watched_transactions@.remove_value(confirmed.txid)
        &&& post.watched_outputs == self.watched_outputs
        &&& post.output_spends@.len() == self.output_spends@.len()
        &&& forall|i: int|
            0 <= i < self.output_spends@.len() ==> #[trigger] post.output_spends@[i]
                == spend_after_confirmation(
                self.output_spends@[i],
                self.watched_outputs@[i].outpoint,
                confirmed,
            )
        &&& post.last_sync_hash == self.last_sync_hash
        &&& post.pending_sync == self.pending_sync
        &&& post.anti_reorg_delay == self.anti_reorg_delay
    }

    /// True if `post` is this state after the transactions `confirmed` were
    /// found in blocks, first to last: their confirmation is awaited no more,
    /// and each output that one of them spends is marked as spent by the
    /// first that does.
    pub open spec fn confirmed(self, confirmed: Seq<ConfirmedTx>, post: SyncState) -> bool {
        &&& post.watched_transactions@ == without_confirmed(self.watched_transactions@, confirmed)
        &&& post.watched_outputs == self.watched_outputs
        &&& post.output_spends@.len() == self.output_spends@.len()
        &&& forall|i: int|
            0 <= i < self.output_spends@.len() ==> #[trigger] post.output_spends@[i]
                == spend_after_confirmations(
                self.output_spends@[i],
                self.watched_outputs@[i].outpoint,
                confirmed,
            )
        &&& post.last_sync_hash == self.last_sync_hash
        &&& post.pending_sync == self.pending_sync
        &&& post.anti_reorg_delay == self.anti_reorg_delay
    }

    /// True if `post` is this state after the transactions `txids` have left
    /// the chain: their confirmation is awaited again, and an output that one
    /// of them was known to spend is unspent again.
    pub open spec fn unconfirmed(self, txids: Seq<Txid>, post: SyncState) -> bool {
        &&& post.watched_transactions@ == with_txids(self.watched_transactions@, txids)
        &&& post.watched_outputs == self.watched_outputs
        &&& post.output_spends@.len() == self.output_spends@.len()
        &&& forall|i: int|
            0 <= i < self.output_spends@.len() ==> #[trigger] post.output_spends@[i]
                == spend_after_unconfirmation(self.output_spends@[i], txids)
        &&& post.last_sync_hash == self.last_sync_hash
        &&& post.pending_sync == self.pending_sync
        &&& post.anti_reorg_delay == self.anti_reorg_delay
    }

    /// True if `post` is this state after the spends with enough
    /// confirmations at height `cur_height` were settled.
    pub open spec fn pruned(self, cur_height: u32, post: SyncState) -> bool {
        &&& post.watched_transactions == self.watched_transactions
        &&& post.watched_outputs == self.watched_outputs
        &&& post.output_spends@.len() == self.output_spends@.len()
        &&& forall|i: int|
            0 <= i < self.output_spends@.len() ==> #[trigger] post.output_spends@[i]
                == spend_after_pruning(self.output_spends@[i], cur_height, self.anti_reorg_delay)
        &&& post.last_sync_hash == self.last_sync_hash
        &&& post.pending_sync == self.pending_sync
        &&& post.anti_reorg_delay == self.anti_reorg_delay
    }

    /// Tells whether the state is well formed.
    pub fn is_wf(&self) -> (r: bool)
        ensures
            r == self.wf(),
    {
        has_no_duplicates(&self.watched_transactions) && has_distinct_outpoints(
            &self.watched_outputs,
        ) && self.output_spends.len() == self.watched_outputs.len()
    }

    /// A state that watches nothing and has never synchronised.
    pub fn new() -> (r: Self)
        ensures
            r.wf(),
            r.watched_transactions@ == Seq::<Txid>::empty(),
            r.watched_outputs@ == Seq::<WatchedOutput>::empty(),
            r.output_spends@ == Seq::<SpendStatus>::empty(),
            r.last_sync_hash is None,
            !r.pending_sync,
            r.anti_reorg_delay == ANTI_REORG_DELAY,
    {
        SyncState {
            watched_transactions: Vec::new(),
            watched_outputs: Vec::new(),
            output_spends: Vec::new(),
            last_sync_hash: None,
            pending_sync: false,
            anti_reorg_delay: ANTI_REORG_DELAY,
        }
    }

    /// Settles every spend that has `anti_reorg_delay` confirmations or more
    /// when the chain is `cur_height` blocks high.
    pub fn prune_output_spends(&mut self, cur_height: u32)
        requires
            old(self).wf(),
        ensures
            final(self).wf(),
            old(self).pruned(cur_height, *final(self)),
    {
        let delay: u64 = self.anti_reorg_delay as u64;
        let mut i: usize = 0;
        while i < self.output_spends.len()
            invariant
                i <= self.output_spends@.len(),
                delay == old(self).anti_reorg_delay,
                self.output_spends@.len() == old(self).output_spends@.len(),
                self.watched_transactions == old(self).watched_transactions,
                self.watched_outputs == old(self).watched_outputs,
                self.last_sync_hash == old(self).last_sync_hash,
                self.pending_sync == old(self).pending_sync,
                self.anti_reorg_delay == old(self).anti_reorg_delay,
                forall|j: int|
                    0 <= j < i ==> (#[trigger] self.output_spends@[j]) == spend_after_pruning(
                        old(self).output_spends@[j],
                        cur_height,
                        old(self).anti_reorg_delay,
                    ),
                forall|j: int|
                    i <= j < self.output_spends@.len() ==> (#[trigger] self.output_spends@[j])
                        == old(self).output_spends@[j],
            decreases self.output_spends@.len() - i,
        {
            match self.output_spends[i] {
                SpendStatus::Spent { txid, height } => {
                    if cur_height as u64 + 1 >= height as u64 + delay {
                        self.output_spends[i] = SpendStatus::Settled;
                    }
                },
                _ => {},
            }
            i += 1;
        }
    }

    /// Takes note that `confirmed` was found in a block: its confirmation is
    /// awaited no more, and each watched output that it spends, and of which no
    /// spend was known, is marked as spent by it.
    pub fn record_confirmation(&mut self, confirmed: &ConfirmedTx)
        requires
            old(self).wf(),
        ensures
            final(self).wf(),
            old(self).confirmed_one(*confirmed, *final(self)),
    {
        remove_txid(&mut self.watched_transactions, &confirmed.txid);
        let ghost spends_before = self.output_spends@;
        let mut j: usize = 0;
        while j < confirmed.tx.input.len()
            invariant
                j <= confirmed.tx.input@.len(),
                self.wf(),
                spends_before == old(self).output_spends@,
                self.watched_transactions@ == old(self).watched_transactions@.remove_value(
                    confirmed.txid,
                ),
                self.watched_outputs == old(self).watched_outputs,
                self.last_sync_hash == old(self).last_sync_hash,
                self.pending_sync == old(self).pending_sync,
                self.anti_reorg_delay == old(self).anti_reorg_delay,
                self.output_spends@.len() == spends_before.len(),
                forall|i: int|
                    0 <= i < spends_before.len() ==> #[trigger] self.output_spends@[i]
                        == spend_after_inputs(
                        spends_before[i],
                        self.watched_outputs@[i].outpoint,
                        *confirmed,
                        j as int,
                    ),
            decreases confirmed.tx.input@.len() - j,
        {
            let found = find_outpoint(&self.watched_outputs, &confirmed.tx.input[j].previous_output);
            if let Some(i) = found {
                match self.output_spends[i] {
                    SpendStatus::Unspent => {
                        self.output_spends[i] = SpendStatus::Spent {
                            txid: confirmed.txid,
                            height: confirmed.block_height,
                        };
                    },
                    _ => {},
                }
            }
            proof {
                let input = confirmed.tx.input@;
                let outputs = self.watched_outputs@;
                assert forall|i: int| 0 <= i < spends_before.len() implies #[trigger] self.output_spends@[i]
                    == spend_after_inputs(spends_before[i], outputs[i].outpoint, *confirmed, j + 1) by {
                    let outpoint = outputs[i].outpoint;
                    let here = input[j as int].previous_output == outpoint;
                    if spent_among(*confirmed, outpoint, j + 1) {
                        let k = choose|k: int|
                            0 <= k < j + 1 && (#[trigger] input[k]).previous_output == outpoint;
                        assert(spent_among(*confirmed, outpoint, j as int) || here);
                    }
                    if here {
                        assert(input[j as int].previous_output == outpoint);
                        assert(spent_among(*confirmed, outpoint, j + 1));
                        assert(holds_outpoint(outputs, input[j as int].previous_output));
                    }
                    if spent_among(*confirmed, outpoint, j as int) {
                        assert(spent_among(*confirmed, outpoint, j + 1));
                    }
                }
            }
            j += 1;
        }
        proof {
            assert forall|i: int| 0 <= i < spends_before.len() implies #[trigger] self.output_spends@[i]
                == spend_after_confirmation(
                spends_before[i],
                self.watched_outputs@[i].outpoint,
                *confirmed,
            ) by {
                let outpoint = self.watched_outputs@[i].outpoint;
                assert(spent_among(*confirmed, outpoint, j as int) == spends(confirmed.tx, outpoint));
            }
        }
    }

    /// Takes note of every transaction of `confirmed_txs`, first to last, as
    /// [`SyncState::record_confirmation`] does of one.
    pub fn sync_confirmed_transactions(&mut self, confirmed_txs: &Vec<ConfirmedTx>)
        requires
            old(self).wf(),
        ensures
            final(self).wf(),
            old(self).confirmed(confirmed_txs@, *final(self)),
    {
        let mut k: usize = 0;
        while k < confirmed_txs.len()
            invariant
                k <= confirmed_txs@.len(),
                self.wf(),
                self.watched_transactions@ == without_confirmed(
                    old(self).watched_transactions@,
                    confirmed_txs@.take(k as int),
                ),
                self.watched_outputs == old(self).watched_outputs,
                self.last_sync_hash == old(self).last_sync_hash,
                self.pending_sync == old(self).pending_sync,
                self.anti_reorg_delay == old(self).anti_reorg_delay,
                self.output_spends@.len() == old(self).output_spends@.len(),
                forall|i: int|
                    0 <= i < self.output_spends@.len() ==> #[trigger] self.output_spends@[i]
                        == spend_after_confirmations(
                        old(self).output_spends@[i],
                        old(self).watched_outputs@[i].outpoint,
                        confirmed_txs@.take(k as int),
                    ),
            decreases confirmed_txs@.len() - k,
        {
            assert(confirmed_txs@.take(k + 1).drop_last() == confirmed_txs@.take(k as int));
            self.record_confirmation(&confirmed_txs[k]);
            k += 1;
        }
        assert(confirmed_txs@.take(k as int) == confirmed_txs@);
    }

    /// Takes note that the transactions `unconfirmed_txs` have left the chain:
    /// their confirmation is awaited again, and every output that one of them
    /// was known to spend counts as unspent again.
    pub fn sync_unconfirmed_transactions(&mut self, unconfirmed_txs: &Vec<Txid>)
        requires
            old(self).wf(),
        ensures
            final(self).wf(),
            old(self).unconfirmed(unconfirmed_txs@, *final(self)),
    {
        let mut k: usize = 0;
        while k < unconfirmed_txs.len()
            invariant
                k <= unconfirmed_txs@.len(),
                self.wf(),
                self.watched_transactions@ == with_txids(
                    old(self).watched_transactions@,
                    unconfirmed_txs@.take(k as int),
                ),
                self.watched_outputs == old(self).watched_outputs,
                self.output_spends == old(self).output_spends,
                self.last_sync_hash == old(self).last_sync_hash,
                self.pending_sync == old(self).pending_sync,
                self.anti_reorg_delay == old(self).anti_reorg_delay,
            decreases unconfirmed_txs@.len() - k,
        {
            let txid = unconfirmed_txs[k];
            assert(unconfirmed_txs@.take(k + 1).drop_last() == unconfirmed_txs@.take(k as int));
            if !contains_txid(&self.watched_transactions, &txid) {
                self.watched_transactions.push(txid);
            }
            k += 1;
        }
        assert(unconfirmed_txs@.take(k as int) == unconfirmed_txs@);
        let mut i: usize = 0;
        while i < self.output_spends.len()
            invariant
                i <= self.output_spends@.len(),
                self.wf(),
                self.watched_transactions@ == with_txids(
                    old(self).watched_transactions@,
                    unconfirmed_txs@,
                ),
                self.watched_outputs == old(self).watched_outputs,
                self.last_sync_hash == old(self).last_sync_hash,
                self.pending_sync == old(self).pending_sync,
                self.anti_reorg_delay == old(self).anti_reorg_delay,
                self.output_spends@.len() == old(self).output_spends@.len(),
                forall|j: int|
                    0 <= j < i ==> #[trigger] self.output_spends@[j] == spend_after_unconfirmation(
                        old(self).output_spends@[j],
                        unconfirmed_txs@,
                    ),
                forall|j: int|
                    i <= j < self.output_spends@.len() ==> #[trigger] self.output_spends@[j]
                        == old(self).output_spends@[j],
            decreases self.output_spends@.len() - i,
        {
            match self.output_spends[i] {
                SpendStatus::Spent { txid, height } => {
                    if contains_txid(unconfirmed_txs, &txid) {
                        self.output_spends[i] = SpendStatus::Unspent;
                    }
                },
                _ => {},
            }
            i += 1;
        }
    }
}

} // verus!

