use lightning_transaction_sync::common::{
    contains_txid, find_outpoint, find_unspent, has_distinct_outpoints, has_no_duplicates,
    remove_txid, ConfirmedTx, FilterQueue, SpendStatus, SyncState, WatchedOutput,
    ANTI_REORG_DELAY,
};
use lightning_transaction_sync::hashes::{hash_bytes_eq, BlockHash, OutPoint, Txid};
use lightning_transaction_sync::transaction::{Header, TransactionData, TxIn};

fn txid(byte: u8) -> Txid {
    Txid { bytes: [byte; 32] }
}

fn outpoint(byte: u8, vout: u32) -> OutPoint {
    OutPoint { txid: txid(byte), vout }
}

fn output(byte: u8, vout: u32, script: &[u8]) -> WatchedOutput {
    WatchedOutput { block_hash: None, outpoint: outpoint(byte, vout), script_pubkey: script.to_vec() }
}

fn header() -> Header {
    Header {
        version: 1,
        prev_blockhash: BlockHash { bytes: [0; 32] },
        merkle_root: [0; 32],
        time: 0,
        bits: 0,
        nonce: 0,
    }
}

// A confirmed transaction with the id `id` that spends `spends`.
fn confirmed(id: u8, block_height: u32, spends: &[OutPoint]) -> ConfirmedTx {
    let input = spends
        .iter()
        .map(|previous_output| TxIn {
            previous_output: *previous_output,
            script_sig: Vec::new(),
            sequence: 0,
            witness: Vec::new(),
        })
        .collect();
    ConfirmedTx {
        tx: TransactionData { version: 2, lock_time: 0, input, output: Vec::new() },
        txid: txid(id),
        block_header: header(),
        block_height,
        pos: 0,
    }
}

#[test]
fn hashes_are_equal_byte_by_byte() {
    let mut other = [7u8; 32];
    assert!(hash_bytes_eq(&[7; 32], &other));
    other[31] = 8;
    assert!(!hash_bytes_eq(&[7; 32], &other));
    assert_eq!(txid(1), txid(1));
    assert_ne!(txid(1), txid(2));
    assert_ne!(BlockHash { bytes: other }, BlockHash { bytes: [7; 32] });
    assert_eq!(outpoint(1, 2), outpoint(1, 2));
    assert_ne!(outpoint(1, 2), outpoint(1, 3));
    assert_ne!(outpoint(1, 2), outpoint(2, 2));
}

#[test]
fn registering_a_transaction_twice_keeps_one_entry() {
    let mut queue = FilterQueue::new();
    queue.register_tx(txid(7));
    queue.register_tx(txid(8));
    queue.register_tx(txid(7));
    assert_eq!(queue.transactions, vec![txid(7), txid(8)]);
    assert!(queue.outputs.is_empty());
}

#[test]
fn registering_an_outpoint_twice_keeps_the_first_entry() {
    let mut queue = FilterQueue::new();
    queue.register_output(output(1, 0, &[1]));
    queue.register_output(output(1, 1, &[2]));
    queue.register_output(output(1, 0, &[3]));
    assert_eq!(queue.outputs, vec![output(1, 0, &[1]), output(1, 1, &[2])]);
    assert!(queue.transactions.is_empty());
}

#[test]
fn taking_the_queue_leaves_it_empty() {
    let mut queue = FilterQueue::new();
    queue.register_tx(txid(7));
    queue.register_output(output(1, 0, &[1]));
    let held = queue.take();
    assert_eq!(held.transactions, vec![txid(7)]);
    assert_eq!(held.outputs, vec![output(1, 0, &[1])]);
    assert_eq!(queue, FilterQueue::new());
}

#[test]
fn a_new_state_watches_nothing() {
    let state = SyncState::new();
    assert!(state.watched_transactions.is_empty());
    assert!(state.watched_outputs.is_empty());
    assert!(state.output_spends.is_empty());
    assert_eq!(state.last_sync_hash, None);
    assert!(!state.pending_sync);
    assert_eq!(state.anti_reorg_delay, ANTI_REORG_DELAY);
    assert_eq!(ANTI_REORG_DELAY, 6);
}

#[test]
fn merging_takes_in_what_is_new_and_tells_whether_anything_was_queued() {
    let mut state = SyncState::new();
    let mut queue = FilterQueue::new();
    assert!(!queue.process_queues(&mut state));

    queue.register_tx(txid(1));
    queue.register_tx(txid(2));
    queue.register_output(output(5, 0, &[1]));
    assert!(queue.process_queues(&mut state));
    assert_eq!(queue, FilterQueue::new());
    assert_eq!(state.watched_transactions, vec![txid(1), txid(2)]);
    assert_eq!(state.watched_outputs, vec![output(5, 0, &[1])]);
    assert_eq!(state.output_spends, vec![SpendStatus::Unspent]);

    queue.register_tx(txid(3));
    queue.register_tx(txid(1));
    queue.register_output(output(5, 0, &[9]));
    queue.register_output(output(5, 1, &[2]));
    assert!(queue.process_queues(&mut state));
    assert_eq!(state.watched_transactions, vec![txid(1), txid(2), txid(3)]);
    assert_eq!(state.watched_outputs, vec![output(5, 0, &[1]), output(5, 1, &[2])]);
    assert_eq!(state.output_spends, vec![SpendStatus::Unspent, SpendStatus::Unspent]);
    assert_eq!(state.last_sync_hash, None);
    assert!(!state.pending_sync);
}

#[test]
fn merging_the_same_registrations_twice_changes_nothing() {
    let mut state = SyncState::new();
    let mut queue = FilterQueue::new();
    queue.register_tx(txid(1));
    queue.register_output(output(5, 0, &[1]));
    let again = queue.clone();
    queue.process_queues(&mut state);
    state.sync_confirmed_transactions(&vec![confirmed(9, 50, &[outpoint(5, 0)])]);
    let once = state.clone();

    let mut queue = again;
    // the queue was not empty, which the caller is told
    assert!(queue.process_queues(&mut state));
    assert_eq!(state, once);
}

#[test]
fn a_queue_with_repetitions_is_merged_without_them() {
    let mut state = SyncState::new();
    let mut queue = FilterQueue {
        transactions: vec![txid(1), txid(1), txid(2)],
        outputs: vec![output(5, 0, &[1]), output(5, 0, &[2])],
    };
    assert!(queue.process_queues(&mut state));
    assert_eq!(state.watched_transactions, vec![txid(1), txid(2)]);
    assert_eq!(state.watched_outputs, vec![output(5, 0, &[1])]);
    assert_eq!(state.output_spends, vec![SpendStatus::Unspent]);
}

#[test]
fn a_confirmation_is_awaited_no_more_and_marks_what_it_spends() {
    let mut state = SyncState::new();
    let mut queue = FilterQueue::new();
    queue.register_tx(txid(1));
    queue.register_tx(txid(2));
    queue.register_output(output(5, 0, &[1]));
    queue.register_output(output(5, 1, &[1]));
    queue.register_output(output(6, 0, &[1]));
    queue.process_queues(&mut state);

    // 2 spends two watched outputs and one that is not watched; 7 spends one of them too
    let first = confirmed(2, 100, &[outpoint(5, 1), outpoint(8, 8), outpoint(6, 0)]);
    let second = confirmed(7, 101, &[outpoint(6, 0), outpoint(5, 0)]);
    state.sync_confirmed_transactions(&vec![first, second]);
    assert_eq!(state.watched_transactions, vec![txid(1)]);
    assert_eq!(
        state.output_spends,
        vec![
            SpendStatus::Spent { txid: txid(7), height: 101 },
            SpendStatus::Spent { txid: txid(2), height: 100 },
            SpendStatus::Spent { txid: txid(2), height: 100 },
        ]
    );
    assert_eq!(state.watched_outputs.len(), 3);
}

#[test]
fn recording_one_confirmation() {
    let mut state = SyncState::new();
    let mut queue = FilterQueue::new();
    queue.register_tx(txid(1));
    queue.register_output(output(5, 0, &[1]));
    queue.process_queues(&mut state);
    state.record_confirmation(&confirmed(1, 10, &[outpoint(5, 0)]));
    assert!(state.watched_transactions.is_empty());
    assert_eq!(state.output_spends, vec![SpendStatus::Spent { txid: txid(1), height: 10 }]);
}

#[test]
fn an_unconfirmation_is_awaited_again_and_frees_what_it_spent() {
    let mut state = SyncState::new();
    let mut queue = FilterQueue::new();
    queue.register_tx(txid(1));
    queue.register_output(output(5, 0, &[1]));
    queue.register_output(output(5, 1, &[1]));
    queue.process_queues(&mut state);
    state.sync_confirmed_transactions(&vec![
        confirmed(2, 100, &[outpoint(5, 0)]),
        confirmed(3, 100, &[outpoint(5, 1)]),
    ]);

    state.sync_unconfirmed_transactions(&vec![txid(2), txid(1), txid(2)]);
    assert_eq!(state.watched_transactions, vec![txid(1), txid(2)]);
    assert_eq!(
        state.output_spends,
        vec![SpendStatus::Unspent, SpendStatus::Spent { txid: txid(3), height: 100 }]
    );
}

#[test]
fn a_spend_is_settled_with_its_sixth_confirmation() {
    let mut state = SyncState::new();
    let mut queue = FilterQueue::new();
    queue.register_output(output(5, 0, &[1]));
    queue.register_output(output(5, 1, &[1]));
    queue.register_output(output(5, 2, &[1]));
    queue.process_queues(&mut state);
    state.sync_confirmed_transactions(&vec![
        confirmed(2, 100, &[outpoint(5, 0)]),
        confirmed(3, 102, &[outpoint(5, 1)]),
    ]);

    state.prune_output_spends(104);
    assert_eq!(
        state.output_spends,
        vec![
            SpendStatus::Spent { txid: txid(2), height: 100 },
            SpendStatus::Spent { txid: txid(3), height: 102 },
            SpendStatus::Unspent,
        ]
    );
    state.prune_output_spends(105);
    assert_eq!(
        state.output_spends,
        vec![
            SpendStatus::Settled,
            SpendStatus::Spent { txid: txid(3), height: 102 },
            SpendStatus::Unspent,
        ]
    );
    // a settled spend is not undone, and its output is not registered anew
    state.sync_unconfirmed_transactions(&vec![txid(2)]);
    let mut queue = FilterQueue::new();
    queue.register_output(output(5, 0, &[1]));
    queue.process_queues(&mut state);
    assert_eq!(state.output_spends[0], SpendStatus::Settled);
    assert_eq!(state.watched_outputs.len(), 3);
}

#[test]
fn the_delay_can_be_set_and_heights_near_the_limit_do_not_overflow() {
    let mut state = SyncState::new();
    let mut queue = FilterQueue::new();
    queue.register_output(output(5, 0, &[1]));
    queue.register_output(output(5, 1, &[1]));
    queue.process_queues(&mut state);
    state.sync_confirmed_transactions(&vec![
        confirmed(2, u32::MAX, &[outpoint(5, 0)]),
        confirmed(3, 10, &[outpoint(5, 1)]),
    ]);
    state.anti_reorg_delay = 1;
    state.prune_output_spends(9);
    assert_eq!(state.output_spends[1], SpendStatus::Spent { txid: txid(3), height: 10 });
    state.prune_output_spends(10);
    assert_eq!(state.output_spends[1], SpendStatus::Settled);
    state.anti_reorg_delay = u32::MAX;
    state.prune_output_spends(u32::MAX);
    assert_eq!(state.output_spends[0], SpendStatus::Spent { txid: txid(2), height: u32::MAX });
    state.anti_reorg_delay = 0;
    state.prune_output_spends(0);
    assert_eq!(state.output_spends[0], SpendStatus::Spent { txid: txid(2), height: u32::MAX });
    state.prune_output_spends(u32::MAX - 1);
    assert_eq!(state.output_spends[0], SpendStatus::Settled);
}

#[test]
fn searching_the_watch_set() {
    let watched = vec![txid(1), txid(2), txid(3)];
    assert!(contains_txid(&watched, &txid(2)));
    assert!(!contains_txid(&watched, &txid(4)));
    let mut rest = watched.clone();
    remove_txid(&mut rest, &txid(2));
    assert_eq!(rest, vec![txid(1), txid(3)]);
    remove_txid(&mut rest, &txid(2));
    assert_eq!(rest, vec![txid(1), txid(3)]);

    let outputs = vec![output(5, 0, &[1]), output(5, 1, &[1])];
    assert_eq!(find_outpoint(&outputs, &outpoint(5, 1)), Some(1));
    assert_eq!(find_outpoint(&outputs, &outpoint(5, 2)), None);

    let spends = vec![
        SpendStatus::Settled,
        SpendStatus::Unspent,
        SpendStatus::Spent { txid: txid(1), height: 1 },
        SpendStatus::Unspent,
    ];
    assert_eq!(find_unspent(&spends, 0), 1);
    assert_eq!(find_unspent(&spends, 1), 1);
    assert_eq!(find_unspent(&spends, 2), 3);
    assert_eq!(find_unspent(&spends, 4), 4);
}

#[test]
fn well_formed_states_are_told_from_others() {
    let mut state = SyncState::new();
    assert!(state.is_wf());
    state.watched_transactions = vec![txid(1), txid(2), txid(1)];
    assert!(!state.is_wf());
    state.watched_transactions = vec![txid(1), txid(2)];
    assert!(state.is_wf());
    state.watched_outputs = vec![output(5, 0, &[1])];
    assert!(!state.is_wf());
    state.output_spends = vec![SpendStatus::Unspent];
    assert!(state.is_wf());
    state.watched_outputs.push(output(5, 0, &[2]));
    state.output_spends.push(SpendStatus::Settled);
    assert!(!state.is_wf());

    let mut queue = FilterQueue::new();
    assert!(queue.is_wf());
    queue.register_tx(txid(1));
    queue.register_output(output(5, 0, &[1]));
    assert!(queue.is_wf());
    queue.transactions.push(txid(1));
    assert!(!queue.is_wf());
}

#[test]
fn repetitions_are_found() {
    assert!(has_no_duplicates(&Vec::new()));
    assert!(has_no_duplicates(&vec![txid(1), txid(2), txid(3)]));
    assert!(!has_no_duplicates(&vec![txid(1), txid(2), txid(3), txid(2)]));
    assert!(has_distinct_outpoints(&vec![output(5, 0, &[1]), output(5, 1, &[1]), output(6, 0, &[1])]));
    assert!(!has_distinct_outpoints(&vec![output(5, 0, &[1]), output(5, 1, &[1]), output(5, 0, &[2])]));
}
