use lightning_transaction_sync::common::ConfirmedTx;
use lightning_transaction_sync::confirmation::{
    check_merkle_block, check_output_status, check_transaction, contains_confirmed, find_unfound,
    has_distinct_txids, is_in_block_order, is_not_after, resolve_height, sort_confirmed, validate_proof, validate_transaction,
    BlockStatus, Candidate, OutputStatus, TxStatus,
};
use lightning_transaction_sync::error::{InternalError, TxSyncError};
use lightning_transaction_sync::esplora::{contains_relevant, dedup_relevant};
use lightning_transaction_sync::hashes::{BlockHash, OutPoint, Txid};
use lightning_transaction_sync::merkle::MerkleBlock;
use lightning_transaction_sync::transaction::{Header, TransactionData, TxIn, TxOut};

fn txid(byte: u8) -> Txid {
    Txid { bytes: [byte; 32] }
}

fn block_hash(byte: u8) -> BlockHash {
    BlockHash { bytes: [byte; 32] }
}

fn header() -> Header {
    Header {
        version: 1,
        prev_blockhash: block_hash(0),
        merkle_root: [0; 32],
        time: 0,
        bits: 0,
        nonce: 0,
    }
}

fn confirmed(id: u8, block_height: u32, pos: usize) -> ConfirmedTx {
    ConfirmedTx {
        tx: TransactionData { version: 2, lock_time: 0, input: Vec::new(), output: Vec::new() },
        txid: txid(id),
        block_header: header(),
        block_height,
        pos,
    }
}

// The first block of the chain, whose hash and single transaction are well known.
fn genesis() -> (Header, TransactionData) {
    let block = bitcoin::blockdata::constants::genesis_block(bitcoin::Network::Bitcoin);
    let header = Header {
        version: block.header.version.to_consensus(),
        prev_blockhash: BlockHash {
            bytes: bitcoin::hashes::Hash::to_byte_array(block.header.prev_blockhash),
        },
        merkle_root: bitcoin::hashes::Hash::to_byte_array(block.header.merkle_root),
        time: block.header.time,
        bits: block.header.bits.to_consensus(),
        nonce: block.header.nonce,
    };
    let tx = &block.txdata[0];
    let coinbase = TransactionData {
        version: tx.version.0,
        lock_time: tx.lock_time.to_consensus_u32(),
        input: tx
            .input
            .iter()
            .map(|i| TxIn {
                previous_output: OutPoint {
                    txid: Txid { bytes: bitcoin::hashes::Hash::to_byte_array(i.previous_output.txid) },
                    vout: i.previous_output.vout,
                },
                script_sig: i.script_sig.to_bytes(),
                sequence: i.sequence.0,
                witness: i.witness.to_vec(),
            })
            .collect(),
        output: tx
            .output
            .iter()
            .map(|o| TxOut { value: o.value.to_sat(), script_pubkey: o.script_pubkey.to_bytes() })
            .collect(),
    };
    (header, coinbase)
}

fn from_hex(hex: &str) -> [u8; 32] {
    let bytes: Vec<u8> = bitcoin::hex::FromHex::from_hex(hex).unwrap();
    let mut reversed = [0u8; 32];
    for (i, byte) in bytes.iter().rev().enumerate() {
        reversed[i] = *byte;
    }
    reversed
}

const GENESIS_HASH: &str = "000000000019d6689c085ae165831e934ff763ae46a2a6c172b3f1b60a8ce26f";
const GENESIS_COINBASE: &str = "4a5e1e4baab89f3a32518a88c31bc87f618f76673e2cc77ab2127b7afdeda33b";

#[test]
fn the_proof_of_the_first_transaction_names_the_first_block() {
    let (header, coinbase) = genesis();
    let coinbase_id = Txid { bytes: from_hex(GENESIS_COINBASE) };
    let outside_id: bitcoin::Txid = bitcoin::hashes::Hash::from_byte_array(coinbase_id.bytes);
    let tree = bitcoin::merkle_tree::PartialMerkleTree::from_txids(&[outside_id], &[true]);
    let merkle_block = MerkleBlock { header, txn: bitcoin::consensus::serialize(&tree) };

    let genesis_hash = BlockHash { bytes: from_hex(GENESIS_HASH) };
    assert_eq!(check_merkle_block(&coinbase_id, &None, &merkle_block), Ok((genesis_hash, 0)));
    assert_eq!(
        check_merkle_block(&coinbase_id, &Some(genesis_hash), &merkle_block),
        Ok((genesis_hash, 0))
    );
    assert_eq!(
        check_merkle_block(&coinbase_id, &Some(block_hash(1)), &merkle_block),
        Err(InternalError::Inconsistency)
    );
    assert_eq!(check_merkle_block(&txid(1), &None, &merkle_block), Err(InternalError::Failed));
    assert_eq!(check_transaction(&coinbase_id, &coinbase), Ok(true));
    assert_eq!(check_transaction(&txid(1), &coinbase), Err(InternalError::Failed));
}

#[test]
fn the_position_is_the_one_in_the_block() {
    let ids: Vec<bitcoin::Txid> =
        (1..=7u8).map(|b| bitcoin::hashes::Hash::from_byte_array([b; 32])).collect();
    let mut matches = vec![false; 7];
    matches[5] = true;
    let tree = bitcoin::merkle_tree::PartialMerkleTree::from_txids(&ids, &matches);
    let merkle_block = MerkleBlock { header: header(), txn: bitcoin::consensus::serialize(&tree) };
    let checked = check_merkle_block(&txid(6), &None, &merkle_block).unwrap();
    assert_eq!(checked.1, 5);

    matches[0] = true;
    let tree = bitcoin::merkle_tree::PartialMerkleTree::from_txids(&ids, &matches);
    let merkle_block = MerkleBlock { header: header(), txn: bitcoin::consensus::serialize(&tree) };
    assert_eq!(check_merkle_block(&txid(6), &None, &merkle_block), Err(InternalError::Failed));
}

#[test]
fn a_proof_is_held_against_the_transaction_asked_for() {
    let hash = block_hash(1);
    let found = Some((vec![txid(1)], vec![4u32]));
    assert_eq!(validate_proof(&txid(1), &None, &hash, &found), Ok(4));
    assert_eq!(validate_proof(&txid(1), &Some(hash), &hash, &found), Ok(4));
    assert_eq!(
        validate_proof(&txid(1), &Some(block_hash(2)), &hash, &found),
        Err(InternalError::Inconsistency)
    );
    assert_eq!(validate_proof(&txid(2), &None, &hash, &found), Err(InternalError::Failed));
    assert_eq!(validate_proof(&txid(1), &None, &hash, &None), Err(InternalError::Failed));
    let none = Some((Vec::new(), Vec::new()));
    assert_eq!(validate_proof(&txid(1), &None, &hash, &none), Err(InternalError::Failed));
    let two = Some((vec![txid(1), txid(2)], vec![0, 1]));
    assert_eq!(validate_proof(&txid(1), &None, &hash, &two), Err(InternalError::Failed));
    let uneven = Some((vec![txid(1)], vec![0, 1]));
    assert_eq!(validate_proof(&txid(1), &None, &hash, &uneven), Err(InternalError::Failed));
    // a proof that is not well formed fails whatever block was expected
    let other = Some(block_hash(2));
    assert_eq!(validate_proof(&txid(1), &other, &hash, &two), Err(InternalError::Failed));
    assert_eq!(validate_proof(&txid(1), &other, &hash, &none), Err(InternalError::Failed));
    assert_eq!(validate_proof(&txid(1), &other, &hash, &uneven), Err(InternalError::Failed));
    assert_eq!(validate_proof(&txid(1), &other, &hash, &None), Err(InternalError::Failed));
    // a well-formed proof is held against the block before the transaction
    assert_eq!(validate_proof(&txid(2), &other, &hash, &found), Err(InternalError::Inconsistency));
}

#[test]
fn a_transaction_is_held_against_the_id_asked_for() {
    assert_eq!(validate_transaction(&txid(1), &txid(1), 65), Ok(true));
    assert_eq!(validate_transaction(&txid(1), &txid(1), 63), Ok(true));
    assert_eq!(validate_transaction(&txid(1), &txid(1), 64), Ok(false));
    assert_eq!(validate_transaction(&txid(1), &txid(2), 65), Err(InternalError::Failed));
    assert_eq!(validate_transaction(&txid(1), &txid(2), 64), Err(InternalError::Failed));
}

#[test]
fn a_block_without_a_height_is_an_inconsistency() {
    assert_eq!(resolve_height(&BlockStatus { in_best_chain: true, height: Some(7) }), Ok(7));
    assert_eq!(resolve_height(&BlockStatus { in_best_chain: false, height: Some(7) }), Ok(7));
    assert_eq!(
        resolve_height(&BlockStatus { in_best_chain: true, height: None }),
        Err(InternalError::Inconsistency)
    );
}

#[test]
fn an_output_status_names_the_spender_to_look_up() {
    let found = vec![confirmed(1, 10, 0)];
    let status = |confirmed: bool| TxStatus {
        confirmed,
        block_height: Some(11),
        block_hash: Some(block_hash(3)),
    };
    assert_eq!(check_output_status(&found, &None), Ok(None));
    let unspent = OutputStatus { txid: None, status: Some(status(true)) };
    assert_eq!(check_output_status(&found, &Some(unspent)), Ok(None));
    let no_status = OutputStatus { txid: Some(txid(2)), status: None };
    assert_eq!(check_output_status(&found, &Some(no_status)), Ok(None));

    let spent = OutputStatus { txid: Some(txid(2)), status: Some(status(true)) };
    assert_eq!(
        check_output_status(&found, &Some(spent)),
        Ok(Some(Candidate {
            txid: txid(2),
            expected_block_hash: Some(block_hash(3)),
            known_block_height: Some(11),
        }))
    );
    let in_mempool = OutputStatus {
        txid: Some(txid(2)),
        status: Some(TxStatus { confirmed: false, block_height: None, block_hash: None }),
    };
    assert_eq!(
        check_output_status(&found, &Some(in_mempool)),
        Ok(Some(Candidate { txid: txid(2), expected_block_hash: None, known_block_height: None }))
    );

    let known = OutputStatus { txid: Some(txid(1)), status: Some(status(true)) };
    assert_eq!(check_output_status(&found, &Some(known)), Ok(None));
    let contradicting = OutputStatus { txid: Some(txid(1)), status: Some(status(false)) };
    assert_eq!(check_output_status(&found, &Some(contradicting)), Err(InternalError::Inconsistency));
}

#[test]
fn confirmations_are_sorted_by_height_and_position() {
    let mut txs = vec![
        confirmed(1, 12, 0),
        confirmed(2, 10, 9),
        confirmed(3, 11, 4),
        confirmed(4, 10, 2),
        confirmed(5, 11, 4),
        confirmed(6, 9, 100),
    ];
    sort_confirmed(&mut txs);
    let order: Vec<(u32, usize, Txid)> =
        txs.iter().map(|tx| (tx.block_height, tx.pos, tx.txid)).collect();
    assert_eq!(
        order,
        vec![
            (9, 100, txid(6)),
            (10, 2, txid(4)),
            (10, 9, txid(2)),
            (11, 4, txid(3)),
            (11, 4, txid(5)),
            (12, 0, txid(1)),
        ]
    );

    let mut none: Vec<ConfirmedTx> = Vec::new();
    sort_confirmed(&mut none);
    assert!(none.is_empty());

    assert!(is_not_after(&confirmed(1, 1, 5), &confirmed(2, 2, 0)));
    assert!(is_not_after(&confirmed(1, 2, 0), &confirmed(2, 2, 0)));
    assert!(!is_not_after(&confirmed(1, 2, 1), &confirmed(2, 2, 0)));
    assert!(!is_not_after(&confirmed(1, 3, 0), &confirmed(2, 2, 9)));
}

#[test]
fn the_next_transaction_to_look_up_is_one_not_yet_found() {
    let watched = vec![txid(1), txid(2), txid(3), txid(4)];
    let found = vec![confirmed(2, 1, 0), confirmed(3, 1, 1)];
    assert!(contains_confirmed(&found, &txid(3)));
    assert!(!contains_confirmed(&found, &txid(1)));
    assert_eq!(find_unfound(&watched, &found, 0), 0);
    assert_eq!(find_unfound(&watched, &found, 1), 3);
    assert_eq!(find_unfound(&watched, &found, 3), 3);
    assert_eq!(find_unfound(&watched, &found, 4), 4);
    assert_eq!(find_unfound(&vec![txid(2)], &found, 0), 1);
}

#[test]
fn the_sinks_transactions_are_listed_once() {
    let a = (txid(1), 10, Some(block_hash(1)));
    let b = (txid(1), 10, Some(block_hash(2)));
    let c = (txid(1), 11, Some(block_hash(1)));
    let d = (txid(2), 10, None);
    let entries = vec![a, b, a, d, c, d, b];
    assert_eq!(dedup_relevant(&entries), vec![a, b, d, c]);
    assert!(contains_relevant(&entries, &c));
    assert!(!contains_relevant(&entries, &(txid(2), 10, Some(block_hash(1)))));
    assert!(dedup_relevant(&Vec::new()).is_empty());
}

#[test]
fn an_inner_error_reaches_the_caller_as_a_failure() {
    assert_eq!(TxSyncError::from(InternalError::Failed), TxSyncError::Failed);
    assert_eq!(TxSyncError::from(InternalError::Inconsistency), TxSyncError::Failed);
    assert_eq!(TxSyncError::Failed.message(), "Failed to conduct transaction sync.");
    assert_eq!(
        TxSyncError::UntrackedConfirmation.message(),
        "Untracked confirmation of funding transaction."
    );
}

#[test]
fn block_order_is_told_from_disorder() {
    assert!(is_in_block_order(&Vec::new()));
    assert!(is_in_block_order(&vec![confirmed(1, 5, 9)]));
    assert!(is_in_block_order(&vec![confirmed(1, 5, 9), confirmed(2, 5, 9), confirmed(3, 6, 0)]));
    assert!(!is_in_block_order(&vec![confirmed(1, 5, 9), confirmed(2, 5, 8)]));
    assert!(!is_in_block_order(&vec![confirmed(1, 5, 0), confirmed(2, 6, 0), confirmed(3, 5, 1)]));
}

#[test]
fn a_transaction_found_twice_is_noticed() {
    assert!(has_distinct_txids(&Vec::new()));
    assert!(has_distinct_txids(&vec![confirmed(1, 5, 0), confirmed(2, 5, 0), confirmed(3, 5, 0)]));
    assert!(!has_distinct_txids(&vec![confirmed(1, 5, 0), confirmed(2, 5, 1), confirmed(1, 6, 0)]));
}
