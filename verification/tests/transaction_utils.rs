use bitcoin::script::Builder;
use lightning_transaction_sync::hashes::{OutPoint, Txid};
use lightning_transaction_sync::transaction::{
    has_fitting_witnesses, length_prefix_size, witness_fits, TransactionData, TxIn, TxOut,
};
use lightning_transaction_sync::transaction_utils::{
    change_weight, decide_change, is_bytes_le, maybe_add_change_output, sort_outputs,
    try_add_change_output,
};

fn script_from_hex(hex_str: &str) -> Vec<u8> {
    bitcoin::hex::FromHex::from_hex(hex_str).unwrap()
}

fn to_bitcoin(tx: &TransactionData) -> bitcoin::Transaction {
    bitcoin::Transaction {
        version: bitcoin::transaction::Version(tx.version),
        lock_time: bitcoin::absolute::LockTime::from_consensus(tx.lock_time),
        input: tx
            .input
            .iter()
            .map(|i| bitcoin::TxIn {
                previous_output: bitcoin::OutPoint::new(
                    bitcoin::hashes::Hash::from_byte_array(i.previous_output.txid.bytes),
                    i.previous_output.vout,
                ),
                script_sig: bitcoin::ScriptBuf::from_bytes(i.script_sig.clone()),
                sequence: bitcoin::Sequence(i.sequence),
                witness: bitcoin::Witness::from_slice(&i.witness),
            })
            .collect(),
        output: tx
            .output
            .iter()
            .map(|o| bitcoin::TxOut {
                value: bitcoin::Amount::from_sat(o.value),
                script_pubkey: bitcoin::ScriptBuf::from_bytes(o.script_pubkey.clone()),
            })
            .collect(),
    }
}

fn bip_txout_test(expected_raw: Vec<(u64, &str)>) {
    let expected: Vec<(TxOut, &str)> = expected_raw
        .iter()
        .map(|txout_raw| TxOut { value: txout_raw.0, script_pubkey: script_from_hex(txout_raw.1) })
        .map(|txout| (txout, "ignore"))
        .collect();

    let mut outputs = expected.clone();
    outputs.reverse();

    sort_outputs(&mut outputs, |_, _| {
        unreachable!();
    });

    assert_eq!(outputs, expected);
}

#[test]
fn sort_output_by_value() {
    let txout1 = TxOut { value: 100, script_pubkey: Builder::new().push_int(0).into_script().into_bytes() };
    let txout1_ = txout1.clone();

    let txout2 = TxOut { value: 99, script_pubkey: Builder::new().push_int(0).into_script().into_bytes() };
    let txout2_ = txout2.clone();

    let mut outputs = vec![(txout1, "ignore"), (txout2, "ignore")];
    sort_outputs(&mut outputs, |_, _| {
        unreachable!();
    });

    assert_eq!(&outputs, &vec![(txout2_, "ignore"), (txout1_, "ignore")]);
}

#[test]
fn sort_output_by_script_pubkey() {
    let txout1 = TxOut { value: 100, script_pubkey: Builder::new().push_int(3).into_script().into_bytes() };
    let txout1_ = txout1.clone();

    let txout2 = TxOut {
        value: 100,
        script_pubkey: Builder::new().push_int(1).push_int(2).into_script().into_bytes(),
    };
    let txout2_ = txout2.clone();

    let mut outputs = vec![(txout1, "ignore"), (txout2, "ignore")];
    sort_outputs(&mut outputs, |_, _| {
        unreachable!();
    });

    assert_eq!(&outputs, &vec![(txout2_, "ignore"), (txout1_, "ignore")]);
}

#[test]
fn sort_output_by_bip_test() {
    let txout1 = TxOut {
        value: 100000000,
        script_pubkey: script_from_hex("41046a0765b5865641ce08dd39690aade26dfbf5511430ca428a3089261361cef170e3929a68aee3d8d4848b0c5111b0a37b82b86ad559fd2a745b44d8e8d9dfdc0cac"),
    };
    let txout1_ = txout1.clone();

    let txout2 = TxOut {
        value: 2400000000,
        script_pubkey: script_from_hex("41044a656f065871a353f216ca26cef8dde2f03e8c16202d2e8ad769f02032cb86a5eb5e56842e92e19141d60a01928f8dd2c875a390f67c1f6c94cfc617c0ea45afac"),
    };
    let txout2_ = txout2.clone();

    let mut outputs = vec![(txout1, "ignore"), (txout2, "ignore")];
    sort_outputs(&mut outputs, |_, _| {
        unreachable!();
    });

    assert_eq!(&outputs, &vec![(txout1_, "ignore"), (txout2_, "ignore")]);
}

#[test]
fn sort_output_tie_breaker_test() {
    let txout1 = TxOut {
        value: 100,
        script_pubkey: Builder::new().push_int(1).push_int(2).into_script().into_bytes(),
    };
    let txout1_ = txout1.clone();

    let txout2 = txout1.clone();
    let txout2_ = txout1.clone();

    let mut outputs = vec![(txout1, 420), (txout2, 69)];
    sort_outputs(&mut outputs, |a, b| a.cmp(b));

    assert_eq!(&outputs, &vec![(txout2_, 69), (txout1_, 420)]);
}

#[test]
fn bip69_txout_test_1() {
    bip_txout_test(vec![
        (400057456, "76a9144a5fba237213a062f6f57978f796390bdcf8d01588ac"),
        (40000000000, "76a9145be32612930b8323add2212a4ec03c1562084f8488ac"),
    ]);
}

#[test]
fn bip69_txout_test_2() {
    bip_txout_test(vec![
        (100000000, "41046a0765b5865641ce08dd39690aade26dfbf5511430ca428a3089261361cef170e3929a68aee3d8d4848b0c5111b0a37b82b86ad559fd2a745b44d8e8d9dfdc0cac"),
        (2400000000, "41044a656f065871a353f216ca26cef8dde2f03e8c16202d2e8ad769f02032cb86a5eb5e56842e92e19141d60a01928f8dd2c875a390f67c1f6c94cfc617c0ea45afac"),
    ]);
}

#[test]
fn test_tx_value_overrun() {
    // If we have a bogus input amount or outputs valued more than inputs, we should fail
    let tx_out = TxOut { script_pubkey: Vec::new(), value: 1000 };
    let mut tx = TransactionData { version: 2, lock_time: 0, input: Vec::new(), output: vec![tx_out] };
    let amount = 21_000_000_0000_0001;
    assert!(maybe_add_change_output(&mut tx, amount, 0, 253, Vec::new()).is_err());
    let amount = 400;
    assert!(maybe_add_change_output(&mut tx, amount, 0, 253, Vec::new()).is_err());
    let amount = 4000;
    assert!(maybe_add_change_output(&mut tx, amount, 0, 253, Vec::new()).is_ok());
}

#[test]
fn test_tx_change_edge() {
    // Check that we never add dust outputs
    let mut tx = TransactionData { version: 2, lock_time: 0, input: Vec::new(), output: Vec::new() };
    let orig_wtxid = to_bitcoin(&tx).compute_wtxid();
    let output_spk = bitcoin::ScriptBuf::new_p2pkh(&bitcoin::hashes::Hash::hash(&[0; 0]));
    assert_eq!(output_spk.minimal_non_dust().to_sat(), 546);
    let output_spk = output_spk.into_bytes();
    // weight = 3 * base size + total size = 3 * (4 + 1 + 0 + 1 + 0 + 4) + (4 + 1 + 1 + 1 + 0 + 1 + 0 + 4) = 3 * 10 + 12 = 42
    assert_eq!(to_bitcoin(&tx).weight().to_wu(), 42);
    // 10 sats isn't enough to pay fee on a dummy transaction...
    assert!(maybe_add_change_output(&mut tx, 10, 0, 250, output_spk.clone()).is_err());
    // Failure doesn't change the transaction
    assert_eq!(to_bitcoin(&tx).compute_wtxid(), orig_wtxid);
    // but 11 (= ceil(42 * 250 / 1000)) is, just not enough to add a change output...
    assert!(maybe_add_change_output(&mut tx, 11, 0, 250, output_spk.clone()).is_ok());
    assert_eq!(tx.output.len(), 0);
    // If we don't add an output, we don't change the transaction
    assert_eq!(to_bitcoin(&tx).compute_wtxid(), orig_wtxid);
    assert!(maybe_add_change_output(&mut tx, 549, 0, 250, output_spk.clone()).is_ok());
    assert_eq!(tx.output.len(), 0);
    // If we don't add an output, we don't change the transaction
    assert_eq!(to_bitcoin(&tx).compute_wtxid(), orig_wtxid);
    // 590 is also not enough
    assert!(maybe_add_change_output(&mut tx, 590, 0, 250, output_spk.clone()).is_ok());
    assert_eq!(tx.output.len(), 0);
    // If we don't add an output, we don't change the transaction
    assert_eq!(to_bitcoin(&tx).compute_wtxid(), orig_wtxid);
    // at 591 we can afford the change output at the dust limit (546)
    assert!(maybe_add_change_output(&mut tx, 591, 0, 250, output_spk.clone()).is_ok());
    assert_eq!(tx.output.len(), 1);
    assert_eq!(tx.output[0].value, 546);
    assert_eq!(tx.output[0].script_pubkey, output_spk);
    // New weight is exactly the fee we wanted.
    assert_eq!(to_bitcoin(&tx).weight().to_wu() / 4, 590 - 546);

    tx.output.pop();
    // The only change is the addition of one output.
    assert_eq!(to_bitcoin(&tx).compute_wtxid(), orig_wtxid);
}

#[test]
fn test_tx_extra_outputs() {
    // Check that we correctly handle existing outputs
    let script_pubkey = Builder::new().push_int(1).into_script().into_bytes();
    let tx_out = TxOut { script_pubkey, value: 1000 };
    let previous_output = OutPoint { txid: Txid { bytes: [0; 32] }, vout: 0 };
    let tx_in = TxIn { previous_output, script_sig: Vec::new(), witness: Vec::new(), sequence: 0 };
    let mut tx = TransactionData { version: 2, lock_time: 0, input: vec![tx_in], output: vec![tx_out] };
    let orig_wtxid = to_bitcoin(&tx).compute_wtxid();
    let orig_weight = to_bitcoin(&tx).weight().to_wu();
    assert_eq!(orig_weight / 4, 61);

    assert_eq!(Builder::new().push_int(2).into_script().minimal_non_dust().to_sat(), 474);

    let script = Builder::new().push_int(2).into_script().into_bytes();

    // Input value of the output value + fee - 1 should fail:
    let amount = 1000 + 61 + 100 - 1;
    assert!(maybe_add_change_output(&mut tx, amount, 400, 250, script.clone()).is_err());
    // Failure doesn't change the transaction
    assert_eq!(to_bitcoin(&tx).compute_wtxid(), orig_wtxid);
    // but one more input sat should succeed, without changing the transaction
    let amount = 1000 + 61 + 100;
    assert!(maybe_add_change_output(&mut tx, amount, 400, 250, script.clone()).is_ok());
    // If we don't add an output, we don't change the transaction
    assert_eq!(to_bitcoin(&tx).compute_wtxid(), orig_wtxid);
    // In order to get a change output, we need to add 474 plus the output's weight / 4 (10)...
    let amount = 1000 + 61 + 100 + 474 + 9;
    assert!(maybe_add_change_output(&mut tx, amount, 400, 250, script.clone()).is_ok());
    // If we don't add an output, we don't change the transaction
    assert_eq!(to_bitcoin(&tx).compute_wtxid(), orig_wtxid);

    let amount = 1000 + 61 + 100 + 474 + 10;
    assert!(maybe_add_change_output(&mut tx, amount, 400, 250, script).is_ok());
    assert_eq!(tx.output.len(), 2);
    assert_eq!(tx.output[1].value, 474);
    assert_eq!(tx.output[1].script_pubkey, Builder::new().push_int(2).into_script().into_bytes());
    // Weight difference matches what we had to add above
    assert_eq!(to_bitcoin(&tx).weight().to_wu() - orig_weight, 40);
    tx.output.pop();
    // The only change is the addition of one output.
    assert_eq!(to_bitcoin(&tx).compute_wtxid(), orig_wtxid);
}

#[test]
fn change_output_reports_the_weight_of_the_signed_transaction() {
    let mut tx = TransactionData { version: 2, lock_time: 0, input: Vec::new(), output: Vec::new() };
    let script = bitcoin::ScriptBuf::new_p2pkh(&bitcoin::hashes::Hash::hash(&[0; 0])).into_bytes();
    // 42 for the transaction, 2 for the witness flag, none for witnesses
    assert_eq!(maybe_add_change_output(&mut tx, 11, 0, 250, script.clone()), Ok(44));
    // with the change output of 34 bytes: 44 + 4 * 34
    assert_eq!(maybe_add_change_output(&mut tx, 591, 0, 250, script), Ok(180));
    assert_eq!(tx.output[0].value, 591 - 180 * 250 / 1000);
}

#[test]
fn change_output_is_refused_when_outputs_use_up_the_inputs() {
    let tx_out = TxOut { script_pubkey: Vec::new(), value: 1000 };
    let mut tx = TransactionData { version: 2, lock_time: 0, input: Vec::new(), output: vec![tx_out] };
    let before = tx.clone();
    assert_eq!(maybe_add_change_output(&mut tx, 1000, 0, 0, Vec::new()), Err(()));
    assert_eq!(tx, before);
    // with nothing to pay for, one satoshi more is enough even at no fee
    assert!(maybe_add_change_output(&mut tx, 1001, 0, 0, vec![0x6a]).is_ok());
}

#[test]
fn change_output_is_refused_when_output_amounts_overflow() {
    let outputs = vec![
        TxOut { script_pubkey: Vec::new(), value: 1 },
        TxOut { script_pubkey: Vec::new(), value: u64::MAX },
    ];
    let mut tx = TransactionData { version: 2, lock_time: 0, input: Vec::new(), output: outputs };
    assert_eq!(maybe_add_change_output(&mut tx, 2_100_000_000_000_000, 0, 1, Vec::new()), Err(()));
    assert_eq!(tx.output.len(), 2);
}

#[test]
fn try_add_change_output_declines_a_weight_beyond_u64() {
    let mut tx = TransactionData { version: 2, lock_time: 0, input: Vec::new(), output: Vec::new() };
    let before = tx.clone();
    assert_eq!(try_add_change_output(&mut tx, 1000, u64::MAX, 1, Vec::new()), None);
    assert_eq!(tx, before);
    assert_eq!(try_add_change_output(&mut tx, 11, 0, 250, Vec::new()), Some(Ok(44)));
}

#[test]
fn decide_change_on_given_values() {
    // weight 42 + 2, change output of 34 bytes, dust limit 546, 250 sat per 1000 weight
    assert_eq!(decide_change(10, 42, 0, 250, 0, 25, 546), Err(()));
    assert_eq!(decide_change(11, 42, 0, 250, 0, 25, 546), Ok((44, None)));
    assert_eq!(decide_change(590, 42, 0, 250, 0, 25, 546), Ok((44, None)));
    assert_eq!(decide_change(591, 42, 0, 250, 0, 25, 546), Ok((180, Some(546))));
    // the 253rd output makes the count of outputs two bytes longer
    assert_eq!(decide_change(1_000_000, 1000, 0, 0, 252, 0, 0), Ok((1002 + 36 + 8, Some(1_000_000))));
}

#[test]
fn length_prefix_sizes() {
    assert_eq!(length_prefix_size(0), 1);
    assert_eq!(length_prefix_size(0xFC), 1);
    assert_eq!(length_prefix_size(0xFD), 3);
    assert_eq!(length_prefix_size(0xFFFF), 3);
    assert_eq!(length_prefix_size(0x10000), 5);
    assert_eq!(length_prefix_size(0xFFFF_FFFF), 5);
    assert_eq!(length_prefix_size(0x1_0000_0000), 9);
}

#[test]
fn bytes_go_by_dictionary_order() {
    assert!(is_bytes_le(&vec![], &vec![]));
    assert!(is_bytes_le(&vec![], &vec![0]));
    assert!(!is_bytes_le(&vec![0], &vec![]));
    assert!(is_bytes_le(&vec![1, 2], &vec![1, 2, 0]));
    assert!(is_bytes_le(&vec![1, 2, 9], &vec![1, 3]));
    assert!(!is_bytes_le(&vec![2], &vec![1, 255]));
    assert!(is_bytes_le(&vec![7, 7], &vec![7, 7]));
}

#[test]
fn sort_outputs_keeps_every_output_and_orders_ties() {
    let out = |value: u64, script: &[u8]| TxOut { value, script_pubkey: script.to_vec() };
    let mut outputs = vec![
        (out(5, &[2]), 3u32),
        (out(5, &[1, 9]), 0),
        (out(1, &[9]), 7),
        (out(5, &[2]), 1),
        (out(5, &[]), 4),
        (out(5, &[2]), 2),
    ];
    sort_outputs(&mut outputs, |a, b| a.cmp(b));
    assert_eq!(
        outputs,
        vec![
            (out(1, &[9]), 7),
            (out(5, &[]), 4),
            (out(5, &[1, 9]), 0),
            (out(5, &[2]), 1),
            (out(5, &[2]), 2),
            (out(5, &[2]), 3),
        ]
    );
}

#[test]
fn change_weight_on_given_values() {
    // 42 + 2 for the transaction, 4 * (8 + 1 + 25) for the output
    assert_eq!(change_weight(42, 0, 0, 25), 180);
    assert_eq!(change_weight(42, 400, 0, 25), 580);
    // the 253rd output makes the count of outputs two bytes longer
    assert_eq!(change_weight(1000, 0, 252, 0), 1002 + 36 + 8);
    // a script of 253 bytes has a length prefix of three bytes
    assert_eq!(change_weight(0, 0, 0, 253), 2 + 4 * (8 + 3 + 253));
    assert_eq!(change_weight(u64::MAX, u64::MAX, 0, 0), 2 * (u64::MAX as u128) + 2 + 36);
}

#[test]
fn witnesses_are_measured_with_their_length_prefixes() {
    assert!(witness_fits(&Vec::new()));
    assert!(witness_fits(&vec![vec![1, 2, 3], Vec::new(), vec![0; 300]]));
    let input = |witness: Vec<Vec<u8>>| TxIn {
        previous_output: OutPoint { txid: Txid { bytes: [0; 32] }, vout: 0 },
        script_sig: Vec::new(),
        sequence: 0,
        witness,
    };
    let tx = TransactionData {
        version: 2,
        lock_time: 0,
        input: vec![input(vec![vec![7; 72], vec![8; 33]]), input(Vec::new())],
        output: Vec::new(),
    };
    assert!(has_fitting_witnesses(&tx));
    let none = TransactionData { version: 2, lock_time: 0, input: Vec::new(), output: Vec::new() };
    assert!(has_fitting_witnesses(&none));
}
