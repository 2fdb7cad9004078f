use bitcoin::secp256k1::{PublicKey, Secp256k1, SecretKey};
use lightning_invoice::{
    Bolt11Invoice, Currency, InvoiceBuilder, RouteHint as InvoiceRouteHint,
    RouteHintHop as InvoiceRouteHintHop, RoutingFees as InvoiceRoutingFees,
};
use lightning_transaction_sync::bolt11_payment::{
    invoice_fields, invoice_payee_pub_key, params_from_fields, payment_parameters_from_fields,
    payment_parameters_from_invoice, payment_parameters_from_variable_amount_fields,
    payment_parameters_from_variable_amount_invoice, InvoiceFields, Payee, PaymentSecret,
    RouteHint, RouteHintHop, RoutingFees,
};
use std::time::SystemTime;

fn sha256(data: &[u8]) -> bitcoin::hashes::sha256::Hash {
    bitcoin::hashes::Hash::hash(data)
}

fn plain_fields() -> InvoiceFields {
    InvoiceFields {
        amount_msat: Some(1_234_567),
        payment_hash: [1; 32],
        payment_secret: [2; 32],
        payment_metadata: Some(vec![3, 4]),
        payee_pub_key: Some([5; 33]),
        min_final_cltv_expiry_delta: 144,
        route_hints: Vec::new(),
        expires_at: Some(1_700_000_000),
        features: Some(vec![0, 0x41]),
    }
}

#[test]
fn invoice_test() {
    let payment_hash = sha256(&[0; 32]);
    let private_key = SecretKey::from_slice(&[42; 32]).unwrap();
    let secp_ctx = Secp256k1::new();
    let public_key = PublicKey::from_secret_key(&secp_ctx, &private_key);

    let timestamp = SystemTime::now().duration_since(SystemTime::UNIX_EPOCH).unwrap();
    let invoice = InvoiceBuilder::new(Currency::Bitcoin)
        .description("test".into())
        .payment_hash(payment_hash)
        .payment_secret(lightning_invoice::PaymentSecret([0; 32]))
        .duration_since_epoch(timestamp)
        .min_final_cltv_expiry_delta(144)
        .amount_milli_satoshis(128)
        .build_signed(|hash| secp_ctx.sign_ecdsa_recoverable(hash, &private_key))
        .unwrap();

    assert!(payment_parameters_from_variable_amount_invoice(&invoice, 42).is_err());

    let (hash, onion, params) = payment_parameters_from_invoice(&invoice).unwrap();
    assert_eq!(&hash.0[..], &payment_hash[..]);
    assert_eq!(onion.payment_secret, Some(PaymentSecret([0; 32])));
    assert_eq!(params.final_value_msat, 128);
    match params.payment_params.payee {
        Payee::Clear { node_id, .. } => {
            assert_eq!(node_id, public_key.serialize());
        },
    }
}

#[test]
fn zero_value_invoice_test() {
    let payment_hash = sha256(&[0; 32]);
    let private_key = SecretKey::from_slice(&[42; 32]).unwrap();
    let secp_ctx = Secp256k1::new();
    let public_key = PublicKey::from_secret_key(&secp_ctx, &private_key);

    let timestamp = SystemTime::now().duration_since(SystemTime::UNIX_EPOCH).unwrap();
    let invoice = InvoiceBuilder::new(Currency::Bitcoin)
        .description("test".into())
        .payment_hash(payment_hash)
        .payment_secret(lightning_invoice::PaymentSecret([0; 32]))
        .duration_since_epoch(timestamp)
        .min_final_cltv_expiry_delta(144)
        .build_signed(|hash| secp_ctx.sign_ecdsa_recoverable(hash, &private_key))
        .unwrap();

    assert!(payment_parameters_from_invoice(&invoice).is_err());

    let (hash, onion, params) =
        payment_parameters_from_variable_amount_invoice(&invoice, 42).unwrap();
    assert_eq!(&hash.0[..], &payment_hash[..]);
    assert_eq!(onion.payment_secret, Some(PaymentSecret([0; 32])));
    assert_eq!(params.final_value_msat, 42);
    match params.payment_params.payee {
        Payee::Clear { node_id, .. } => {
            assert_eq!(node_id, public_key.serialize());
        },
    }
}

#[test]
fn payment_metadata_end_to_end() {
    // The payment metadata of an invoice comes out in the onion fields of the payment.
    let payment_metadata = vec![42, 43, 44, 45, 46, 47, 48, 49, 42];
    let private_key = SecretKey::from_slice(&[43; 32]).unwrap();
    let secp_ctx = Secp256k1::new();

    let timestamp = SystemTime::now().duration_since(SystemTime::UNIX_EPOCH).unwrap();
    let invoice = InvoiceBuilder::new(Currency::Bitcoin)
        .description("test".into())
        .payment_hash(sha256(&[7; 32]))
        .payment_secret(lightning_invoice::PaymentSecret([8; 32]))
        .duration_since_epoch(timestamp)
        .min_final_cltv_expiry_delta(144)
        .amount_milli_satoshis(50_000)
        .payment_metadata(payment_metadata.clone())
        .build_raw()
        .unwrap();
    let invoice = invoice
        .sign::<_, ()>(|hash| Ok(secp_ctx.sign_ecdsa_recoverable(hash, &private_key)))
        .unwrap();
    let invoice = Bolt11Invoice::from_signed(invoice).unwrap();

    let (hash, onion, params) = payment_parameters_from_invoice(&invoice).unwrap();
    assert_eq!(hash.0, bitcoin::hashes::Hash::to_byte_array(sha256(&[7; 32])));
    assert_eq!(params.final_value_msat, 50_000);
    assert_eq!(Some(payment_metadata), onion.payment_metadata);
}

#[test]
fn invoice_fields_are_read_from_the_invoice() {
    let private_key = SecretKey::from_slice(&[42; 32]).unwrap();
    let secp_ctx = Secp256k1::new();
    let public_key = PublicKey::from_secret_key(&secp_ctx, &private_key);
    let hop_key = PublicKey::from_secret_key(&secp_ctx, &SecretKey::from_slice(&[9; 32]).unwrap());
    let hint = InvoiceRouteHint(vec![InvoiceRouteHintHop {
        src_node_id: hop_key,
        short_channel_id: 77,
        fees: InvoiceRoutingFees { base_msat: 1000, proportional_millionths: 30 },
        cltv_expiry_delta: 40,
        htlc_minimum_msat: None,
        htlc_maximum_msat: None,
    }]);
    let invoice = InvoiceBuilder::new(Currency::Bitcoin)
        .description("test".into())
        .payment_hash(sha256(&[0; 32]))
        .payment_secret(lightning_invoice::PaymentSecret([6; 32]))
        .duration_since_epoch(std::time::Duration::from_secs(1_600_000_000))
        .expiry_time(std::time::Duration::from_secs(600))
        .min_final_cltv_expiry_delta(80)
        .amount_milli_satoshis(5000)
        .private_route(hint)
        .build_signed(|hash| secp_ctx.sign_ecdsa_recoverable(hash, &private_key))
        .unwrap();

    let fields = invoice_fields(&invoice);
    assert_eq!(fields.amount_msat, Some(5000));
    assert_eq!(fields.payment_hash, bitcoin::hashes::Hash::to_byte_array(sha256(&[0; 32])));
    assert_eq!(fields.payment_secret, [6; 32]);
    assert_eq!(fields.payment_metadata, None);
    assert_eq!(fields.payee_pub_key, Some(public_key.serialize()));
    assert_eq!(fields.min_final_cltv_expiry_delta, 80);
    assert_eq!(fields.expires_at, Some(1_600_000_600));
    assert_eq!(
        fields.route_hints,
        vec![RouteHint(vec![RouteHintHop {
            src_node_id: hop_key.serialize(),
            short_channel_id: 77,
            fees: RoutingFees { base_msat: 1000, proportional_millionths: 30 },
            cltv_expiry_delta: 40,
            htlc_minimum_msat: None,
            htlc_maximum_msat: None,
        }])]
    );
    assert_eq!(
        fields.features,
        invoice.features().map(|features| features.le_flags().to_vec())
    );
    assert!(fields.features.is_some());
}

#[test]
fn params_take_over_what_the_invoice_names() {
    let fields = plain_fields();
    let (hash, onion, route) = params_from_fields(fields.clone(), 999).unwrap();
    assert_eq!(hash.0, [1; 32]);
    assert_eq!(onion.payment_secret, Some(PaymentSecret([2; 32])));
    assert_eq!(onion.payment_metadata, Some(vec![3, 4]));
    assert!(onion.custom_tlvs.is_empty());
    assert_eq!(route.final_value_msat, 999);
    assert_eq!(route.max_total_routing_fee_msat, Some(9 + 50_000));
    assert_eq!(
        route.payment_params.payee,
        Payee::Clear {
            node_id: [5; 33],
            route_hints: Vec::new(),
            features: Some(vec![0, 0x41]),
            final_cltv_expiry_delta: 144,
        }
    );
    assert_eq!(route.payment_params.expiry_time, Some(1_700_000_000));
    assert_eq!(route.payment_params.max_total_cltv_expiry_delta, 1008);
    assert_eq!(route.payment_params.max_path_count, 10);
    assert_eq!(route.payment_params.max_path_length, 19);
    assert_eq!(route.payment_params.max_channel_saturation_power_of_half, 2);
    assert!(route.payment_params.previously_failed_channels.is_empty());
    assert!(route.payment_params.previously_failed_blinded_path_idxs.is_empty());
}

#[test]
fn a_long_expiry_delta_keeps_its_low_32_bits() {
    let mut fields = plain_fields();
    fields.min_final_cltv_expiry_delta = (1 << 32) + 18;
    let (_, _, route) = params_from_fields(fields, 1).unwrap();
    match route.payment_params.payee {
        Payee::Clear { final_cltv_expiry_delta, .. } => assert_eq!(final_cltv_expiry_delta, 18),
    }
}

#[test]
fn an_amount_decides_which_function_builds_the_parameters() {
    let with_amount = plain_fields();
    let mut without_amount = plain_fields();
    without_amount.amount_msat = None;

    let (_, _, route) = payment_parameters_from_fields(with_amount.clone()).unwrap();
    assert_eq!(route.final_value_msat, 1_234_567);
    assert_eq!(route.max_total_routing_fee_msat, Some(12_345 + 50_000));
    assert_eq!(payment_parameters_from_fields(without_amount.clone()), Err(()));

    assert_eq!(payment_parameters_from_variable_amount_fields(with_amount, 5), Err(()));
    let (_, _, route) = payment_parameters_from_variable_amount_fields(without_amount, 5).unwrap();
    assert_eq!(route.final_value_msat, 5);
}

#[test]
fn an_invoice_without_a_payee_key_is_not_paid() {
    let mut fields = plain_fields();
    fields.payee_pub_key = None;
    assert_eq!(params_from_fields(fields.clone(), 5), Err(()));
    assert_eq!(payment_parameters_from_fields(fields.clone()), Err(()));
    fields.amount_msat = None;
    assert_eq!(payment_parameters_from_variable_amount_fields(fields, 5), Err(()));
}

#[test]
fn a_named_payee_key_goes_before_the_one_of_the_signature() {
    let private_key = SecretKey::from_slice(&[42; 32]).unwrap();
    let secp_ctx = Secp256k1::new();
    let signer = PublicKey::from_secret_key(&secp_ctx, &private_key);
    let build = |named: bool| {
        let builder = InvoiceBuilder::new(Currency::Bitcoin)
            .description("test".into())
            .payment_hash(sha256(&[0; 32]))
            .payment_secret(lightning_invoice::PaymentSecret([6; 32]))
            .duration_since_epoch(std::time::Duration::from_secs(1_600_000_000))
            .min_final_cltv_expiry_delta(80)
            .amount_milli_satoshis(5000);
        let builder = if named { builder.payee_pub_key(signer) } else { builder };
        builder.build_signed(|hash| secp_ctx.sign_ecdsa_recoverable(hash, &private_key)).unwrap()
    };
    assert_eq!(build(true).payee_pub_key(), Some(&signer));
    assert_eq!(invoice_payee_pub_key(&build(true)), Some(signer.serialize()));
    assert_eq!(build(false).payee_pub_key(), None);
    assert_eq!(invoice_payee_pub_key(&build(false)), Some(signer.serialize()));
}

#[test]
fn a_signature_that_gives_no_key_fails_the_payment() {
    // a signature of zeros is taken by the builder, and no key can be recovered from it
    let signature = bitcoin::secp256k1::ecdsa::RecoverableSignature::from_compact(
        &[0; 64],
        bitcoin::secp256k1::ecdsa::RecoveryId::from_i32(0).unwrap(),
    )
    .unwrap();
    let invoice = InvoiceBuilder::new(Currency::Bitcoin)
        .description("test".into())
        .payment_hash(sha256(&[0; 32]))
        .payment_secret(lightning_invoice::PaymentSecret([6; 32]))
        .duration_since_epoch(std::time::Duration::from_secs(1_600_000_000))
        .min_final_cltv_expiry_delta(80)
        .amount_milli_satoshis(5000)
        .build_signed(|_| signature)
        .unwrap();

    assert_eq!(invoice_payee_pub_key(&invoice), None);
    let fields = invoice_fields(&invoice);
    assert_eq!(fields.payee_pub_key, None);
    assert_eq!(fields.amount_msat, Some(5000));
    assert!(payment_parameters_from_invoice(&invoice).is_err());
    assert!(payment_parameters_from_variable_amount_invoice(&invoice, 5).is_err());
}
