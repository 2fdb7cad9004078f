//! The parameters of a payment, as a BOLT 11 invoice asks for it.

use vstd::prelude::*;

verus! {

/// The hash whose preimage proves a payment.
#[derive(Clone, Copy, Debug, PartialEq, Eq, Hash)]
pub struct PaymentHash(pub [u8; 32]);

/// The secret by which a recipient knows the sender of a payment.
#[derive(Clone, Copy, Debug, PartialEq, Eq, Hash)]
pub struct PaymentSecret(pub [u8; 32]);

/// What a payment's onion tells its recipient.
#[derive(Clone, Debug, PartialEq, Eq)]
pub struct RecipientOnionFields {
    pub payment_secret: Option<PaymentSecret>,
    pub payment_metadata: Option<Vec<u8>>,
    pub custom_tlvs: Vec<(u64, Vec<u8>)>,
}

/// The fees for routing through a channel.
#[derive(Clone, Copy, Debug, PartialEq, Eq, Hash)]
pub struct RoutingFees {
    pub base_msat: u32,
    pub proportional_millionths: u32,
}

/// A channel on the way to a recipient. `src_node_id` is the public key, in
/// its compressed form, of the node at the channel's far end.
#[derive(Clone, Debug, PartialEq, Eq, Hash)]
pub struct RouteHintHop {
    pub src_node_id: [u8; 33],
    pub short_channel_id: u64,
    pub fees: RoutingFees,
    pub cltv_expiry_delta: u16,
    pub htlc_minimum_msat: Option<u64>,
    pub htlc_maximum_msat: Option<u64>,
}

/// Hops that end with a channel to the recipient.
#[derive(Clone, Debug, PartialEq, Eq, Hash)]
pub struct RouteHint(pub Vec<RouteHintHop>);

/// The recipient of a payment.
#[derive(Clone, Debug, PartialEq, Eq)]
pub enum Payee {
    /// A recipient known by its node id, a public key in its compressed form.
    Clear {
        node_id: [u8; 33],
        route_hints: Vec<RouteHint>,
        /// The feature flags of the invoice, least significant byte first.
        features: Option<Vec<u8>>,
        final_cltv_expiry_delta: u32,
    },
}

/// Whom to pay, and within which limits a route may be sought.
#[derive(Clone, Debug, PartialEq, Eq)]
pub struct PaymentParameters {
    pub payee: Payee,
    /// The time, in seconds since the Unix epoch, after which no attempt is
    /// to be made.
    pub expiry_time: Option<u64>,
    pub max_total_cltv_expiry_delta: u32,
    pub max_path_count: u8,
    pub max_path_length: u8,
    pub max_channel_saturation_power_of_half: u8,
    pub previously_failed_channels: Vec<u64>,
    pub previously_failed_blinded_path_idxs: Vec<u64>,
}

/// What a route is sought for.
#[derive(Clone, Debug, PartialEq, Eq)]
pub struct RouteParameters {
    pub payment_params: PaymentParameters,
    pub final_value_msat: u64,
    pub max_total_routing_fee_msat: Option<u64>,
}

/// The longest that a payment may be locked up along a route, in blocks.
pub const DEFAULT_MAX_TOTAL_CLTV_EXPIRY_DELTA: u32 = 1008;

/// The largest number of paths that a payment may be split over.
pub const DEFAULT_MAX_PATH_COUNT: u8 = 10;

/// The largest number of hops of a path.
pub const MAX_PATH_LENGTH_ESTIMATE: u8 = 19;

/// The share of a channel's capacity that a payment may take, as a power of
/// one half.
pub const DEFAULT_MAX_CHANNEL_SATURATION_POW_HALF: u8 = 2;

/// What a payment reads from an invoice.
#[derive(Clone, Debug, PartialEq, Eq)]
pub struct InvoiceFields {
    pub amount_msat: Option<u64>,
    pub payment_hash: [u8; 32],
    pub payment_secret: [u8; 32],
    pub payment_metadata: Option<Vec<u8>>,
    /// The payee's public key in its compressed form: the one that the
    /// invoice names, else the one that its signature gives. `None` where it
    /// names none and the signature gives none.
    pub payee_pub_key: Option<[u8; 33]>,
    pub min_final_cltv_expiry_delta: u64,
    pub route_hints: Vec<RouteHint>,
    /// The time at which the invoice expires, in seconds since the Unix
    /// epoch.
    pub expires_at: Option<u64>,
    /// The invoice's feature flags, least significant byte first.
    pub features: Option<Vec<u8>>,
}

/// `lightning_invoice::Bolt11Invoice`, of which nothing is known here: what
/// a payment needs of it is read out field by field.
#[verifier::external_type_specification]
#[verifier::external_body]
pub struct ExBolt11Invoice(lightning_invoice::Bolt11Invoice);

/// `lightning_invoice::Bolt11Invoice::amount_milli_satoshis`. Nothing is
/// claimed of the result.
#[verifier::external_body]
fn invoice_amount_msat(invoice: &lightning_invoice::Bolt11Invoice) -> Option<u64> {
    invoice.amount_milli_satoshis()
}

/// `lightning_invoice::Bolt11Invoice::payment_hash`, as bytes. Nothing is
/// claimed of the result.
#[verifier::external_body]
fn invoice_payment_hash(invoice: &lightning_invoice::Bolt11Invoice) -> [u8; 32] {
    bitcoin::hashes::Hash::to_byte_array(*invoice.payment_hash())
}

/// `lightning_invoice::Bolt11Invoice::payment_secret`, as bytes. Nothing is
/// claimed of the result.
#[verifier::external_body]
fn invoice_payment_secret(invoice: &lightning_invoice::Bolt11Invoice) -> [u8; 32] {
    invoice.payment_secret().0
}

/// `lightning_invoice::Bolt11Invoice::payment_metadata`, copied. Nothing is
/// claimed of the result.
#[verifier::external_body]
fn invoice_payment_metadata(invoice: &lightning_invoice::Bolt11Invoice) -> Option<Vec<u8>> {
    invoice.payment_metadata().cloned()
}

/// `lightning_invoice::Bolt11Invoice::payee_pub_key`, the key in its
/// compressed form. Nothing is claimed of the result.
#[verifier::external_body]
fn invoice_named_payee_pub_key(invoice: &lightning_invoice::Bolt11Invoice) -> Option<[u8; 33]> {
    invoice.payee_pub_key().map(|key| key.serialize())
}

/// `lightning_invoice::SignedRawBolt11Invoice::recover_payee_pub_key` on the
/// signed invoice inside `invoice`, the key in its compressed form; `None`
/// where the signature gives no key. Nothing is claimed of the result.
#[verifier::external_body]
fn invoice_recovered_payee_pub_key(invoice: &lightning_invoice::Bolt11Invoice) -> Option<[u8; 33]> {
    invoice.clone().into_signed_raw().recover_payee_pub_key().ok().map(|key| key.0.serialize())
}

/// `lightning_invoice::Bolt11Invoice::min_final_cltv_expiry_delta`. Nothing
/// is claimed of the result.
#[verifier::external_body]
fn invoice_min_final_cltv_expiry_delta(invoice: &lightning_invoice::Bolt11Invoice) -> u64 {
    invoice.min_final_cltv_expiry_delta()
}

/// `lightning_invoice::Bolt11Invoice::route_hints`, each hop field by field.
/// Nothing is claimed of the result.
#[verifier::external_body]
fn invoice_route_hints(invoice: &lightning_invoice::Bolt11Invoice) -> Vec<RouteHint> {
    invoice.route_hints().into_iter().map(|hint| RouteHint(hint.0.into_iter().map(|hop| RouteHintHop {
        src_node_id: hop.src_node_id.serialize(),
        short_channel_id: hop.short_channel_id,
        fees: RoutingFees { base_msat: hop.fees.base_msat, proportional_millionths: hop.fees.proportional_millionths },
        cltv_expiry_delta: hop.cltv_expiry_delta,
        htlc_minimum_msat: hop.htlc_minimum_msat,
        htlc_maximum_msat: hop.htlc_maximum_msat,
    }).collect())).collect()
}

/// `lightning_invoice::Bolt11Invoice::expires_at`, in whole seconds. Nothing
/// is claimed of the result.
#[verifier::external_body]
fn invoice_expires_at(invoice: &lightning_invoice::Bolt11Invoice) -> Option<u64> {
    invoice.expires_at().map(|at| at.as_secs())
}

/// `lightning_invoice::Bolt11Invoice::features`, the flags as bytes. Nothing
/// is claimed of the result.
#[verifier::external_body]
fn invoice_features(invoice: &lightning_invoice::Bolt11Invoice) -> Option<Vec<u8>> {
    invoice.features().map(|features| features.le_flags().to_vec())
}

/// The payee's public key: the one that `invoice` names, else the one that
/// its signature gives, if it gives one.
pub fn invoice_payee_pub_key(invoice: &lightning_invoice::Bolt11Invoice) -> (r: Option<[u8; 33]>) {
    match invoice_named_payee_pub_key(invoice) {
        Some(key) => Some(key),
        None => invoice_recovered_payee_pub_key(invoice),
    }
}

/// Reads from `invoice` what a payment needs of it.
pub fn invoice_fields(invoice: &lightning_invoice::Bolt11Invoice) -> (r: InvoiceFields) {
    InvoiceFields {
        amount_msat: invoice_amount_msat(invoice),
        payment_hash: invoice_payment_hash(invoice),
        payment_secret: invoice_payment_secret(invoice),
        payment_metadata: invoice_payment_metadata(invoice),
        payee_pub_key: invoice_payee_pub_key(invoice),
        min_final_cltv_expiry_delta: invoice_min_final_cltv_expiry_delta(invoice),
        route_hints: invoice_route_hints(invoice),
        expires_at: invoice_expires_at(invoice),
        features: invoice_features(invoice),
    }
}

/// The most that may be spent on routing fees for a payment of
/// `final_value_msat`: one hundredth of it and 50 satoshis.
pub open spec fn default_max_routing_fee_msat(final_value_msat: u64) -> int {
    final_value_msat / 100 + 50_000
}

/// True if `hash`, `onion` and `route` are the parameters of a payment of
/// `amount_msat` for the invoice that `fields` was read from: what the
/// invoice names is taken over, and the search for a route is left at its
/// usual limits.
pub open spec fn pays(
    fields: InvoiceFields,
    amount_msat: u64,
    hash: PaymentHash,
    onion: RecipientOnionFields,
    route: RouteParameters,
) -> bool {
    &&& fields.payee_pub_key is Some
    &&& hash.0 == fields.payment_hash
    &&& onion.payment_secret == Some(PaymentSecret(fields.payment_secret))
    &&& onion.payment_metadata == fields.payment_metadata
    &&& onion.custom_tlvs@.len() == 0
    &&& route.final_value_msat == amount_msat
    &&& route.max_total_routing_fee_msat matches Some(fee)
    &&& fee == default_max_routing_fee_msat(amount_msat)
    &&& route.payment_params.payee == (Payee::Clear {
        node_id: fields.payee_pub_key->0,
        route_hints: fields.route_hints,
        features: fields.features,
        final_cltv_expiry_delta: fields.min_final_cltv_expiry_delta as u32,
    })
    &&& route.payment_params.expiry_time == fields.expires_at
    &&& route.payment_params.max_total_cltv_expiry_delta == DEFAULT_MAX_TOTAL_CLTV_EXPIRY_DELTA
    &&& route.payment_params.max_path_count == DEFAULT_MAX_PATH_COUNT
    &&& route.payment_params.max_path_length == MAX_PATH_LENGTH_ESTIMATE
    &&& route.payment_params.max_channel_saturation_power_of_half
        == DEFAULT_MAX_CHANNEL_SATURATION_POW_HALF
    &&& route.payment_params.previously_failed_channels@.len() == 0
    &&& route.payment_params.previously_failed_blinded_path_idxs@.len() == 0
}

/// Builds the parameters of a payment of `amount_msat` for the invoice that
/// `fields` was read from. `Err` for an invoice without a payee key.
pub fn params_from_fields(fields: InvoiceFields, amount_msat: u64) -> (r: Result<
    (PaymentHash, RecipientOnionFields, RouteParameters),
    (),
>)
    ensures
        r is Ok <==> fields.payee_pub_key is Some,
        r matches Ok(params) ==> pays(fields, amount_msat, params.0, params.1, params.2),
{
    let node_id = match fields.payee_pub_key {
        Some(key) => key,
        None => {
            return Err(());
        },
    };
    let payment_hash = PaymentHash(fields.payment_hash);
    let recipient_onion = RecipientOnionFields {
        payment_secret: Some(PaymentSecret(fields.payment_secret)),
        payment_metadata: fields.payment_metadata,
        custom_tlvs: Vec::new(),
    };
    let final_cltv_expiry_delta: u32 = #[verifier::truncate]
    (fields.min_final_cltv_expiry_delta as u32);
    let payment_params = PaymentParameters {
        payee: Payee::Clear {
            node_id,
            route_hints: fields.route_hints,
            features: fields.features,
            final_cltv_expiry_delta,
        },
        expiry_time: fields.expires_at,
        max_total_cltv_expiry_delta: DEFAULT_MAX_TOTAL_CLTV_EXPIRY_DELTA,
        max_path_count: DEFAULT_MAX_PATH_COUNT,
        max_path_length: MAX_PATH_LENGTH_ESTIMATE,
        max_channel_saturation_power_of_half: DEFAULT_MAX_CHANNEL_SATURATION_POW_HALF,
        previously_failed_channels: Vec::new(),
        previously_failed_blinded_path_idxs: Vec::new(),
    };
    let route_params = RouteParameters {
        payment_params,
        final_value_msat: amount_msat,
        max_total_routing_fee_msat: Some(amount_msat / 100 + 50_000),
    };
    Ok((payment_hash, recipient_onion, route_params))
}

/// Builds the parameters of a payment for an invoice that names its amount.
/// `Err` for an invoice without an amount, and for one without a payee key.
pub fn payment_parameters_from_fields(fields: InvoiceFields) -> (r: Result<
    (PaymentHash, RecipientOnionFields, RouteParameters),
    (),
>)
    ensures
        r is Ok <==> fields.amount_msat is Some && fields.payee_pub_key is Some,
        r matches Ok(params) ==> pays(
            fields,
            fields.amount_msat->0,
            params.0,
            params.1,
            params.2,
        ),
{
    match fields.amount_msat {
        Some(amount_msat) => params_from_fields(fields, amount_msat),
        None => Err(()),
    }
}

/// Builds the parameters of a payment of `amount_msat` for an invoice that
/// names no amount. `Err` for an invoice with an amount, and for one
/// without a payee key.
pub fn payment_parameters_from_variable_amount_fields(fields: InvoiceFields, amount_msat: u64) -> (r:
    Result<(PaymentHash, RecipientOnionFields, RouteParameters), ()>)
    ensures
        r is Ok <==> fields.amount_msat is None && fields.payee_pub_key is Some,
        r matches Ok(params) ==> pays(fields, amount_msat, params.0, params.1, params.2),
{
    if fields.amount_msat.is_some() {
        Err(())
    } else {
        params_from_fields(fields, amount_msat)
    }
}

/// True of the parameters of a payment of `amount_msat` for some invoice.
pub open spec fn pays_some_invoice(
    amount_msat: u64,
    hash: PaymentHash,
    onion: RecipientOnionFields,
    route: RouteParameters,
) -> bool {
    exists|fields: InvoiceFields| pays(fields, amount_msat, hash, onion, route)
}

/// Builds the parameters to pay `invoice`, or to probe for a route to its
/// payee, where the invoice names no amount.
///
/// Succeeds unless the invoice names an amount, in which case
/// [`payment_parameters_from_invoice`] is the one to use, or neither names
/// a payee key nor gives one by its signature. What is read from
/// the invoice is not known here: [`payment_parameters_from_variable_amount_fields`]
/// says what comes of each invoice.
pub fn payment_parameters_from_variable_amount_invoice(
    invoice: &lightning_invoice::Bolt11Invoice,
    amount_msat: u64,
) -> (r: Result<(PaymentHash, RecipientOnionFields, RouteParameters), ()>)
    ensures
        r matches Ok(params) ==> pays_some_invoice(amount_msat, params.0, params.1, params.2),
{
    let fields = invoice_fields(invoice);
    payment_parameters_from_variable_amount_fields(fields, amount_msat)
}

/// Builds the parameters to pay `invoice`, or to probe for a route to its
/// payee.
///
/// Succeeds unless the invoice names no amount, in which case
/// [`payment_parameters_from_variable_amount_invoice`] is the one to use, or
/// neither names a payee key nor gives one by its signature. What is read
/// from the invoice is not known here:
/// [`payment_parameters_from_fields`] says what comes of each invoice.
pub fn payment_parameters_from_invoice(invoice: &lightning_invoice::Bolt11Invoice) -> (r: Result<
    (PaymentHash, RecipientOnionFields, RouteParameters),
    (),
>)
    ensures
        r matches Ok(params) ==> pays_some_invoice(
            params.2.final_value_msat,
            params.0,
            params.1,
            params.2,
        ),
{
    let fields = invoice_fields(invoice);
    payment_parameters_from_fields(fields)
}

} // verus!
