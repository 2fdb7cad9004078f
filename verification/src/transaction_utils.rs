//! The order of a transaction's outputs, and the change that a transaction
//! can afford.

use crate::transaction::{
    has_fitting_witnesses, length_prefix_size, var_int_size, weight, weight_of, witnesses_fit,
    TransactionData, TxOut,
};
use core::cmp::Ordering;
use vstd::prelude::*;
use vstd::seq_lib::{to_multiset_insert, to_multiset_remove};

verus! {

/// The largest amount that can exist, in satoshis: `bitcoin::Amount::MAX_MONEY`.
pub const MAX_MONEY: u64 = 2_100_000_000_000_000;

/// The longest script for which a dust limit is computed: with one byte
/// more, the size that an output and its spending take, times the relay fee
/// of 3000, would leave `u64`.
pub const MAX_SCRIPT_LEN: u64 = 6_148_914_691_236_352;

/// The least amount, in satoshis, that an output locked by `script` must
/// hold to be relayed.
pub uninterp spec fn minimal_non_dust_of(script: Seq<u8>) -> u64;

/// `bitcoin::Script::minimal_non_dust` on the script with the bytes `script`,
/// in satoshis: the result depends on the bytes and on nothing else. The
/// outside function gives up on a script so long that its size times the
/// relay fee leaves `u64`; a script of at most [`MAX_SCRIPT_LEN`] bytes is
/// not.
#[verifier::external_body]
fn minimal_non_dust(script: &Vec<u8>) -> (r: u64)
    requires
        script@.len() <= MAX_SCRIPT_LEN,
    ensures
        r == minimal_non_dust_of(script@),
{
    bitcoin::Script::from_bytes(script).minimal_non_dust().to_sat()
}

/// The number of bytes that an output with a script of `script_len` bytes
/// takes in an encoding, as `bitcoin::TxOut::size` gives it: the amount, the
/// script's length and the script.
pub open spec fn encoded_output_len(script_len: int) -> int {
    8 + var_int_size(script_len) + script_len
}

/// The sum of the amounts of `outputs`.
pub open spec fn output_total(outputs: Seq<TxOut>) -> int
    decreases outputs.len(),
{
    if outputs.len() == 0 {
        0
    } else {
        output_total(outputs.drop_last()) + outputs.last().value
    }
}

/// The weight of a signed transaction that is left without change: the
/// weight of the transaction as it is, two bytes for the witness flag, and
/// the witnesses to come.
pub open spec fn starting_weight(tx_weight: int, witness_max_weight: int) -> int {
    tx_weight + 2 + witness_max_weight
}

/// The weight of a signed transaction that is given a change output with a
/// script of `script_len` bytes beside its `num_outputs` outputs.
pub open spec fn weight_with_change(
    tx_weight: int,
    witness_max_weight: int,
    num_outputs: int,
    script_len: int,
) -> int {
    starting_weight(tx_weight, witness_max_weight) + 4 * encoded_output_len(script_len) + 4 * (
    var_int_size(num_outputs + 1) - var_int_size(num_outputs))
}

/// The fee, in satoshis, of a transaction of weight `weight` at
/// `feerate` satoshis for 1000 weight units, rounded down.
pub open spec fn fee_for(weight: int, feerate: int) -> int {
    weight * feerate / 1000
}

/// What to do with `funds` satoshis that the inputs hold beyond the outputs:
/// `Ok` with the weight of the signed transaction and the amount of the
/// change output, if one is to be added; `Err` if the funds do not pay the
/// fee even without change. Change is added wherever it reaches `dust_value`
/// after its own cost.
pub open spec fn change_decision(
    funds: int,
    tx_weight: int,
    witness_max_weight: int,
    feerate: int,
    num_outputs: int,
    script_len: int,
    dust_value: int,
) -> Result<(int, Option<int>), ()> {
    let without = starting_weight(tx_weight, witness_max_weight);
    let with = weight_with_change(tx_weight, witness_max_weight, num_outputs, script_len);
    let change_value = funds - fee_for(with, feerate);
    if change_value >= dust_value {
        Ok((with, Some(change_value)))
    } else if funds - fee_for(without, feerate) < 0 {
        Err(())
    } else {
        Ok((without, None))
    }
}

/// The weight of a signed transaction that is given a change output with a
/// script of `script_len` bytes beside its `num_outputs` outputs.
pub fn change_weight(
    tx_weight: u64,
    witness_max_weight: u64,
    num_outputs: usize,
    script_len: usize,
) -> (r: u128)
    ensures
        r == weight_with_change(
            tx_weight as int,
            witness_max_weight as int,
            num_outputs as int,
            script_len as int,
        ),
{
    let without: u128 = tx_weight as u128 + 2 + witness_max_weight as u128;
    let change_len: u128 = 8 + length_prefix_size(script_len as u64) as u128 + script_len as u128;
    let count: u64 = num_outputs as u64;
    let grown: u128 = if count == u64::MAX {
        0
    } else {
        (length_prefix_size(count + 1) - length_prefix_size(count)) as u128
    };
    without + 4 * change_len + 4 * grown
}

/// Decides whether a transaction gets a change output, from its weight as
/// it is and the dust limit of the change script.
pub fn decide_change(
    funds: u64,
    tx_weight: u64,
    witness_max_weight: u64,
    feerate_sat_per_1000_weight: u32,
    num_outputs: usize,
    script_len: usize,
    dust_value: u64,
) -> (r: Result<(u64, Option<u64>), ()>)
    requires
        weight_with_change(
            tx_weight as int,
            witness_max_weight as int,
            num_outputs as int,
            script_len as int,
        ) <= u64::MAX,
    ensures
        match change_decision(
            funds as int,
            tx_weight as int,
            witness_max_weight as int,
            feerate_sat_per_1000_weight as int,
            num_outputs as int,
            script_len as int,
            dust_value as int,
        ) {
            Ok((weight, Some(value))) => r == Ok::<(u64, Option<u64>), ()>(
                (weight as u64, Some(value as u64)),
            ) && value <= funds,
            Ok((weight, None)) => r == Ok::<(u64, Option<u64>), ()>((weight as u64, None)),
            Err(_) => r is Err,
        },
{
    let feerate: u128 = feerate_sat_per_1000_weight as u128;
    let without: u128 = tx_weight as u128 + 2 + witness_max_weight as u128;
    let with: u128 = change_weight(tx_weight, witness_max_weight, num_outputs, script_len);
    assert(with * feerate <= 0xFFFF_FFFF_FFFF_FFFF * 0xFFFF_FFFF) by (nonlinear_arith)
        requires
            with <= 0xFFFF_FFFF_FFFF_FFFF,
            feerate <= 0xFFFF_FFFF,
    ;
    assert(without * feerate <= 0xFFFF_FFFF_FFFF_FFFF * 0xFFFF_FFFF) by (nonlinear_arith)
        requires
            without <= 0xFFFF_FFFF_FFFF_FFFF,
            feerate <= 0xFFFF_FFFF,
    ;
    let fees_with: u128 = with * feerate / 1000;
    let fees_without: u128 = without * feerate / 1000;
    if funds as u128 >= fees_with + dust_value as u128 {
        Ok((with as u64, Some((funds as u128 - fees_with) as u64)))
    } else if (funds as u128) < fees_without {
        Err(())
    } else {
        Ok((without as u64, None))
    }
}

/// The amounts of the outputs before an index never exceed those of all.
pub proof fn output_total_grows(outputs: Seq<TxOut>, k: int)
    requires
        0 <= k <= outputs.len(),
    ensures
        0 <= output_total(outputs.take(k)) <= output_total(outputs),
    decreases outputs.len(),
{
    if k == outputs.len() {
        assert(outputs.take(k) == outputs);
        if k > 0 {
            output_total_grows(outputs.drop_last(), k - 1);
            assert(outputs.drop_last().take(k - 1) == outputs.drop_last());
        }
    } else {
        output_total_grows(outputs.drop_last(), k);
        assert(outputs.drop_last().take(k) == outputs.take(k));
    }
}

/// What [`maybe_add_change_output`] does with `tx`: `Err` where the inputs
/// hold more than can exist or no more than the outputs, else what
/// [`change_decision`] says of the funds left over.
pub open spec fn change_outcome(
    tx: TransactionData,
    input_value: u64,
    witness_max_weight: u64,
    feerate: u32,
    script: Seq<u8>,
) -> Result<(int, Option<int>), ()> {
    if input_value > MAX_MONEY || (tx.output@.len() > 0 && output_total(tx.output@)
        >= input_value) {
        Err(())
    } else {
        change_decision(
            input_value - output_total(tx.output@),
            weight_of(tx@) as int,
            witness_max_weight as int,
            feerate as int,
            tx.output@.len() as int,
            script.len() as int,
            minimal_non_dust_of(script) as int,
        )
    }
}

/// True if the `bitcoin` crate can hold the witnesses of `tx`, the change
/// output, should `tx` get one, leaves the weight of the signed transaction
/// within `u64`, and the change script is one for which a dust limit is
/// computed.
pub open spec fn change_fits(tx: TransactionData, witness_max_weight: u64, script: Seq<u8>) -> bool {
    &&& witnesses_fit(tx@)
    &&& script.len() <= MAX_SCRIPT_LEN
    &&& weight_with_change(
        weight_of(tx@) as int,
        witness_max_weight as int,
        tx.output@.len() as int,
        script.len() as int,
    ) <= u64::MAX
}

/// Possibly adds a change output to `tx`, always doing so if the funds
/// exceed the fee at the requested rate by enough for the change not to be
/// dust. Assumes that at least one input will have a witness.
///
/// `Err` if the fee cannot be paid: `tx` is then unchanged. `Ok` with the
/// largest weight that the signed transaction can have.
pub fn maybe_add_change_output(
    tx: &mut TransactionData,
    input_value: u64,
    witness_max_weight: u64,
    feerate_sat_per_1000_weight: u32,
    change_destination_script: Vec<u8>,
) -> (r: Result<u64, ()>)
    requires
        change_fits(*old(tx), witness_max_weight, change_destination_script@),
    ensures
        match change_outcome(
            *old(tx),
            input_value,
            witness_max_weight,
            feerate_sat_per_1000_weight,
            change_destination_script@,
        ) {
            Ok((weight, Some(value))) => {
                &&& r == Ok::<u64, ()>(weight as u64)
                &&& final(tx).output@ == old(tx).output@.push(
                    TxOut { value: value as u64, script_pubkey: change_destination_script },
                )
                &&& final(tx).input == old(tx).input
                &&& final(tx).version == old(tx).version
                &&& final(tx).lock_time == old(tx).lock_time
            },
            Ok((weight, None)) => r == Ok::<u64, ()>(weight as u64) && *final(tx) == *old(tx),
            Err(_) => r is Err && *final(tx) == *old(tx),
        },
{
    if input_value > MAX_MONEY {
        return Err(());
    }
    let mut output_value: u64 = 0;
    let mut i: usize = 0;
    while i < tx.output.len()
        invariant
            i <= tx.output@.len(),
            *tx == *old(tx),
            input_value <= MAX_MONEY,
            output_value == output_total(tx.output@.take(i as int)),
            i > 0 ==> output_value < input_value,
        decreases tx.output@.len() - i,
    {
        let value = tx.output[i].value;
        proof {
            assert(tx.output@.take(i + 1).drop_last() == tx.output@.take(i as int));
            output_total_grows(tx.output@, i + 1);
        }
        if value >= input_value - output_value {
            return Err(());
        }
        output_value = output_value + value;
        i += 1;
    }
    assert(tx.output@.take(i as int) == tx.output@);
    let dust_value = minimal_non_dust(&change_destination_script);
    let tx_weight = weight(tx);
    let decision = decide_change(
        input_value - output_value,
        tx_weight,
        witness_max_weight,
        feerate_sat_per_1000_weight,
        tx.output.len(),
        change_destination_script.len(),
        dust_value,
    );
    match decision {
        Ok((weight, Some(value))) => {
            tx.output.push(TxOut { value, script_pubkey: change_destination_script });
            Ok(weight)
        },
        Ok((weight, None)) => Ok(weight),
        Err(_) => Err(()),
    }
}

/// Does what [`maybe_add_change_output`] does wherever the witnesses of `tx`
/// can be held, the weight that a change output would lead to fits `u64` and
/// the change script is not longer than [`MAX_SCRIPT_LEN`]; elsewhere `None`,
/// with `tx` unchanged.
pub fn try_add_change_output(
    tx: &mut TransactionData,
    input_value: u64,
    witness_max_weight: u64,
    feerate_sat_per_1000_weight: u32,
    change_destination_script: Vec<u8>,
) -> (r: Option<Result<u64, ()>>)
    ensures
        r is Some <==> change_fits(*old(tx), witness_max_weight, change_destination_script@),
        r is None ==> *final(tx) == *old(tx),
        r matches Some(result) ==> (match change_outcome(
            *old(tx),
            input_value,
            witness_max_weight,
            feerate_sat_per_1000_weight,
            change_destination_script@,
        ) {
            Ok((weight, Some(value))) => {
                &&& result == Ok::<u64, ()>(weight as u64)
                &&& final(tx).output@ == old(tx).output@.push(
                    TxOut { value: value as u64, script_pubkey: change_destination_script },
                )
                &&& final(tx).input == old(tx).input
                &&& final(tx).version == old(tx).version
                &&& final(tx).lock_time == old(tx).lock_time
            },
            Ok((weight, None)) => result == Ok::<u64, ()>(weight as u64) && *final(tx) == *old(tx),
            Err(_) => result is Err && *final(tx) == *old(tx),
        }),
{
    let script_len = change_destination_script.len();
    if script_len as u64 > MAX_SCRIPT_LEN || !has_fitting_witnesses(tx) {
        return None;
    }
    let with = change_weight(weight(tx), witness_max_weight, tx.output.len(), script_len);
    if with > u64::MAX as u128 {
        return None;
    }
    Some(
        maybe_add_change_output(
            tx,
            input_value,
            witness_max_weight,
            feerate_sat_per_1000_weight,
            change_destination_script,
        ),
    )
}

/// True if the bytes `a` do not come after the bytes `b` in the order of a
/// dictionary: at the first place where they differ `a` has the lower byte,
/// or `a` ends before any difference.
pub open spec fn bytes_le(a: Seq<u8>, b: Seq<u8>) -> bool
    decreases a.len(),
{
    if a.len() == 0 {
        true
    } else if b.len() == 0 {
        false
    } else if a[0] != b[0] {
        a[0] < b[0]
    } else {
        bytes_le(a.drop_first(), b.drop_first())
    }
}

/// Of two byte strings one does not come after the other.
pub proof fn bytes_le_is_total(a: Seq<u8>, b: Seq<u8>)
    ensures
        bytes_le(a, b) || bytes_le(b, a),
    decreases a.len(),
{
    if a.len() > 0 && b.len() > 0 && a[0] == b[0] {
        bytes_le_is_total(a.drop_first(), b.drop_first());
    }
}

/// Two byte strings of which neither comes after the other are the same.
pub proof fn bytes_le_is_antisymmetric(a: Seq<u8>, b: Seq<u8>)
    requires
        bytes_le(a, b),
        bytes_le(b, a),
    ensures
        a == b,
    decreases a.len(),
{
    if a.len() > 0 && b.len() > 0 {
        bytes_le_is_antisymmetric(a.drop_first(), b.drop_first());
        assert(a =~= seq![a[0]] + a.drop_first());
        assert(b =~= seq![b[0]] + b.drop_first());
    } else {
        assert(a =~= b);
    }
}

/// The order of byte strings carries over a string in the middle.
pub proof fn bytes_le_is_transitive(a: Seq<u8>, b: Seq<u8>, c: Seq<u8>)
    requires
        bytes_le(a, b),
        bytes_le(b, c),
    ensures
        bytes_le(a, c),
    decreases a.len(),
{
    if a.len() > 0 && b.len() > 0 && c.len() > 0 && a[0] == b[0] && b[0] == c[0] {
        bytes_le_is_transitive(a.drop_first(), b.drop_first(), c.drop_first());
    }
}

/// True if the output `a` does not come after `b`: it holds less, or as much
/// under a script that does not come after that of `b`.
pub open spec fn output_le(a: TxOut, b: TxOut) -> bool {
    a.value < b.value || (a.value == b.value && bytes_le(a.script_pubkey@, b.script_pubkey@))
}

/// True if the outputs `a` and `b` hold the same under the same script.
pub open spec fn output_tie(a: TxOut, b: TxOut) -> bool {
    a.value == b.value && a.script_pubkey@ == b.script_pubkey@
}

/// True if `tie_breaker`, asked about `a` and `b`, may answer that `a` comes
/// after `b`.
pub open spec fn may_say_after<T, C: Fn(&T, &T) -> Ordering>(tie_breaker: C, a: T, b: T) -> bool {
    exists|o: Ordering| call_ensures(tie_breaker, (&a, &b), o) && o is Greater
}

/// True if `tie_breaker`, asked about `a` and `b`, may answer that `a` does
/// not come after `b`.
pub open spec fn may_say_not_after<T, C: Fn(&T, &T) -> Ordering>(tie_breaker: C, a: T, b: T) -> bool {
    exists|o: Ordering| call_ensures(tie_breaker, (&a, &b), o) && !(o is Greater)
}

/// True if `tie_breaker` can be asked about any two of `outputs`, at
/// different places, that tie in amount and script.
pub open spec fn ties_callable<T, C: Fn(&T, &T) -> Ordering>(
    outputs: Seq<(TxOut, T)>,
    tie_breaker: C,
) -> bool {
    forall|i: int, j: int|
        0 <= i < outputs.len() && 0 <= j < outputs.len() && i != j && output_tie(
            (#[trigger] outputs[i]).0,
            (#[trigger] outputs[j]).0,
        ) ==> call_requires(tie_breaker, (&outputs[i].1, &outputs[j].1))
}

/// True if `le` is the order that `tie_breaker` computes: it says that `a`
/// comes after `b` exactly where `le(a, b)` is false.
pub open spec fn computes_order<T, C: Fn(&T, &T) -> Ordering>(
    tie_breaker: C,
    le: spec_fn(T, T) -> bool,
) -> bool {
    forall|a: T, b: T, o: Ordering| #[trigger]
        call_ensures(tie_breaker, (&a, &b), o) ==> ((o is Greater) <==> !le(a, b))
}

/// True if `le` puts any two values in order and carries over a value in the
/// middle.
pub open spec fn is_total_preorder<T>(le: spec_fn(T, T) -> bool) -> bool {
    &&& forall|a: T, b: T| #[trigger] le(a, b) || #[trigger] le(b, a)
    &&& forall|a: T, b: T, c: T| #[trigger] le(a, b) && #[trigger] le(b, c) ==> le(a, c)
}

/// True if `outputs` go by amount and then by script.
pub open spec fn outputs_in_order<T>(outputs: Seq<(TxOut, T)>) -> bool {
    forall|i: int, j: int|
        0 <= i < j < outputs.len() ==> output_le((#[trigger] outputs[i]).0, (#[trigger] outputs[j]).0)
}

/// True if those of `outputs` that tie in amount and script go by `le`.
pub open spec fn ties_in_order<T>(outputs: Seq<(TxOut, T)>, le: spec_fn(T, T) -> bool) -> bool {
    forall|i: int, j: int|
        0 <= i < j < outputs.len() && output_tie((#[trigger] outputs[i]).0, (#[trigger] outputs[j]).0)
            ==> le(outputs[i].1, outputs[j].1)
}

/// Tells whether the bytes `a` do not come after the bytes `b`.
pub fn is_bytes_le(a: &Vec<u8>, b: &Vec<u8>) -> (r: bool)
    ensures
        r == bytes_le(a@, b@),
{
    let mut i: usize = 0;
    assert(a@.skip(0) == a@ && b@.skip(0) == b@);
    while i < a.len() && i < b.len()
        invariant
            i <= a@.len(),
            i <= b@.len(),
            bytes_le(a@, b@) == bytes_le(a@.skip(i as int), b@.skip(i as int)),
        decreases a@.len() - i,
    {
        proof {
            assert(a@.skip(i as int).drop_first() == a@.skip(i + 1));
            assert(b@.skip(i as int).drop_first() == b@.skip(i + 1));
            assert(a@.skip(i as int)[0] == a@[i as int]);
            assert(b@.skip(i as int)[0] == b@[i as int]);
        }
        if a[i] != b[i] {
            return a[i] < b[i];
        }
        i += 1;
    }
    i == a.len()
}

/// Tells whether `a` comes after `b`. The tie breaker is asked only where
/// the outputs tie.
fn comes_after<T, C: Fn(&T, &T) -> Ordering>(a: &(TxOut, T), b: &(TxOut, T), tie_breaker: &C) -> (r:
    bool)
    requires
        output_tie(a.0, b.0) ==> call_requires(*tie_breaker, (&a.1, &b.1)),
    ensures
        r ==> !output_le(a.0, b.0) || (output_tie(a.0, b.0) && may_say_after(
            *tie_breaker,
            a.1,
            b.1,
        )),
        !r ==> output_le(a.0, b.0) && (output_tie(a.0, b.0) ==> may_say_not_after(
            *tie_breaker,
            a.1,
            b.1,
        )),
{
    if a.0.value != b.0.value {
        return a.0.value > b.0.value;
    }
    let forth = is_bytes_le(&a.0.script_pubkey, &b.0.script_pubkey);
    let back = is_bytes_le(&b.0.script_pubkey, &a.0.script_pubkey);
    if forth && back {
        proof {
            bytes_le_is_antisymmetric(a.0.script_pubkey@, b.0.script_pubkey@);
        }
        match tie_breaker(&a.1, &b.1) {
            Ordering::Greater => true,
            _ => false,
        }
    } else {
        !forth
    }
}

/// Puts `outputs` in order: by amount, then by script, and those that tie in
/// both by `tie_breaker`, which is asked about nothing else: it need not be
/// able to answer for outputs that do not tie.
///
/// Every output is still there afterwards, with what came with it. Where
/// `tie_breaker` computes an order, the outputs that tie go by it.
pub fn sort_outputs<T, C: Fn(&T, &T) -> Ordering>(outputs: &mut Vec<(TxOut, T)>, tie_breaker: C)
    requires
        ties_callable(old(outputs)@, tie_breaker),
    ensures
        final(outputs)@.to_multiset() == old(outputs)@.to_multiset(),
        final(outputs)@.len() == old(outputs)@.len(),
        outputs_in_order(final(outputs)@),
        forall|le: spec_fn(T, T) -> bool|
            computes_order(tie_breaker, le) && is_total_preorder(le) ==> #[trigger] ties_in_order(
                final(outputs)@,
                le,
            ),
{
    let mut i: usize = 0;
    let ghost mut done: int = 0;
    while i < outputs.len()
        invariant
            done == i,
            i <= outputs@.len(),
            outputs@.len() == old(outputs)@.len(),
            outputs@.to_multiset() == old(outputs)@.to_multiset(),
            outputs_in_order(outputs@.take(done)),
            ties_callable(outputs@, tie_breaker),
            forall|le: spec_fn(T, T) -> bool|
                computes_order(tie_breaker, le) && is_total_preorder(le) ==> #[trigger] ties_in_order(
                    outputs@.take(done),
                    le,
                ),
        decreases outputs@.len() - i,
    {
        let ghost before = outputs@;
        let output = outputs.remove(i);
        let ghost without = outputs@;
        proof {
            assert(before[done] == output);
            assert forall|k: int|
                0 <= k < without.len() && output_tie(
                    (#[trigger] without[k]).0,
                    output.0,
                ) implies call_requires(tie_breaker, (&without[k].1, &output.1)) by {
                let from = if k < done { k } else { k + 1 };
                assert(without[k] == before[from]);
            }
        }
        let mut j: usize = i;
        let ghost mut place: int = done;
        while j > 0 && comes_after(&outputs[j - 1], &output, &tie_breaker)
            invariant
                place == j,
                done == i,
                j <= i <= outputs@.len(),
                outputs@ == without,
                forall|k: int|
                    0 <= k < without.len() && output_tie((#[trigger] without[k]).0, output.0)
                        ==> call_requires(tie_breaker, (&without[k].1, &output.1)),
                forall|k: int|
                    j <= k < i ==> !output_le((#[trigger] outputs@[k]).0, output.0) || (output_tie(
                        outputs@[k].0,
                        output.0,
                    ) && may_say_after(tie_breaker, outputs@[k].1, output.1)),
            decreases j,
        {
            j -= 1;
            proof {
                place = place - 1;
            }
        }
        outputs.insert(j, output);
        proof {
            broadcast use to_multiset_remove, to_multiset_insert;

            assert(without == before.remove(done));
            assert(outputs@ == without.insert(place, output));
            assert(before.to_multiset().remove(output).insert(output) =~= before.to_multiset()) by {
                assert(before[done] == output);
                before.to_multiset_ensures();
                assert(before.contains(output));
            }
            assert forall|a: int, b: int|
                0 <= a < outputs@.len() && 0 <= b < outputs@.len() && a != b && output_tie(
                    (#[trigger] outputs@[a]).0,
                    (#[trigger] outputs@[b]).0,
                ) implies call_requires(tie_breaker, (&outputs@[a].1, &outputs@[b].1)) by {
                let wa = if a < place { a } else { a - 1 };
                let wb = if b < place { b } else { b - 1 };
                let from_a = if a == place { done } else if wa < done { wa } else { wa + 1 };
                let from_b = if b == place { done } else if wb < done { wb } else { wb + 1 };
                assert(outputs@[a] == before[from_a]);
                assert(outputs@[b] == before[from_b]);
            }
            let prefix = before.take(done);
            let after = outputs@.take(i + 1);
            assert forall|k: int| 0 <= k < i implies without[k] == prefix[k] by {}
            // the new output against its neighbours
            assert forall|k: int| 0 <= k < j implies output_le(
                (#[trigger] without[k]).0,
                output.0,
            ) by {
                assert(output_le(without[j - 1].0, output.0));
                if k < j - 1 {
                    assert(output_le(prefix[k].0, prefix[j - 1].0));
                    output_le_is_transitive(without[k].0, without[j - 1].0, output.0);
                }
            }
            assert forall|k: int| j <= k < i implies output_le(
                output.0,
                (#[trigger] without[k]).0,
            ) by {
                output_le_is_total(output.0, without[k].0);
                if output_tie(without[k].0, output.0) {
                    assert(bytes_le(output.0.script_pubkey@, without[k].0.script_pubkey@)) by {
                        bytes_le_is_total(output.0.script_pubkey@, output.0.script_pubkey@);
                    }
                }
            }
            assert forall|a: int, b: int| 0 <= a < b < after.len() implies output_le(
                (#[trigger] after[a]).0,
                (#[trigger] after[b]).0,
            ) by {
                let ia = if a < j { a } else { a - 1 };
                let ib = if b < j { b } else { b - 1 };
                if a != j && b != j {
                    assert(after[a] == prefix[ia]);
                    assert(after[b] == prefix[ib]);
                } else if a == j {
                    assert(after[b] == without[ib]);
                } else {
                    assert(after[a] == without[ia]);
                }
            }
            assert forall|le: spec_fn(T, T) -> bool|
                computes_order(tie_breaker, le) && is_total_preorder(le) implies #[trigger] ties_in_order(
                after,
                le,
            ) by {
                assert(ties_in_order(prefix, le));
                assert forall|a: int, b: int|
                    0 <= a < b < after.len() && output_tie(
                        (#[trigger] after[a]).0,
                        (#[trigger] after[b]).0,
                    ) implies le(after[a].1, after[b].1) by {
                    let ia = if a < j { a } else { a - 1 };
                    let ib = if b < j { b } else { b - 1 };
                    if a != j && b != j {
                        assert(after[a] == prefix[ia]);
                        assert(after[b] == prefix[ib]);
                    } else if a == j {
                        // `output` before one that was moved behind it
                        assert(after[b] == without[ib]);
                        assert(after[a] == output);
                        assert(output_tie(without[ib].0, output.0)) by {
                            assert(after[b].0.script_pubkey@ == after[a].0.script_pubkey@);
                        }
                        output_tie_is_le(without[ib].0, output.0);
                        assert(may_say_after(tie_breaker, without[ib].1, output.1));
                        let o = choose|o: Ordering|
                            call_ensures(tie_breaker, (&without[ib].1, &output.1), o)
                                && o is Greater;
                        assert(!le(without[ib].1, output.1));
                        assert(le(without[ib].1, output.1) || le(output.1, without[ib].1));
                    } else {
                        // one that stayed in front of `output`
                        assert(after[a] == without[ia]);
                        assert(after[b] == output);
                        let last = without[j - 1];
                        assert(output_le(without[ia].0, last.0)) by {
                            if ia < j - 1 {
                                assert(output_le(prefix[ia].0, prefix[j - 1].0));
                            } else {
                                output_tie_is_le(without[ia].0, output.0);
                                output_le_of_self(last.0);
                            }
                        }
                        assert(output_le(last.0, output.0));
                        output_tie_is_le(output.0, without[ia].0);
                        // last lies between two that tie, so it ties with both
                        output_le_is_transitive(last.0, output.0, without[ia].0);
                        output_le_is_antisymmetric(last.0, without[ia].0);
                        assert(output_tie(last.0, output.0));
                        assert(may_say_not_after(tie_breaker, last.1, output.1));
                        let o = choose|o: Ordering|
                            call_ensures(tie_breaker, (&last.1, &output.1), o) && !(o is Greater);
                        assert(le(last.1, output.1));
                        if ia < j - 1 {
                            assert(output_tie(prefix[ia].0, prefix[j - 1].0));
                            assert(le(prefix[ia].1, prefix[j - 1].1));
                            assert(le(without[ia].1, last.1) && le(last.1, output.1));
                        }
                    }
                }
            }
        }
        i += 1;
        proof {
            done = done + 1;
        }
    }
    assert(outputs@.take(done) == outputs@);
}

/// An output does not come after itself.
pub proof fn output_le_of_self(a: TxOut)
    ensures
        output_le(a, a),
{
    bytes_le_is_total(a.script_pubkey@, a.script_pubkey@);
}

/// Outputs that tie do not come after one another.
pub proof fn output_tie_is_le(a: TxOut, b: TxOut)
    requires
        output_tie(a, b),
    ensures
        output_le(a, b),
        output_le(b, a),
{
    bytes_le_is_total(a.script_pubkey@, a.script_pubkey@);
}

/// Of two outputs one does not come after the other.
pub proof fn output_le_is_total(a: TxOut, b: TxOut)
    ensures
        output_le(a, b) || output_le(b, a),
{
    bytes_le_is_total(a.script_pubkey@, b.script_pubkey@);
}

/// Two outputs of which neither comes after the other tie.
pub proof fn output_le_is_antisymmetric(a: TxOut, b: TxOut)
    requires
        output_le(a, b),
        output_le(b, a),
    ensures
        output_tie(a, b),
{
    bytes_le_is_antisymmetric(a.script_pubkey@, b.script_pubkey@);
}

/// The order of outputs carries over an output in the middle.
pub proof fn output_le_is_transitive(a: TxOut, b: TxOut, c: TxOut)
    requires
        output_le(a, b),
        output_le(b, c),
    ensures
        output_le(a, c),
{
    if a.value == b.value && b.value == c.value {
        bytes_le_is_transitive(a.script_pubkey@, b.script_pubkey@, c.script_pubkey@);
    }
}

} // verus!
