//! Opening fees, and the promise that binds an LSP to fee parameters.

use vstd::prelude::*;

use bitcoin::hashes::hmac::{Hmac, HmacEngine};
use bitcoin::hashes::HashEngine;

use crate::jit_channel::msgs::OpeningFeeParams;
use crate::utils::{
    be_bytes, be_value, hex_bytes, hex_str, hex_text, lemma_be_round_trip, lemma_hex_round_trip,
    push_be_bytes,
};

verus! {

/// The HMAC of data under a key, with SHA-256 as the hash function.
pub uninterp spec fn hmac_sha256_digest(key: Seq<u8>, data: Seq<u8>) -> Seq<u8>;

/// `bitcoin::hashes::hmac::Hmac::<sha256::Hash>::from_engine` gives the HMAC-SHA256 of what was
/// put into an engine that `HmacEngine::new` keyed.
#[verifier::external_body]
fn hmac_sha256(key: &[u8], data: &[u8]) -> (digest: [u8; 32])
    ensures
        digest@ == hmac_sha256_digest(key@, data@),
{
    let mut engine = HmacEngine::<bitcoin::hashes::sha256::Hash>::new(key);
    engine.input(data);
    bitcoin::hashes::Hash::to_byte_array(
        <Hmac<bitcoin::hashes::sha256::Hash> as bitcoin::hashes::Hash>::from_engine(engine),
    )
}

/// The bytes that the promise for fee parameters is computed over.
pub open spec fn promise_input(
    min_fee_msat: u64,
    proportional: u32,
    valid_until: Seq<char>,
    min_lifetime: u32,
    max_client_to_self_delay: u32,
) -> Seq<u8> {
    be_bytes(min_fee_msat as nat, 8) + be_bytes(proportional as nat, 4)
        + vstd::utf8::encode_utf8(valid_until) + be_bytes(min_lifetime as nat, 4) + be_bytes(
        max_client_to_self_delay as nat,
        4,
    )
}

/// The promise for fee parameters under a secret.
pub open spec fn promise_text(
    promise_secret: Seq<u8>,
    min_fee_msat: u64,
    proportional: u32,
    valid_until: Seq<char>,
    min_lifetime: u32,
    max_client_to_self_delay: u32,
) -> Seq<char> {
    hex_text(
        hmac_sha256_digest(
            promise_secret,
            promise_input(
                min_fee_msat,
                proportional,
                valid_until,
                min_lifetime,
                max_client_to_self_delay,
            ),
        ),
    )
}

/// Computes the promise for fee parameters under a secret.
pub fn compute_promise(
    promise_secret: &[u8; 32],
    min_fee_msat: u64,
    proportional: u32,
    valid_until: &String,
    min_lifetime: u32,
    max_client_to_self_delay: u32,
) -> (promise: String)
    ensures
        promise@ == promise_text(
            promise_secret@,
            min_fee_msat,
            proportional,
            valid_until@,
            min_lifetime,
            max_client_to_self_delay,
        ),
{
    let mut input: Vec<u8> = Vec::new();
    push_be_bytes(&mut input, min_fee_msat, 8);
    push_be_bytes(&mut input, proportional as u64, 4);
    let mut valid_until_bytes = vstd::slice::slice_to_vec(valid_until.as_str().as_bytes());
    input.append(&mut valid_until_bytes);
    push_be_bytes(&mut input, min_lifetime as u64, 4);
    push_be_bytes(&mut input, max_client_to_self_delay as u64, 4);
    assert(input@ =~= promise_input(
        min_fee_msat,
        proportional,
        valid_until@,
        min_lifetime,
        max_client_to_self_delay,
    ));
    hex_str(hmac_sha256(promise_secret.as_slice(), input.as_slice()).as_slice())
}

/// The seconds since the Unix epoch of the date and time that a text denotes.
pub uninterp spec fn rfc3339_seconds(text: Seq<char>) -> Option<i64>;

/// `chrono::DateTime::<chrono::Utc>::from_str` reads a date and time, and
/// `chrono::DateTime::timestamp` gives its seconds since the Unix epoch.
#[verifier::external_body]
pub(crate) fn parse_rfc3339_seconds(text: &str) -> (seconds: Option<i64>)
    ensures
        seconds == rfc3339_seconds(text@),
{
    match text.parse::<chrono::DateTime<chrono::Utc>>() {
        Ok(date_time) => Some(date_time.timestamp()),
        Err(_) => None,
    }
}

/// Whether a point in time, in seconds since the Unix epoch, has not passed yet.
pub open spec fn not_past(valid_until: Option<i64>, seconds_since_epoch: u64) -> bool {
    match valid_until {
        Some(seconds) => seconds_since_epoch <= seconds,
        None => false,
    }
}

/// Returns whether a point in time, in seconds since the Unix epoch, has not passed yet.
///
/// What is no point in time, or one before the epoch, has passed.
pub fn is_not_past(valid_until: Option<i64>, seconds_since_epoch: u64) -> (valid: bool)
    ensures
        valid == not_past(valid_until, seconds_since_epoch),
        valid <==> valid_until is Some && seconds_since_epoch <= valid_until->0,
{
    match valid_until {
        Some(seconds) => 0 <= seconds && seconds_since_epoch <= seconds as u64,
        None => false,
    }
}

impl OpeningFeeParams {
    /// Whether the promise is the one that the secret gives for the other fields.
    pub open spec fn promise_matches(&self, promise_secret: Seq<u8>) -> bool {
        self.promise@ == promise_text(
            promise_secret,
            self.min_fee_msat,
            self.proportional,
            self.valid_until@,
            self.min_lifetime,
            self.max_client_to_self_delay,
        )
    }

    /// Whether the parameters were given out under the secret, and have not expired.
    pub open spec fn valid_at(&self, promise_secret: Seq<u8>, seconds_since_epoch: u64) -> bool {
        not_past(rfc3339_seconds(self.valid_until@), seconds_since_epoch)
            && self.promise_matches(promise_secret)
    }
}

/// Determines if the given parameters are valid at a point in time, given the secret used to
/// generate the promise.
pub fn is_valid_opening_fee_params(
    fee_params: &OpeningFeeParams,
    promise_secret: &[u8; 32],
    seconds_since_epoch: u64,
) -> (valid: bool)
    ensures
        valid == fee_params.valid_at(promise_secret@, seconds_since_epoch),
        valid <==> {
            &&& rfc3339_seconds(fee_params.valid_until@) is Some
            &&& seconds_since_epoch <= rfc3339_seconds(fee_params.valid_until@)->0
            &&& fee_params.promise@ == promise_text(
                promise_secret@,
                fee_params.min_fee_msat,
                fee_params.proportional,
                fee_params.valid_until@,
                fee_params.min_lifetime,
                fee_params.max_client_to_self_delay,
            )
        },
{
    let valid_until = parse_rfc3339_seconds(fee_params.valid_until.as_str());
    if !is_not_past(valid_until, seconds_since_epoch) {
        return false;
    }
    fee_params.is_valid(promise_secret)
}

/// The opening fee for a payment: the proportional fee in parts per million, rounded up, but no
/// less than the minimum.
pub open spec fn opening_fee(
    payment_size_msat: u64,
    opening_fee_min_fee_msat: u64,
    opening_fee_proportional: u64,
) -> Option<u64> {
    let scaled = payment_size_msat * opening_fee_proportional + 999999;
    if scaled > u64::MAX {
        None
    } else if scaled / 1000000 < opening_fee_min_fee_msat {
        Some(opening_fee_min_fee_msat)
    } else {
        Some((scaled / 1000000) as u64)
    }
}

/// Whether a fee is the least that is no less than the minimum, and that covers the given parts per
/// million of a payment.
pub open spec fn is_least_fee(fee: int, paid: int, min_fee: int, proportional: int) -> bool {
    &&& min_fee <= fee
    &&& paid * proportional <= fee * 1000000
    &&& fee == min_fee || (fee - 1) * 1000000 < paid * proportional
}

/// There is an opening fee unless the payment times the parts per million is too large to be
/// represented, and the fee is then the least one that is no less than the minimum fee and covers the
/// proportional fee. There is but one such fee.
pub proof fn lemma_opening_fee_is_least(
    payment_size_msat: u64,
    min_fee_msat: u64,
    proportional: u64,
    other: int,
)
    ensures
        ({
            let fee = opening_fee(payment_size_msat, min_fee_msat, proportional);
            let exact = payment_size_msat * proportional;
            &&& fee is Some <==> exact + 999999 <= u64::MAX
            &&& fee is Some ==> min_fee_msat <= fee->0 && exact <= fee->0 * 1000000
            &&& fee is Some && min_fee_msat <= other && exact <= other * 1000000 ==> fee->0 <= other
            &&& fee is Some && is_least_fee(
                other,
                payment_size_msat as int,
                min_fee_msat as int,
                proportional as int,
            ) ==> other == fee->0
        }),
{
}

/// A larger payment, a larger minimum and a larger proportional fee never make the opening fee less.
pub proof fn lemma_opening_fee_grows(
    payment_size_msat: u64,
    min_fee_msat: u64,
    proportional: u64,
    larger_payment_size_msat: u64,
    larger_min_fee_msat: u64,
    larger_proportional: u64,
)
    requires
        payment_size_msat <= larger_payment_size_msat,
        min_fee_msat <= larger_min_fee_msat,
        proportional <= larger_proportional,
        opening_fee(larger_payment_size_msat, larger_min_fee_msat, larger_proportional) is Some,
    ensures
        opening_fee(payment_size_msat, min_fee_msat, proportional) is Some,
        opening_fee(payment_size_msat, min_fee_msat, proportional)->0 <= opening_fee(
            larger_payment_size_msat,
            larger_min_fee_msat,
            larger_proportional,
        )->0,
{
    assert(payment_size_msat * proportional <= larger_payment_size_msat * larger_proportional)
        by (nonlinear_arith)
        requires
            payment_size_msat <= larger_payment_size_msat,
            proportional <= larger_proportional,
    ;
}

/// An opening fee is no less than the minimum fee, and covers the proportional fee.
pub proof fn lemma_opening_fee_covers(
    payment_size_msat: u64,
    opening_fee_min_fee_msat: u64,
    opening_fee_proportional: u64,
)
    requires
        opening_fee(payment_size_msat, opening_fee_min_fee_msat, opening_fee_proportional) is Some,
    ensures
        ({
            let fee = opening_fee(
                payment_size_msat,
                opening_fee_min_fee_msat,
                opening_fee_proportional,
            )->0;
            &&& fee >= opening_fee_min_fee_msat
            &&& fee * 1000000 >= payment_size_msat * opening_fee_proportional
            &&& fee == opening_fee_min_fee_msat || (fee - 1) * 1000000 < payment_size_msat
                * opening_fee_proportional
        }),
{
}

/// Computes the opening fee given a payment size and the fee parameters.
///
/// Returns [`Option::None`] when the computation overflows.
pub fn compute_opening_fee(
    payment_size_msat: u64,
    opening_fee_min_fee_msat: u64,
    opening_fee_proportional: u64,
) -> (fee: Option<u64>)
    ensures
        fee == opening_fee(payment_size_msat, opening_fee_min_fee_msat, opening_fee_proportional),
        fee is Some <==> payment_size_msat * opening_fee_proportional + 999999 <= u64::MAX,
        fee is Some ==> is_least_fee(
            fee->0 as int,
            payment_size_msat as int,
            opening_fee_min_fee_msat as int,
            opening_fee_proportional as int,
        ),
{
    match payment_size_msat.checked_mul(opening_fee_proportional) {
        Some(product) => match product.checked_add(999999) {
            Some(scaled) => {
                let proportional_fee: u64 = scaled / 1000000;
                if proportional_fee < opening_fee_min_fee_msat {
                    Some(opening_fee_min_fee_msat)
                } else {
                    Some(proportional_fee)
                }
            },
            None => None,
        },
        None => None,
    }
}

/// Parameters are valid until the end that they name, that second included, and only with the promise
/// that the secret gives for them: once they have expired they stay so.
pub proof fn lemma_params_are_valid_until_their_end(
    params: OpeningFeeParams,
    promise_secret: Seq<u8>,
    seconds_since_epoch: u64,
    later: u64,
)
    ensures
        params.valid_at(promise_secret, seconds_since_epoch) <==> {
            &&& rfc3339_seconds(params.valid_until@) is Some
            &&& seconds_since_epoch <= rfc3339_seconds(params.valid_until@)->0
            &&& params.promise@ == promise_text(
                promise_secret,
                params.min_fee_msat,
                params.proportional,
                params.valid_until@,
                params.min_lifetime,
                params.max_client_to_self_delay,
            )
        },
        seconds_since_epoch <= later && params.valid_at(promise_secret, later) ==> params.valid_at(
            promise_secret,
            seconds_since_epoch,
        ),
{
}

/// The promise is the hexadecimal text of the HMAC over all of the parameters: their numbers as big
/// endian bytes in their order, with the end of their validity in between as UTF-8.
pub proof fn lemma_promise_covers_the_params(
    promise_secret: Seq<u8>,
    min_fee_msat: u64,
    proportional: u32,
    valid_until: Seq<char>,
    min_lifetime: u32,
    max_client_to_self_delay: u32,
)
    ensures
        ({
            let input = promise_input(
                min_fee_msat,
                proportional,
                valid_until,
                min_lifetime,
                max_client_to_self_delay,
            );
            let n = input.len() as int;
            &&& hex_bytes(
                promise_text(
                    promise_secret,
                    min_fee_msat,
                    proportional,
                    valid_until,
                    min_lifetime,
                    max_client_to_self_delay,
                ),
            ) == Some(hmac_sha256_digest(promise_secret, input))
            &&& n == 20 + vstd::utf8::encode_utf8(valid_until).len()
            &&& be_value(input.subrange(0, 8)) == min_fee_msat
            &&& be_value(input.subrange(8, 12)) == proportional
            &&& input.subrange(12, n - 8) == vstd::utf8::encode_utf8(valid_until)
            &&& be_value(input.subrange(n - 8, n - 4)) == min_lifetime
            &&& be_value(input.subrange(n - 4, n)) == max_client_to_self_delay
        }),
{
    let input = promise_input(
        min_fee_msat,
        proportional,
        valid_until,
        min_lifetime,
        max_client_to_self_delay,
    );
    let n = input.len() as int;
    lemma_hex_round_trip(hmac_sha256_digest(promise_secret, input));
    reveal_with_fuel(vstd::arithmetic::power::pow, 9);
    lemma_be_round_trip(min_fee_msat as nat, 8);
    lemma_be_round_trip(proportional as nat, 4);
    lemma_be_round_trip(min_lifetime as nat, 4);
    lemma_be_round_trip(max_client_to_self_delay as nat, 4);
    assert(input.subrange(0, 8) =~= be_bytes(min_fee_msat as nat, 8));
    assert(input.subrange(8, 12) =~= be_bytes(proportional as nat, 4));
    assert(input.subrange(12, n - 8) =~= vstd::utf8::encode_utf8(valid_until));
    assert(input.subrange(n - 8, n - 4) =~= be_bytes(min_lifetime as nat, 4));
    assert(input.subrange(n - 4, n) =~= be_bytes(max_client_to_self_delay as nat, 4));
}

/// Parameters that differ in any field have promises over different bytes.
pub proof fn lemma_promise_tells_params_apart(a: OpeningFeeParams, b: OpeningFeeParams)
    requires
        promise_input(
            a.min_fee_msat,
            a.proportional,
            a.valid_until@,
            a.min_lifetime,
            a.max_client_to_self_delay,
        ) == promise_input(
            b.min_fee_msat,
            b.proportional,
            b.valid_until@,
            b.min_lifetime,
            b.max_client_to_self_delay,
        ),
    ensures
        a.min_fee_msat == b.min_fee_msat,
        a.proportional == b.proportional,
        a.valid_until@ == b.valid_until@,
        a.min_lifetime == b.min_lifetime,
        a.max_client_to_self_delay == b.max_client_to_self_delay,
{
    let secret = Seq::<u8>::empty();
    lemma_promise_covers_the_params(
        secret,
        a.min_fee_msat,
        a.proportional,
        a.valid_until@,
        a.min_lifetime,
        a.max_client_to_self_delay,
    );
    lemma_promise_covers_the_params(
        secret,
        b.min_fee_msat,
        b.proportional,
        b.valid_until@,
        b.min_lifetime,
        b.max_client_to_self_delay,
    );
    vstd::utf8::encode_utf8_decode_utf8(a.valid_until@);
    vstd::utf8::encode_utf8_decode_utf8(b.valid_until@);
}

/// The opening fee of a payment is the least one that is no less than the minimum and covers the
/// proportional fee in parts per million. It is not computed only where the product is too large.
pub proof fn lemma_fees_are_computed(
    payment_size_msat: u64,
    min_fee_msat: u64,
    proportional: u64,
    fee: Option<u64>,
)
    requires
        call_ensures(compute_opening_fee, (payment_size_msat, min_fee_msat, proportional), fee),
    ensures
        fee is Some <==> payment_size_msat * proportional + 999999 <= u64::MAX,
        fee is Some ==> {
            &&& min_fee_msat <= fee->0
            &&& payment_size_msat * proportional <= fee->0 * 1000000
            &&& fee->0 == min_fee_msat || (fee->0 - 1) * 1000000 < payment_size_msat * proportional
        },
{
    lemma_opening_fee_is_least(payment_size_msat, min_fee_msat, proportional, 0);
}

/// Fee parameters are valid exactly where their promise is the one that the secret gives for their other
/// fields, and their time has not passed; they stay valid until then.
pub proof fn lemma_params_are_checked(
    params: OpeningFeeParams,
    promise_secret: [u8; 32],
    seconds_since_epoch: u64,
    valid: bool,
    earlier: u64,
    valid_earlier: bool,
)
    requires
        call_ensures(
            is_valid_opening_fee_params,
            (&params, &promise_secret, seconds_since_epoch),
            valid,
        ),
        call_ensures(
            is_valid_opening_fee_params,
            (&params, &promise_secret, earlier),
            valid_earlier,
        ),
        earlier <= seconds_since_epoch,
    ensures
        valid <==> {
            &&& rfc3339_seconds(params.valid_until@) is Some
            &&& seconds_since_epoch <= rfc3339_seconds(params.valid_until@)->0
            &&& params.promise@ == promise_text(
                promise_secret@,
                params.min_fee_msat,
                params.proportional,
                params.valid_until@,
                params.min_lifetime,
                params.max_client_to_self_delay,
            )
        },
        valid ==> valid_earlier,
{
}

/// A promise that was computed under a secret for the fields of parameters makes them valid under that
/// secret until their time has passed.
pub proof fn lemma_promises_are_kept(
    promise_secret: [u8; 32],
    min_fee_msat: u64,
    proportional: u32,
    valid_until: String,
    min_lifetime: u32,
    max_client_to_self_delay: u32,
    promise: String,
    seconds_since_epoch: u64,
    valid: bool,
)
    requires
        call_ensures(
            compute_promise,
            (
                &promise_secret,
                min_fee_msat,
                proportional,
                &valid_until,
                min_lifetime,
                max_client_to_self_delay,
            ),
            promise,
        ),
        call_ensures(
            is_valid_opening_fee_params,
            (
                &(OpeningFeeParams {
                    min_fee_msat,
                    proportional,
                    valid_until,
                    min_lifetime,
                    max_client_to_self_delay,
                    promise,
                }),
                &promise_secret,
                seconds_since_epoch,
            ),
            valid,
        ),
    ensures
        valid <==> rfc3339_seconds(valid_until@) is Some && seconds_since_epoch <= rfc3339_seconds(
            valid_until@,
        )->0,
{
}

} // verus!
