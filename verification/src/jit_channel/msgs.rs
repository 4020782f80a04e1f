//! Message, request, and other primitive types used to implement LSPS2.

use vstd::prelude::*;

use crate::jit_channel::utils::{compute_promise, promise_text};
use crate::lsps0::msgs::{RequestId, ResponseError};
use crate::utils::{parsed_scid, scid_from_human_readable_string, scid_text, scid_to_string};

verus! {

pub const LSPS2_GET_VERSIONS_METHOD_NAME: &'static str = "lsps2.get_versions";

pub const LSPS2_GET_INFO_METHOD_NAME: &'static str = "lsps2.get_info";

pub const LSPS2_BUY_METHOD_NAME: &'static str = "lsps2.buy";

pub const LSPS2_GET_INFO_REQUEST_INVALID_VERSION_ERROR_CODE: i32 = 1;

pub const LSPS2_GET_INFO_REQUEST_UNRECOGNIZED_OR_STALE_TOKEN_ERROR_CODE: i32 = 2;

pub const LSPS2_BUY_REQUEST_INVALID_VERSION_ERROR_CODE: i32 = 1;

pub const LSPS2_BUY_REQUEST_INVALID_OPENING_FEE_PARAMS_ERROR_CODE: i32 = 2;

pub const LSPS2_BUY_REQUEST_PAYMENT_SIZE_TOO_SMALL_ERROR_CODE: i32 = 3;

pub const LSPS2_BUY_REQUEST_PAYMENT_SIZE_TOO_LARGE_ERROR_CODE: i32 = 4;

/// A request for the protocol versions that the LSP supports.
#[derive(Clone, Debug, PartialEq, Eq)]
pub struct GetVersionsRequest {}

/// The protocol versions that the LSP supports.
#[derive(Clone, Debug, PartialEq, Eq)]
pub struct GetVersionsResponse {
    pub versions: Vec<u16>,
}

/// A request for the parameters that the LSP offers.
#[derive(Debug, PartialEq, Eq)]
pub struct GetInfoRequest {
    pub version: u16,
    pub token: Option<String>,
}

impl Clone for GetInfoRequest {
    fn clone(&self) -> (copy: Self)
        ensures
            copy == *self,
    {
        GetInfoRequest {
            version: self.version,
            token: match &self.token {
                Some(token) => Some(token.clone()),
                None => None,
            },
        }
    }
}

/// Fees and parameters for a JIT Channel.
///
/// The client will pay max(min_fee_msat, proportional*(payment_size_msat/1_000_000)).
#[derive(Clone, Debug, PartialEq, Eq)]
pub struct RawOpeningFeeParams {
    /// The minimum fee required for the channel open.
    pub min_fee_msat: u64,
    /// A fee proportional to the size of the initial payment.
    pub proportional: u32,
    /// An ISO8601 formatted date for which these params are valid.
    pub valid_until: String,
    /// number of blocks that the LSP promises it will keep the channel alive without closing, after confirmation.
    pub min_lifetime: u32,
    /// Maximum number of blocks that the client is allowed to set its to_self_delay parameter.
    pub max_client_to_self_delay: u32,
}

impl RawOpeningFeeParams {
    /// Whether `params` are these parameters with the promise that the secret gives for them.
    pub open spec fn promised_as(&self, promise_secret: Seq<u8>, params: OpeningFeeParams) -> bool {
        &&& params.min_fee_msat == self.min_fee_msat
        &&& params.proportional == self.proportional
        &&& params.valid_until == self.valid_until
        &&& params.min_lifetime == self.min_lifetime
        &&& params.max_client_to_self_delay == self.max_client_to_self_delay
        &&& params.promise@ == promise_text(
            promise_secret,
            self.min_fee_msat,
            self.proportional,
            self.valid_until@,
            self.min_lifetime,
            self.max_client_to_self_delay,
        )
    }

    /// Adds the promise that the secret gives for these parameters.
    pub fn into_opening_fee_params(self, promise_secret: &[u8; 32]) -> (params: OpeningFeeParams)
        ensures
            self.promised_as(promise_secret@, params),
            params.promise_matches(promise_secret@),
    {
        let promise = compute_promise(
            promise_secret,
            self.min_fee_msat,
            self.proportional,
            &self.valid_until,
            self.min_lifetime,
            self.max_client_to_self_delay,
        );
        OpeningFeeParams {
            min_fee_msat: self.min_fee_msat,
            proportional: self.proportional,
            valid_until: self.valid_until,
            min_lifetime: self.min_lifetime,
            max_client_to_self_delay: self.max_client_to_self_delay,
            promise,
        }
    }
}

/// Fees and parameters for a JIT Channel with promise.
///
/// The client will pay max(min_fee_msat, proportional*(payment_size_msat/1_000_000)).
#[derive(Debug, PartialEq, Eq)]
pub struct OpeningFeeParams {
    /// The minimum fee required for the channel open.
    pub min_fee_msat: u64,
    /// A fee proportional to the size of the initial payment.
    pub proportional: u32,
    /// An ISO8601 formatted date for which these params are valid.
    pub valid_until: String,
    /// number of blocks that the LSP promises it will keep the channel alive without closing, after confirmation.
    pub min_lifetime: u32,
    /// Maximum number of blocks that the client is allowed to set its to_self_delay parameter.
    pub max_client_to_self_delay: u32,
    /// Field used by the LSP to validate that these parameters were actually given out by them.
    pub promise: String,
}

impl Clone for OpeningFeeParams {
    fn clone(&self) -> (copy: Self)
        ensures
            copy == *self,
    {
        OpeningFeeParams {
            min_fee_msat: self.min_fee_msat,
            proportional: self.proportional,
            valid_until: self.valid_until.clone(),
            min_lifetime: self.min_lifetime,
            max_client_to_self_delay: self.max_client_to_self_delay,
            promise: self.promise.clone(),
        }
    }
}

impl OpeningFeeParams {
    /// Determine that these parameters are valid given the secret used to generate the promise.
    pub fn is_valid(&self, promise_secret: &[u8; 32]) -> (valid: bool)
        ensures
            valid == self.promise_matches(promise_secret@),
    {
        let promise = compute_promise(
            promise_secret,
            self.min_fee_msat,
            self.proportional,
            &self.valid_until,
            self.min_lifetime,
            self.max_client_to_self_delay,
        );
        promise == self.promise
    }
}

/// Whether each entry of a menu is the raw entry with the promise that the secret gives for it.
pub open spec fn menu_promised_as(
    raw: Seq<RawOpeningFeeParams>,
    promise_secret: Seq<u8>,
    menu: Seq<OpeningFeeParams>,
) -> bool {
    &&& menu.len() == raw.len()
    &&& forall|i: int|
        0 <= i < menu.len() ==> raw[i].promised_as(promise_secret, #[trigger] menu[i])
}

/// Adds the promise that the secret gives to each entry of a menu.
pub fn promise_menu(raw: Vec<RawOpeningFeeParams>, promise_secret: &[u8; 32]) -> (menu: Vec<
    OpeningFeeParams,
>)
    ensures
        menu_promised_as(raw@, promise_secret@, menu@),
{
    let mut menu: Vec<OpeningFeeParams> = Vec::new();
    let ghost all = raw@;
    for params in it: raw
        invariant
            it.seq() == all,
            menu@.len() == it.index(),
            forall|i: int|
                0 <= i < menu@.len() ==> all[i].promised_as(promise_secret@, #[trigger] menu@[i]),
    {
        menu.push(params.into_opening_fee_params(promise_secret));
    }
    menu
}

/// Information about the parameters a LSP is willing to offer clients
#[derive(Clone, Debug, PartialEq, Eq)]
pub struct GetInfoResponse {
    /// A set of opening fee parameters.
    pub opening_fee_params_menu: Vec<OpeningFeeParams>,
    /// The minimum payment size required to open a channel.
    pub min_payment_size_msat: u64,
    /// The maximum payment size the lsp will tolerate.
    pub max_payment_size_msat: u64,
}

/// The response that offers a menu.
pub open spec fn menu_response(
    opening_fee_params_menu: Vec<OpeningFeeParams>,
    min_payment_size_msat: u64,
    max_payment_size_msat: u64,
) -> GetInfoResponse {
    GetInfoResponse { opening_fee_params_menu, min_payment_size_msat, max_payment_size_msat }
}

/// A request to buy a JIT channel.
#[derive(Debug, PartialEq, Eq)]
pub struct BuyRequest {
    pub version: u16,
    pub opening_fee_params: OpeningFeeParams,
    pub payment_size_msat: Option<u64>,
}

impl Clone for BuyRequest {
    fn clone(&self) -> (copy: Self)
        ensures
            copy == *self,
    {
        BuyRequest {
            version: self.version,
            opening_fee_params: self.opening_fee_params.clone(),
            payment_size_msat: self.payment_size_msat,
        }
    }
}

/// A short channel id in its human readable form.
#[derive(Debug, PartialEq, Eq)]
pub struct JitChannelScid(pub String);

impl Clone for JitChannelScid {
    fn clone(&self) -> (copy: Self)
        ensures
            copy == *self,
    {
        JitChannelScid(self.0.clone())
    }
}

impl JitChannelScid {
    /// Writes a short channel id in its human readable form.
    pub fn from_scid(scid: u64) -> (text: Self)
        ensures
            text.0@ == scid_text(scid),
    {
        JitChannelScid(scid_to_string(scid))
    }

    /// Reads the short channel id.
    pub fn to_scid(&self) -> (scid: Result<u64, ()>)
        ensures
            scid == (match parsed_scid(self.0@) {
                Some(value) => Ok(value),
                None => Err(()),
            }),
    {
        scid_from_human_readable_string(self.0.as_str())
    }
}

/// A response from a buy request made by a client
///
/// Includes information needed to construct an invoice.
#[derive(Clone, Debug, PartialEq, Eq)]
pub struct BuyResponse {
    /// The short channel id used by LSP to identify need to open channel.
    pub jit_channel_scid: JitChannelScid,
    /// The locktime expiry delta the lsp requires.
    pub lsp_cltv_expiry_delta: u32,
    /// A flag that indicates who is trusting who.
    pub client_trusts_lsp: bool,
}

/// The response that gives out a short channel id.
pub open spec fn scid_response(
    jit_channel_scid: JitChannelScid,
    lsp_cltv_expiry_delta: u32,
    client_trusts_lsp: bool,
) -> BuyResponse {
    BuyResponse { jit_channel_scid, lsp_cltv_expiry_delta, client_trusts_lsp }
}

/// An LSPS2 request.
#[derive(Clone, Debug, PartialEq, Eq)]
pub enum Request {
    GetVersions(GetVersionsRequest),
    GetInfo(GetInfoRequest),
    Buy(BuyRequest),
}

impl View for Request {
    type V = Request;

    open spec fn view(&self) -> Request {
        *self
    }
}

impl Request {
    /// Returns the JSON-RPC method name of the request.
    pub fn method(&self) -> (name: &'static str)
        ensures
            name@ == (match self {
                Request::GetVersions(_) => "lsps2.get_versions"@,
                Request::GetInfo(_) => "lsps2.get_info"@,
                Request::Buy(_) => "lsps2.buy"@,
            }),
    {
        match self {
            Request::GetVersions(_) => LSPS2_GET_VERSIONS_METHOD_NAME,
            Request::GetInfo(_) => LSPS2_GET_INFO_METHOD_NAME,
            Request::Buy(_) => LSPS2_BUY_METHOD_NAME,
        }
    }
}

/// An LSPS2 response.
#[derive(Clone, Debug, PartialEq, Eq)]
pub enum Response {
    GetVersions(GetVersionsResponse),
    GetInfo(GetInfoResponse),
    GetInfoError(ResponseError),
    Buy(BuyResponse),
    BuyError(ResponseError),
}

/// An LSPS2 message.
#[derive(Clone, Debug, PartialEq, Eq)]
pub enum Message {
    Request(RequestId, Request),
    Response(RequestId, Response),
}

/// A menu that is given out has the entries that it was made of, in their order and in every field, each
/// with the promise that the secret gives for it.
pub proof fn lemma_menus_keep_their_entries(
    raw: Seq<RawOpeningFeeParams>,
    promise_secret: Seq<u8>,
    menu: Seq<OpeningFeeParams>,
    i: int,
)
    requires
        menu_promised_as(raw, promise_secret, menu),
        0 <= i < raw.len(),
    ensures
        menu.len() == raw.len(),
        menu[i].min_fee_msat == raw[i].min_fee_msat,
        menu[i].proportional == raw[i].proportional,
        menu[i].valid_until@ == raw[i].valid_until@,
        menu[i].min_lifetime == raw[i].min_lifetime,
        menu[i].max_client_to_self_delay == raw[i].max_client_to_self_delay,
        menu[i].promise@ == promise_text(
            promise_secret,
            raw[i].min_fee_msat,
            raw[i].proportional,
            raw[i].valid_until@,
            raw[i].min_lifetime,
            raw[i].max_client_to_self_delay,
        ),
{
}

/// A response says what it is made of.
pub proof fn lemma_responses_say_what_they_are_made_of(
    menu: Vec<OpeningFeeParams>,
    min_payment_size_msat: u64,
    max_payment_size_msat: u64,
    scid: JitChannelScid,
    cltv_expiry_delta: u32,
    client_trusts_lsp: bool,
)
    ensures
        ({
            let offered = menu_response(menu, min_payment_size_msat, max_payment_size_msat);
            let sold = scid_response(scid, cltv_expiry_delta, client_trusts_lsp);
            &&& offered.opening_fee_params_menu == menu
            &&& offered.min_payment_size_msat == min_payment_size_msat
            &&& offered.max_payment_size_msat == max_payment_size_msat
            &&& sold.jit_channel_scid == scid
            &&& sold.lsp_cltv_expiry_delta == cltv_expiry_delta
            &&& sold.client_trusts_lsp == client_trusts_lsp
        }),
{
}

/// The method that each request is sent under.
pub proof fn lemma_methods_of_requests(request: Request, name: &'static str)
    requires
        call_ensures(Request::method, (&request, ), name),
    ensures
        request is GetVersions ==> name@ == "lsps2.get_versions"@,
        request is GetInfo ==> name@ == "lsps2.get_info"@,
        request is Buy ==> name@ == "lsps2.buy"@,
{
}

/// A short channel id that is written and read is the short channel id that was written.
pub proof fn lemma_scids_are_written_and_read(scid: u64, text: JitChannelScid, read: Result<u64, ()>)
    requires
        call_ensures(JitChannelScid::from_scid, (scid, ), text),
        call_ensures(JitChannelScid::to_scid, (&text, ), read),
    ensures
        read == Ok::<u64, ()>(scid),
{
    crate::utils::lemma_scid_round_trip(scid);
}

/// Parameters that are given out under a secret keep every field, and are valid under that secret. Any
/// parameters are valid under a secret exactly where their promise is the one that it gives for them.
pub proof fn lemma_promises_are_given_and_checked(
    raw: RawOpeningFeeParams,
    promise_secret: [u8; 32],
    params: OpeningFeeParams,
    valid: bool,
    other: OpeningFeeParams,
    other_valid: bool,
)
    requires
        call_ensures(
            RawOpeningFeeParams::into_opening_fee_params,
            (raw, &promise_secret),
            params,
        ),
        call_ensures(OpeningFeeParams::is_valid, (&params, &promise_secret), valid),
        call_ensures(OpeningFeeParams::is_valid, (&other, &promise_secret), other_valid),
    ensures
        params.min_fee_msat == raw.min_fee_msat,
        params.proportional == raw.proportional,
        params.valid_until@ == raw.valid_until@,
        params.min_lifetime == raw.min_lifetime,
        params.max_client_to_self_delay == raw.max_client_to_self_delay,
        valid,
        other_valid <==> other.promise@ == promise_text(
            promise_secret@,
            other.min_fee_msat,
            other.proportional,
            other.valid_until@,
            other.min_lifetime,
            other.max_client_to_self_delay,
        ),
{
}

/// The codes of the errors that requests are answered with.
pub proof fn lemma_error_codes()
    ensures
        LSPS2_GET_INFO_REQUEST_INVALID_VERSION_ERROR_CODE == 1,
        LSPS2_GET_INFO_REQUEST_UNRECOGNIZED_OR_STALE_TOKEN_ERROR_CODE == 2,
        LSPS2_BUY_REQUEST_INVALID_VERSION_ERROR_CODE == 1,
        LSPS2_BUY_REQUEST_INVALID_OPENING_FEE_PARAMS_ERROR_CODE == 2,
        LSPS2_BUY_REQUEST_PAYMENT_SIZE_TOO_SMALL_ERROR_CODE == 3,
        LSPS2_BUY_REQUEST_PAYMENT_SIZE_TOO_LARGE_ERROR_CODE == 4,
{
}

} // verus!
