//! Message, request, and other primitive types used to implement LSPS2.

use vstd::prelude::*;

pub use crate::jit_channel::msgs::{GetInfoResponse, OpeningFeeParams, RawOpeningFeeParams};
use crate::lsps0::msgs::{RequestId, ResponseError};
use crate::utils::{parsed_scid, scid_from_human_readable_string, scid_text, scid_to_string};

verus! {

pub const LSPS2_GET_INFO_METHOD_NAME: &'static str = "lsps2.get_info";

pub const LSPS2_BUY_METHOD_NAME: &'static str = "lsps2.buy";

/// A request made to an LSP to learn their current channel fees and parameters.
#[derive(Clone, Debug, PartialEq, Eq)]
pub struct GetInfoRequest {
    /// An optional token to provide to the LSP.
    pub token: Option<String>,
}

/// A request to buy a JIT channel.
#[derive(Clone, Debug, PartialEq, Eq)]
pub struct BuyRequest {
    /// The fee parameters you would like to use.
    pub opening_fee_params: OpeningFeeParams,
    /// The size of the initial payment you expect to receive.
    pub payment_size_msat: Option<u64>,
}

/// A newtype that holds a `short_channel_id` in human readable format of BBBxTTTx000.
#[derive(Debug, PartialEq, Eq)]
pub struct InterceptScid(pub String);

impl Clone for InterceptScid {
    fn clone(&self) -> (copy: Self)
        ensures
            copy == *self,
    {
        InterceptScid(self.0.clone())
    }
}

impl InterceptScid {
    /// Writes a `short_channel_id` in its human readable form.
    pub fn from_scid(scid: u64) -> (text: Self)
        ensures
            text.0@ == scid_text(scid),
    {
        InterceptScid(scid_to_string(scid))
    }

    /// Try to convert a [`InterceptScid`] into a u64 used by LDK.
    pub fn to_scid(&self) -> (scid: Result<u64, ()>)
        ensures
            scid == (match parsed_scid(self.0@) {
                Some(value) => Ok(value),
                None => Err(()),
            }),
    {
        scid_from_human_readable_string(self.0.as_str())
    }
}

/// A response to a [`BuyRequest`].
///
/// Includes information needed to construct an invoice.
#[derive(Clone, Debug, PartialEq, Eq)]
pub struct BuyResponse {
    /// The intercept short channel id used by LSP to identify need to open channel.
    pub intercept_scid: InterceptScid,
    /// The locktime expiry delta the lsp requires.
    pub lsp_cltv_expiry_delta: u32,
    /// A flag that indicates who is trusting who.
    pub client_trusts_lsp: bool,
}

/// An enum that captures all the valid JSON-RPC requests in the LSPS2 protocol.
#[derive(Clone, Debug, PartialEq, Eq)]
pub enum LSPS2Request {
    /// A request to learn an LSP's channel fees and parameters.
    GetInfo(GetInfoRequest),
    /// A request to buy a JIT channel from an LSP.
    Buy(BuyRequest),
}

impl LSPS2Request {
    /// Get the JSON-RPC method name for the underlying request.
    pub fn method(&self) -> (name: &'static str)
        ensures
            name@ == (match self {
                LSPS2Request::GetInfo(_) => "lsps2.get_info"@,
                LSPS2Request::Buy(_) => "lsps2.buy"@,
            }),
    {
        match self {
            LSPS2Request::GetInfo(_) => LSPS2_GET_INFO_METHOD_NAME,
            LSPS2Request::Buy(_) => LSPS2_BUY_METHOD_NAME,
        }
    }
}

/// An enum that captures all the valid JSON-RPC responses in the LSPS2 protocol.
#[derive(Clone, Debug, PartialEq, Eq)]
pub enum LSPS2Response {
    /// A successful response to a [`LSPS2Request::GetInfo`] request.
    GetInfo(GetInfoResponse),
    /// An error response to a [`LSPS2Request::GetInfo`] request.
    GetInfoError(ResponseError),
    /// A successful response to a [`LSPS2Request::Buy`] request.
    Buy(BuyResponse),
    /// An error response to a [`LSPS2Request::Buy`] request.
    BuyError(ResponseError),
}

/// An enum that captures all valid JSON-RPC messages in the LSPS2 protocol.
#[derive(Clone, Debug, PartialEq, Eq)]
pub enum LSPS2Message {
    /// An LSPS2 JSON-RPC request.
    Request(RequestId, LSPS2Request),
    /// An LSPS2 JSON-RPC response.
    Response(RequestId, LSPS2Response),
}

/// The method that each request is sent under.
pub proof fn lemma_methods_of_requests(request: LSPS2Request, name: &'static str)
    requires
        call_ensures(LSPS2Request::method, (&request, ), name),
    ensures
        request is GetInfo ==> name@ == "lsps2.get_info"@,
        request is Buy ==> name@ == "lsps2.buy"@,
{
}

/// A short channel id that is written and read is the short channel id that was written.
pub proof fn lemma_scids_are_written_and_read(scid: u64, text: InterceptScid, read: Result<u64, ()>)
    requires
        call_ensures(InterceptScid::from_scid, (scid, ), text),
        call_ensures(InterceptScid::to_scid, (&text, ), read),
    ensures
        read == Ok::<u64, ()>(scid),
{
    crate::utils::lemma_scid_round_trip(scid);
}

} // verus!
