//! Errors that the protocol handlers report.

use vstd::prelude::*;

use crate::jit_channel;
use crate::lsps0::msgs::RequestId;
use crate::lsps1;
use crate::lsps1::msgs::{OptionsSupported, OrderId, OrderParams};
use crate::lsps2;
use crate::types::PublicKey;

verus! {

/// The severity with which an error is logged.
#[derive(Clone, Copy, Debug, PartialEq, Eq)]
pub enum Level {
    Info,
    Error,
}

/// What to do about an error.
#[derive(Clone, Copy, Debug, PartialEq, Eq)]
pub enum ErrorAction {
    /// The error is logged and has no other consequence.
    IgnoreAndLog(Level),
}

/// A reply that a peer sends to one of our requests.
#[derive(Clone, Copy, Debug, PartialEq, Eq)]
pub enum Reply {
    GetVersionsResponse,
    GetInfoResponse,
    GetInfoError,
    BuyResponse,
    BuyError,
    CreateOrderResponse,
    CreateOrderError,
    GetOrderResponse,
    GetOrderError,
}

/// A request that a peer sends to us.
#[derive(Clone, Copy, Debug, PartialEq, Eq)]
pub enum PeerRequest {
    GetInfo,
    Buy,
    CreateOrder,
    GetOrder,
}

/// A protocol between clients and LSPs.
#[derive(Clone, Copy, Debug, PartialEq, Eq)]
pub enum Protocol {
    LSPS0,
    LSPS1,
    LSPS2,
}

/// The state that a channel was in.
#[derive(Debug, PartialEq, Eq)]
pub enum ChannelState {
    /// A JIT channel to us, negotiated by version.
    VersionedInboundJIT(jit_channel::channel_manager::InboundJITChannelState),
    /// A JIT channel to a client that is paid for with one HTLC.
    SingleOutboundJIT(jit_channel::channel_manager::OutboundJITChannelState),
    /// A channel that is requested from an LSP, negotiated by version.
    VersionedRequest(lsps1::channel_manager::InboundRequestState),
    /// A channel that is requested from an LSP.
    Request(lsps1::client::InboundRequestState),
    /// A channel that a client has ordered.
    Order(lsps1::orders::OutboundRequestState),
    /// A JIT channel to us.
    InboundJIT(lsps2::client::InboundJITChannelState),
    /// A JIT channel to a client.
    OutboundJIT(lsps2::service::OutboundJITChannelState),
}

/// The reason for an error.
#[derive(Debug, PartialEq, Eq)]
pub enum ErrorKind {
    /// The LSP supports none of our protocol versions.
    NoSharedVersion { theirs: Vec<u16> },
    /// A `get_versions` response came while the channel awaited something else.
    UnexpectedVersions { state: ChannelState },
    /// A `get_info` response came while the channel awaited something else.
    UnexpectedInfo { state: ChannelState },
    /// Opening fee parameters were selected while none were on offer.
    UnexpectedSelection { state: ChannelState },
    /// Invoice parameters came while the channel awaited something else.
    UnexpectedInvoiceParams { state: ChannelState },
    /// An HTLC was intercepted while the channel awaited something else.
    UnexpectedHtlc { state: ChannelState },
    /// A channel became ready while none was being opened.
    UnexpectedChannelReady { state: ChannelState },
    /// The opening fee for a payment is too large to compute.
    OpeningFeeOverflow {
        min_fee_msat: u64,
        proportional: u32,
        expected_outbound_amount_msat: u64,
    },
    /// An HTLC came after the offer that it pays for has expired.
    OfferExpired,
    /// An HTLC is too small to pay the opening fee.
    HtlcTooSmall,
    /// An order does not match the options that the LSP supports.
    OrderNotSupported { options_supported: OptionsSupported, order: OrderParams },
    /// An order was requested while the channel awaited something else.
    UnexpectedOrderRequest { state: ChannelState },
    /// The order that the LSP confirmed is not the one that was created.
    OrderMismatch { order: OrderParams, response_order: OrderParams },
    /// A `create_order` response came while the channel awaited something else.
    UnexpectedOrder { state: ChannelState },
    /// An order was to be paid while none awaited payment.
    UnexpectedPayment { state: ChannelState },
    /// The invoice for an order was asked for a second time.
    UnexpectedInvoiceRequest { state: ChannelState },
    /// The fees of an order are not as expected, or exceed the configured limit.
    FeesTooHigh { fee_total_sat: u64, client_balance_sat: u64 },
    /// A reply does not belong to any request.
    UnknownRequest { reply: Reply, request_id: RequestId },
    /// A reply belongs to a channel that is not known.
    UnknownChannel { reply: Reply, channel_id: u128 },
    /// A reply came from a peer without state.
    UnknownPeer { reply: Reply, counterparty_node_id: PublicKey },
    /// A request came from a peer without state.
    UnknownRequester { request: PeerRequest, counterparty_node_id: PublicKey },
    /// An order was asked for that is not known.
    UnknownOrder { order_id: OrderId },
    /// A `buy` response holds a malformed short channel id.
    InvalidScid { text: String },
    /// The LSP requires trust that we do not grant.
    TrustNotGranted,
    /// There is no pending request with the given id.
    NoPendingRequest { request: PeerRequest, request_id: RequestId },
    /// There is no state for the counterparty.
    NoPeerState { counterparty_node_id: PublicKey },
    /// There is no counterparty for a short channel id.
    NoPeerForScid { scid: u64 },
    /// There is no channel with the given id.
    ChannelNotFound { channel_id: u128 },
    /// There is no channel with the given user channel id.
    UserChannelNotFound { user_channel_id: u128 },
    /// There is no channel for the given order.
    OrderNotFound { order_id: OrderId },
    /// A channel did not become ready.
    ChannelReadyFailed { cause: Box<ErrorKind> },
    /// The user channel id is in use.
    DuplicateUserChannelId,
    /// The client requested a protocol version that is not supported.
    UnsupportedVersion { version: u16 },
    /// The payment size is below the supported minimum.
    PaymentSizeBelowMinimum,
    /// The payment size is above the supported maximum.
    PaymentSizeAboveMaximum,
    /// The payment size does not cover the opening fee.
    PaymentSizeBelowFee,
    /// The opening fee for a payment size overflows.
    FeeOverflow,
    /// The client supplied invalid opening fee parameters.
    InvalidOpeningFeeParams,
    /// The peer answered `list_protocols` with an error.
    ListProtocolsFailed { code: i32, message: String, data: Option<String> },
    /// A client handler received a request.
    RequestAtClient { protocol: Protocol, counterparty_node_id: PublicKey },
    /// A service handler received a response.
    ResponseAtService { protocol: Protocol, counterparty_node_id: PublicKey },
    /// The peer did not understand a message that we sent.
    NotUnderstood { counterparty_node_id: PublicKey },
    /// No handler is configured for the protocol of a message.
    NoHandler { protocol: Protocol, counterparty_node_id: PublicKey },
}

/// An error in the exchange with a peer.
#[derive(Debug, PartialEq, Eq)]
pub struct LightningError {
    pub err: ErrorKind,
    pub action: ErrorAction,
}

/// An error in the use of the library.
#[derive(Debug, PartialEq, Eq)]
pub enum APIError {
    /// The call does not fit the state of the library.
    APIMisuseError { err: ErrorKind },
}

/// The reason why a channel cannot go on from its state.
#[derive(Debug, PartialEq, Eq)]
pub struct ChannelStateError(pub ErrorKind);

impl From<ChannelStateError> for LightningError {
    fn from(value: ChannelStateError) -> (error: Self) {
        info_error(value.0)
    }
}

impl vstd::std_specs::convert::FromSpecImpl<ChannelStateError> for LightningError {
    open spec fn obeys_from_spec() -> bool {
        true
    }

    open spec fn from_spec(value: ChannelStateError) -> Self {
        info(value.0)
    }
}

/// The error for a reason that is logged for information.
pub open spec fn info(err: ErrorKind) -> LightningError {
    LightningError { err, action: ErrorAction::IgnoreAndLog(Level::Info) }
}

/// The error for a misuse of the library.
pub open spec fn misuse(err: ErrorKind) -> APIError {
    APIError::APIMisuseError { err }
}

/// Makes the error for a reason that is logged for information.
pub fn info_error(err: ErrorKind) -> (error: LightningError)
    ensures
        error == info(err),
{
    LightningError { err, action: ErrorAction::IgnoreAndLog(Level::Info) }
}

/// Makes the error for a misuse of the library.
pub fn misuse_error(err: ErrorKind) -> (error: APIError)
    ensures
        error == misuse(err),
{
    APIError::APIMisuseError { err }
}

/// An error carries its reason as it is. One in the exchange with a peer is logged for information.
pub proof fn lemma_errors_carry_their_reason(err: ErrorKind)
    ensures
        info(err).err == err,
        info(err).action == ErrorAction::IgnoreAndLog(Level::Info),
        misuse(err) is APIMisuseError,
        misuse(err)->err == err,
{
}

} // verus!
