//! Contains LSPS2 event types

use vstd::prelude::*;

use crate::jit_channel::msgs::OpeningFeeParams;
use crate::lsps0::msgs::RequestId;
use crate::types::PublicKey;

verus! {

/// An event which an LSPS2 client or service should probably take some action in response to.
#[derive(Clone, Debug, PartialEq, Eq)]
pub enum LSPS2Event {
    /// A request from a client for information about JIT Channel parameters.
    ///
    /// You must calculate the parameters for this client and pass them to
    /// [`JITChannelManager::opening_fee_params_generated`].
    ///
    /// [`JITChannelManager::opening_fee_params_generated`]: crate::jit_channel::channel_manager::JITChannelManager::opening_fee_params_generated
    GetInfo {
        /// An identifier that must be passed to `opening_fee_params_generated`.
        request_id: RequestId,
        /// The node id of the client making the information request.
        counterparty_node_id: PublicKey,
        /// The protocol version they would like to use.
        version: u16,
        /// An optional token that can be used as an API key, coupon code, etc.
        token: Option<String>,
    },
    /// Information from the LSP about their current fee rates and channel parameters.
    ///
    /// You must call [`JITChannelManager::opening_fee_params_selected`] with the fee parameter
    /// you want to use if you wish to proceed opening a channel.
    ///
    /// [`JITChannelManager::opening_fee_params_selected`]: crate::jit_channel::channel_manager::JITChannelManager::opening_fee_params_selected
    GetInfoResponse {
        /// This is a randomly generated identifier used to track the JIT channel state.
        /// It is not related in anyway to the eventual lightning channel id.
        /// It needs to be passed to `opening_fee_params_selected`.
        jit_channel_id: u128,
        /// The node id of the LSP that provided this response.
        counterparty_node_id: PublicKey,
        /// The menu of fee parameters the LSP is offering at this time.
        /// You must select one of these if you wish to proceed.
        opening_fee_params_menu: Vec<OpeningFeeParams>,
        /// The min payment size allowed when opening the channel.
        min_payment_size_msat: u64,
        /// The max payment size allowed when opening the channel.
        max_payment_size_msat: u64,
        /// The user_channel_id value passed in to `create_invoice`.
        user_channel_id: u128,
    },
    /// A client has selected a opening fee parameter to use and would like to
    /// purchase a channel with an optional initial payment size.
    ///
    /// If `payment_size_msat` is [`Option::Some`] then the payer is allowed to use MPP.
    /// If `payment_size_msat` is [`Option::None`] then the payer cannot use MPP.
    ///
    /// You must generate an scid and `cltv_expiry_delta` for them to use
    /// and call [`JITChannelManager::invoice_parameters_generated`].
    ///
    /// [`JITChannelManager::invoice_parameters_generated`]: crate::jit_channel::channel_manager::JITChannelManager::invoice_parameters_generated
    BuyRequest {
        /// An identifier that must be passed into `invoice_parameters_generated`.
        request_id: RequestId,
        /// The client node id that is making this request.
        counterparty_node_id: PublicKey,
        /// The version of the protocol they would like to use.
        version: u16,
        /// The channel parameters they have selected.
        opening_fee_params: OpeningFeeParams,
        /// The size of the initial payment they would like to receive.
        payment_size_msat: Option<u64>,
    },
    /// Use the provided fields to generate an invoice and give to payer.
    ///
    /// When the invoice is paid the LSP will open a channel to you
    /// with the previously agreed upon parameters.
    InvoiceGenerationReady {
        /// The node id of the LSP.
        counterparty_node_id: PublicKey,
        /// The short channel id to use in the route hint.
        scid: u64,
        /// The `cltv_expiry_delta` to use in the route hint.
        cltv_expiry_delta: u32,
        /// The initial payment size you specified.
        payment_size_msat: Option<u64>,
        /// The trust model the LSP expects.
        client_trusts_lsp: bool,
        /// The `user_channel_id` value passed in to `create_invoice`.
        user_channel_id: u128,
    },
    /// You should open a channel to the given node.
    OpenChannel {
        /// The node to open channel with.
        their_network_key: PublicKey,
        /// The amount of the intercepted HTLC.
        inbound_amount_msat: u64,
        /// The amount that the payer expects to be forwarded.
        expected_outbound_amount_msat: u64,
        /// The amount to forward after fees.
        amt_to_forward_msat: u64,
        /// The fee earned for opening the channel.
        opening_fee_msat: u64,
        /// An internal id used to track channel open.
        user_channel_id: u128,
    },
}

/// An event which an LSPS2 client should take some action in response to.
#[derive(Clone, Debug, PartialEq, Eq)]
pub enum LSPS2ClientEvent {
    /// Information from the LSP about their current fee rates and channel parameters.
    ///
    /// You must call [`LSPS2ClientHandler::select_opening_params`] with the fee parameters
    /// you want to use if you wish to proceed opening a channel.
    ///
    /// [`LSPS2ClientHandler::select_opening_params`]: crate::lsps2::client::LSPS2ClientHandler::select_opening_params
    OpeningParametersReady {
        /// The identifier of the issued request.
        request_id: RequestId,
        /// The node id of the LSP that provided this response.
        counterparty_node_id: PublicKey,
        /// The menu of fee parameters the LSP is offering at this time.
        /// You must select one of these if you wish to proceed.
        opening_fee_params_menu: Vec<OpeningFeeParams>,
        /// The min payment size allowed when opening the channel.
        min_payment_size_msat: u64,
        /// The max payment size allowed when opening the channel.
        max_payment_size_msat: u64,
    },
    /// Provides the necessary information to generate a payable invoice that then may be given to
    /// the payer.
    ///
    /// When the invoice is paid, the LSP will open a channel with the previously agreed upon
    /// parameters to you.
    InvoiceParametersReady {
        /// The node id of the LSP.
        counterparty_node_id: PublicKey,
        /// The intercept short channel id to use in the route hint.
        intercept_scid: u64,
        /// The `cltv_expiry_delta` to use in the route hint.
        cltv_expiry_delta: u32,
        /// The initial payment size you specified.
        payment_size_msat: Option<u64>,
        /// The `user_channel_id` value passed in to `select_opening_params`.
        user_channel_id: u128,
    },
}

/// An event which an LSPS2 service should take some action in response to.
#[derive(Clone, Debug, PartialEq, Eq)]
pub enum LSPS2ServiceEvent {
    /// A request from a client for information about JIT Channel parameters.
    ///
    /// You must calculate the parameters for this client and pass them to
    /// [`LSPS2ServiceHandler::opening_fee_params_generated`].
    ///
    /// If an unrecognized or stale token is provided you can use
    /// [`LSPS2ServiceHandler::invalid_token_provided`] to error the request.
    ///
    /// [`LSPS2ServiceHandler::opening_fee_params_generated`]: crate::lsps2::service::LSPS2ServiceHandler::opening_fee_params_generated
    /// [`LSPS2ServiceHandler::invalid_token_provided`]: crate::lsps2::service::LSPS2ServiceHandler::invalid_token_provided
    GetInfo {
        /// An identifier that must be passed to `opening_fee_params_generated`.
        request_id: RequestId,
        /// The node id of the client making the information request.
        counterparty_node_id: PublicKey,
        /// The protocol version they would like to use.
        version: u16,
        /// An optional token that can be used as an API key, coupon code, etc.
        token: Option<String>,
    },
    /// A client has selected a opening fee parameter to use and would like to
    /// purchase a channel with an optional initial payment size.
    ///
    /// If `payment_size_msat` is [`Option::Some`] then the payer is allowed to use MPP.
    /// If `payment_size_msat` is [`Option::None`] then the payer cannot use MPP.
    ///
    /// You must generate an scid and `cltv_expiry_delta` for them to use
    /// and call [`LSPS2ServiceHandler::invoice_parameters_generated`].
    ///
    /// [`LSPS2ServiceHandler::invoice_parameters_generated`]: crate::lsps2::service::LSPS2ServiceHandler::invoice_parameters_generated
    BuyRequest {
        /// An identifier that must be passed into `invoice_parameters_generated`.
        request_id: RequestId,
        /// The client node id that is making this request.
        counterparty_node_id: PublicKey,
        /// The version of the protocol they would like to use.
        version: u16,
        /// The channel parameters they have selected.
        opening_fee_params: OpeningFeeParams,
        /// The size of the initial payment they would like to receive.
        payment_size_msat: Option<u64>,
    },
    /// You should open a channel to the given node.
    OpenChannel {
        /// The node to open channel with.
        their_network_key: PublicKey,
        /// The amount to forward after fees.
        amt_to_forward_msat: u64,
        /// The fee earned for opening the channel.
        opening_fee_msat: u64,
        /// An internal id used to track channel open.
        user_channel_id: u128,
    },
}

} // verus!
