//! Contains [`CRManager`], which requests channels as client and sells them as LSP.

use vstd::prelude::*;

use crate::collections::KeyedMap;
use crate::errors::{
    info, info_error, misuse, misuse_error, APIError, ChannelState, ChannelStateError, ErrorKind,
    LightningError, PeerRequest, Reply,
};
use crate::events::{Event, EventQueue};
use crate::lsps0::msgs::{RequestId, ResponseError};
use crate::lsps1;
use crate::lsps1::msgs::{
    clone_text, ChannelInfo, CreateOrderResponse, GetInfoRequest, GetOrderRequest, OptionsSupported,
    OrderId, OrderParams, OrderPayment, OrderState, UtcDateTime,
};
use crate::lsps1::orders::{generate_order_id, Orders, OrdersView};
pub use crate::lsps1::orders::{OutboundCRChannel, OutboundCRChannelConfig, OutboundRequestState};
use crate::lsps1::service::{
    answered, is_info, is_order_error, is_order_made, order_refusal, refuse_order, OrderRefusal,
};
use crate::lsps1::utils::{accepts_total, is_valid, total_accepted};
use crate::types::PublicKey;
use crate::utils::{generate_request_id, request_id_text};
use crate::versioned_msgs::{
    find_max_shared_version, is_supported_version, max_shared_version, supported_versions,
    supports_version, CreateOrderRequest, GetInfoResponse, GetOrderResponse, LSPS1Message,
    LSPS1Request, LSPS1Response, LSPSMessage,
};

verus! {

/// Configuration options for channel requests.
#[derive(Clone, Debug)]
pub struct CRChannelConfig {
    /// The maximally allowed channel fees.
    pub max_fees: Option<u64>,
    /// The options that are supported as LSP.
    pub options_supported: Option<OptionsSupported>,
    /// The website of the LSP.
    pub website: Option<String>,
}

/// How far the request for a channel has come.
#[derive(Debug, PartialEq, Eq)]
pub enum InboundRequestState {
    InfoRequested,
    OptionsSupport { version: u16, options_supported: OptionsSupported },
    OrderRequested { version: u16, order: OrderParams },
    PendingPayment { order_id: OrderId },
    AwaitingConfirmation { id: u128, order_id: OrderId },
}

impl InboundRequestState {
    /// Tells the state in an error.
    fn channel_state(&self) -> (state: ChannelState)
        ensures
            state == ChannelState::VersionedRequest(*self),
    {
        ChannelState::VersionedRequest(
            match self {
                InboundRequestState::InfoRequested => InboundRequestState::InfoRequested,
                InboundRequestState::OptionsSupport { version, options_supported } => {
                    InboundRequestState::OptionsSupport {
                        version: *version,
                        options_supported: *options_supported,
                    }
                },
                InboundRequestState::OrderRequested { version, order } => {
                    InboundRequestState::OrderRequested {
                        version: *version,
                        order: order.clone(),
                    }
                },
                InboundRequestState::PendingPayment { order_id } => InboundRequestState::PendingPayment {
                    order_id: order_id.clone(),
                },
                InboundRequestState::AwaitingConfirmation { id, order_id } => {
                    InboundRequestState::AwaitingConfirmation { id: *id, order_id: order_id.clone() }
                },
            },
        )
    }

    /// The state after the LSP has listed its versions and its options.
    pub open spec fn after_info(self, versions: Vec<u16>, options: OptionsSupported) -> Result<
        Self,
        ErrorKind,
    > {
        match max_shared_version(versions@) {
            Some(version) => if self is InfoRequested {
                Ok(InboundRequestState::OptionsSupport { version, options_supported: options })
            } else {
                Err(ErrorKind::UnexpectedVersions { state: ChannelState::VersionedRequest(self) })
            },
            None => Err(ErrorKind::NoSharedVersion { theirs: versions }),
        }
    }

    /// Goes on from the versions and the options that the LSP has listed.
    pub fn info_received(&self, versions: Vec<u16>, options: OptionsSupported) -> (next: Result<
        Self,
        ChannelStateError,
    >)
        ensures
            next == (match self.after_info(versions, options) {
                Ok(state) => Ok(state),
                Err(e) => Err(ChannelStateError(e)),
            }),
    {
        match find_max_shared_version(&versions) {
            Some(version) => match self {
                InboundRequestState::InfoRequested => Ok(
                    InboundRequestState::OptionsSupport { version, options_supported: options },
                ),
                _ => Err(
                    ChannelStateError(ErrorKind::UnexpectedVersions { state: self.channel_state() }),
                ),
            },
            None => Err(ChannelStateError(ErrorKind::NoSharedVersion { theirs: versions })),
        }
    }

    /// The state after an order was placed.
    pub open spec fn after_order_placed(self, order: OrderParams) -> Result<Self, ErrorKind> {
        match self {
            InboundRequestState::OptionsSupport { version, options_supported } => {
                if options_supported.supports(order) {
                    Ok(InboundRequestState::OrderRequested { version, order })
                } else {
                    Err(ErrorKind::OrderNotSupported { options_supported, order })
                }
            },
            _ => Err(
                ErrorKind::UnexpectedOrderRequest { state: ChannelState::VersionedRequest(self) },
            ),
        }
    }

    /// Goes on from an order that was placed.
    pub fn order_requested(&self, order: OrderParams) -> (next: Result<Self, ChannelStateError>)
        ensures
            next == (match self.after_order_placed(order) {
                Ok(state) => Ok(state),
                Err(e) => Err(ChannelStateError(e)),
            }),
    {
        match self {
            InboundRequestState::OptionsSupport { version, options_supported } => {
                if is_valid(&order, options_supported) {
                    Ok(InboundRequestState::OrderRequested { version: *version, order })
                } else {
                    Err(
                        ChannelStateError(
                            ErrorKind::OrderNotSupported {
                                options_supported: *options_supported,
                                order,
                            },
                        ),
                    )
                }
            },
            _ => Err(
                ChannelStateError(ErrorKind::UnexpectedOrderRequest { state: self.channel_state() }),
            ),
        }
    }

    /// The state after the LSP has confirmed the order.
    pub open spec fn after_order_confirmed(
        self,
        response_order: OrderParams,
        order_id: OrderId,
    ) -> Result<Self, ErrorKind> {
        match self {
            InboundRequestState::OrderRequested { order, .. } => {
                if response_order@ == order@ {
                    Ok(InboundRequestState::PendingPayment { order_id })
                } else {
                    Err(ErrorKind::OrderMismatch { order, response_order })
                }
            },
            _ => Err(ErrorKind::UnexpectedOrder { state: ChannelState::VersionedRequest(self) }),
        }
    }

    /// Goes on from the order that the LSP has confirmed.
    pub fn order_received(&self, response_order: &OrderParams, order_id: OrderId) -> (next: Result<
        Self,
        ChannelStateError,
    >)
        ensures
            next == (match self.after_order_confirmed(*response_order, order_id) {
                Ok(state) => Ok(state),
                Err(e) => Err(ChannelStateError(e)),
            }),
    {
        match self {
            InboundRequestState::OrderRequested { order, .. } => {
                if response_order.same_order(order) {
                    Ok(InboundRequestState::PendingPayment { order_id })
                } else {
                    Err(
                        ChannelStateError(
                            ErrorKind::OrderMismatch {
                                order: order.clone(),
                                response_order: response_order.clone(),
                            },
                        ),
                    )
                }
            },
            _ => Err(ChannelStateError(ErrorKind::UnexpectedOrder { state: self.channel_state() })),
        }
    }

    /// The state after the order was paid for.
    pub open spec fn after_payment(self, channel_id: u128) -> Result<Self, ErrorKind> {
        match self {
            InboundRequestState::PendingPayment { order_id } => Ok(
                InboundRequestState::AwaitingConfirmation { id: channel_id, order_id },
            ),
            _ => Err(ErrorKind::UnexpectedPayment { state: ChannelState::VersionedRequest(self) }),
        }
    }

    /// Goes on from the payment for the order.
    pub fn pay_for_channel(&self, channel_id: u128) -> (next: Result<Self, ChannelStateError>)
        ensures
            next == (match self.after_payment(channel_id) {
                Ok(state) => Ok(state),
                Err(e) => Err(ChannelStateError(e)),
            }),
    {
        match self {
            InboundRequestState::PendingPayment { order_id } => Ok(
                InboundRequestState::AwaitingConfirmation {
                    id: channel_id,
                    order_id: order_id.clone(),
                },
            ),
            _ => Err(
                ChannelStateError(ErrorKind::UnexpectedPayment { state: self.channel_state() }),
            ),
        }
    }
}

/// A channel that we request from an LSP.
#[derive(Debug, PartialEq, Eq)]
pub struct InboundCRChannel {
    pub id: u128,
    pub state: InboundRequestState,
}

impl View for InboundCRChannel {
    type V = InboundCRChannel;

    open spec fn view(&self) -> InboundCRChannel {
        *self
    }
}

impl InboundCRChannel {
    /// Creates a channel for which the LSP's options have been requested.
    pub fn new(id: u128) -> (channel: Self)
        ensures
            channel == (InboundCRChannel { id, state: InboundRequestState::InfoRequested }),
    {
        InboundCRChannel { id, state: InboundRequestState::InfoRequested }
    }

    /// Goes on from the versions and the options that the LSP has listed, and returns the shared
    /// version.
    pub fn info_received(&mut self, versions: Vec<u16>, options: OptionsSupported) -> (version:
        Result<u16, LightningError>)
        ensures
            match old(self).state.after_info(versions, options) {
                Ok(state) => *final(self) == (InboundCRChannel { state, ..*old(self) }) && version
                    == Ok::<u16, LightningError>(state->OptionsSupport_version),
                Err(e) => *final(self) == *old(self) && version == Err::<u16, LightningError>(
                    info(e),
                ),
            },
    {
        match self.state.info_received(versions, options) {
            Ok(state) => {
                let version: u16 = match &state {
                    InboundRequestState::OptionsSupport { version, .. } => *version,
                    _ => vstd::pervasive::unreached(),
                };
                self.state = state;
                Ok(version)
            },
            Err(e) => Err(LightningError::from(e)),
        }
    }

    /// Goes on from an order that was placed, and returns the version in use.
    pub fn order_requested(&mut self, order: OrderParams) -> (version: Result<u16, LightningError>)
        ensures
            match old(self).state.after_order_placed(order) {
                Ok(state) => *final(self) == (InboundCRChannel { state, ..*old(self) }) && version
                    == Ok::<u16, LightningError>(state->OrderRequested_version),
                Err(e) => *final(self) == *old(self) && version == Err::<u16, LightningError>(
                    info(e),
                ),
            },
    {
        match self.state.order_requested(order) {
            Ok(state) => {
                let version: u16 = match &state {
                    InboundRequestState::OrderRequested { version, .. } => *version,
                    _ => vstd::pervasive::unreached(),
                };
                self.state = state;
                Ok(version)
            },
            Err(e) => Err(LightningError::from(e)),
        }
    }

    /// Goes on from the order that the LSP has confirmed.
    pub fn order_received(&mut self, order: &OrderParams, order_id: OrderId) -> (result: Result<
        (),
        LightningError,
    >)
        ensures
            match old(self).state.after_order_confirmed(*order, order_id) {
                Ok(state) => *final(self) == (InboundCRChannel { state, ..*old(self) }) && result
                    == Ok::<(), LightningError>(()),
                Err(e) => *final(self) == *old(self) && result == Err::<(), LightningError>(
                    info(e),
                ),
            },
    {
        match self.state.order_received(order, order_id) {
            Ok(state) => {
                self.state = state;
                Ok(())
            },
            Err(e) => Err(LightningError::from(e)),
        }
    }

    /// Goes on from the payment for the order.
    pub fn pay_for_channel(&mut self, channel_id: u128) -> (result: Result<(), LightningError>)
        ensures
            match old(self).state.after_payment(channel_id) {
                Ok(state) => *final(self) == (InboundCRChannel { state, ..*old(self) }) && result
                    == Ok::<(), LightningError>(()),
                Err(e) => *final(self) == *old(self) && result == Err::<(), LightningError>(
                    info(e),
                ),
            },
    {
        match self.state.pay_for_channel(channel_id) {
            Ok(state) => {
                self.state = state;
                Ok(())
            },
            Err(e) => Err(LightningError::from(e)),
        }
    }
}

/// The channels that we request from one peer as LSP, and the orders that it places as client.
pub struct PeerState {
    pub inbound_channels_by_id: KeyedMap<u128, InboundCRChannel>,
    pub request_to_cid: KeyedMap<RequestId, u128>,
    pub orders: Orders,
}

/// The contents of a [`PeerState`].
#[verifier::ext_equal]
pub struct PeerStateView {
    pub inbound_channels_by_id: Map<u128, InboundCRChannel>,
    pub request_to_cid: Map<Seq<char>, u128>,
    pub orders: OrdersView,
}

impl View for PeerState {
    type V = PeerStateView;

    open spec fn view(&self) -> PeerStateView {
        PeerStateView {
            inbound_channels_by_id: self.inbound_channels_by_id@,
            request_to_cid: self.request_to_cid@,
            orders: self.orders@,
        }
    }
}

impl PeerStateView {
    /// No channel and no order at all.
    pub open spec fn empty() -> Self {
        PeerStateView {
            inbound_channels_by_id: Map::empty(),
            request_to_cid: Map::empty(),
            orders: OrdersView::empty(),
        }
    }

    /// With the orders replaced.
    pub open spec fn with_orders(self, orders: OrdersView) -> Self {
        PeerStateView { orders, ..self }
    }

    /// With a channel added or replaced.
    pub open spec fn with_channel(self, id: u128, channel: InboundCRChannel) -> Self {
        PeerStateView {
            inbound_channels_by_id: self.inbound_channels_by_id.insert(id, channel),
            ..self
        }
    }

    /// Without a channel.
    pub open spec fn without_channel(self, id: u128) -> Self {
        PeerStateView { inbound_channels_by_id: self.inbound_channels_by_id.remove(id), ..self }
    }

    /// With a request of ours that concerns a channel.
    pub open spec fn with_request(self, request_id: Seq<char>, id: u128) -> Self {
        PeerStateView { request_to_cid: self.request_to_cid.insert(request_id, id), ..self }
    }

    /// A reply ends its request, which concerns a channel that is known.
    pub open spec fn reply_taken(self, request_id: RequestId, reply: Reply) -> (
        PeerStateView,
        Result<u128, ErrorKind>,
    ) {
        if !self.request_to_cid.contains_key(request_id.0@) {
            (self, Err(ErrorKind::UnknownRequest { reply, request_id }))
        } else {
            let id = self.request_to_cid[request_id.0@];
            (
                PeerStateView {
                    request_to_cid: self.request_to_cid.remove(request_id.0@),
                    ..self
                },
                if self.inbound_channels_by_id.contains_key(id) {
                    Ok(id)
                } else {
                    Err(ErrorKind::UnknownChannel { reply, channel_id: id })
                },
            )
        }
    }

    /// What a `get_info` response leads to: the shared version and the options of the channel's LSP
    /// are known.
    pub open spec fn info_step(
        self,
        request_id: RequestId,
        versions: Vec<u16>,
        options: OptionsSupported,
    ) -> (PeerStateView, Result<(u128, u16), ErrorKind>) {
        match self.reply_taken(request_id, Reply::GetInfoResponse) {
            (peer, Ok(id)) => {
                let channel = self.inbound_channels_by_id[id];
                match channel.state.after_info(versions, options) {
                    Ok(state) => (
                        peer.with_channel(id, InboundCRChannel { state, ..channel }),
                        Ok((id, state->OptionsSupport_version)),
                    ),
                    Err(e) => (peer.without_channel(id), Err(e)),
                }
            },
            (peer, Err(e)) => (peer, Err(e)),
        }
    }

    /// What a `create_order` response leads to: the order awaits payment. It is given up where it is
    /// not the order that was placed, or its total is not accepted.
    pub open spec fn order_step(
        self,
        request_id: RequestId,
        response: CreateOrderResponse,
        max_fees: Option<u64>,
    ) -> (PeerStateView, Result<u128, ErrorKind>) {
        match self.reply_taken(request_id, Reply::CreateOrderResponse) {
            (peer, Ok(id)) => {
                let channel = self.inbound_channels_by_id[id];
                match channel.state.after_order_confirmed(response.order, response.order_id) {
                    Ok(state) => if total_accepted(response.payment, response.order, max_fees) {
                        (peer.with_channel(id, InboundCRChannel { state, ..channel }), Ok(id))
                    } else {
                        (
                            peer.without_channel(id),
                            Err(
                                ErrorKind::FeesTooHigh {
                                    fee_total_sat: response.payment.fee_total_sat,
                                    client_balance_sat: response.order.client_balance_sat,
                                },
                            ),
                        )
                    },
                    Err(e) => (peer.without_channel(id), Err(e)),
                }
            },
            (peer, Err(e)) => (peer, Err(e)),
        }
    }

    /// What placing an order leads to: the `create_order` request.
    pub open spec fn place_step(self, id: u128, order: OrderParams, request_id: Seq<char>) -> (
        PeerStateView,
        Result<u16, ErrorKind>,
    ) {
        if !self.inbound_channels_by_id.contains_key(id) {
            (self, Err(ErrorKind::ChannelNotFound { channel_id: id }))
        } else {
            let channel = self.inbound_channels_by_id[id];
            match channel.state.after_order_placed(order) {
                Ok(state) => (
                    self.with_channel(id, InboundCRChannel { state, ..channel }).with_request(
                        request_id,
                        id,
                    ),
                    Ok(state->OrderRequested_version),
                ),
                Err(e) => (self.without_channel(id), Err(e)),
            }
        }
    }

    /// What checking on an order leads to: the `get_order` request.
    pub open spec fn check_step(self, id: u128, request_id: Seq<char>) -> (
        PeerStateView,
        Result<(), ErrorKind>,
    ) {
        if !self.inbound_channels_by_id.contains_key(id) {
            (self, Err(ErrorKind::ChannelNotFound { channel_id: id }))
        } else {
            let channel = self.inbound_channels_by_id[id];
            match channel.state.after_payment(id) {
                Ok(state) => (
                    self.with_channel(id, InboundCRChannel { state, ..channel }).with_request(
                        request_id,
                        id,
                    ),
                    Ok(()),
                ),
                Err(e) => (self.without_channel(id), Err(e)),
            }
        }
    }
}

impl PeerState {
    /// Creates the state of a peer with whom nothing is agreed.
    pub fn new() -> (peer: Self)
        ensures
            peer@ == PeerStateView::empty(),
    {
        PeerState {
            inbound_channels_by_id: KeyedMap::new(),
            request_to_cid: KeyedMap::new(),
            orders: Orders::new(),
        }
    }

    /// Adds or replaces a channel.
    pub fn insert_inbound_channel(&mut self, id: u128, channel: InboundCRChannel)
        ensures
            final(self)@ == old(self)@.with_channel(id, channel),
    {
        self.inbound_channels_by_id.insert(id, channel);
    }

    /// Notes which channel a request of ours concerns.
    pub fn insert_request(&mut self, request_id: RequestId, channel_id: u128)
        ensures
            final(self)@ == old(self)@.with_request(request_id.0@, channel_id),
    {
        self.request_to_cid.insert(request_id, channel_id);
    }

    /// Adds or replaces an order.
    pub fn insert_outbound_channel(&mut self, order_id: OrderId, channel: OutboundCRChannel)
        ensures
            final(self)@ == old(self)@.with_orders(
                old(self)@.orders.with_order(order_id.0@, channel),
            ),
    {
        self.orders.outbound_channels_by_order_id.insert(order_id, channel);
    }

    /// Gives up an order.
    pub fn remove_outbound_channel(&mut self, order_id: OrderId)
        ensures
            final(self)@ == old(self)@.with_orders(old(self)@.orders.without_order(order_id.0@)),
    {
        self.orders.outbound_channels_by_order_id.remove(&order_id);
    }

    /// Gives up a channel.
    pub fn remove_inbound_channel(&mut self, id: u128)
        ensures
            final(self)@ == old(self)@.without_channel(id),
    {
        self.inbound_channels_by_id.remove(&id);
    }

    /// Ends the request that a reply belongs to, and returns the channel that it concerns.
    fn take_reply(&mut self, request_id: RequestId, reply: Reply) -> (taken: Result<
        u128,
        ErrorKind,
    >)
        ensures
            (final(self)@, taken) == old(self)@.reply_taken(request_id, reply),
    {
        match self.request_to_cid.remove(&request_id) {
            Some(id) => if self.inbound_channels_by_id.contains_key(&id) {
                Ok(id)
            } else {
                Err(ErrorKind::UnknownChannel { reply, channel_id: id })
            },
            None => Err(ErrorKind::UnknownRequest { reply, request_id }),
        }
    }

    /// Takes out a channel that is known.
    fn take_channel(&mut self, id: u128) -> (channel: InboundCRChannel)
        requires
            old(self)@.inbound_channels_by_id.contains_key(id),
        ensures
            channel == old(self)@.inbound_channels_by_id[id],
            final(self)@ == old(self)@.without_channel(id),
    {
        match self.inbound_channels_by_id.remove(&id) {
            Some(channel) => channel,
            None => vstd::pervasive::unreached(),
        }
    }

    /// Goes on from a `get_info` response, and returns the id of the channel and the shared version.
    fn info_response(
        &mut self,
        request_id: RequestId,
        versions: Vec<u16>,
        options: OptionsSupported,
    ) -> (known: Result<(u128, u16), LightningError>)
        ensures
            ({
                let (peer, outcome) = old(self)@.info_step(request_id, versions, options);
                &&& final(self)@ == peer
                &&& known == (match outcome {
                    Ok(known) => Ok::<(u128, u16), LightningError>(known),
                    Err(e) => Err(info(e)),
                })
            }),
    {
        match self.take_reply(request_id, Reply::GetInfoResponse) {
            Ok(id) => {
                let ghost ended = self@;
                let mut channel = self.take_channel(id);
                match channel.info_received(versions, options) {
                    Ok(version) => {
                        self.insert_inbound_channel(id, channel);
                        assert(self@ =~= ended.with_channel(id, channel));
                        Ok((id, version))
                    },
                    Err(e) => Err(e),
                }
            },
            Err(e) => Err(info_error(e)),
        }
    }

    /// Goes on from a `create_order` response, and returns the id of the channel.
    fn order_response(
        &mut self,
        request_id: RequestId,
        response: &CreateOrderResponse,
        max_fees: Option<u64>,
    ) -> (id: Result<u128, LightningError>)
        ensures
            ({
                let (peer, outcome) = old(self)@.order_step(request_id, *response, max_fees);
                &&& final(self)@ == peer
                &&& id == (match outcome {
                    Ok(id) => Ok::<u128, LightningError>(id),
                    Err(e) => Err(info(e)),
                })
            }),
    {
        match self.take_reply(request_id, Reply::CreateOrderResponse) {
            Ok(id) => {
                let ghost ended = self@;
                let mut channel = self.take_channel(id);
                match channel.order_received(&response.order, response.order_id.clone()) {
                    Ok(()) => if accepts_total(&response.payment, &response.order, max_fees) {
                        self.insert_inbound_channel(id, channel);
                        assert(self@ =~= ended.with_channel(id, channel));
                        Ok(id)
                    } else {
                        Err(
                            info_error(
                                ErrorKind::FeesTooHigh {
                                    fee_total_sat: response.payment.fee_total_sat,
                                    client_balance_sat: response.order.client_balance_sat,
                                },
                            ),
                        )
                    },
                    Err(e) => Err(e),
                }
            },
            Err(e) => Err(info_error(e)),
        }
    }

    /// Goes on from an order that the user places, and returns the version in use.
    fn order_placed(&mut self, id: u128, order: OrderParams, request_id: RequestId) -> (version:
        Result<u16, ErrorKind>)
        ensures
            (final(self)@, version) == old(self)@.place_step(id, order, request_id.0@),
    {
        if !self.inbound_channels_by_id.contains_key(&id) {
            return Err(ErrorKind::ChannelNotFound { channel_id: id });
        }
        let mut channel = self.take_channel(id);
        match channel.order_requested(order) {
            Ok(version) => {
                self.insert_inbound_channel(id, channel);
                assert(self@ =~= old(self)@.with_channel(id, channel));
                self.insert_request(request_id, id);
                Ok(version)
            },
            Err(e) => Err(e.err),
        }
    }

    /// Goes on from the user checking on an order.
    fn order_checked(&mut self, id: u128, request_id: RequestId) -> (result: Result<(), ErrorKind>)
        ensures
            (final(self)@, result) == old(self)@.check_step(id, request_id.0@),
    {
        if !self.inbound_channels_by_id.contains_key(&id) {
            return Err(ErrorKind::ChannelNotFound { channel_id: id });
        }
        let mut channel = self.take_channel(id);
        match channel.pay_for_channel(id) {
            Ok(()) => {
                self.insert_inbound_channel(id, channel);
                assert(self@ =~= old(self)@.with_channel(id, channel));
                self.insert_request(request_id, id);
                Ok(())
            },
            Err(e) => Err(e.err),
        }
    }
}

/// Whether the messages are those before and one more request of ours, with an id made of the given
/// random bytes.
pub open spec fn request_enqueued(
    before: Seq<(PublicKey, LSPSMessage)>,
    after: Seq<(PublicKey, LSPSMessage)>,
    counterparty_node_id: PublicKey,
    entropy: Seq<u8>,
    request: LSPS1Request,
) -> bool {
    &&& after.len() == before.len() + 1
    &&& after.drop_last() == before
    &&& after.last().0 == counterparty_node_id
    &&& match after.last().1 {
        LSPSMessage::LSPS1(LSPS1Message::Request(request_id, sent)) => request_id.0@
            == request_id_text(entropy) && sent == request,
        _ => false,
    }
}

/// Requests channels from peers as client, and sells channels to them as LSP.
pub struct CRManager {
    per_peer_state: KeyedMap<PublicKey, PeerState>,
    options_config: Option<OptionsSupported>,
    website: Option<String>,
    max_fees: Option<u64>,
}

/// The contents of a [`CRManager`].
#[verifier::ext_equal]
pub struct CRManagerView {
    pub per_peer_state: Map<PublicKey, PeerStateView>,
    pub options_config: Option<OptionsSupported>,
    pub website: Option<String>,
    pub max_fees: Option<u64>,
}

impl View for CRManager {
    type V = CRManagerView;

    closed spec fn view(&self) -> CRManagerView {
        CRManagerView {
            per_peer_state: self.per_peer_state@,
            options_config: self.options_config,
            website: self.website,
            max_fees: self.max_fees,
        }
    }
}

impl CRManagerView {
    /// The state of a peer, which is empty until something is agreed.
    pub open spec fn peer(self, counterparty_node_id: PublicKey) -> PeerStateView {
        if self.per_peer_state.contains_key(counterparty_node_id) {
            self.per_peer_state[counterparty_node_id]
        } else {
            PeerStateView::empty()
        }
    }

    /// With the state of one peer replaced.
    pub open spec fn with_peer(self, counterparty_node_id: PublicKey, peer: PeerStateView) -> Self {
        CRManagerView {
            per_peer_state: self.per_peer_state.insert(counterparty_node_id, peer),
            ..self
        }
    }

    /// The state, the events and the result after a `get_info` response.
    pub open spec fn after_info_response(
        self,
        events: Seq<Event>,
        request_id: RequestId,
        counterparty_node_id: PublicKey,
        response: GetInfoResponse,
    ) -> (Self, Seq<Event>, Result<(), LightningError>) {
        if !self.per_peer_state.contains_key(counterparty_node_id) {
            (
                self,
                events,
                Err(
                    info(
                        ErrorKind::UnknownPeer {
                            reply: Reply::GetInfoResponse,
                            counterparty_node_id,
                        },
                    ),
                ),
            )
        } else {
            let (peer, outcome) = self.per_peer_state[counterparty_node_id].info_step(
                request_id,
                response.supported_versions,
                response.options,
            );
            let after = self.with_peer(counterparty_node_id, peer);
            match outcome {
                Ok((id, version)) => (
                    after,
                    events.push(
                        Event::LSPS1(
                            lsps1::event::Event::GetInfoResponse {
                                id,
                                request_id,
                                counterparty_node_id,
                                version,
                                website: response.website,
                                options_supported: response.options,
                            },
                        ),
                    ),
                    Ok(()),
                ),
                Err(e) => (after, events, Err(info(e))),
            }
        }
    }

    /// The state, the events and the result after a `create_order` response.
    pub open spec fn after_order_response(
        self,
        events: Seq<Event>,
        request_id: RequestId,
        counterparty_node_id: PublicKey,
        response: CreateOrderResponse,
    ) -> (Self, Seq<Event>, Result<(), LightningError>) {
        if !self.per_peer_state.contains_key(counterparty_node_id) {
            (
                self,
                events,
                Err(
                    info(
                        ErrorKind::UnknownPeer {
                            reply: Reply::CreateOrderResponse,
                            counterparty_node_id,
                        },
                    ),
                ),
            )
        } else {
            let (peer, outcome) = self.per_peer_state[counterparty_node_id].order_step(
                request_id,
                response,
                self.max_fees,
            );
            let after = self.with_peer(counterparty_node_id, peer);
            match outcome {
                Ok(id) => (
                    after,
                    events.push(
                        Event::LSPS1(
                            lsps1::event::Event::DisplayOrder {
                                id,
                                counterparty_node_id,
                                order: response.order,
                                payment: response.payment,
                                channel: response.channel,
                            },
                        ),
                    ),
                    Ok(()),
                ),
                Err(e) => (after, events, Err(info(e))),
            }
        }
    }

    /// The state and the result after a reply that only ends its request.
    pub open spec fn after_reply(
        self,
        request_id: RequestId,
        counterparty_node_id: PublicKey,
        reply: Reply,
    ) -> (Self, Result<(), LightningError>) {
        if !self.per_peer_state.contains_key(counterparty_node_id) {
            (self, Err(info(ErrorKind::UnknownPeer { reply, counterparty_node_id })))
        } else {
            let (peer, outcome) = self.per_peer_state[counterparty_node_id].reply_taken(
                request_id,
                reply,
            );
            (
                self.with_peer(counterparty_node_id, peer),
                match outcome {
                    Ok(_) => Ok(()),
                    Err(e) => Err(info(e)),
                },
            )
        }
    }

    /// With the orders of one peer replaced.
    pub open spec fn with_orders(self, counterparty_node_id: PublicKey, orders: OrdersView) -> Self {
        self.with_peer(counterparty_node_id, self.peer(counterparty_node_id).with_orders(orders))
    }

    /// Whether the options and the website that clients ask for are configured.
    pub open spec fn configured(self) -> bool {
        self.options_config is Some && self.website is Some
    }

    /// Whether a message can be taken in with the given configuration.
    pub open spec fn can_take_in(self, message: LSPS1Message) -> bool {
        match message {
            LSPS1Message::Request(_, LSPS1Request::GetInfo(_)) => self.configured(),
            LSPS1Message::Request(_, LSPS1Request::CreateOrder(params)) => supports_version(
                params.version,
            ) ==> self.options_config is Some,
            _ => true,
        }
    }

    /// The state and the events after a `create_order` request that is not refused, which awaits
    /// the user's invoice.
    pub open spec fn after_order_request(
        self,
        events: Seq<Event>,
        request_id: RequestId,
        counterparty_node_id: PublicKey,
        params: CreateOrderRequest,
    ) -> (Self, Seq<Event>) {
        (
            self.with_orders(
                counterparty_node_id,
                self.peer(counterparty_node_id).orders.with_pending(
                    request_id.0@,
                    LSPS1Request::CreateOrder(params),
                ),
            ),
            events.push(
                Event::LSPS1(
                    lsps1::event::Event::CreateInvoice {
                        request_id,
                        counterparty_node_id,
                        order: params.order,
                    },
                ),
            ),
        )
    }

    /// Why a `create_order` request is refused.
    pub open spec fn refusal(self, params: CreateOrderRequest) -> Option<OrderRefusal> {
        if !supports_version(params.version) {
            Some(OrderRefusal::UnsupportedVersion { version: params.version })
        } else {
            order_refusal(self.options_config->0, params)
        }
    }

    /// The state, the events and the result after a `get_order` request.
    ///
    /// The user is asked whether the payment has come. An order that was asked for before is to be
    /// refunded.
    pub open spec fn after_order_asked(
        self,
        events: Seq<Event>,
        request_id: RequestId,
        counterparty_node_id: PublicKey,
        params: GetOrderRequest,
    ) -> (Self, Seq<Event>, Result<(), LightningError>) {
        if !self.per_peer_state.contains_key(counterparty_node_id) {
            (
                self,
                events,
                Err(
                    info(
                        ErrorKind::UnknownRequester {
                            request: PeerRequest::GetOrder,
                            counterparty_node_id,
                        },
                    ),
                ),
            )
        } else {
            let peer = self.per_peer_state[counterparty_node_id];
            let (orders, outcome) = peer.orders.order_asked_step(request_id, params);
            let order_id = params.order_id;
            (
                self.with_orders(counterparty_node_id, orders),
                match outcome {
                    Ok(_) => events.push(
                        Event::LSPS1(
                            lsps1::event::Event::CheckPaymentConfirmation {
                                request_id,
                                counterparty_node_id,
                                order_id,
                            },
                        ),
                    ),
                    Err(ErrorKind::UnknownOrder { .. }) => events,
                    Err(_) => events.push(
                        Event::LSPS1(
                            lsps1::event::Event::Refund {
                                request_id,
                                counterparty_node_id,
                                order_id,
                            },
                        ),
                    ),
                },
                match outcome {
                    Ok(_) => Ok(()),
                    Err(e) => Err(info(e)),
                },
            )
        }
    }
}

impl CRManager {
    /// Creates a manager with whom nothing is agreed yet.
    pub fn new(config: &CRChannelConfig) -> (manager: Self)
        ensures
            manager@ == (CRManagerView {
                per_peer_state: Map::empty(),
                options_config: config.options_supported,
                website: config.website,
                max_fees: config.max_fees,
            }),
    {
        CRManager {
            per_peer_state: KeyedMap::new(),
            options_config: config.options_supported,
            website: clone_text(&config.website),
            max_fees: config.max_fees,
        }
    }

    /// Returns whether the options and the website that clients ask for are configured.
    pub fn is_configured(&self) -> (configured: bool)
        ensures
            configured == self@.configured(),
    {
        self.options_config.is_some() && self.website.is_some()
    }

    fn enqueue_request(
        pending_messages: &mut Vec<(PublicKey, LSPSMessage)>,
        counterparty_node_id: &PublicKey,
        request_id: RequestId,
        request: LSPS1Request,
    )
        ensures
            final(pending_messages)@ == old(pending_messages)@.push(
                (
                    *counterparty_node_id,
                    LSPSMessage::LSPS1(LSPS1Message::Request(request_id, request)),
                ),
            ),
            final(pending_messages)@.drop_last() == old(pending_messages)@,
    {
        pending_messages.push(
            (*counterparty_node_id, LSPSMessage::from(LSPS1Message::Request(request_id, request))),
        );
    }

    fn enqueue_response(
        pending_messages: &mut Vec<(PublicKey, LSPSMessage)>,
        counterparty_node_id: &PublicKey,
        request_id: RequestId,
        response: LSPS1Response,
    )
        ensures
            final(pending_messages)@ == old(pending_messages)@.push(
                (
                    *counterparty_node_id,
                    LSPSMessage::LSPS1(LSPS1Message::Response(request_id, response)),
                ),
            ),
            final(pending_messages)@.drop_last() == old(pending_messages)@,
    {
        pending_messages.push(
            (*counterparty_node_id, LSPSMessage::from(LSPS1Message::Response(request_id, response))),
        );
    }

    /// Requests the options that an LSP supports, for a channel with the given id.
    ///
    /// The user will receive the LSP's response via an [`lsps1::event::Event::GetInfoResponse`] event.
    /// The id of the request is made of random bytes.
    pub fn request_for_info(
        &mut self,
        counterparty_node_id: PublicKey,
        channel_id: u128,
        request_entropy: &[u8; 32],
        pending_messages: &mut Vec<(PublicKey, LSPSMessage)>,
    )
        ensures
            final(self)@ == old(self)@.with_peer(
                counterparty_node_id,
                old(self)@.peer(counterparty_node_id).with_channel(
                    channel_id,
                    InboundCRChannel { id: channel_id, state: InboundRequestState::InfoRequested },
                ).with_request(request_id_text(request_entropy@), channel_id),
            ),
            request_enqueued(
                old(pending_messages)@,
                final(pending_messages)@,
                counterparty_node_id,
                request_entropy@,
                LSPS1Request::GetInfo(GetInfoRequest {  }),
            ),
    {
        let channel = InboundCRChannel::new(channel_id);
        let mut peer_state = match self.per_peer_state.remove(&counterparty_node_id) {
            Some(peer_state) => peer_state,
            None => PeerState::new(),
        };
        peer_state.insert_inbound_channel(channel_id, channel);
        let request_id = generate_request_id(request_entropy);
        peer_state.insert_request(request_id.clone(), channel_id);
        self.per_peer_state.insert(counterparty_node_id, peer_state);
        Self::enqueue_request(
            pending_messages,
            &counterparty_node_id,
            request_id,
            LSPS1Request::GetInfo(GetInfoRequest {  }),
        );
    }

    fn handle_get_info_response(
        &mut self,
        request_id: RequestId,
        counterparty_node_id: &PublicKey,
        response: GetInfoResponse,
        pending_events: &mut EventQueue,
    ) -> (result: Result<(), LightningError>)
        ensures
            (final(self)@, final(pending_events)@, result) == old(self)@.after_info_response(
                old(pending_events)@,
                request_id,
                *counterparty_node_id,
                response,
            ),
    {
        match self.per_peer_state.remove(counterparty_node_id) {
            Some(mut peer_state) => {
                let known = peer_state.info_response(
                    request_id.clone(),
                    response.supported_versions,
                    response.options,
                );
                self.per_peer_state.insert(*counterparty_node_id, peer_state);
                assert(self@ =~= old(self)@.with_peer(*counterparty_node_id, peer_state@));
                match known {
                    Ok((id, version)) => {
                        pending_events.enqueue(
                            Event::LSPS1(
                                lsps1::event::Event::GetInfoResponse {
                                    id,
                                    request_id,
                                    counterparty_node_id: *counterparty_node_id,
                                    version,
                                    website: response.website,
                                    options_supported: response.options,
                                },
                            ),
                        );
                        Ok(())
                    },
                    Err(e) => Err(e),
                }
            },
            None => {
                assert(self@ =~= old(self)@);
                Err(
                    info_error(
                        ErrorKind::UnknownPeer {
                            reply: Reply::GetInfoResponse,
                            counterparty_node_id: *counterparty_node_id,
                        },
                    ),
                )
            },
        }
    }

    /// Places an order for a channel with an LSP whose options are known.
    ///
    /// Should be called in response to receiving a [`lsps1::event::Event::GetInfoResponse`] event.
    pub fn place_order(
        &mut self,
        channel_id: u128,
        counterparty_node_id: &PublicKey,
        order: OrderParams,
        request_entropy: &[u8; 32],
        pending_messages: &mut Vec<(PublicKey, LSPSMessage)>,
    ) -> (result: Result<(), APIError>)
        ensures
            !old(self)@.per_peer_state.contains_key(*counterparty_node_id) ==> {
                &&& final(self)@ == old(self)@
                &&& final(pending_messages)@ == old(pending_messages)@
                &&& result == Err::<(), APIError>(
                    misuse(
                        ErrorKind::NoPeerState { counterparty_node_id: *counterparty_node_id },
                    ),
                )
            },
            old(self)@.per_peer_state.contains_key(*counterparty_node_id) ==> {
                let (peer, outcome) = old(self)@.per_peer_state[*counterparty_node_id].place_step(
                    channel_id,
                    order,
                    request_id_text(request_entropy@),
                );
                &&& final(self)@ == old(self)@.with_peer(*counterparty_node_id, peer)
                &&& match outcome {
                    Ok(version) => result == Ok::<(), APIError>(()) && request_enqueued(
                        old(pending_messages)@,
                        final(pending_messages)@,
                        *counterparty_node_id,
                        request_entropy@,
                        LSPS1Request::CreateOrder(CreateOrderRequest { order, version }),
                    ),
                    Err(e) => result == Err::<(), APIError>(misuse(e)) && final(pending_messages)@
                        == old(pending_messages)@,
                }
            },
    {
        match self.per_peer_state.remove(counterparty_node_id) {
            Some(mut peer_state) => {
                let request_id = generate_request_id(request_entropy);
                let placed = peer_state.order_placed(channel_id, order.clone(), request_id.clone());
                self.per_peer_state.insert(*counterparty_node_id, peer_state);
                assert(self@ =~= old(self)@.with_peer(*counterparty_node_id, peer_state@));
                match placed {
                    Ok(version) => {
                        Self::enqueue_request(
                            pending_messages,
                            counterparty_node_id,
                            request_id,
                            LSPS1Request::CreateOrder(CreateOrderRequest { order, version }),
                        );
                        Ok(())
                    },
                    Err(e) => Err(misuse_error(e)),
                }
            },
            None => {
                assert(self@ =~= old(self)@);
                Err(
                    misuse_error(
                        ErrorKind::NoPeerState { counterparty_node_id: *counterparty_node_id },
                    ),
                )
            },
        }
    }

    fn handle_create_order_response(
        &mut self,
        request_id: RequestId,
        counterparty_node_id: &PublicKey,
        response: CreateOrderResponse,
        pending_events: &mut EventQueue,
    ) -> (result: Result<(), LightningError>)
        ensures
            (final(self)@, final(pending_events)@, result) == old(self)@.after_order_response(
                old(pending_events)@,
                request_id,
                *counterparty_node_id,
                response,
            ),
    {
        match self.per_peer_state.remove(counterparty_node_id) {
            Some(mut peer_state) => {
                let id = peer_state.order_response(
                    request_id,
                    &response,
                    self.max_fees,
                );
                self.per_peer_state.insert(*counterparty_node_id, peer_state);
                assert(self@ =~= old(self)@.with_peer(*counterparty_node_id, peer_state@));
                match id {
                    Ok(id) => {
                        pending_events.enqueue(
                            Event::LSPS1(
                                lsps1::event::Event::DisplayOrder {
                                    id,
                                    counterparty_node_id: *counterparty_node_id,
                                    order: response.order,
                                    payment: response.payment,
                                    channel: response.channel,
                                },
                            ),
                        );
                        Ok(())
                    },
                    Err(e) => Err(e),
                }
            },
            None => {
                assert(self@ =~= old(self)@);
                Err(
                    info_error(
                        ErrorKind::UnknownPeer {
                            reply: Reply::CreateOrderResponse,
                            counterparty_node_id: *counterparty_node_id,
                        },
                    ),
                )
            },
        }
    }

    /// Ends the request that a reply belongs to.
    fn handle_reply(
        &mut self,
        request_id: RequestId,
        counterparty_node_id: &PublicKey,
        reply: Reply,
    ) -> (result: Result<(), LightningError>)
        ensures
            (final(self)@, result) == old(self)@.after_reply(
                request_id,
                *counterparty_node_id,
                reply,
            ),
    {
        match self.per_peer_state.remove(counterparty_node_id) {
            Some(mut peer_state) => {
                let taken = peer_state.take_reply(request_id, reply);
                self.per_peer_state.insert(*counterparty_node_id, peer_state);
                assert(self@ =~= old(self)@.with_peer(*counterparty_node_id, peer_state@));
                match taken {
                    Ok(_) => Ok(()),
                    Err(e) => Err(info_error(e)),
                }
            },
            None => {
                assert(self@ =~= old(self)@);
                Err(
                    info_error(
                        ErrorKind::UnknownPeer {
                            reply,
                            counterparty_node_id: *counterparty_node_id,
                        },
                    ),
                )
            },
        }
    }

    fn handle_create_order_error(
        &mut self,
        request_id: RequestId,
        counterparty_node_id: &PublicKey,
        _error: ResponseError,
    ) -> (result: Result<(), LightningError>)
        ensures
            (final(self)@, result) == old(self)@.after_reply(
                request_id,
                *counterparty_node_id,
                Reply::CreateOrderError,
            ),
    {
        self.handle_reply(request_id, counterparty_node_id, Reply::CreateOrderError)
    }

    /// Asks an LSP about an order that was paid for.
    ///
    /// Should be called after the order of a [`lsps1::event::Event::DisplayOrder`] event was paid.
    pub fn check_order_status(
        &mut self,
        counterparty_node_id: &PublicKey,
        order_id: OrderId,
        channel_id: u128,
        request_entropy: &[u8; 32],
        pending_messages: &mut Vec<(PublicKey, LSPSMessage)>,
    ) -> (result: Result<(), APIError>)
        ensures
            !old(self)@.per_peer_state.contains_key(*counterparty_node_id) ==> {
                &&& final(self)@ == old(self)@
                &&& final(pending_messages)@ == old(pending_messages)@
                &&& result == Err::<(), APIError>(
                    misuse(
                        ErrorKind::NoPeerState { counterparty_node_id: *counterparty_node_id },
                    ),
                )
            },
            old(self)@.per_peer_state.contains_key(*counterparty_node_id) ==> {
                let (peer, outcome) = old(self)@.per_peer_state[*counterparty_node_id].check_step(
                    channel_id,
                    request_id_text(request_entropy@),
                );
                &&& final(self)@ == old(self)@.with_peer(*counterparty_node_id, peer)
                &&& match outcome {
                    Ok(_) => result == Ok::<(), APIError>(()) && request_enqueued(
                        old(pending_messages)@,
                        final(pending_messages)@,
                        *counterparty_node_id,
                        request_entropy@,
                        LSPS1Request::GetOrder(GetOrderRequest { order_id }),
                    ),
                    Err(e) => result == Err::<(), APIError>(misuse(e)) && final(pending_messages)@
                        == old(pending_messages)@,
                }
            },
    {
        match self.per_peer_state.remove(counterparty_node_id) {
            Some(mut peer_state) => {
                let request_id = generate_request_id(request_entropy);
                let checked = peer_state.order_checked(channel_id, request_id.clone());
                self.per_peer_state.insert(*counterparty_node_id, peer_state);
                assert(self@ =~= old(self)@.with_peer(*counterparty_node_id, peer_state@));
                match checked {
                    Ok(()) => {
                        Self::enqueue_request(
                            pending_messages,
                            counterparty_node_id,
                            request_id,
                            LSPS1Request::GetOrder(GetOrderRequest { order_id }),
                        );
                        Ok(())
                    },
                    Err(e) => Err(misuse_error(e)),
                }
            },
            None => {
                assert(self@ =~= old(self)@);
                Err(
                    misuse_error(
                        ErrorKind::NoPeerState { counterparty_node_id: *counterparty_node_id },
                    ),
                )
            },
        }
    }

    fn handle_get_order_response(
        &mut self,
        request_id: RequestId,
        counterparty_node_id: &PublicKey,
        _response: GetOrderResponse,
    ) -> (result: Result<(), LightningError>)
        ensures
            (final(self)@, result) == old(self)@.after_reply(
                request_id,
                *counterparty_node_id,
                Reply::GetOrderResponse,
            ),
    {
        self.handle_reply(request_id, counterparty_node_id, Reply::GetOrderResponse)
    }

    fn handle_get_order_error(
        &mut self,
        request_id: RequestId,
        counterparty_node_id: &PublicKey,
        _error: ResponseError,
    ) -> (result: Result<(), LightningError>)
        ensures
            (final(self)@, result) == old(self)@.after_reply(
                request_id,
                *counterparty_node_id,
                Reply::GetOrderError,
            ),
    {
        self.handle_reply(request_id, counterparty_node_id, Reply::GetOrderError)
    }

    fn handle_get_info_request(
        &self,
        request_id: RequestId,
        counterparty_node_id: &PublicKey,
        pending_messages: &mut Vec<(PublicKey, LSPSMessage)>,
    ) -> (result: Result<(), LightningError>)
        requires
            self@.configured(),
        ensures
            result == Ok::<(), LightningError>(()),
            answered(
                old(pending_messages)@,
                final(pending_messages)@,
                *counterparty_node_id,
                request_id,
                is_info(self@.website->0, self@.options_config->0),
            ),
    {
        let website = match &self.website {
            Some(website) => website.clone(),
            None => vstd::pervasive::unreached(),
        };
        let options = match &self.options_config {
            Some(options) => *options,
            None => vstd::pervasive::unreached(),
        };
        Self::enqueue_response(
            pending_messages,
            counterparty_node_id,
            request_id,
            LSPS1Response::GetInfo(
                GetInfoResponse { supported_versions: supported_versions(), website, options },
            ),
        );
        Ok(())
    }

    fn handle_create_order_request(
        &mut self,
        request_id: RequestId,
        counterparty_node_id: &PublicKey,
        params: CreateOrderRequest,
        pending_messages: &mut Vec<(PublicKey, LSPSMessage)>,
        pending_events: &mut EventQueue,
    ) -> (result: Result<(), LightningError>)
        requires
            supports_version(params.version) ==> old(self)@.options_config is Some,
        ensures
            match old(self)@.refusal(params) {
                None => {
                    &&& result == Ok::<(), LightningError>(())
                    &&& final(pending_messages)@ == old(pending_messages)@
                    &&& (final(self)@, final(pending_events)@) == old(self)@.after_order_request(
                        old(pending_events)@,
                        request_id,
                        *counterparty_node_id,
                        params,
                    )
                },
                Some(refusal) => {
                    &&& result == Err::<(), LightningError>(
                        info(ErrorKind::UnsupportedVersion { version: params.version }),
                    )
                    &&& final(self)@ == old(self)@
                    &&& final(pending_events)@ == old(pending_events)@
                    &&& answered(
                        old(pending_messages)@,
                        final(pending_messages)@,
                        *counterparty_node_id,
                        request_id,
                        is_order_error(refusal.answer()),
                    )
                },
            },
    {
        let refusal = if !is_supported_version(params.version) {
            Some(OrderRefusal::UnsupportedVersion { version: params.version })
        } else {
            match &self.options_config {
                Some(options) => refuse_order(options, &params),
                None => vstd::pervasive::unreached(),
            }
        };
        if let Some(refusal) = refusal {
            Self::enqueue_response(
                pending_messages,
                counterparty_node_id,
                request_id,
                LSPS1Response::CreateOrderError(refusal.to_response_error()),
            );
            return Err(info_error(ErrorKind::UnsupportedVersion { version: params.version }));
        }
        let mut peer_state = match self.per_peer_state.remove(counterparty_node_id) {
            Some(peer_state) => peer_state,
            None => PeerState::new(),
        };
        peer_state.orders.order_requested(request_id.clone(), params.clone());
        self.per_peer_state.insert(*counterparty_node_id, peer_state);
        pending_events.enqueue(
            Event::LSPS1(
                lsps1::event::Event::CreateInvoice {
                    request_id,
                    counterparty_node_id: *counterparty_node_id,
                    order: params.order,
                },
            ),
        );
        Ok(())
    }

    /// Used by LSP to send invoice containing details regarding the channel fees and payment
    /// information.
    ///
    /// Should be called in response to receiving a [`lsps1::event::Event::CreateInvoice`] event. The
    /// id of the order is made of random bytes.
    pub fn send_invoice_for_order(
        &mut self,
        request_id: RequestId,
        counterparty_node_id: &PublicKey,
        payment: OrderPayment,
        created_at: UtcDateTime,
        expires_at: UtcDateTime,
        order_entropy: &[u8; 32],
        pending_messages: &mut Vec<(PublicKey, LSPSMessage)>,
    ) -> (result: Result<(), APIError>)
        ensures
            !old(self)@.per_peer_state.contains_key(*counterparty_node_id) ==> {
                &&& final(self)@ == old(self)@
                &&& final(pending_messages)@ == old(pending_messages)@
                &&& result == Err::<(), APIError>(
                    misuse(
                        ErrorKind::NoPeerState { counterparty_node_id: *counterparty_node_id },
                    ),
                )
            },
            old(self)@.per_peer_state.contains_key(*counterparty_node_id) ==> {
                let orders = old(self)@.per_peer_state[*counterparty_node_id].orders;
                let after = final(self)@.per_peer_state[*counterparty_node_id].orders;
                &&& final(self)@ == old(self)@.with_orders(*counterparty_node_id, after)
                &&& if orders.awaits_invoice(request_id.0@) {
                    &&& result == Ok::<(), APIError>(())
                    &&& answered(
                        old(pending_messages)@,
                        final(pending_messages)@,
                        *counterparty_node_id,
                        request_id,
                        is_order_made(
                            orders,
                            after,
                            request_id,
                            order_entropy@,
                            payment,
                            created_at,
                            expires_at,
                        ),
                    )
                } else {
                    &&& after == orders.without_pending(request_id.0@)
                    &&& final(pending_messages)@ == old(pending_messages)@
                    &&& result == Err::<(), APIError>(
                        misuse(
                            ErrorKind::NoPendingRequest {
                                request: PeerRequest::CreateOrder,
                                request_id,
                            },
                        ),
                    )
                }
            },
    {
        match self.per_peer_state.remove(counterparty_node_id) {
            Some(mut peer_state) => {
                let order_id = generate_order_id(order_entropy);
                let made = peer_state.orders.invoice_created(
                    &request_id,
                    order_id,
                    payment,
                    created_at,
                    expires_at,
                );
                self.per_peer_state.insert(*counterparty_node_id, peer_state);
                assert(self@ =~= old(self)@.with_orders(
                    *counterparty_node_id,
                    peer_state.orders@,
                ));
                match made {
                    Ok(response) => {
                        Self::enqueue_response(
                            pending_messages,
                            counterparty_node_id,
                            request_id,
                            LSPS1Response::CreateOrder(response),
                        );
                        Ok(())
                    },
                    Err(e) => Err(misuse_error(e)),
                }
            },
            None => {
                assert(self@ =~= old(self)@);
                Err(
                    misuse_error(
                        ErrorKind::NoPeerState { counterparty_node_id: *counterparty_node_id },
                    ),
                )
            },
        }
    }

    fn handle_get_order_request(
        &mut self,
        request_id: RequestId,
        counterparty_node_id: &PublicKey,
        params: GetOrderRequest,
        pending_events: &mut EventQueue,
    ) -> (result: Result<(), LightningError>)
        ensures
            (final(self)@, final(pending_events)@, result) == old(self)@.after_order_asked(
                old(pending_events)@,
                request_id,
                *counterparty_node_id,
                params,
            ),
    {
        match self.per_peer_state.remove(counterparty_node_id) {
            Some(mut peer_state) => {
                let asked = peer_state.orders.order_asked(request_id.clone(), params.clone());
                self.per_peer_state.insert(*counterparty_node_id, peer_state);
                assert(self@ =~= old(self)@.with_orders(
                    *counterparty_node_id,
                    peer_state.orders@,
                ));
                match asked {
                    Ok(()) => {
                        pending_events.enqueue(
                            Event::LSPS1(
                                lsps1::event::Event::CheckPaymentConfirmation {
                                    request_id,
                                    counterparty_node_id: *counterparty_node_id,
                                    order_id: params.order_id,
                                },
                            ),
                        );
                        Ok(())
                    },
                    Err(e) => {
                        let known = match &e {
                            ErrorKind::UnknownOrder { .. } => false,
                            _ => true,
                        };
                        if known {
                            pending_events.enqueue(
                                Event::LSPS1(
                                    lsps1::event::Event::Refund {
                                        request_id,
                                        counterparty_node_id: *counterparty_node_id,
                                        order_id: params.order_id,
                                    },
                                ),
                            );
                        }
                        Err(info_error(e))
                    },
                }
            },
            None => {
                assert(self@ =~= old(self)@);
                Err(
                    info_error(
                        ErrorKind::UnknownRequester {
                            request: PeerRequest::GetOrder,
                            counterparty_node_id: *counterparty_node_id,
                        },
                    ),
                )
            },
        }
    }

    /// Used by LSP to give details to client regarding the status of channel opening.
    ///
    /// Should be called in response to receiving a
    /// [`lsps1::event::Event::CheckPaymentConfirmation`] event.
    pub fn update_order_status(
        &self,
        request_id: RequestId,
        counterparty_node_id: PublicKey,
        order_id: OrderId,
        order_state: OrderState,
        channel: Option<ChannelInfo>,
        pending_messages: &mut Vec<(PublicKey, LSPSMessage)>,
    ) -> (result: Result<(), APIError>)
        ensures
            !self@.per_peer_state.contains_key(counterparty_node_id) ==> {
                &&& final(pending_messages)@ == old(pending_messages)@
                &&& result == Err::<(), APIError>(
                    misuse(ErrorKind::NoPeerState { counterparty_node_id }),
                )
            },
            self@.per_peer_state.contains_key(counterparty_node_id) ==> match self@.per_peer_state[
                counterparty_node_id
            ].orders.order_status(order_id, order_state, channel) {
                Ok(response) => {
                    &&& result == Ok::<(), APIError>(())
                    &&& final(pending_messages)@ == old(pending_messages)@.push(
                        (
                            counterparty_node_id,
                            LSPSMessage::LSPS1(
                                LSPS1Message::Response(
                                    request_id,
                                    LSPS1Response::GetOrder(GetOrderResponse { response }),
                                ),
                            ),
                        ),
                    )
                },
                Err(e) => {
                    &&& final(pending_messages)@ == old(pending_messages)@
                    &&& result == Err::<(), APIError>(misuse(e))
                },
            },
    {
        match self.per_peer_state.get(&counterparty_node_id) {
            Some(peer_state) => match peer_state.orders.status_of(order_id, order_state, channel) {
                Ok(response) => {
                    Self::enqueue_response(
                        pending_messages,
                        &counterparty_node_id,
                        request_id,
                        LSPS1Response::GetOrder(GetOrderResponse { response }),
                    );
                    Ok(())
                },
                Err(e) => Err(misuse_error(e)),
            },
            None => Err(misuse_error(ErrorKind::NoPeerState { counterparty_node_id })),
        }
    }

    /// Takes in an LSPS1 message from a peer.
    pub fn handle_message(
        &mut self,
        message: LSPS1Message,
        counterparty_node_id: &PublicKey,
        pending_messages: &mut Vec<(PublicKey, LSPSMessage)>,
        pending_events: &mut EventQueue,
    ) -> (result: Result<(), LightningError>)
        requires
            old(self)@.can_take_in(message),
        ensures
            match message {
                LSPS1Message::Request(request_id, LSPS1Request::GetInfo(_)) => {
                    &&& result == Ok::<(), LightningError>(())
                    &&& final(self)@ == old(self)@
                    &&& final(pending_events)@ == old(pending_events)@
                    &&& answered(
                        old(pending_messages)@,
                        final(pending_messages)@,
                        *counterparty_node_id,
                        request_id,
                        is_info(old(self)@.website->0, old(self)@.options_config->0),
                    )
                },
                LSPS1Message::Request(request_id, LSPS1Request::CreateOrder(params)) => {
                    match old(self)@.refusal(params) {
                        None => {
                            &&& result == Ok::<(), LightningError>(())
                            &&& final(pending_messages)@ == old(pending_messages)@
                            &&& (final(self)@, final(pending_events)@)
                                == old(self)@.after_order_request(
                                old(pending_events)@,
                                request_id,
                                *counterparty_node_id,
                                params,
                            )
                        },
                        Some(refusal) => {
                            &&& result == Err::<(), LightningError>(
                                info(ErrorKind::UnsupportedVersion { version: params.version }),
                            )
                            &&& final(self)@ == old(self)@
                            &&& final(pending_events)@ == old(pending_events)@
                            &&& answered(
                                old(pending_messages)@,
                                final(pending_messages)@,
                                *counterparty_node_id,
                                request_id,
                                is_order_error(refusal.answer()),
                            )
                        },
                    }
                },
                LSPS1Message::Request(request_id, LSPS1Request::GetOrder(params)) => {
                    &&& final(pending_messages)@ == old(pending_messages)@
                    &&& (final(self)@, final(pending_events)@, result)
                        == old(self)@.after_order_asked(
                        old(pending_events)@,
                        request_id,
                        *counterparty_node_id,
                        params,
                    )
                },
                LSPS1Message::Response(request_id, LSPS1Response::GetInfo(response)) => {
                    &&& final(pending_messages)@ == old(pending_messages)@
                    &&& (final(self)@, final(pending_events)@, result) == old(self)@.after_info_response(
                        old(pending_events)@,
                        request_id,
                        *counterparty_node_id,
                        response,
                    )
                },
                LSPS1Message::Response(request_id, LSPS1Response::CreateOrder(response)) => {
                    &&& final(pending_messages)@ == old(pending_messages)@
                    &&& (final(self)@, final(pending_events)@, result)
                        == old(self)@.after_order_response(
                        old(pending_events)@,
                        request_id,
                        *counterparty_node_id,
                        response,
                    )
                },
                LSPS1Message::Response(request_id, LSPS1Response::CreateOrderError(_)) => {
                    &&& final(pending_messages)@ == old(pending_messages)@
                    &&& final(pending_events)@ == old(pending_events)@
                    &&& (final(self)@, result) == old(self)@.after_reply(
                        request_id,
                        *counterparty_node_id,
                        Reply::CreateOrderError,
                    )
                },
                LSPS1Message::Response(request_id, LSPS1Response::GetOrder(_)) => {
                    &&& final(pending_messages)@ == old(pending_messages)@
                    &&& final(pending_events)@ == old(pending_events)@
                    &&& (final(self)@, result) == old(self)@.after_reply(
                        request_id,
                        *counterparty_node_id,
                        Reply::GetOrderResponse,
                    )
                },
                LSPS1Message::Response(request_id, LSPS1Response::GetOrderError(_)) => {
                    &&& final(pending_messages)@ == old(pending_messages)@
                    &&& final(pending_events)@ == old(pending_events)@
                    &&& (final(self)@, result) == old(self)@.after_reply(
                        request_id,
                        *counterparty_node_id,
                        Reply::GetOrderError,
                    )
                },
            },
    {
        match message {
            LSPS1Message::Request(request_id, request) => match request {
                LSPS1Request::GetInfo(_) => self.handle_get_info_request(
                    request_id,
                    counterparty_node_id,
                    pending_messages,
                ),
                LSPS1Request::CreateOrder(params) => self.handle_create_order_request(
                    request_id,
                    counterparty_node_id,
                    params,
                    pending_messages,
                    pending_events,
                ),
                LSPS1Request::GetOrder(params) => self.handle_get_order_request(
                    request_id,
                    counterparty_node_id,
                    params,
                    pending_events,
                ),
            },
            LSPS1Message::Response(request_id, response) => match response {
                LSPS1Response::GetInfo(response) => self.handle_get_info_response(
                    request_id,
                    counterparty_node_id,
                    response,
                    pending_events,
                ),
                LSPS1Response::CreateOrder(response) => self.handle_create_order_response(
                    request_id,
                    counterparty_node_id,
                    response,
                    pending_events,
                ),
                LSPS1Response::CreateOrderError(error) => self.handle_create_order_error(
                    request_id,
                    counterparty_node_id,
                    error,
                ),
                LSPS1Response::GetOrder(response) => self.handle_get_order_response(
                    request_id,
                    counterparty_node_id,
                    response,
                ),
                LSPS1Response::GetOrderError(error) => self.handle_get_order_error(
                    request_id,
                    counterparty_node_id,
                    error,
                ),
            },
        }
    }
}

/// The request for a channel takes its steps in one order: the options, of an LSP that supports the
/// version in use, then an order within them, then the confirmation of that very order, then its
/// payment. The version stays the one that was agreed on.
pub proof fn lemma_request_has_one_order(
    state: InboundRequestState,
    versions: Vec<u16>,
    options: OptionsSupported,
    order: OrderParams,
    order_id: OrderId,
    channel_id: u128,
)
    ensures
        state is InfoRequested && versions@.contains(1) ==> state.after_info(versions, options) == Ok::<
            InboundRequestState,
            ErrorKind,
        >(InboundRequestState::OptionsSupport { version: 1, options_supported: options }),
        !versions@.contains(1) ==> state.after_info(versions, options) == Err::<
            InboundRequestState,
            ErrorKind,
        >(ErrorKind::NoSharedVersion { theirs: versions }),
        !(state is InfoRequested) && versions@.contains(1) ==> state.after_info(versions, options)
            == Err::<InboundRequestState, ErrorKind>(
            ErrorKind::UnexpectedVersions { state: ChannelState::VersionedRequest(state) },
        ),
        !(state is OptionsSupport) ==> state.after_order_placed(order) == Err::<
            InboundRequestState,
            ErrorKind,
        >(ErrorKind::UnexpectedOrderRequest { state: ChannelState::VersionedRequest(state) }),
        state is OptionsSupport ==> {
            let offered = state->options_supported;
            let within = {
                &&& offered.min_initial_client_balance_sat <= order.client_balance_sat
                &&& order.client_balance_sat <= offered.max_initial_client_balance_sat
                &&& offered.min_initial_lsp_balance_sat <= order.lsp_balance_sat
                &&& order.lsp_balance_sat <= offered.max_initial_lsp_balance_sat
                &&& offered.min_channel_balance_sat <= order.lsp_balance_sat
                    + order.client_balance_sat
                &&& order.lsp_balance_sat + order.client_balance_sat
                    <= offered.max_channel_balance_sat
                &&& order.channel_expiry_blocks <= offered.max_channel_expiry_blocks
            };
            &&& within ==> state.after_order_placed(order) == Ok::<InboundRequestState, ErrorKind>(
                InboundRequestState::OrderRequested { version: state->OptionsSupport_version, order },
            )
            &&& !within ==> state.after_order_placed(order) == Err::<
                InboundRequestState,
                ErrorKind,
            >(ErrorKind::OrderNotSupported { options_supported: offered, order })
        },
        !(state is OrderRequested) ==> state.after_order_confirmed(order, order_id) == Err::<
            InboundRequestState,
            ErrorKind,
        >(ErrorKind::UnexpectedOrder { state: ChannelState::VersionedRequest(state) }),
        state is OrderRequested ==> {
            let placed = state->OrderRequested_order;
            let same = {
                &&& placed.lsp_balance_sat == order.lsp_balance_sat
                &&& placed.client_balance_sat == order.client_balance_sat
                &&& placed.confirms_within_blocks == order.confirms_within_blocks
                &&& placed.channel_expiry_blocks == order.channel_expiry_blocks
                &&& placed.token@ == order.token@
                &&& placed.refund_onchain_address is Some <==> order.refund_onchain_address is Some
                &&& placed.refund_onchain_address is Some ==> placed.refund_onchain_address->0@
                    == order.refund_onchain_address->0@
                &&& placed.announce_channel == order.announce_channel
            };
            &&& same ==> state.after_order_confirmed(order, order_id) == Ok::<
                InboundRequestState,
                ErrorKind,
            >(InboundRequestState::PendingPayment { order_id })
            &&& !same ==> state.after_order_confirmed(order, order_id) == Err::<
                InboundRequestState,
                ErrorKind,
            >(ErrorKind::OrderMismatch { order: placed, response_order: order })
        },
        state is PendingPayment ==> state.after_payment(channel_id) == Ok::<
            InboundRequestState,
            ErrorKind,
        >(
            InboundRequestState::AwaitingConfirmation {
                id: channel_id,
                order_id: state->PendingPayment_order_id,
            },
        ),
        !(state is PendingPayment) ==> state.after_payment(channel_id) == Err::<
            InboundRequestState,
            ErrorKind,
        >(ErrorKind::UnexpectedPayment { state: ChannelState::VersionedRequest(state) }),
{
}

/// A confirmed order is accepted and shown to the user exactly where it answers a request of ours, it
/// is in every field the order that was placed, its total is its fees and the balance of the client,
/// and that total is less than the limit, or than the largest number there is where there is no limit.
/// The channel then awaits payment. Otherwise nothing is shown, and the channel that awaited the order is given up.
pub proof fn lemma_confirmed_orders_are_shown(
    manager: CRManagerView,
    events: Seq<Event>,
    request_id: RequestId,
    node: PublicKey,
    response: CreateOrderResponse,
)
    ensures
        ({
            let (after, shown, result) = manager.after_order_response(
                events,
                request_id,
                node,
                response,
            );
            let known = manager.per_peer_state.contains_key(node);
            let peer = manager.per_peer_state[node];
            let asked = known && peer.request_to_cid.contains_key(request_id.0@);
            let id = peer.request_to_cid[request_id.0@];
            let found = asked && peer.inbound_channels_by_id.contains_key(id);
            let channel = peer.inbound_channels_by_id[id];
            let placed = channel.state->OrderRequested_order;
            let confirmed = response.order;
            let same = {
                &&& placed.lsp_balance_sat == confirmed.lsp_balance_sat
                &&& placed.client_balance_sat == confirmed.client_balance_sat
                &&& placed.confirms_within_blocks == confirmed.confirms_within_blocks
                &&& placed.channel_expiry_blocks == confirmed.channel_expiry_blocks
                &&& placed.token@ == confirmed.token@
                &&& placed.refund_onchain_address is Some <==> confirmed.refund_onchain_address
                    is Some
                &&& placed.refund_onchain_address is Some ==> placed.refund_onchain_address->0@
                    == confirmed.refund_onchain_address->0@
                &&& placed.announce_channel == confirmed.announce_channel
            };
            let totalled = response.payment.order_total_sat == response.payment.fee_total_sat
                + confirmed.client_balance_sat;
            let affordable = match manager.max_fees {
                Some(limit_sat) => response.payment.order_total_sat < limit_sat,
                None => response.payment.order_total_sat < u64::MAX,
            };
            let awaited = found && channel.state is OrderRequested;
            let accepted = awaited && same && totalled && affordable;
            &&& result is Ok <==> accepted
            &&& accepted ==> {
                let next = after.per_peer_state[node];
                &&& shown == events.push(
                    Event::LSPS1(
                        lsps1::event::Event::DisplayOrder {
                            id,
                            counterparty_node_id: node,
                            order: confirmed,
                            payment: response.payment,
                            channel: response.channel,
                        },
                    ),
                )
                &&& next.inbound_channels_by_id == peer.inbound_channels_by_id.insert(
                    id,
                    next.inbound_channels_by_id[id],
                )
                &&& next.inbound_channels_by_id[id].id == channel.id
                &&& next.inbound_channels_by_id[id].state == (InboundRequestState::PendingPayment {
                    order_id: response.order_id,
                })
            }
            &&& !accepted ==> shown == events
            &&& found && !accepted ==> after.per_peer_state[node].inbound_channels_by_id
                == peer.inbound_channels_by_id.remove(id)
            &&& awaited && !same ==> result->Err_0.err == (ErrorKind::OrderMismatch {
                order: placed,
                response_order: confirmed,
            })
            &&& awaited && same && !(totalled && affordable) ==> result->Err_0.err == (
            ErrorKind::FeesTooHigh {
                fee_total_sat: response.payment.fee_total_sat,
                client_balance_sat: confirmed.client_balance_sat,
            })
            &&& found && !(channel.state is OrderRequested) ==> result->Err_0.err == (
            ErrorKind::UnexpectedOrder { state: ChannelState::VersionedRequest(channel.state) })
            &&& asked && !found ==> {
                &&& after.per_peer_state[node].inbound_channels_by_id == peer.inbound_channels_by_id
                &&& result->Err_0.err == (ErrorKind::UnknownChannel {
                    reply: Reply::CreateOrderResponse,
                    channel_id: id,
                })
            }
            &&& asked ==> after.per_peer_state[node].request_to_cid == peer.request_to_cid.remove(
                request_id.0@,
            )
            &&& known && !asked ==> after == manager && result->Err_0.err == (
            ErrorKind::UnknownRequest { reply: Reply::CreateOrderResponse, request_id })
            &&& !known ==> after == manager && result->Err_0.err == (ErrorKind::UnknownPeer {
                reply: Reply::CreateOrderResponse,
                counterparty_node_id: node,
            })
            &&& known ==> after.per_peer_state == manager.per_peer_state.insert(
                node,
                after.per_peer_state[node],
            )
            &&& after.options_config == manager.options_config
            &&& after.website == manager.website
            &&& after.max_fees == manager.max_fees
            &&& known ==> after.per_peer_state[node].orders == peer.orders
        }),
{
    if manager.per_peer_state.contains_key(node) {
        let peer = manager.per_peer_state[node];
        if !peer.request_to_cid.contains_key(request_id.0@) {
            assert(manager.per_peer_state.insert(node, peer) =~= manager.per_peer_state);
        }
    }
}

/// Options that are listed for a request of ours, beside a version that both sides support, are shown
/// to the user, and an order can be placed within them. What comes unasked changes nothing but the channel that it was for.
pub proof fn lemma_listed_options_are_shown(
    manager: CRManagerView,
    events: Seq<Event>,
    request_id: RequestId,
    node: PublicKey,
    response: GetInfoResponse,
)
    ensures
        ({
            let (after, shown, result) = manager.after_info_response(
                events,
                request_id,
                node,
                response,
            );
            let known = manager.per_peer_state.contains_key(node);
            let peer = manager.per_peer_state[node];
            let asked = known && peer.request_to_cid.contains_key(request_id.0@);
            let id = peer.request_to_cid[request_id.0@];
            let found = asked && peer.inbound_channels_by_id.contains_key(id);
            let channel = peer.inbound_channels_by_id[id];
            let shared = response.supported_versions@.contains(1);
            let accepted = found && channel.state is InfoRequested && shared;
            &&& result is Ok <==> accepted
            &&& accepted ==> {
                let next = after.per_peer_state[node];
                &&& shown == events.push(
                    Event::LSPS1(
                        lsps1::event::Event::GetInfoResponse {
                            id,
                            request_id,
                            counterparty_node_id: node,
                            version: 1,
                            website: response.website,
                            options_supported: response.options,
                        },
                    ),
                )
                &&& next.inbound_channels_by_id == peer.inbound_channels_by_id.insert(
                    id,
                    next.inbound_channels_by_id[id],
                )
                &&& next.inbound_channels_by_id[id].id == channel.id
                &&& next.inbound_channels_by_id[id].state == (InboundRequestState::OptionsSupport {
                    version: 1,
                    options_supported: response.options,
                })
            }
            &&& !accepted ==> shown == events
            &&& found && !accepted ==> {
                &&& after.per_peer_state[node].inbound_channels_by_id
                    == peer.inbound_channels_by_id.remove(id)
                &&& shared ==> result->Err_0.err == (ErrorKind::UnexpectedVersions {
                    state: ChannelState::VersionedRequest(channel.state),
                })
                &&& !shared ==> result->Err_0.err == (ErrorKind::NoSharedVersion {
                    theirs: response.supported_versions,
                })
            }
            &&& asked && !found ==> {
                &&& after.per_peer_state[node].inbound_channels_by_id == peer.inbound_channels_by_id
                &&& result->Err_0.err == (ErrorKind::UnknownChannel {
                    reply: Reply::GetInfoResponse,
                    channel_id: id,
                })
            }
            &&& asked ==> after.per_peer_state[node].request_to_cid == peer.request_to_cid.remove(
                request_id.0@,
            )
            &&& known && !asked ==> after.per_peer_state[node] == peer && result->Err_0.err == (
            ErrorKind::UnknownRequest { reply: Reply::GetInfoResponse, request_id })
            &&& !known ==> after == manager && result->Err_0.err == (ErrorKind::UnknownPeer {
                reply: Reply::GetInfoResponse,
                counterparty_node_id: node,
            })
            &&& known ==> after.per_peer_state == manager.per_peer_state.insert(
                node,
                after.per_peer_state[node],
            )
            &&& after.options_config == manager.options_config
            &&& after.website == manager.website
            &&& after.max_fees == manager.max_fees
            &&& known ==> after.per_peer_state[node].orders == peer.orders
        }),
{
}

/// Any other reply ends its request, and leaves every channel as it is.
pub proof fn lemma_other_replies_end_requests(
    manager: CRManagerView,
    request_id: RequestId,
    node: PublicKey,
    reply: Reply,
)
    ensures
        ({
            let (after, result) = manager.after_reply(request_id, node, reply);
            let known = manager.per_peer_state.contains_key(node);
            let peer = manager.per_peer_state[node];
            let asked = known && peer.request_to_cid.contains_key(request_id.0@);
            let id = peer.request_to_cid[request_id.0@];
            let found = asked && peer.inbound_channels_by_id.contains_key(id);
            &&& result is Ok <==> found
            &&& asked ==> after.per_peer_state[node].request_to_cid == peer.request_to_cid.remove(
                request_id.0@,
            )
            &&& known ==> {
                &&& after.per_peer_state == manager.per_peer_state.insert(
                    node,
                    after.per_peer_state[node],
                )
                &&& after.per_peer_state[node].inbound_channels_by_id == peer.inbound_channels_by_id
            }
            &&& asked && !found ==> result->Err_0.err == (ErrorKind::UnknownChannel {
                reply,
                channel_id: id,
            })
            &&& known && !asked ==> after.per_peer_state[node] == peer && result->Err_0.err == (
            ErrorKind::UnknownRequest { reply, request_id })
            &&& !known ==> after == manager && result->Err_0.err == (ErrorKind::UnknownPeer {
                reply,
                counterparty_node_id: node,
            })
            &&& after.options_config == manager.options_config
            &&& after.website == manager.website
            &&& after.max_fees == manager.max_fees
            &&& known ==> after.per_peer_state[node].orders == peer.orders
        }),
{
}

/// An order is placed exactly where the options of the LSP are known for the channel and the order is
/// within them: its balances and its size are within their bounds, and its lease is no longer than the
/// longest one. It is asked about exactly where its channel awaits payment. A channel that takes no
/// such step is given up.
pub proof fn lemma_orders_are_placed_within_options(
    peer: PeerStateView,
    id: u128,
    order: OrderParams,
    request_id: Seq<char>,
)
    ensures
        ({
            let (after, placed) = peer.place_step(id, order, request_id);
            let (paid, checked) = peer.check_step(id, request_id);
            let found = peer.inbound_channels_by_id.contains_key(id);
            let channel = peer.inbound_channels_by_id[id];
            let offered = channel.state->options_supported;
            let within = {
                &&& channel.state is OptionsSupport
                &&& offered.min_initial_client_balance_sat <= order.client_balance_sat
                &&& order.client_balance_sat <= offered.max_initial_client_balance_sat
                &&& offered.min_initial_lsp_balance_sat <= order.lsp_balance_sat
                &&& order.lsp_balance_sat <= offered.max_initial_lsp_balance_sat
                &&& offered.min_channel_balance_sat <= order.lsp_balance_sat
                    + order.client_balance_sat
                &&& order.lsp_balance_sat + order.client_balance_sat
                    <= offered.max_channel_balance_sat
                &&& order.channel_expiry_blocks <= offered.max_channel_expiry_blocks
            };
            &&& placed is Ok <==> found && within
            &&& found && within ==> {
                let next = after.inbound_channels_by_id[id];
                &&& after.inbound_channels_by_id == peer.inbound_channels_by_id.insert(id, next)
                &&& after.request_to_cid == peer.request_to_cid.insert(request_id, id)
                &&& next.id == channel.id
                &&& next.state is OrderRequested
                &&& next.state->OrderRequested_order == order
                &&& next.state->OrderRequested_version == channel.state->OptionsSupport_version
                &&& placed->Ok_0 == channel.state->OptionsSupport_version
            }
            &&& found && !within ==> {
                &&& after.inbound_channels_by_id == peer.inbound_channels_by_id.remove(id)
                &&& after.request_to_cid == peer.request_to_cid
            }
            &&& checked is Ok <==> found && channel.state is PendingPayment
            &&& checked is Ok ==> {
                let next = paid.inbound_channels_by_id[id];
                &&& paid.inbound_channels_by_id == peer.inbound_channels_by_id.insert(id, next)
                &&& paid.request_to_cid == peer.request_to_cid.insert(request_id, id)
                &&& next.id == channel.id
                &&& next.state == (InboundRequestState::AwaitingConfirmation {
                    id,
                    order_id: channel.state->PendingPayment_order_id,
                })
            }
            &&& found && checked is Err ==> {
                &&& paid.inbound_channels_by_id == peer.inbound_channels_by_id.remove(id)
                &&& paid.request_to_cid == peer.request_to_cid
            }
            &&& after.orders == peer.orders && paid.orders == peer.orders
            &&& !found ==> {
                &&& after == peer && paid == peer
                &&& placed == Err::<u16, ErrorKind>(ErrorKind::ChannelNotFound { channel_id: id })
                &&& checked == Err::<(), ErrorKind>(ErrorKind::ChannelNotFound { channel_id: id })
            }
        }),
{
}

/// A change concerns one peer, and of that peer one channel, one request or the orders.
pub proof fn lemma_changes_are_local(
    manager: CRManagerView,
    node: PublicKey,
    peer: PeerStateView,
    orders: OrdersView,
    id: u128,
    channel: InboundCRChannel,
    request_id: Seq<char>,
)
    ensures
        manager.with_peer(node, peer).per_peer_state == manager.per_peer_state.insert(node, peer),
        manager.with_peer(node, peer).options_config == manager.options_config,
        manager.with_peer(node, peer).website == manager.website,
        manager.with_peer(node, peer).max_fees == manager.max_fees,
        manager.with_orders(node, orders) == manager.with_peer(
            node,
            manager.peer(node).with_orders(orders),
        ),
        manager.per_peer_state.contains_key(node) ==> manager.peer(node)
            == manager.per_peer_state[node],
        !manager.per_peer_state.contains_key(node) ==> {
            &&& manager.peer(node).inbound_channels_by_id == Map::<u128, InboundCRChannel>::empty()
            &&& manager.peer(node).request_to_cid == Map::<Seq<char>, u128>::empty()
            &&& manager.peer(node).orders.pending_requests == Map::<
                Seq<char>,
                LSPS1Request,
            >::empty()
            &&& manager.peer(node).orders.outbound_channels_by_order_id == Map::<
                Seq<char>,
                OutboundCRChannel,
            >::empty()
        },
        peer.with_orders(orders).orders == orders,
        peer.with_orders(orders).inbound_channels_by_id == peer.inbound_channels_by_id,
        peer.with_orders(orders).request_to_cid == peer.request_to_cid,
        peer.with_channel(id, channel).inbound_channels_by_id == peer.inbound_channels_by_id.insert(
            id,
            channel,
        ),
        peer.with_channel(id, channel).request_to_cid == peer.request_to_cid,
        peer.with_channel(id, channel).orders == peer.orders,
        peer.without_channel(id).inbound_channels_by_id == peer.inbound_channels_by_id.remove(id),
        peer.without_channel(id).request_to_cid == peer.request_to_cid,
        peer.without_channel(id).orders == peer.orders,
        peer.with_request(request_id, id).request_to_cid == peer.request_to_cid.insert(
            request_id,
            id,
        ),
        peer.with_request(request_id, id).inbound_channels_by_id == peer.inbound_channels_by_id,
        peer.with_request(request_id, id).orders == peer.orders,
{
}

/// A request is one more message, to the LSP that it is for, under an id made of the given randomness.
pub proof fn lemma_what_is_asked(
    before: Seq<(PublicKey, LSPSMessage)>,
    after: Seq<(PublicKey, LSPSMessage)>,
    node: PublicKey,
    entropy: Seq<u8>,
    request: LSPS1Request,
)
    requires
        request_enqueued(before, after, node, entropy, request),
    ensures
        after.len() == before.len() + 1,
        forall|i: int| 0 <= i < before.len() ==> #[trigger] after[i] == before[i],
        after.last().0 == node,
        after.last().1 matches LSPSMessage::LSPS1(LSPS1Message::Request(id, sent)) && id.0@
            == request_id_text(entropy) && sent == request,
{
    assert forall|i: int| 0 <= i < before.len() implies #[trigger] after[i] == before[i] by {
        assert(after.drop_last()[i] == before[i]);
    }
}


/// A `create_order` request is accepted exactly where its version is the supported one, the balance of
/// the client, the balance of the LSP and the size of the channel are within their bounds, and its
/// lease is no longer than the longest one. An unsupported version is what is told first.
pub proof fn lemma_which_orders_are_accepted(service: CRManagerView, params: CreateOrderRequest)
    ensures
        ({
            let options = service.options_config->0;
            let order = params.order;
            let within = {
                &&& options.min_initial_client_balance_sat <= order.client_balance_sat
                &&& order.client_balance_sat <= options.max_initial_client_balance_sat
                &&& options.min_initial_lsp_balance_sat <= order.lsp_balance_sat
                &&& order.lsp_balance_sat <= options.max_initial_lsp_balance_sat
                &&& options.min_channel_balance_sat <= order.lsp_balance_sat
                    + order.client_balance_sat
                &&& order.lsp_balance_sat + order.client_balance_sat
                    <= options.max_channel_balance_sat
                &&& order.channel_expiry_blocks <= options.max_channel_expiry_blocks
            };
            &&& service.refusal(params) is None <==> params.version == 1 && within
            &&& params.version != 1 ==> service.refusal(params) == Some(
                OrderRefusal::UnsupportedVersion { version: params.version },
            )
            &&& params.version == 1 && !within ==> service.refusal(params) == Some(
                OrderRefusal::OrderMismatch { options },
            )
        }),
{
}

/// An order that is accepted stays accepted with a shorter lease.
pub proof fn lemma_shorter_leases_are_accepted(
    service: CRManagerView,
    params: CreateOrderRequest,
    shorter: CreateOrderRequest,
)
    requires
        service.refusal(params) is None,
        shorter.version == params.version,
        shorter.order.client_balance_sat == params.order.client_balance_sat,
        shorter.order.lsp_balance_sat == params.order.lsp_balance_sat,
        shorter.order.channel_expiry_blocks <= params.order.channel_expiry_blocks,
    ensures
        service.refusal(shorter) is None,
{
}

/// An accepted order awaits an invoice, beside what awaited our answer before, and the user is told
/// what was ordered. Nothing else changes.
pub proof fn lemma_accepted_orders_await_an_invoice(
    service: CRManagerView,
    events: Seq<Event>,
    request_id: RequestId,
    node: PublicKey,
    params: CreateOrderRequest,
)
    ensures
        ({
            let (after, told) = service.after_order_request(events, request_id, node, params);
            let known = service.per_peer_state.contains_key(node);
            let before = service.per_peer_state[node];
            &&& told == events.push(
                Event::LSPS1(
                    lsps1::event::Event::CreateInvoice {
                        request_id,
                        counterparty_node_id: node,
                        order: params.order,
                    },
                ),
            )
            &&& after.per_peer_state == service.per_peer_state.insert(
                node,
                after.per_peer_state[node],
            )
            &&& after.per_peer_state[node].orders.pending_requests == (if known {
                before.orders.pending_requests
            } else {
                Map::<Seq<char>, LSPS1Request>::empty()
            }).insert(request_id.0@, LSPS1Request::CreateOrder(params))
            &&& known ==> {
                &&& after.per_peer_state[node].request_to_cid == before.request_to_cid
                    &&& after.per_peer_state[node].inbound_channels_by_id
                        == before.inbound_channels_by_id
                &&& after.per_peer_state[node].orders.outbound_channels_by_order_id
                    == before.orders.outbound_channels_by_order_id
            }
            &&& after.options_config == service.options_config
            &&& after.website == service.website
            &&& after.max_fees == service.max_fees
        }),
{
}

/// The first `get_order` request for an order has the user check its payment, a further one has the
/// user refund it, and one for an order that is not there has the user do nothing.
pub proof fn lemma_what_asking_for_an_order_leads_to(
    service: CRManagerView,
    events: Seq<Event>,
    request_id: RequestId,
    node: PublicKey,
    params: GetOrderRequest,
)
    ensures
        ({
            let (after, told, result) = service.after_order_asked(events, request_id, node, params);
            let known = service.per_peer_state.contains_key(node);
            let before = service.per_peer_state[node];
            let orders = before.orders.outbound_channels_by_order_id;
            let ordered = known && orders.contains_key(params.order_id.0@);
            let order = orders[params.order_id.0@];
            let fresh = ordered && order.state is OrderCreated;
            &&& result is Ok <==> fresh
            &&& fresh ==> {
                let next = after.per_peer_state[node].orders;
                &&& told == events.push(
                    Event::LSPS1(
                        lsps1::event::Event::CheckPaymentConfirmation {
                            request_id,
                            counterparty_node_id: node,
                            order_id: params.order_id,
                        },
                    ),
                )
                &&& next.outbound_channels_by_order_id == orders.insert(
                    params.order_id.0@,
                    next.outbound_channels_by_order_id[params.order_id.0@],
                )
                &&& next.outbound_channels_by_order_id[params.order_id.0@].config == order.config
                &&& next.outbound_channels_by_order_id[params.order_id.0@].state == (
                OutboundRequestState::WaitingPayment {
                    order_id: order.state->OrderCreated_order_id,
                })
                &&& next.pending_requests == before.orders.pending_requests.insert(
                    request_id.0@,
                    LSPS1Request::GetOrder(params),
                )
            }
            &&& ordered && !fresh ==> {
                &&& told == events.push(
                    Event::LSPS1(
                        lsps1::event::Event::Refund {
                            request_id,
                            counterparty_node_id: node,
                            order_id: params.order_id,
                        },
                    ),
                )
                &&& after.per_peer_state[node].orders.outbound_channels_by_order_id == orders.remove(
                    params.order_id.0@,
                )
                &&& after.per_peer_state[node].orders.pending_requests
                    == before.orders.pending_requests
            }
            &&& !ordered ==> told == events
            &&& known && !ordered ==> after.per_peer_state[node] == before && result->Err_0.err == (
            ErrorKind::UnknownOrder { order_id: params.order_id })
            &&& known ==> {
                &&& after.per_peer_state == service.per_peer_state.insert(
                    node,
                    after.per_peer_state[node],
                )
                &&& after.per_peer_state[node].request_to_cid == before.request_to_cid
                    &&& after.per_peer_state[node].inbound_channels_by_id
                        == before.inbound_channels_by_id
            }
            &&& !known ==> after == service && result->Err_0.err == (ErrorKind::UnknownRequester {
                request: PeerRequest::GetOrder,
                counterparty_node_id: node,
            })
            &&& after.options_config == service.options_config
            &&& after.website == service.website
            &&& after.max_fees == service.max_fees
        }),
{
}

/// The manager can answer every message once its options and its website are set, and without them all
/// but those that ask for them.
pub proof fn lemma_messages_can_be_taken_in(manager: CRManagerView, message: LSPS1Message)
    ensures
        manager.options_config is Some && manager.website is Some ==> manager.can_take_in(message),
        !(message is Request && (message->Request_1 is GetInfo || message->Request_1 is CreateOrder))
            ==> manager.can_take_in(message),
{
}

/// Asking an LSP for its options starts the request for a channel under the given id.
pub proof fn lemma_requests_start(
    manager: &mut CRManager,
    node: PublicKey,
    id: u128,
    request_entropy: [u8; 32],
    messages: &mut Vec<(PublicKey, LSPSMessage)>,
    result: (),
)
    requires
        call_ensures(
            CRManager::request_for_info,
            (manager, node, id, &request_entropy, messages),
            result,
        ),
    ensures
        ({
            let before = old(manager)@;
            let after = final(manager)@;
            let request_id = request_id_text(request_entropy@);
            let next = after.per_peer_state[node];
            &&& final(messages)@.len() == old(messages)@.len() + 1
            &&& final(messages)@.drop_last() == old(messages)@
            &&& final(messages)@.last().0 == node
            &&& final(messages)@.last().1 matches LSPSMessage::LSPS1(
                LSPS1Message::Request(sent, LSPS1Request::GetInfo(_)),
            ) && sent.0@ == request_id
            &&& after.per_peer_state == before.per_peer_state.insert(node, next)
            &&& next.inbound_channels_by_id.contains_key(id)
            &&& next.inbound_channels_by_id[id].id == id
            &&& next.inbound_channels_by_id[id].state is InfoRequested
            &&& next.request_to_cid.contains_key(request_id)
            &&& next.request_to_cid[request_id] == id
            &&& before.per_peer_state.contains_key(node) ==> {
                let peer = before.per_peer_state[node];
                &&& next.inbound_channels_by_id == peer.inbound_channels_by_id.insert(
                    id,
                    next.inbound_channels_by_id[id],
                )
                &&& next.request_to_cid == peer.request_to_cid.insert(request_id, id)
                &&& next.orders == peer.orders
            }
            &&& after.options_config == before.options_config
            &&& after.website == before.website
            &&& after.max_fees == before.max_fees
        }),
{
}

/// An order is placed with the LSP exactly where its options are known for the channel and the order is
/// within them: its balances and its size are within their bounds, and its lease is no longer than the
/// longest one. What is sent is that very order. Otherwise nothing is sent, and a channel that was there
/// is given up.
pub proof fn lemma_orders_are_placed(
    manager: &mut CRManager,
    id: u128,
    node: PublicKey,
    order: OrderParams,
    request_entropy: [u8; 32],
    messages: &mut Vec<(PublicKey, LSPSMessage)>,
    result: Result<(), APIError>,
)
    requires
        call_ensures(
            CRManager::place_order,
            (manager, id, &node, order, &request_entropy, messages),
            result,
        ),
    ensures
        ({
            let before = old(manager)@;
            let after = final(manager)@;
            let known = before.per_peer_state.contains_key(node);
            let peer = before.per_peer_state[node];
            let found = known && peer.inbound_channels_by_id.contains_key(id);
            let channel = peer.inbound_channels_by_id[id];
            let offered = channel.state->options_supported;
            let within = {
                &&& channel.state is OptionsSupport
                &&& offered.min_initial_client_balance_sat <= order.client_balance_sat
                &&& order.client_balance_sat <= offered.max_initial_client_balance_sat
                &&& offered.min_initial_lsp_balance_sat <= order.lsp_balance_sat
                &&& order.lsp_balance_sat <= offered.max_initial_lsp_balance_sat
                &&& offered.min_channel_balance_sat <= order.lsp_balance_sat
                    + order.client_balance_sat
                &&& order.lsp_balance_sat + order.client_balance_sat
                    <= offered.max_channel_balance_sat
                &&& order.channel_expiry_blocks <= offered.max_channel_expiry_blocks
            };
            let next = after.per_peer_state[node];
            &&& result is Ok <==> found && within
            &&& !(found && within) ==> final(messages)@ == old(messages)@
            &&& found && within ==> {
                &&& final(messages)@.len() == old(messages)@.len() + 1
                &&& final(messages)@.drop_last() == old(messages)@
                &&& final(messages)@.last().0 == node
                &&& final(messages)@.last().1 matches LSPSMessage::LSPS1(
                    LSPS1Message::Request(sent, LSPS1Request::CreateOrder(asked)),
                ) && sent.0@ == request_id_text(request_entropy@) && asked.order == order && asked.version
                    == channel.state->OptionsSupport_version
                &&& next.inbound_channels_by_id == peer.inbound_channels_by_id.insert(
                    id,
                    next.inbound_channels_by_id[id],
                )
                &&& next.inbound_channels_by_id[id].state is OrderRequested
                &&& next.inbound_channels_by_id[id].state->OrderRequested_order == order
                &&& next.inbound_channels_by_id[id].state->OrderRequested_version
                    == channel.state->OptionsSupport_version
                &&& next.request_to_cid == peer.request_to_cid.insert(
                    request_id_text(request_entropy@),
                    id,
                )
            }
            &&& found && !within ==> {
                &&& next.inbound_channels_by_id == peer.inbound_channels_by_id.remove(id)
                &&& channel.state is OptionsSupport ==> result->Err_0->err == (
                ErrorKind::OrderNotSupported { options_supported: offered, order })
                &&& !(channel.state is OptionsSupport) ==> result->Err_0->err == (
                ErrorKind::UnexpectedOrderRequest { state: ChannelState::VersionedRequest(channel.state) })
            }
            &&& known && !found ==> next == peer && result->Err_0->err == (
            ErrorKind::ChannelNotFound { channel_id: id })
            &&& known ==> after.per_peer_state == before.per_peer_state.insert(node, next)
            &&& !known ==> after == before && result->Err_0->err == (ErrorKind::NoPeerState {
                counterparty_node_id: node,
            })
            &&& after.options_config == before.options_config
            &&& after.website == before.website
            &&& after.max_fees == before.max_fees
        }),
{
}

/// The state of an order is asked for exactly where its channel awaits payment, which it then awaits no
/// more. Otherwise nothing is sent, and a channel that was there is given up.
pub proof fn lemma_orders_are_asked_about(
    manager: &mut CRManager,
    node: PublicKey,
    order_id: OrderId,
    id: u128,
    request_entropy: [u8; 32],
    messages: &mut Vec<(PublicKey, LSPSMessage)>,
    result: Result<(), APIError>,
)
    requires
        call_ensures(
            CRManager::check_order_status,
            (manager, &node, order_id, id, &request_entropy, messages),
            result,
        ),
    ensures
        ({
            let before = old(manager)@;
            let after = final(manager)@;
            let known = before.per_peer_state.contains_key(node);
            let peer = before.per_peer_state[node];
            let found = known && peer.inbound_channels_by_id.contains_key(id);
            let payable = found && peer.inbound_channels_by_id[id].state is PendingPayment;
            let next = after.per_peer_state[node];
            &&& result is Ok <==> payable
            &&& !payable ==> final(messages)@ == old(messages)@
            &&& payable ==> {
                &&& final(messages)@.len() == old(messages)@.len() + 1
                &&& final(messages)@.drop_last() == old(messages)@
                &&& final(messages)@.last().0 == node
                &&& final(messages)@.last().1 matches LSPSMessage::LSPS1(
                    LSPS1Message::Request(sent, LSPS1Request::GetOrder(asked)),
                ) && sent.0@ == request_id_text(request_entropy@) && asked.order_id == order_id
                &&& next.inbound_channels_by_id == peer.inbound_channels_by_id.insert(
                    id,
                    next.inbound_channels_by_id[id],
                )
                &&& next.inbound_channels_by_id[id].state is AwaitingConfirmation
                &&& next.request_to_cid == peer.request_to_cid.insert(
                    request_id_text(request_entropy@),
                    id,
                )
            }
            &&& found && !payable ==> {
                &&& next.inbound_channels_by_id == peer.inbound_channels_by_id.remove(id)
                &&& result->Err_0->err == (ErrorKind::UnexpectedPayment {
                    state: ChannelState::VersionedRequest(peer.inbound_channels_by_id[id].state),
                })
            }
            &&& known && !found ==> next == peer && result->Err_0->err == (
            ErrorKind::ChannelNotFound { channel_id: id })
            &&& known ==> after.per_peer_state == before.per_peer_state.insert(node, next)
            &&& !known ==> after == before && result->Err_0->err == (ErrorKind::NoPeerState {
                counterparty_node_id: node,
            })
            &&& after.options_config == before.options_config
            &&& after.website == before.website
            &&& after.max_fees == before.max_fees
        }),
{
}

/// A confirmed order is accepted and shown to the user exactly where it answers a request of ours, it
/// is in every field the order that was placed, its total is its fees and the balance of the client, and
/// that total is less than the limit, or than
/// the largest number there is where there is no limit.
pub proof fn lemma_accepted_orders_are_shown(
    manager: &mut CRManager,
    request_id: RequestId,
    response: CreateOrderResponse,
    node: PublicKey,
    messages: &mut Vec<(PublicKey, LSPSMessage)>,
    events: &mut EventQueue,
    result: Result<(), LightningError>,
)
    requires
        call_ensures(
            CRManager::handle_message,
            (
                manager,
                LSPS1Message::Response(request_id, LSPS1Response::CreateOrder(response)),
                &node,
                messages,
                events,
            ),
            result,
        ),
    ensures
        ({
            let before = old(manager)@;
            let after = final(manager)@;
            let peer = before.per_peer_state[node];
            let id = peer.request_to_cid[request_id.0@];
            let awaited = before.per_peer_state.contains_key(node)
                && peer.request_to_cid.contains_key(request_id.0@)
                && peer.inbound_channels_by_id.contains_key(id)
                && peer.inbound_channels_by_id[id].state is OrderRequested;
            let placed = peer.inbound_channels_by_id[id].state->OrderRequested_order;
            let confirmed = response.order;
            let same = {
                &&& placed.lsp_balance_sat == confirmed.lsp_balance_sat
                &&& placed.client_balance_sat == confirmed.client_balance_sat
                &&& placed.confirms_within_blocks == confirmed.confirms_within_blocks
                &&& placed.channel_expiry_blocks == confirmed.channel_expiry_blocks
                &&& placed.token@ == confirmed.token@
                &&& placed.refund_onchain_address is Some <==> confirmed.refund_onchain_address
                    is Some
                &&& placed.refund_onchain_address is Some ==> placed.refund_onchain_address->0@
                    == confirmed.refund_onchain_address->0@
                &&& placed.announce_channel == confirmed.announce_channel
            };
            let affordable = match before.max_fees {
                Some(limit_sat) => response.payment.order_total_sat < limit_sat,
                None => response.payment.order_total_sat < u64::MAX,
            };
            let accepted = awaited && same && affordable && response.payment.order_total_sat
                == response.payment.fee_total_sat + confirmed.client_balance_sat;
            &&& result is Ok <==> accepted
            &&& accepted ==> {
                &&& final(events)@ == old(events)@.push(
                    Event::LSPS1(
                        lsps1::event::Event::DisplayOrder {
                            id,
                            counterparty_node_id: node,
                            order: confirmed,
                            payment: response.payment,
                            channel: response.channel,
                        },
                    ),
                )
                &&& after.per_peer_state[node].inbound_channels_by_id[id].state == (
                InboundRequestState::PendingPayment { order_id: response.order_id })
            }
            &&& !accepted ==> final(events)@ == old(events)@
            &&& awaited && !accepted
                ==> !after.per_peer_state[node].inbound_channels_by_id.contains_key(id)
            &&& final(messages)@ == old(messages)@
        }),
{
}

/// A `create_order` request is accepted exactly where its version is the supported one, the balance of
/// the client, the balance of the LSP and the size of the channel are within their bounds, and its lease
/// is no longer than the longest one. It then awaits an invoice, and the user is told of it. Any other
/// request changes nothing, and the client is told so under the id of its request.
pub proof fn lemma_orders_within_the_options_are_accepted(
    manager: &mut CRManager,
    request_id: RequestId,
    params: CreateOrderRequest,
    node: PublicKey,
    messages: &mut Vec<(PublicKey, LSPSMessage)>,
    events: &mut EventQueue,
    result: Result<(), LightningError>,
)
    requires
        call_ensures(
            CRManager::handle_message,
            (
                manager,
                LSPS1Message::Request(request_id, LSPS1Request::CreateOrder(params)),
                &node,
                messages,
                events,
            ),
            result,
        ),
    ensures
        ({
            let before = old(manager)@;
            let after = final(manager)@;
            let offered = before.options_config->0;
            let order = params.order;
            let accepted = {
                &&& params.version == 1
                &&& offered.min_initial_client_balance_sat <= order.client_balance_sat
                &&& order.client_balance_sat <= offered.max_initial_client_balance_sat
                &&& offered.min_initial_lsp_balance_sat <= order.lsp_balance_sat
                &&& order.lsp_balance_sat <= offered.max_initial_lsp_balance_sat
                &&& offered.min_channel_balance_sat <= order.lsp_balance_sat
                    + order.client_balance_sat
                &&& order.lsp_balance_sat + order.client_balance_sat
                    <= offered.max_channel_balance_sat
                &&& order.channel_expiry_blocks <= offered.max_channel_expiry_blocks
            };
            let known = before.per_peer_state.contains_key(node);
            let peer = before.per_peer_state[node];
            let next = after.per_peer_state[node];
            &&& result is Ok <==> accepted
            &&& accepted ==> {
                &&& final(messages)@ == old(messages)@
                &&& final(events)@ == old(events)@.push(
                    Event::LSPS1(
                        lsps1::event::Event::CreateInvoice {
                            request_id,
                            counterparty_node_id: node,
                            order,
                        },
                    ),
                )
                &&& after.per_peer_state == before.per_peer_state.insert(node, next)
                &&& next.orders.pending_requests == (if known {
                    peer.orders.pending_requests
                } else {
                    Map::<Seq<char>, LSPS1Request>::empty()
                }).insert(request_id.0@, LSPS1Request::CreateOrder(params))
                &&& known ==> next.orders.outbound_channels_by_order_id
                    == peer.orders.outbound_channels_by_order_id
            }
            &&& !accepted ==> {
                &&& result->Err_0.err == (ErrorKind::UnsupportedVersion {
                    version: params.version,
                })
                &&& after == before
                &&& final(events)@ == old(events)@
                &&& final(messages)@.len() == old(messages)@.len() + 1
                &&& final(messages)@.drop_last() == old(messages)@
                &&& final(messages)@.last().0 == node
                &&& final(messages)@.last().1 matches LSPSMessage::LSPS1(
                    LSPS1Message::Response(id, LSPS1Response::CreateOrderError(error)),
                ) && id == request_id && (params.version != 1 ==> error.code == 1) && (
                params.version == 1 ==> error.code == 1000)
            }
            &&& after.options_config == before.options_config
            &&& after.website == before.website
            &&& after.max_fees == before.max_fees
        }),
{
}

/// An invoice makes an order of the request that asked for one: the client is told the order that it
/// asked for, under an id made of the given randomness and with the terms that were set. The request is
/// answered then. Where there is no such request, nothing is sent and no order is made.
pub proof fn lemma_invoices_make_orders(
    manager: &mut CRManager,
    request_id: RequestId,
    node: PublicKey,
    payment: OrderPayment,
    created_at: UtcDateTime,
    expires_at: UtcDateTime,
    order_entropy: [u8; 32],
    messages: &mut Vec<(PublicKey, LSPSMessage)>,
    result: Result<(), APIError>,
)
    requires
        call_ensures(
            CRManager::send_invoice_for_order,
            (
                manager,
                request_id,
                &node,
                payment,
                created_at,
                expires_at,
                &order_entropy,
                messages,
            ),
            result,
        ),
    ensures
        ({
            let before = old(manager)@;
            let after = final(manager)@;
            let known = before.per_peer_state.contains_key(node);
            let peer = before.per_peer_state[node];
            let next = after.per_peer_state[node];
            let asked = known && peer.orders.pending_requests.contains_key(request_id.0@)
                && peer.orders.pending_requests[request_id.0@] is CreateOrder;
            let order = peer.orders.pending_requests[request_id.0@]->CreateOrder_0.order;
            let order_id = request_id_text(order_entropy@);
            let made = next.orders.outbound_channels_by_order_id[order_id];
            &&& result is Ok <==> asked
            &&& !asked ==> final(messages)@ == old(messages)@
            &&& asked ==> {
                &&& final(messages)@.len() == old(messages)@.len() + 1
                &&& final(messages)@.drop_last() == old(messages)@
                &&& final(messages)@.last().0 == node
                &&& final(messages)@.last().1 matches LSPSMessage::LSPS1(
                    LSPS1Message::Response(id, LSPS1Response::CreateOrder(told)),
                ) && {
                    &&& id == request_id
                    &&& told.order_id.0@ == order_id
                    &&& told.order == order
                    &&& told.payment == payment
                    &&& told.created_at == created_at
                    &&& told.expires_at == expires_at
                    &&& told.order_state is Created
                    &&& told.channel is None
                }
                &&& next.orders.outbound_channels_by_order_id
                    == peer.orders.outbound_channels_by_order_id.insert(order_id, made)
                &&& made.state is OrderCreated
                &&& made.config.order == order
                &&& made.config.payment == payment
                &&& made.config.created_at == created_at
                &&& made.config.expires_at == expires_at
            }
            &&& known && !asked ==> next.orders.outbound_channels_by_order_id
                == peer.orders.outbound_channels_by_order_id
            &&& known ==> {
                &&& after.per_peer_state == before.per_peer_state.insert(node, next)
                &&& next.orders.pending_requests == peer.orders.pending_requests.remove(
                    request_id.0@,
                )
                &&& next.request_to_cid == peer.request_to_cid
                &&& next.inbound_channels_by_id == peer.inbound_channels_by_id
            }
            &&& !known ==> after == before && result->Err_0->err == (ErrorKind::NoPeerState {
                counterparty_node_id: node,
            })
            &&& known && !asked ==> result->Err_0->err == (ErrorKind::NoPendingRequest {
                request: PeerRequest::CreateOrder,
                request_id,
            })
            &&& after.options_config == before.options_config
            &&& after.website == before.website
            &&& after.max_fees == before.max_fees
        }),
{
}

/// A client is told the terms that its order was made on, and the state that is given, under the id of
/// its request. Of an order that is not there it is told nothing.
pub proof fn lemma_clients_are_told_of_orders(
    manager: CRManager,
    request_id: RequestId,
    node: PublicKey,
    order_id: OrderId,
    order_state: OrderState,
    channel: Option<ChannelInfo>,
    messages: &mut Vec<(PublicKey, LSPSMessage)>,
    result: Result<(), APIError>,
)
    requires
        call_ensures(
            CRManager::update_order_status,
            (&manager, request_id, node, order_id, order_state, channel, messages),
            result,
        ),
    ensures
        ({
            let orders = manager@.per_peer_state[node].orders.outbound_channels_by_order_id;
            let known = manager@.per_peer_state.contains_key(node) && orders.contains_key(
                order_id.0@,
            );
            let config = orders[order_id.0@].config;
            &&& result is Ok <==> known
            &&& !manager@.per_peer_state.contains_key(node) ==> result->Err_0->err == (
            ErrorKind::NoPeerState { counterparty_node_id: node })
            &&& manager@.per_peer_state.contains_key(node) && !known ==> result->Err_0->err == (
            ErrorKind::OrderNotFound { order_id })
            &&& !known ==> final(messages)@ == old(messages)@
            &&& known ==> {
                &&& final(messages)@.len() == old(messages)@.len() + 1
                &&& final(messages)@.drop_last() == old(messages)@
                &&& final(messages)@.last().0 == node
                &&& final(messages)@.last().1 matches LSPSMessage::LSPS1(
                    LSPS1Message::Response(id, LSPS1Response::GetOrder(told)),
                ) && {
                    &&& id == request_id
                    &&& told.response.order_id == order_id
                    &&& told.response.order == config.order
                    &&& told.response.payment == config.payment
                    &&& told.response.created_at == config.created_at
                    &&& told.response.expires_at == config.expires_at
                    &&& told.response.order_state == order_state
                    &&& told.response.channel == channel
                }
            }
        }),
{
}

/// What the other messages of a peer lead to. Asked for its options, the manager lists them with its website
/// and the supported version. A request for an order goes to the step that takes it in. The manager
/// hands each reply to the step that takes in what it says.
pub proof fn lemma_other_messages_at_the_manager(
    manager: &mut CRManager,
    message: LSPS1Message,
    node: PublicKey,
    messages: &mut Vec<(PublicKey, LSPSMessage)>,
    events: &mut EventQueue,
    result: Result<(), LightningError>,
)
    requires
        call_ensures(
            CRManager::handle_message,
            (manager, message, &node, messages, events),
            result,
        ),
    ensures
        ({
            let before = old(manager)@;
            let after = final(manager)@;
            let told = final(events)@;
            &&& message is Response ==> final(messages)@ == old(messages)@
            &&& match message {
                LSPS1Message::Request(request_id, LSPS1Request::GetInfo(_)) => {
                    &&& result is Ok
                    &&& after == before
                    &&& told == old(events)@
                    &&& final(messages)@.len() == old(messages)@.len() + 1
                    &&& final(messages)@.drop_last() == old(messages)@
                    &&& final(messages)@.last().0 == node
                    &&& final(messages)@.last().1 matches LSPSMessage::LSPS1(
                        LSPS1Message::Response(id, LSPS1Response::GetInfo(listed)),
                    ) && {
                        &&& id == request_id
                        &&& listed.supported_versions@.len() == 1
                        &&& listed.supported_versions@[0] == 1
                        &&& listed.website == before.website->0
                        &&& listed.options == before.options_config->0
                    }
                },
                LSPS1Message::Request(request_id, LSPS1Request::GetOrder(params)) => {
                    &&& final(messages)@ == old(messages)@
                    &&& (after, told, result) == before.after_order_asked(
                        old(events)@,
                        request_id,
                        node,
                        params,
                    )
                },
                LSPS1Message::Response(request_id, LSPS1Response::GetInfo(response)) => {
                    (after, told, result) == before.after_info_response(
                        old(events)@,
                        request_id,
                        node,
                        response,
                    )
                },
                LSPS1Message::Response(request_id, LSPS1Response::CreateOrder(response)) => {
                    (after, told, result) == before.after_order_response(
                        old(events)@,
                        request_id,
                        node,
                        response,
                    )
                },
                LSPS1Message::Response(request_id, LSPS1Response::CreateOrderError(_)) => {
                    &&& told == old(events)@
                    &&& (after, result) == before.after_reply(
                        request_id,
                        node,
                        Reply::CreateOrderError,
                    )
                },
                LSPS1Message::Response(request_id, LSPS1Response::GetOrder(_)) => {
                    &&& told == old(events)@
                    &&& (after, result) == before.after_reply(
                        request_id,
                        node,
                        Reply::GetOrderResponse,
                    )
                },
                LSPS1Message::Response(request_id, LSPS1Response::GetOrderError(_)) => {
                    &&& told == old(events)@
                    &&& (after, result) == before.after_reply(
                        request_id,
                        node,
                        Reply::GetOrderError,
                    )
                },
                LSPS1Message::Request(_, LSPS1Request::CreateOrder(_)) => true,
            }
        }),
{
}

/// A new manager has asked and been asked nothing yet, and keeps its configuration.
pub proof fn lemma_managers_start_empty(
    config: CRChannelConfig,
    manager: CRManager,
    configured: bool,
)
    requires
        call_ensures(CRManager::new, (&config, ), manager),
        call_ensures(CRManager::is_configured, (&manager, ), configured),
    ensures
        forall|node: PublicKey| !#[trigger] manager@.per_peer_state.contains_key(node),
        manager@.options_config == config.options_supported,
        manager@.website == config.website,
        manager@.max_fees == config.max_fees,
        configured <==> config.options_supported is Some && config.website is Some,
{
}

} // verus!
