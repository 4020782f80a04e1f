//! Contains the main LSPS1 client object, [`LSPS1ClientHandler`].

use vstd::prelude::*;

use crate::collections::KeyedMap;
use crate::errors::{
    info, info_error, misuse, misuse_error, APIError, ChannelState, ChannelStateError, ErrorKind,
    LightningError, Protocol, Reply,
};
use crate::events::{Event, EventQueue};
use crate::lsps0::msgs::{LSPSMessage, RequestId, ResponseError};
use crate::lsps1::event::LSPS1ClientEvent;
use crate::lsps1::msgs::{
    CreateOrderRequest, CreateOrderResponse, GetInfoRequest, GetInfoResponse, GetOrderRequest,
    LSPS1Message, LSPS1Request, LSPS1Response, OptionsSupported, OrderId, OrderParams,
};
use crate::lsps1::utils::{accepts_fees, fees_accepted, is_valid};
use crate::message_queue::MessageQueue;
use crate::types::PublicKey;
use crate::utils::{generate_request_id, request_id_text};

verus! {

/// Client-side configuration options for LSPS1 channel requests.
#[derive(Clone, Copy, Debug)]
pub struct LSPS1ClientConfig {
    /// The maximally allowed channel fees.
    pub max_channel_fees_msat: Option<u64>,
}

/// How far the request for a channel has come.
#[derive(Debug, PartialEq, Eq)]
pub enum InboundRequestState {
    InfoRequested,
    OptionsSupport { options_supported: OptionsSupported },
    OrderRequested { order: OrderParams },
    PendingPayment { order_id: OrderId },
    AwaitingConfirmation { id: u128, order_id: OrderId },
}

impl InboundRequestState {
    /// Tells the state in an error.
    fn channel_state(&self) -> (state: ChannelState)
        ensures
            state == ChannelState::Request(*self),
    {
        ChannelState::Request(
            match self {
                InboundRequestState::InfoRequested => InboundRequestState::InfoRequested,
                InboundRequestState::OptionsSupport { options_supported } => {
                    InboundRequestState::OptionsSupport {
                        options_supported: *options_supported,
                    }
                },
                InboundRequestState::OrderRequested { order } => {
                    InboundRequestState::OrderRequested {
                        order: order.clone(),
                    }
                },
                InboundRequestState::PendingPayment { order_id } => InboundRequestState::PendingPayment {
                    order_id: order_id.clone(),
                },
                InboundRequestState::AwaitingConfirmation { id, order_id } => {
                    InboundRequestState::AwaitingConfirmation { id: *id, order_id: order_id.clone() }
                },
            },
        )
    }

    /// The state after the LSP has listed its options.
    pub open spec fn after_info(self, options: OptionsSupported) -> Result<Self, ErrorKind> {
        if self is InfoRequested {
            Ok(InboundRequestState::OptionsSupport { options_supported: options })
        } else {
            Err(ErrorKind::UnexpectedInfo { state: ChannelState::Request(self) })
        }
    }

    /// Goes on from the options that the LSP has listed.
    pub fn info_received(&self, options: OptionsSupported) -> (next: Result<
        Self,
        ChannelStateError,
    >)
        ensures
            next == (match self.after_info(options) {
                Ok(state) => Ok(state),
                Err(e) => Err(ChannelStateError(e)),
            }),
    {
        match self {
            InboundRequestState::InfoRequested => Ok(
                InboundRequestState::OptionsSupport { options_supported: options },
            ),
            _ => Err(ChannelStateError(ErrorKind::UnexpectedInfo { state: self.channel_state() })),
        }
    }

    /// The state after an order was placed.
    pub open spec fn after_order_placed(self, order: OrderParams) -> Result<Self, ErrorKind> {
        match self {
            InboundRequestState::OptionsSupport { options_supported } => {
                if options_supported.supports(order) {
                    Ok(InboundRequestState::OrderRequested { order })
                } else {
                    Err(ErrorKind::OrderNotSupported { options_supported, order })
                }
            },
            _ => Err(ErrorKind::UnexpectedOrderRequest { state: ChannelState::Request(self) }),
        }
    }

    /// Goes on from an order that was placed.
    pub fn order_requested(&self, order: OrderParams) -> (next: Result<Self, ChannelStateError>)
        ensures
            next == (match self.after_order_placed(order) {
                Ok(state) => Ok(state),
                Err(e) => Err(ChannelStateError(e)),
            }),
    {
        match self {
            InboundRequestState::OptionsSupport { options_supported } => {
                if is_valid(&order, options_supported) {
                    Ok(InboundRequestState::OrderRequested { order })
                } else {
                    Err(
                        ChannelStateError(
                            ErrorKind::OrderNotSupported {
                                options_supported: *options_supported,
                                order,
                            },
                        ),
                    )
                }
            },
            _ => Err(
                ChannelStateError(ErrorKind::UnexpectedOrderRequest { state: self.channel_state() }),
            ),
        }
    }

    /// The state after the LSP has confirmed the order.
    pub open spec fn after_order_confirmed(
        self,
        response_order: OrderParams,
        order_id: OrderId,
    ) -> Result<Self, ErrorKind> {
        match self {
            InboundRequestState::OrderRequested { order } => {
                if response_order@ == order@ {
                    Ok(InboundRequestState::PendingPayment { order_id })
                } else {
                    Err(ErrorKind::OrderMismatch { order, response_order })
                }
            },
            _ => Err(ErrorKind::UnexpectedOrder { state: ChannelState::Request(self) }),
        }
    }

    /// Goes on from the order that the LSP has confirmed.
    pub fn order_received(&self, response_order: &OrderParams, order_id: OrderId) -> (next: Result<
        Self,
        ChannelStateError,
    >)
        ensures
            next == (match self.after_order_confirmed(*response_order, order_id) {
                Ok(state) => Ok(state),
                Err(e) => Err(ChannelStateError(e)),
            }),
    {
        match self {
            InboundRequestState::OrderRequested { order } => {
                if response_order.same_order(order) {
                    Ok(InboundRequestState::PendingPayment { order_id })
                } else {
                    Err(
                        ChannelStateError(
                            ErrorKind::OrderMismatch {
                                order: order.clone(),
                                response_order: response_order.clone(),
                            },
                        ),
                    )
                }
            },
            _ => Err(ChannelStateError(ErrorKind::UnexpectedOrder { state: self.channel_state() })),
        }
    }

    /// The state after the order was paid for.
    pub open spec fn after_payment(self, channel_id: u128) -> Result<Self, ErrorKind> {
        match self {
            InboundRequestState::PendingPayment { order_id } => Ok(
                InboundRequestState::AwaitingConfirmation { id: channel_id, order_id },
            ),
            _ => Err(ErrorKind::UnexpectedPayment { state: ChannelState::Request(self) }),
        }
    }

    /// Goes on from the payment for the order.
    pub fn pay_for_channel(&self, channel_id: u128) -> (next: Result<Self, ChannelStateError>)
        ensures
            next == (match self.after_payment(channel_id) {
                Ok(state) => Ok(state),
                Err(e) => Err(ChannelStateError(e)),
            }),
    {
        match self {
            InboundRequestState::PendingPayment { order_id } => Ok(
                InboundRequestState::AwaitingConfirmation {
                    id: channel_id,
                    order_id: order_id.clone(),
                },
            ),
            _ => Err(
                ChannelStateError(ErrorKind::UnexpectedPayment { state: self.channel_state() }),
            ),
        }
    }
}

/// A channel that we request from an LSP.
#[derive(Debug, PartialEq, Eq)]
pub struct InboundCRChannel {
    pub id: u128,
    pub state: InboundRequestState,
}

impl View for InboundCRChannel {
    type V = InboundCRChannel;

    open spec fn view(&self) -> InboundCRChannel {
        *self
    }
}

impl InboundCRChannel {
    /// Creates a channel for which the LSP's options have been requested.
    pub fn new(id: u128) -> (channel: Self)
        ensures
            channel == (InboundCRChannel { id, state: InboundRequestState::InfoRequested }),
    {
        InboundCRChannel { id, state: InboundRequestState::InfoRequested }
    }

    /// Goes on from the options that the LSP has listed.
    pub fn info_received(&mut self, options: OptionsSupported) -> (result: Result<
        (),
        LightningError,
    >)
        ensures
            match old(self).state.after_info(options) {
                Ok(state) => *final(self) == (InboundCRChannel { state, ..*old(self) }) && result
                    == Ok::<(), LightningError>(()),
                Err(e) => *final(self) == *old(self) && result == Err::<(), LightningError>(
                    info(e),
                ),
            },
    {
        match self.state.info_received(options) {
            Ok(state) => {
                self.state = state;
                Ok(())
            },
            Err(e) => Err(LightningError::from(e)),
        }
    }

    /// Goes on from an order that was placed.
    pub fn order_requested(&mut self, order: OrderParams) -> (result: Result<(), LightningError>)
        ensures
            match old(self).state.after_order_placed(order) {
                Ok(state) => *final(self) == (InboundCRChannel { state, ..*old(self) }) && result
                    == Ok::<(), LightningError>(()),
                Err(e) => *final(self) == *old(self) && result == Err::<(), LightningError>(
                    info(e),
                ),
            },
    {
        match self.state.order_requested(order) {
            Ok(state) => {
                self.state = state;
                Ok(())
            },
            Err(e) => Err(LightningError::from(e)),
        }
    }

    /// Goes on from the order that the LSP has confirmed.
    pub fn order_received(&mut self, order: &OrderParams, order_id: OrderId) -> (result: Result<
        (),
        LightningError,
    >)
        ensures
            match old(self).state.after_order_confirmed(*order, order_id) {
                Ok(state) => *final(self) == (InboundCRChannel { state, ..*old(self) }) && result
                    == Ok::<(), LightningError>(()),
                Err(e) => *final(self) == *old(self) && result == Err::<(), LightningError>(
                    info(e),
                ),
            },
    {
        match self.state.order_received(order, order_id) {
            Ok(state) => {
                self.state = state;
                Ok(())
            },
            Err(e) => Err(LightningError::from(e)),
        }
    }

    /// Goes on from the payment for the order.
    pub fn pay_for_channel(&mut self, channel_id: u128) -> (result: Result<(), LightningError>)
        ensures
            match old(self).state.after_payment(channel_id) {
                Ok(state) => *final(self) == (InboundCRChannel { state, ..*old(self) }) && result
                    == Ok::<(), LightningError>(()),
                Err(e) => *final(self) == *old(self) && result == Err::<(), LightningError>(
                    info(e),
                ),
            },
    {
        match self.state.pay_for_channel(channel_id) {
            Ok(state) => {
                self.state = state;
                Ok(())
            },
            Err(e) => Err(LightningError::from(e)),
        }
    }
}

/// The channels that we request from one LSP.
pub struct PeerState {
    pub inbound_channels_by_id: KeyedMap<u128, InboundCRChannel>,
    pub request_to_cid: KeyedMap<RequestId, u128>,
}

/// The contents of a [`PeerState`].
#[verifier::ext_equal]
pub struct PeerStateView {
    pub inbound_channels_by_id: Map<u128, InboundCRChannel>,
    pub request_to_cid: Map<Seq<char>, u128>,
}

impl View for PeerState {
    type V = PeerStateView;

    open spec fn view(&self) -> PeerStateView {
        PeerStateView {
            inbound_channels_by_id: self.inbound_channels_by_id@,
            request_to_cid: self.request_to_cid@,
        }
    }
}

impl PeerStateView {
    /// No channel at all.
    pub open spec fn empty() -> Self {
        PeerStateView { inbound_channels_by_id: Map::empty(), request_to_cid: Map::empty() }
    }

    /// With a channel added or replaced.
    pub open spec fn with_channel(self, id: u128, channel: InboundCRChannel) -> Self {
        PeerStateView {
            inbound_channels_by_id: self.inbound_channels_by_id.insert(id, channel),
            ..self
        }
    }

    /// Without a channel.
    pub open spec fn without_channel(self, id: u128) -> Self {
        PeerStateView { inbound_channels_by_id: self.inbound_channels_by_id.remove(id), ..self }
    }

    /// With a request of ours that concerns a channel.
    pub open spec fn with_request(self, request_id: Seq<char>, id: u128) -> Self {
        PeerStateView { request_to_cid: self.request_to_cid.insert(request_id, id), ..self }
    }

    /// A reply ends its request, which concerns a channel that is known.
    pub open spec fn reply_taken(self, request_id: RequestId, reply: Reply) -> (
        PeerStateView,
        Result<u128, ErrorKind>,
    ) {
        if !self.request_to_cid.contains_key(request_id.0@) {
            (self, Err(ErrorKind::UnknownRequest { reply, request_id }))
        } else {
            let id = self.request_to_cid[request_id.0@];
            (
                PeerStateView {
                    request_to_cid: self.request_to_cid.remove(request_id.0@),
                    ..self
                },
                if self.inbound_channels_by_id.contains_key(id) {
                    Ok(id)
                } else {
                    Err(ErrorKind::UnknownChannel { reply, channel_id: id })
                },
            )
        }
    }

    /// What a `get_info` response leads to: the options of the channel's LSP are known.
    pub open spec fn info_step(self, request_id: RequestId, options: OptionsSupported) -> (
        PeerStateView,
        Result<u128, ErrorKind>,
    ) {
        match self.reply_taken(request_id, Reply::GetInfoResponse) {
            (peer, Ok(id)) => {
                let channel = self.inbound_channels_by_id[id];
                match channel.state.after_info(options) {
                    Ok(state) => (
                        peer.with_channel(id, InboundCRChannel { state, ..channel }),
                        Ok(id),
                    ),
                    Err(e) => (peer.without_channel(id), Err(e)),
                }
            },
            (peer, Err(e)) => (peer, Err(e)),
        }
    }

    /// What a `create_order` response leads to: the order awaits payment. It is given up where it is
    /// not the order that was placed, or its fees are not accepted.
    pub open spec fn order_step(
        self,
        request_id: RequestId,
        response: CreateOrderResponse,
        max_channel_fees_msat: Option<u64>,
    ) -> (PeerStateView, Result<u128, ErrorKind>) {
        match self.reply_taken(request_id, Reply::CreateOrderResponse) {
            (peer, Ok(id)) => {
                let channel = self.inbound_channels_by_id[id];
                match channel.state.after_order_confirmed(response.order, response.order_id) {
                    Ok(state) => if fees_accepted(response.payment, response.order, max_channel_fees_msat) {
                        (peer.with_channel(id, InboundCRChannel { state, ..channel }), Ok(id))
                    } else {
                        (
                            peer.without_channel(id),
                            Err(
                                ErrorKind::FeesTooHigh {
                                    fee_total_sat: response.payment.fee_total_sat,
                                    client_balance_sat: response.order.client_balance_sat,
                                },
                            ),
                        )
                    },
                    Err(e) => (peer.without_channel(id), Err(e)),
                }
            },
            (peer, Err(e)) => (peer, Err(e)),
        }
    }

    /// What placing an order leads to: the `create_order` request.
    pub open spec fn place_step(self, id: u128, order: OrderParams, request_id: Seq<char>) -> (
        PeerStateView,
        Result<(), ErrorKind>,
    ) {
        if !self.inbound_channels_by_id.contains_key(id) {
            (self, Err(ErrorKind::ChannelNotFound { channel_id: id }))
        } else {
            let channel = self.inbound_channels_by_id[id];
            match channel.state.after_order_placed(order) {
                Ok(state) => (
                    self.with_channel(id, InboundCRChannel { state, ..channel }).with_request(
                        request_id,
                        id,
                    ),
                    Ok(()),
                ),
                Err(e) => (self.without_channel(id), Err(e)),
            }
        }
    }

    /// What checking on an order leads to: the `get_order` request.
    pub open spec fn check_step(self, id: u128, request_id: Seq<char>) -> (
        PeerStateView,
        Result<(), ErrorKind>,
    ) {
        if !self.inbound_channels_by_id.contains_key(id) {
            (self, Err(ErrorKind::ChannelNotFound { channel_id: id }))
        } else {
            let channel = self.inbound_channels_by_id[id];
            match channel.state.after_payment(id) {
                Ok(state) => (
                    self.with_channel(id, InboundCRChannel { state, ..channel }).with_request(
                        request_id,
                        id,
                    ),
                    Ok(()),
                ),
                Err(e) => (self.without_channel(id), Err(e)),
            }
        }
    }
}

impl PeerState {
    /// Creates the state of an LSP from which nothing is requested.
    pub fn new() -> (peer: Self)
        ensures
            peer@ == PeerStateView::empty(),
    {
        PeerState { inbound_channels_by_id: KeyedMap::new(), request_to_cid: KeyedMap::new() }
    }

    /// Adds or replaces a channel.
    pub fn insert_inbound_channel(&mut self, id: u128, channel: InboundCRChannel)
        ensures
            final(self)@ == old(self)@.with_channel(id, channel),
    {
        self.inbound_channels_by_id.insert(id, channel);
    }

    /// Notes which channel a request of ours concerns.
    pub fn insert_request(&mut self, request_id: RequestId, channel_id: u128)
        ensures
            final(self)@ == old(self)@.with_request(request_id.0@, channel_id),
    {
        self.request_to_cid.insert(request_id, channel_id);
    }

    /// Gives up a channel.
    pub fn remove_inbound_channel(&mut self, id: u128)
        ensures
            final(self)@ == old(self)@.without_channel(id),
    {
        self.inbound_channels_by_id.remove(&id);
    }

    /// Ends the request that a reply belongs to, and returns the channel that it concerns.
    fn take_reply(&mut self, request_id: RequestId, reply: Reply) -> (taken: Result<
        u128,
        ErrorKind,
    >)
        ensures
            (final(self)@, taken) == old(self)@.reply_taken(request_id, reply),
    {
        match self.request_to_cid.remove(&request_id) {
            Some(id) => if self.inbound_channels_by_id.contains_key(&id) {
                Ok(id)
            } else {
                Err(ErrorKind::UnknownChannel { reply, channel_id: id })
            },
            None => Err(ErrorKind::UnknownRequest { reply, request_id }),
        }
    }

    /// Takes out a channel that is known.
    fn take_channel(&mut self, id: u128) -> (channel: InboundCRChannel)
        requires
            old(self)@.inbound_channels_by_id.contains_key(id),
        ensures
            channel == old(self)@.inbound_channels_by_id[id],
            final(self)@ == old(self)@.without_channel(id),
    {
        match self.inbound_channels_by_id.remove(&id) {
            Some(channel) => channel,
            None => vstd::pervasive::unreached(),
        }
    }

    /// Goes on from a `get_info` response, and returns the id of the channel.
    fn info_response(&mut self, request_id: RequestId, options: OptionsSupported) -> (id: Result<
        u128,
        LightningError,
    >)
        ensures
            ({
                let (peer, outcome) = old(self)@.info_step(request_id, options);
                &&& final(self)@ == peer
                &&& id == (match outcome {
                    Ok(id) => Ok::<u128, LightningError>(id),
                    Err(e) => Err(info(e)),
                })
            }),
    {
        match self.take_reply(request_id, Reply::GetInfoResponse) {
            Ok(id) => {
                let ghost ended = self@;
                let mut channel = self.take_channel(id);
                match channel.info_received(options) {
                    Ok(()) => {
                        self.insert_inbound_channel(id, channel);
                        assert(self@ =~= ended.with_channel(id, channel));
                        Ok(id)
                    },
                    Err(e) => Err(e),
                }
            },
            Err(e) => Err(info_error(e)),
        }
    }

    /// Goes on from a `create_order` response, and returns the id of the channel.
    fn order_response(
        &mut self,
        request_id: RequestId,
        response: &CreateOrderResponse,
        max_channel_fees_msat: Option<u64>,
    ) -> (id: Result<u128, LightningError>)
        ensures
            ({
                let (peer, outcome) = old(self)@.order_step(request_id, *response, max_channel_fees_msat);
                &&& final(self)@ == peer
                &&& id == (match outcome {
                    Ok(id) => Ok::<u128, LightningError>(id),
                    Err(e) => Err(info(e)),
                })
            }),
    {
        match self.take_reply(request_id, Reply::CreateOrderResponse) {
            Ok(id) => {
                let ghost ended = self@;
                let mut channel = self.take_channel(id);
                match channel.order_received(&response.order, response.order_id.clone()) {
                    Ok(()) => if accepts_fees(&response.payment, &response.order, max_channel_fees_msat) {
                        self.insert_inbound_channel(id, channel);
                        assert(self@ =~= ended.with_channel(id, channel));
                        Ok(id)
                    } else {
                        Err(
                            info_error(
                                ErrorKind::FeesTooHigh {
                                    fee_total_sat: response.payment.fee_total_sat,
                                    client_balance_sat: response.order.client_balance_sat,
                                },
                            ),
                        )
                    },
                    Err(e) => Err(e),
                }
            },
            Err(e) => Err(info_error(e)),
        }
    }

    /// Goes on from an order that the user places.
    fn order_placed(&mut self, id: u128, order: OrderParams, request_id: RequestId) -> (result:
        Result<(), ErrorKind>)
        ensures
            (final(self)@, result) == old(self)@.place_step(id, order, request_id.0@),
    {
        if !self.inbound_channels_by_id.contains_key(&id) {
            return Err(ErrorKind::ChannelNotFound { channel_id: id });
        }
        let mut channel = self.take_channel(id);
        match channel.order_requested(order) {
            Ok(()) => {
                self.insert_inbound_channel(id, channel);
                assert(self@ =~= old(self)@.with_channel(id, channel));
                self.insert_request(request_id, id);
                Ok(())
            },
            Err(e) => Err(e.err),
        }
    }

    /// Goes on from the user checking on an order.
    fn order_checked(&mut self, id: u128, request_id: RequestId) -> (result: Result<(), ErrorKind>)
        ensures
            (final(self)@, result) == old(self)@.check_step(id, request_id.0@),
    {
        if !self.inbound_channels_by_id.contains_key(&id) {
            return Err(ErrorKind::ChannelNotFound { channel_id: id });
        }
        let mut channel = self.take_channel(id);
        match channel.pay_for_channel(id) {
            Ok(()) => {
                self.insert_inbound_channel(id, channel);
                assert(self@ =~= old(self)@.with_channel(id, channel));
                self.insert_request(request_id, id);
                Ok(())
            },
            Err(e) => Err(e.err),
        }
    }
}

/// Whether the messages are those before and one more request of ours, with an id made of the given
/// random bytes.
pub open spec fn request_enqueued(
    before: Seq<(PublicKey, LSPSMessage)>,
    after: Seq<(PublicKey, LSPSMessage)>,
    counterparty_node_id: PublicKey,
    entropy: Seq<u8>,
    request: LSPS1Request,
) -> bool {
    &&& after.len() == before.len() + 1
    &&& after.drop_last() == before
    &&& after.last().0 == counterparty_node_id
    &&& match after.last().1 {
        LSPSMessage::LSPS1(LSPS1Message::Request(request_id, sent)) => request_id.0@
            == request_id_text(entropy) && sent == request,
        _ => false,
    }
}

/// The main object allowing to send and receive LSPS1 messages.
pub struct LSPS1ClientHandler {
    per_peer_state: KeyedMap<PublicKey, PeerState>,
    config: LSPS1ClientConfig,
}

/// The contents of an [`LSPS1ClientHandler`].
#[verifier::ext_equal]
pub struct LSPS1ClientHandlerView {
    pub per_peer_state: Map<PublicKey, PeerStateView>,
    pub config: LSPS1ClientConfig,
}

impl View for LSPS1ClientHandler {
    type V = LSPS1ClientHandlerView;

    closed spec fn view(&self) -> LSPS1ClientHandlerView {
        LSPS1ClientHandlerView { per_peer_state: self.per_peer_state@, config: self.config }
    }
}

impl LSPS1ClientHandlerView {
    /// The state of an LSP, which is empty until something is requested.
    pub open spec fn peer(self, counterparty_node_id: PublicKey) -> PeerStateView {
        if self.per_peer_state.contains_key(counterparty_node_id) {
            self.per_peer_state[counterparty_node_id]
        } else {
            PeerStateView::empty()
        }
    }

    /// With the state of one LSP replaced.
    pub open spec fn with_peer(self, counterparty_node_id: PublicKey, peer: PeerStateView) -> Self {
        LSPS1ClientHandlerView {
            per_peer_state: self.per_peer_state.insert(counterparty_node_id, peer),
            ..self
        }
    }

    /// The state, the events and the result after a `get_info` response.
    pub open spec fn after_info_response(
        self,
        events: Seq<Event>,
        request_id: RequestId,
        counterparty_node_id: PublicKey,
        response: GetInfoResponse,
    ) -> (Self, Seq<Event>, Result<(), LightningError>) {
        if !self.per_peer_state.contains_key(counterparty_node_id) {
            (
                self,
                events,
                Err(
                    info(
                        ErrorKind::UnknownPeer {
                            reply: Reply::GetInfoResponse,
                            counterparty_node_id,
                        },
                    ),
                ),
            )
        } else {
            let (peer, outcome) = self.per_peer_state[counterparty_node_id].info_step(
                request_id,
                response.options,
            );
            let after = self.with_peer(counterparty_node_id, peer);
            match outcome {
                Ok(id) => (
                    after,
                    events.push(
                        Event::LSPS1Client(
                            LSPS1ClientEvent::GetInfoResponse {
                                id,
                                request_id,
                                counterparty_node_id,
                                website: response.website,
                                options_supported: response.options,
                            },
                        ),
                    ),
                    Ok(()),
                ),
                Err(e) => (after, events, Err(info(e))),
            }
        }
    }

    /// The state, the events and the result after a `create_order` response.
    pub open spec fn after_order_response(
        self,
        events: Seq<Event>,
        request_id: RequestId,
        counterparty_node_id: PublicKey,
        response: CreateOrderResponse,
    ) -> (Self, Seq<Event>, Result<(), LightningError>) {
        if !self.per_peer_state.contains_key(counterparty_node_id) {
            (
                self,
                events,
                Err(
                    info(
                        ErrorKind::UnknownPeer {
                            reply: Reply::CreateOrderResponse,
                            counterparty_node_id,
                        },
                    ),
                ),
            )
        } else {
            let (peer, outcome) = self.per_peer_state[counterparty_node_id].order_step(
                request_id,
                response,
                self.config.max_channel_fees_msat,
            );
            let after = self.with_peer(counterparty_node_id, peer);
            match outcome {
                Ok(id) => (
                    after,
                    events.push(
                        Event::LSPS1Client(
                            LSPS1ClientEvent::DisplayOrder {
                                id,
                                counterparty_node_id,
                                order: response.order,
                                payment: response.payment,
                                channel: response.channel,
                            },
                        ),
                    ),
                    Ok(()),
                ),
                Err(e) => (after, events, Err(info(e))),
            }
        }
    }

    /// The state and the result after a reply that only ends its request.
    pub open spec fn after_reply(
        self,
        request_id: RequestId,
        counterparty_node_id: PublicKey,
        reply: Reply,
    ) -> (Self, Result<(), LightningError>) {
        if !self.per_peer_state.contains_key(counterparty_node_id) {
            (self, Err(info(ErrorKind::UnknownPeer { reply, counterparty_node_id })))
        } else {
            let (peer, outcome) = self.per_peer_state[counterparty_node_id].reply_taken(
                request_id,
                reply,
            );
            (
                self.with_peer(counterparty_node_id, peer),
                match outcome {
                    Ok(_) => Ok(()),
                    Err(e) => Err(info(e)),
                },
            )
        }
    }
}

impl LSPS1ClientHandler {
    /// Constructs an `LSPS1ClientHandler`.
    pub fn new(config: LSPS1ClientConfig) -> (handler: Self)
        ensures
            handler@ == (LSPS1ClientHandlerView { per_peer_state: Map::empty(), config }),
    {
        LSPS1ClientHandler { per_peer_state: KeyedMap::new(), config }
    }

    fn enqueue_request<MQ: MessageQueue<LSPSMessage>>(
        pending_messages: &mut MQ,
        counterparty_node_id: &PublicKey,
        request_id: RequestId,
        request: LSPS1Request,
    )
        ensures
            final(pending_messages).pending() == old(pending_messages).pending().push(
                (
                    *counterparty_node_id,
                    LSPSMessage::LSPS1(LSPS1Message::Request(request_id, request)),
                ),
            ),
            final(pending_messages).pending().drop_last() == old(pending_messages).pending(),
    {
        pending_messages.enqueue(
            counterparty_node_id,
            LSPSMessage::from(LSPS1Message::Request(request_id, request)),
        );
    }

    /// Requests the options that an LSP supports, for a channel with the given id.
    ///
    /// The user will receive the LSP's response via an [`LSPS1ClientEvent::GetInfoResponse`] event.
    /// The id of the request is made of random bytes.
    pub fn request_for_info<MQ: MessageQueue<LSPSMessage>>(
        &mut self,
        counterparty_node_id: PublicKey,
        channel_id: u128,
        request_entropy: &[u8; 32],
        pending_messages: &mut MQ,
    )
        ensures
            final(self)@ == old(self)@.with_peer(
                counterparty_node_id,
                old(self)@.peer(counterparty_node_id).with_channel(
                    channel_id,
                    InboundCRChannel { id: channel_id, state: InboundRequestState::InfoRequested },
                ).with_request(request_id_text(request_entropy@), channel_id),
            ),
            request_enqueued(
                old(pending_messages).pending(),
                final(pending_messages).pending(),
                counterparty_node_id,
                request_entropy@,
                LSPS1Request::GetInfo(GetInfoRequest {  }),
            ),
    {
        let channel = InboundCRChannel::new(channel_id);
        let mut peer_state = match self.per_peer_state.remove(&counterparty_node_id) {
            Some(peer_state) => peer_state,
            None => PeerState::new(),
        };
        peer_state.insert_inbound_channel(channel_id, channel);
        let request_id = generate_request_id(request_entropy);
        peer_state.insert_request(request_id.clone(), channel_id);
        self.per_peer_state.insert(counterparty_node_id, peer_state);
        Self::enqueue_request(
            pending_messages,
            &counterparty_node_id,
            request_id,
            LSPS1Request::GetInfo(GetInfoRequest {  }),
        );
    }

    fn handle_get_info_response(
        &mut self,
        request_id: RequestId,
        counterparty_node_id: &PublicKey,
        response: GetInfoResponse,
        pending_events: &mut EventQueue,
    ) -> (result: Result<(), LightningError>)
        ensures
            (final(self)@, final(pending_events)@, result) == old(self)@.after_info_response(
                old(pending_events)@,
                request_id,
                *counterparty_node_id,
                response,
            ),
    {
        match self.per_peer_state.remove(counterparty_node_id) {
            Some(mut peer_state) => {
                let id = peer_state.info_response(request_id.clone(), response.options);
                self.per_peer_state.insert(*counterparty_node_id, peer_state);
                assert(self@ =~= old(self)@.with_peer(*counterparty_node_id, peer_state@));
                match id {
                    Ok(id) => {
                        pending_events.enqueue(
                            Event::LSPS1Client(
                                LSPS1ClientEvent::GetInfoResponse {
                                    id,
                                    request_id,
                                    counterparty_node_id: *counterparty_node_id,
                                    website: response.website,
                                    options_supported: response.options,
                                },
                            ),
                        );
                        Ok(())
                    },
                    Err(e) => Err(e),
                }
            },
            None => {
                assert(self@ =~= old(self)@);
                Err(
                    info_error(
                        ErrorKind::UnknownPeer {
                            reply: Reply::GetInfoResponse,
                            counterparty_node_id: *counterparty_node_id,
                        },
                    ),
                )
            },
        }
    }

    /// Places an order for a channel with an LSP whose options are known.
    ///
    /// Should be called in response to receiving a [`LSPS1ClientEvent::GetInfoResponse`] event.
    pub fn place_order<MQ: MessageQueue<LSPSMessage>>(
        &mut self,
        channel_id: u128,
        counterparty_node_id: &PublicKey,
        order: OrderParams,
        request_entropy: &[u8; 32],
        pending_messages: &mut MQ,
    ) -> (result: Result<(), APIError>)
        ensures
            !old(self)@.per_peer_state.contains_key(*counterparty_node_id) ==> {
                &&& final(self)@ == old(self)@
                &&& final(pending_messages).pending() == old(pending_messages).pending()
                &&& result == Err::<(), APIError>(
                    misuse(
                        ErrorKind::NoPeerState { counterparty_node_id: *counterparty_node_id },
                    ),
                )
            },
            old(self)@.per_peer_state.contains_key(*counterparty_node_id) ==> {
                let (peer, outcome) = old(self)@.per_peer_state[*counterparty_node_id].place_step(
                    channel_id,
                    order,
                    request_id_text(request_entropy@),
                );
                &&& final(self)@ == old(self)@.with_peer(*counterparty_node_id, peer)
                &&& match outcome {
                    Ok(_) => result == Ok::<(), APIError>(()) && request_enqueued(
                        old(pending_messages).pending(),
                        final(pending_messages).pending(),
                        *counterparty_node_id,
                        request_entropy@,
                        LSPS1Request::CreateOrder(CreateOrderRequest { order }),
                    ),
                    Err(e) => result == Err::<(), APIError>(misuse(e))
                        && final(pending_messages).pending() == old(pending_messages).pending(),
                }
            },
    {
        match self.per_peer_state.remove(counterparty_node_id) {
            Some(mut peer_state) => {
                let request_id = generate_request_id(request_entropy);
                let placed = peer_state.order_placed(channel_id, order.clone(), request_id.clone());
                self.per_peer_state.insert(*counterparty_node_id, peer_state);
                assert(self@ =~= old(self)@.with_peer(*counterparty_node_id, peer_state@));
                match placed {
                    Ok(()) => {
                        Self::enqueue_request(
                            pending_messages,
                            counterparty_node_id,
                            request_id,
                            LSPS1Request::CreateOrder(CreateOrderRequest { order }),
                        );
                        Ok(())
                    },
                    Err(e) => Err(misuse_error(e)),
                }
            },
            None => {
                assert(self@ =~= old(self)@);
                Err(
                    misuse_error(
                        ErrorKind::NoPeerState { counterparty_node_id: *counterparty_node_id },
                    ),
                )
            },
        }
    }

    fn handle_create_order_response(
        &mut self,
        request_id: RequestId,
        counterparty_node_id: &PublicKey,
        response: CreateOrderResponse,
        pending_events: &mut EventQueue,
    ) -> (result: Result<(), LightningError>)
        ensures
            (final(self)@, final(pending_events)@, result) == old(self)@.after_order_response(
                old(pending_events)@,
                request_id,
                *counterparty_node_id,
                response,
            ),
    {
        match self.per_peer_state.remove(counterparty_node_id) {
            Some(mut peer_state) => {
                let id = peer_state.order_response(
                    request_id,
                    &response,
                    self.config.max_channel_fees_msat,
                );
                self.per_peer_state.insert(*counterparty_node_id, peer_state);
                assert(self@ =~= old(self)@.with_peer(*counterparty_node_id, peer_state@));
                match id {
                    Ok(id) => {
                        pending_events.enqueue(
                            Event::LSPS1Client(
                                LSPS1ClientEvent::DisplayOrder {
                                    id,
                                    counterparty_node_id: *counterparty_node_id,
                                    order: response.order,
                                    payment: response.payment,
                                    channel: response.channel,
                                },
                            ),
                        );
                        Ok(())
                    },
                    Err(e) => Err(e),
                }
            },
            None => {
                assert(self@ =~= old(self)@);
                Err(
                    info_error(
                        ErrorKind::UnknownPeer {
                            reply: Reply::CreateOrderResponse,
                            counterparty_node_id: *counterparty_node_id,
                        },
                    ),
                )
            },
        }
    }

    /// Ends the request that a reply belongs to.
    fn handle_reply(
        &mut self,
        request_id: RequestId,
        counterparty_node_id: &PublicKey,
        reply: Reply,
    ) -> (result: Result<(), LightningError>)
        ensures
            (final(self)@, result) == old(self)@.after_reply(
                request_id,
                *counterparty_node_id,
                reply,
            ),
    {
        match self.per_peer_state.remove(counterparty_node_id) {
            Some(mut peer_state) => {
                let taken = peer_state.take_reply(request_id, reply);
                self.per_peer_state.insert(*counterparty_node_id, peer_state);
                assert(self@ =~= old(self)@.with_peer(*counterparty_node_id, peer_state@));
                match taken {
                    Ok(_) => Ok(()),
                    Err(e) => Err(info_error(e)),
                }
            },
            None => {
                assert(self@ =~= old(self)@);
                Err(
                    info_error(
                        ErrorKind::UnknownPeer {
                            reply,
                            counterparty_node_id: *counterparty_node_id,
                        },
                    ),
                )
            },
        }
    }

    fn handle_create_order_error(
        &mut self,
        request_id: RequestId,
        counterparty_node_id: &PublicKey,
        _error: ResponseError,
    ) -> (result: Result<(), LightningError>)
        ensures
            (final(self)@, result) == old(self)@.after_reply(
                request_id,
                *counterparty_node_id,
                Reply::CreateOrderError,
            ),
    {
        self.handle_reply(request_id, counterparty_node_id, Reply::CreateOrderError)
    }

    /// Asks an LSP about an order that was paid for.
    ///
    /// Should be called after the order of a [`LSPS1ClientEvent::DisplayOrder`] event was paid.
    pub fn check_order_status<MQ: MessageQueue<LSPSMessage>>(
        &mut self,
        counterparty_node_id: &PublicKey,
        order_id: OrderId,
        channel_id: u128,
        request_entropy: &[u8; 32],
        pending_messages: &mut MQ,
    ) -> (result: Result<(), APIError>)
        ensures
            !old(self)@.per_peer_state.contains_key(*counterparty_node_id) ==> {
                &&& final(self)@ == old(self)@
                &&& final(pending_messages).pending() == old(pending_messages).pending()
                &&& result == Err::<(), APIError>(
                    misuse(
                        ErrorKind::NoPeerState { counterparty_node_id: *counterparty_node_id },
                    ),
                )
            },
            old(self)@.per_peer_state.contains_key(*counterparty_node_id) ==> {
                let (peer, outcome) = old(self)@.per_peer_state[*counterparty_node_id].check_step(
                    channel_id,
                    request_id_text(request_entropy@),
                );
                &&& final(self)@ == old(self)@.with_peer(*counterparty_node_id, peer)
                &&& match outcome {
                    Ok(_) => result == Ok::<(), APIError>(()) && request_enqueued(
                        old(pending_messages).pending(),
                        final(pending_messages).pending(),
                        *counterparty_node_id,
                        request_entropy@,
                        LSPS1Request::GetOrder(GetOrderRequest { order_id }),
                    ),
                    Err(e) => result == Err::<(), APIError>(misuse(e))
                        && final(pending_messages).pending() == old(pending_messages).pending(),
                }
            },
    {
        match self.per_peer_state.remove(counterparty_node_id) {
            Some(mut peer_state) => {
                let request_id = generate_request_id(request_entropy);
                let checked = peer_state.order_checked(channel_id, request_id.clone());
                self.per_peer_state.insert(*counterparty_node_id, peer_state);
                assert(self@ =~= old(self)@.with_peer(*counterparty_node_id, peer_state@));
                match checked {
                    Ok(()) => {
                        Self::enqueue_request(
                            pending_messages,
                            counterparty_node_id,
                            request_id,
                            LSPS1Request::GetOrder(GetOrderRequest { order_id }),
                        );
                        Ok(())
                    },
                    Err(e) => Err(misuse_error(e)),
                }
            },
            None => {
                assert(self@ =~= old(self)@);
                Err(
                    misuse_error(
                        ErrorKind::NoPeerState { counterparty_node_id: *counterparty_node_id },
                    ),
                )
            },
        }
    }

    fn handle_get_order_response(
        &mut self,
        request_id: RequestId,
        counterparty_node_id: &PublicKey,
        _response: CreateOrderResponse,
    ) -> (result: Result<(), LightningError>)
        ensures
            (final(self)@, result) == old(self)@.after_reply(
                request_id,
                *counterparty_node_id,
                Reply::GetOrderResponse,
            ),
    {
        self.handle_reply(request_id, counterparty_node_id, Reply::GetOrderResponse)
    }

    fn handle_get_order_error(
        &mut self,
        request_id: RequestId,
        counterparty_node_id: &PublicKey,
        _error: ResponseError,
    ) -> (result: Result<(), LightningError>)
        ensures
            (final(self)@, result) == old(self)@.after_reply(
                request_id,
                *counterparty_node_id,
                Reply::GetOrderError,
            ),
    {
        self.handle_reply(request_id, counterparty_node_id, Reply::GetOrderError)
    }

    /// Takes in an LSPS1 message from an LSP.
    pub fn handle_message(
        &mut self,
        message: LSPS1Message,
        counterparty_node_id: &PublicKey,
        pending_events: &mut EventQueue,
    ) -> (result: Result<(), LightningError>)
        ensures
            match message {
                LSPS1Message::Response(request_id, LSPS1Response::GetInfo(response)) => {
                    (final(self)@, final(pending_events)@, result) == old(self)@.after_info_response(
                        old(pending_events)@,
                        request_id,
                        *counterparty_node_id,
                        response,
                    )
                },
                LSPS1Message::Response(request_id, LSPS1Response::CreateOrder(response)) => {
                    (final(self)@, final(pending_events)@, result)
                        == old(self)@.after_order_response(
                        old(pending_events)@,
                        request_id,
                        *counterparty_node_id,
                        response,
                    )
                },
                LSPS1Message::Response(request_id, LSPS1Response::CreateOrderError(_)) => {
                    &&& final(pending_events)@ == old(pending_events)@
                    &&& (final(self)@, result) == old(self)@.after_reply(
                        request_id,
                        *counterparty_node_id,
                        Reply::CreateOrderError,
                    )
                },
                LSPS1Message::Response(request_id, LSPS1Response::GetOrder(_)) => {
                    &&& final(pending_events)@ == old(pending_events)@
                    &&& (final(self)@, result) == old(self)@.after_reply(
                        request_id,
                        *counterparty_node_id,
                        Reply::GetOrderResponse,
                    )
                },
                LSPS1Message::Response(request_id, LSPS1Response::GetOrderError(_)) => {
                    &&& final(pending_events)@ == old(pending_events)@
                    &&& (final(self)@, result) == old(self)@.after_reply(
                        request_id,
                        *counterparty_node_id,
                        Reply::GetOrderError,
                    )
                },
                LSPS1Message::Request(_, _) => {
                    &&& final(self)@ == old(self)@
                    &&& final(pending_events)@ == old(pending_events)@
                    &&& result == Err::<(), LightningError>(
                        info(
                            ErrorKind::RequestAtClient {
                                protocol: Protocol::LSPS1,
                                counterparty_node_id: *counterparty_node_id,
                            },
                        ),
                    )
                },
            },
    {
        match message {
            LSPS1Message::Response(request_id, response) => match response {
                LSPS1Response::GetInfo(response) => self.handle_get_info_response(
                    request_id,
                    counterparty_node_id,
                    response,
                    pending_events,
                ),
                LSPS1Response::CreateOrder(response) => self.handle_create_order_response(
                    request_id,
                    counterparty_node_id,
                    response,
                    pending_events,
                ),
                LSPS1Response::CreateOrderError(error) => self.handle_create_order_error(
                    request_id,
                    counterparty_node_id,
                    error,
                ),
                LSPS1Response::GetOrder(response) => self.handle_get_order_response(
                    request_id,
                    counterparty_node_id,
                    response,
                ),
                LSPS1Response::GetOrderError(error) => self.handle_get_order_error(
                    request_id,
                    counterparty_node_id,
                    error,
                ),
            },
            LSPS1Message::Request(_, _) => Err(
                info_error(
                    ErrorKind::RequestAtClient {
                        protocol: Protocol::LSPS1,
                        counterparty_node_id: *counterparty_node_id,
                    },
                ),
            ),
        }
    }
}

/// A client that orders within the LSP's options, and is confirmed what it ordered at fees that it
/// accepts, gets from its first request to the payment of its order and on to asking about it.
pub proof fn lemma_order_flow(
    peer: PeerStateView,
    id: u128,
    info_request: RequestId,
    options: OptionsSupported,
    order: OrderParams,
    order_request: RequestId,
    confirmed: CreateOrderResponse,
    max_channel_fees_msat: Option<u64>,
    check_request: RequestId,
)
    requires
        options.supports(order),
        confirmed.order@ == order@,
        fees_accepted(confirmed.payment, confirmed.order, max_channel_fees_msat),
    ensures
        ({
            let start = InboundCRChannel { id, state: InboundRequestState::InfoRequested };
            let asked = peer.with_channel(id, start).with_request(info_request.0@, id);
            let (known, info) = asked.info_step(info_request, options);
            let (placed, place) = known.place_step(id, order, order_request.0@);
            let (payable, pay) = placed.order_step(order_request, confirmed, max_channel_fees_msat);
            let (checked, check) = payable.check_step(id, check_request.0@);
            &&& info == Ok::<u128, ErrorKind>(id)
            &&& place == Ok::<(), ErrorKind>(())
            &&& pay == Ok::<u128, ErrorKind>(id)
            &&& check == Ok::<(), ErrorKind>(())
            &&& checked.inbound_channels_by_id[id].state
                == (InboundRequestState::AwaitingConfirmation { id, order_id: confirmed.order_id })
        }),
{
}

/// An order is shown to the user only where the LSP confirmed what was ordered, its total adds up and
/// its fees do not exceed the limit; in any other case the channel is given up.
pub proof fn lemma_only_accepted_orders_are_shown(
    peer: PeerStateView,
    request_id: RequestId,
    response: CreateOrderResponse,
    max_channel_fees_msat: Option<u64>,
)
    ensures
        ({
            let (after, outcome) = peer.order_step(request_id, response, max_channel_fees_msat);
            match outcome {
                Ok(id) => {
                    &&& peer.inbound_channels_by_id[id].state is OrderRequested
                    &&& peer.inbound_channels_by_id[id].state->OrderRequested_order@
                        == response.order@
                    &&& response.payment.order_total_sat == response.payment.fee_total_sat
                        + response.order.client_balance_sat
                    &&& match max_channel_fees_msat {
                        Some(limit_msat) => response.payment.fee_total_sat * 1000 <= limit_msat,
                        None => true,
                    }
                },
                Err(_) => peer.request_to_cid.contains_key(request_id.0@)
                    ==> !after.inbound_channels_by_id.contains_key(
                    peer.request_to_cid[request_id.0@],
                ),
            }
        }),
{
}

/// The request for a channel takes its steps in one order: the options, then an order within them,
/// then the confirmation of that very order, then its payment.
pub proof fn lemma_request_has_one_order(
    state: InboundRequestState,
    options: OptionsSupported,
    order: OrderParams,
    order_id: OrderId,
    channel_id: u128,
)
    ensures
        state is InfoRequested ==> state.after_info(options) == Ok::<InboundRequestState, ErrorKind>(
            InboundRequestState::OptionsSupport { options_supported: options },
        ),
        !(state is InfoRequested) ==> state.after_info(options) == Err::<
            InboundRequestState,
            ErrorKind,
        >(ErrorKind::UnexpectedInfo { state: ChannelState::Request(state) }),
        !(state is OptionsSupport) ==> state.after_order_placed(order) == Err::<
            InboundRequestState,
            ErrorKind,
        >(ErrorKind::UnexpectedOrderRequest { state: ChannelState::Request(state) }),
        state is OptionsSupport ==> {
            let offered = state->options_supported;
            let within = {
                &&& offered.min_initial_client_balance_sat <= order.client_balance_sat
                &&& order.client_balance_sat <= offered.max_initial_client_balance_sat
                &&& offered.min_initial_lsp_balance_sat <= order.lsp_balance_sat
                &&& order.lsp_balance_sat <= offered.max_initial_lsp_balance_sat
                &&& offered.min_channel_balance_sat <= order.lsp_balance_sat
                    + order.client_balance_sat
                &&& order.lsp_balance_sat + order.client_balance_sat
                    <= offered.max_channel_balance_sat
                &&& order.channel_expiry_blocks <= offered.max_channel_expiry_blocks
            };
            &&& within ==> state.after_order_placed(order) == Ok::<InboundRequestState, ErrorKind>(
                InboundRequestState::OrderRequested { order },
            )
            &&& !within ==> state.after_order_placed(order) == Err::<
                InboundRequestState,
                ErrorKind,
            >(ErrorKind::OrderNotSupported { options_supported: offered, order })
        },
        !(state is OrderRequested) ==> state.after_order_confirmed(order, order_id) == Err::<
            InboundRequestState,
            ErrorKind,
        >(ErrorKind::UnexpectedOrder { state: ChannelState::Request(state) }),
        state is OrderRequested ==> {
            let placed = state->OrderRequested_order;
            let same = {
                &&& placed.lsp_balance_sat == order.lsp_balance_sat
                &&& placed.client_balance_sat == order.client_balance_sat
                &&& placed.confirms_within_blocks == order.confirms_within_blocks
                &&& placed.channel_expiry_blocks == order.channel_expiry_blocks
                &&& placed.token@ == order.token@
                &&& placed.refund_onchain_address is Some <==> order.refund_onchain_address is Some
                &&& placed.refund_onchain_address is Some ==> placed.refund_onchain_address->0@
                    == order.refund_onchain_address->0@
                &&& placed.announce_channel == order.announce_channel
            };
            &&& same ==> state.after_order_confirmed(order, order_id) == Ok::<
                InboundRequestState,
                ErrorKind,
            >(InboundRequestState::PendingPayment { order_id })
            &&& !same ==> state.after_order_confirmed(order, order_id) == Err::<
                InboundRequestState,
                ErrorKind,
            >(ErrorKind::OrderMismatch { order: placed, response_order: order })
        },
        state is PendingPayment ==> state.after_payment(channel_id) == Ok::<
            InboundRequestState,
            ErrorKind,
        >(
            InboundRequestState::AwaitingConfirmation {
                id: channel_id,
                order_id: state->PendingPayment_order_id,
            },
        ),
        !(state is PendingPayment) ==> state.after_payment(channel_id) == Err::<
            InboundRequestState,
            ErrorKind,
        >(ErrorKind::UnexpectedPayment { state: ChannelState::Request(state) }),
{
}

/// A confirmed order is accepted and shown to the user exactly where it answers a request of ours, it
/// is in every field the order that was placed, its total is its fees and the balance of the client,
/// and its fees in millisatoshi are no more than the limit, if there is one. The channel then awaits
/// payment. Otherwise nothing is shown, and the channel that awaited the order is given up.
pub proof fn lemma_confirmed_orders_are_shown(
    client: LSPS1ClientHandlerView,
    events: Seq<Event>,
    request_id: RequestId,
    node: PublicKey,
    response: CreateOrderResponse,
)
    ensures
        ({
            let (after, shown, result) = client.after_order_response(
                events,
                request_id,
                node,
                response,
            );
            let known = client.per_peer_state.contains_key(node);
            let peer = client.per_peer_state[node];
            let asked = known && peer.request_to_cid.contains_key(request_id.0@);
            let id = peer.request_to_cid[request_id.0@];
            let found = asked && peer.inbound_channels_by_id.contains_key(id);
            let channel = peer.inbound_channels_by_id[id];
            let placed = channel.state->OrderRequested_order;
            let confirmed = response.order;
            let same = {
                &&& placed.lsp_balance_sat == confirmed.lsp_balance_sat
                &&& placed.client_balance_sat == confirmed.client_balance_sat
                &&& placed.confirms_within_blocks == confirmed.confirms_within_blocks
                &&& placed.channel_expiry_blocks == confirmed.channel_expiry_blocks
                &&& placed.token@ == confirmed.token@
                &&& placed.refund_onchain_address is Some <==> confirmed.refund_onchain_address
                    is Some
                &&& placed.refund_onchain_address is Some ==> placed.refund_onchain_address->0@
                    == confirmed.refund_onchain_address->0@
                &&& placed.announce_channel == confirmed.announce_channel
            };
            let totalled = response.payment.order_total_sat == response.payment.fee_total_sat
                + confirmed.client_balance_sat;
            let affordable = match client.config.max_channel_fees_msat {
                Some(limit_msat) => response.payment.fee_total_sat * 1000 <= limit_msat,
                None => true,
            };
            let awaited = found && channel.state is OrderRequested;
            let accepted = awaited && same && totalled && affordable;
            &&& result is Ok <==> accepted
            &&& accepted ==> {
                let next = after.per_peer_state[node];
                &&& shown == events.push(
                    Event::LSPS1Client(
                        LSPS1ClientEvent::DisplayOrder {
                            id,
                            counterparty_node_id: node,
                            order: confirmed,
                            payment: response.payment,
                            channel: response.channel,
                        },
                    ),
                )
                &&& next.inbound_channels_by_id == peer.inbound_channels_by_id.insert(
                    id,
                    next.inbound_channels_by_id[id],
                )
                &&& next.inbound_channels_by_id[id].id == channel.id
                &&& next.inbound_channels_by_id[id].state == (InboundRequestState::PendingPayment {
                    order_id: response.order_id,
                })
            }
            &&& !accepted ==> shown == events
            &&& found && !accepted ==> after.per_peer_state[node].inbound_channels_by_id
                == peer.inbound_channels_by_id.remove(id)
            &&& awaited && !same ==> result->Err_0.err == (ErrorKind::OrderMismatch {
                order: placed,
                response_order: confirmed,
            })
            &&& awaited && same && !(totalled && affordable) ==> result->Err_0.err == (
            ErrorKind::FeesTooHigh {
                fee_total_sat: response.payment.fee_total_sat,
                client_balance_sat: confirmed.client_balance_sat,
            })
            &&& found && !(channel.state is OrderRequested) ==> result->Err_0.err == (
            ErrorKind::UnexpectedOrder { state: ChannelState::Request(channel.state) })
            &&& asked && !found ==> {
                &&& after.per_peer_state[node].inbound_channels_by_id == peer.inbound_channels_by_id
                &&& result->Err_0.err == (ErrorKind::UnknownChannel {
                    reply: Reply::CreateOrderResponse,
                    channel_id: id,
                })
            }
            &&& asked ==> after.per_peer_state[node].request_to_cid == peer.request_to_cid.remove(
                request_id.0@,
            )
            &&& known && !asked ==> after == client && result->Err_0.err == (
            ErrorKind::UnknownRequest { reply: Reply::CreateOrderResponse, request_id })
            &&& !known ==> after == client && result->Err_0.err == (ErrorKind::UnknownPeer {
                reply: Reply::CreateOrderResponse,
                counterparty_node_id: node,
            })
            &&& known ==> after.per_peer_state == client.per_peer_state.insert(
                node,
                after.per_peer_state[node],
            )
            &&& after.config == client.config
        }),
{
    if client.per_peer_state.contains_key(node) {
        let peer = client.per_peer_state[node];
        if !peer.request_to_cid.contains_key(request_id.0@) {
            assert(client.per_peer_state.insert(node, peer) =~= client.per_peer_state);
        }
    }
}

/// Options that are listed for a request of ours are shown to the user, and an order can be placed
/// within them. What comes unasked changes nothing but the channel that it was for.
pub proof fn lemma_listed_options_are_shown(
    client: LSPS1ClientHandlerView,
    events: Seq<Event>,
    request_id: RequestId,
    node: PublicKey,
    response: GetInfoResponse,
)
    ensures
        ({
            let (after, shown, result) = client.after_info_response(
                events,
                request_id,
                node,
                response,
            );
            let known = client.per_peer_state.contains_key(node);
            let peer = client.per_peer_state[node];
            let asked = known && peer.request_to_cid.contains_key(request_id.0@);
            let id = peer.request_to_cid[request_id.0@];
            let found = asked && peer.inbound_channels_by_id.contains_key(id);
            let channel = peer.inbound_channels_by_id[id];
            let accepted = found && channel.state is InfoRequested;
            &&& result is Ok <==> accepted
            &&& accepted ==> {
                let next = after.per_peer_state[node];
                &&& shown == events.push(
                    Event::LSPS1Client(
                        LSPS1ClientEvent::GetInfoResponse {
                            id,
                            request_id,
                            counterparty_node_id: node,
                            website: response.website,
                            options_supported: response.options,
                        },
                    ),
                )
                &&& next.inbound_channels_by_id == peer.inbound_channels_by_id.insert(
                    id,
                    next.inbound_channels_by_id[id],
                )
                &&& next.inbound_channels_by_id[id].id == channel.id
                &&& next.inbound_channels_by_id[id].state == (InboundRequestState::OptionsSupport {
                    options_supported: response.options,
                })
            }
            &&& !accepted ==> shown == events
            &&& found && !accepted ==> {
                &&& after.per_peer_state[node].inbound_channels_by_id
                    == peer.inbound_channels_by_id.remove(id)
                &&& result->Err_0.err == (ErrorKind::UnexpectedInfo {
                    state: ChannelState::Request(channel.state),
                })
            }
            &&& asked && !found ==> {
                &&& after.per_peer_state[node].inbound_channels_by_id == peer.inbound_channels_by_id
                &&& result->Err_0.err == (ErrorKind::UnknownChannel {
                    reply: Reply::GetInfoResponse,
                    channel_id: id,
                })
            }
            &&& asked ==> after.per_peer_state[node].request_to_cid == peer.request_to_cid.remove(
                request_id.0@,
            )
            &&& known && !asked ==> after.per_peer_state[node] == peer && result->Err_0.err == (
            ErrorKind::UnknownRequest { reply: Reply::GetInfoResponse, request_id })
            &&& !known ==> after == client && result->Err_0.err == (ErrorKind::UnknownPeer {
                reply: Reply::GetInfoResponse,
                counterparty_node_id: node,
            })
            &&& known ==> after.per_peer_state == client.per_peer_state.insert(
                node,
                after.per_peer_state[node],
            )
            &&& after.config == client.config
        }),
{
}

/// Any other reply ends its request, and leaves every channel as it is.
pub proof fn lemma_other_replies_end_requests(
    client: LSPS1ClientHandlerView,
    request_id: RequestId,
    node: PublicKey,
    reply: Reply,
)
    ensures
        ({
            let (after, result) = client.after_reply(request_id, node, reply);
            let known = client.per_peer_state.contains_key(node);
            let peer = client.per_peer_state[node];
            let asked = known && peer.request_to_cid.contains_key(request_id.0@);
            let id = peer.request_to_cid[request_id.0@];
            let found = asked && peer.inbound_channels_by_id.contains_key(id);
            &&& result is Ok <==> found
            &&& asked ==> after.per_peer_state[node].request_to_cid == peer.request_to_cid.remove(
                request_id.0@,
            )
            &&& known ==> {
                &&& after.per_peer_state == client.per_peer_state.insert(
                    node,
                    after.per_peer_state[node],
                )
                &&& after.per_peer_state[node].inbound_channels_by_id == peer.inbound_channels_by_id
            }
            &&& asked && !found ==> result->Err_0.err == (ErrorKind::UnknownChannel {
                reply,
                channel_id: id,
            })
            &&& known && !asked ==> after.per_peer_state[node] == peer && result->Err_0.err == (
            ErrorKind::UnknownRequest { reply, request_id })
            &&& !known ==> after == client && result->Err_0.err == (ErrorKind::UnknownPeer {
                reply,
                counterparty_node_id: node,
            })
            &&& after.config == client.config
        }),
{
}

/// An order is placed exactly where the options of the LSP are known for the channel and the order is
/// within them: its balances and its size are within their bounds, and its lease is no longer than the
/// longest one. It is asked about exactly where its channel awaits payment. A channel that takes no
/// such step is given up.
pub proof fn lemma_orders_are_placed_within_options(
    peer: PeerStateView,
    id: u128,
    order: OrderParams,
    request_id: Seq<char>,
)
    ensures
        ({
            let (after, placed) = peer.place_step(id, order, request_id);
            let (paid, checked) = peer.check_step(id, request_id);
            let found = peer.inbound_channels_by_id.contains_key(id);
            let channel = peer.inbound_channels_by_id[id];
            let offered = channel.state->options_supported;
            let within = {
                &&& channel.state is OptionsSupport
                &&& offered.min_initial_client_balance_sat <= order.client_balance_sat
                &&& order.client_balance_sat <= offered.max_initial_client_balance_sat
                &&& offered.min_initial_lsp_balance_sat <= order.lsp_balance_sat
                &&& order.lsp_balance_sat <= offered.max_initial_lsp_balance_sat
                &&& offered.min_channel_balance_sat <= order.lsp_balance_sat
                    + order.client_balance_sat
                &&& order.lsp_balance_sat + order.client_balance_sat
                    <= offered.max_channel_balance_sat
                &&& order.channel_expiry_blocks <= offered.max_channel_expiry_blocks
            };
            &&& placed is Ok <==> found && within
            &&& found && within ==> {
                let next = after.inbound_channels_by_id[id];
                &&& after.inbound_channels_by_id == peer.inbound_channels_by_id.insert(id, next)
                &&& after.request_to_cid == peer.request_to_cid.insert(request_id, id)
                &&& next.id == channel.id
                &&& next.state == (InboundRequestState::OrderRequested { order })
            }
            &&& found && !within ==> {
                &&& after.inbound_channels_by_id == peer.inbound_channels_by_id.remove(id)
                &&& after.request_to_cid == peer.request_to_cid
            }
            &&& checked is Ok <==> found && channel.state is PendingPayment
            &&& checked is Ok ==> {
                let next = paid.inbound_channels_by_id[id];
                &&& paid.inbound_channels_by_id == peer.inbound_channels_by_id.insert(id, next)
                &&& paid.request_to_cid == peer.request_to_cid.insert(request_id, id)
                &&& next.id == channel.id
                &&& next.state == (InboundRequestState::AwaitingConfirmation {
                    id,
                    order_id: channel.state->PendingPayment_order_id,
                })
            }
            &&& found && checked is Err ==> {
                &&& paid.inbound_channels_by_id == peer.inbound_channels_by_id.remove(id)
                &&& paid.request_to_cid == peer.request_to_cid
            }
            &&& !found ==> {
                &&& after == peer && paid == peer
                &&& placed == Err::<(), ErrorKind>(ErrorKind::ChannelNotFound { channel_id: id })
                &&& checked == Err::<(), ErrorKind>(ErrorKind::ChannelNotFound { channel_id: id })
            }
        }),
{
}

/// A change concerns one peer, and of that peer one channel or one request.
pub proof fn lemma_changes_are_local(
    client: LSPS1ClientHandlerView,
    node: PublicKey,
    peer: PeerStateView,
    id: u128,
    channel: InboundCRChannel,
    request_id: Seq<char>,
)
    ensures
        client.with_peer(node, peer).per_peer_state == client.per_peer_state.insert(node, peer),
        client.with_peer(node, peer).config == client.config,
        client.per_peer_state.contains_key(node) ==> client.peer(node)
            == client.per_peer_state[node],
        !client.per_peer_state.contains_key(node) ==> client.peer(node).inbound_channels_by_id
            == Map::<u128, InboundCRChannel>::empty() && client.peer(node).request_to_cid == Map::<
            Seq<char>,
            u128,
        >::empty(),
        peer.with_channel(id, channel).inbound_channels_by_id == peer.inbound_channels_by_id.insert(
            id,
            channel,
        ),
        peer.with_channel(id, channel).request_to_cid == peer.request_to_cid,
        peer.without_channel(id).inbound_channels_by_id == peer.inbound_channels_by_id.remove(id),
        peer.without_channel(id).request_to_cid == peer.request_to_cid,
        peer.with_request(request_id, id).request_to_cid == peer.request_to_cid.insert(
            request_id,
            id,
        ),
        peer.with_request(request_id, id).inbound_channels_by_id == peer.inbound_channels_by_id,
{
}

/// A request is one more message, to the LSP that it is for, under an id made of the given randomness.
pub proof fn lemma_what_is_asked(
    before: Seq<(PublicKey, LSPSMessage)>,
    after: Seq<(PublicKey, LSPSMessage)>,
    node: PublicKey,
    entropy: Seq<u8>,
    request: LSPS1Request,
)
    requires
        request_enqueued(before, after, node, entropy, request),
    ensures
        after.len() == before.len() + 1,
        forall|i: int| 0 <= i < before.len() ==> #[trigger] after[i] == before[i],
        after.last().0 == node,
        after.last().1 matches LSPSMessage::LSPS1(LSPS1Message::Request(id, sent)) && id.0@
            == request_id_text(entropy) && sent == request,
{
    assert forall|i: int| 0 <= i < before.len() implies #[trigger] after[i] == before[i] by {
        assert(after.drop_last()[i] == before[i]);
    }
}

/// Asking an LSP for its options starts the request for a channel under the given id.
pub proof fn lemma_requests_start<MQ: MessageQueue<LSPSMessage>>(
    client: &mut LSPS1ClientHandler,
    node: PublicKey,
    id: u128,
    request_entropy: [u8; 32],
    messages: &mut MQ,
    result: (),
)
    requires
        call_ensures(
            LSPS1ClientHandler::request_for_info::<MQ>,
            (client, node, id, &request_entropy, messages),
            result,
        ),
    ensures
        ({
            let before = old(client)@;
            let after = final(client)@;
            let request_id = request_id_text(request_entropy@);
            let next = after.per_peer_state[node];
            &&& final(messages).pending().len() == old(messages).pending().len() + 1
            &&& final(messages).pending().drop_last() == old(messages).pending()
            &&& final(messages).pending().last().0 == node
            &&& final(messages).pending().last().1 matches LSPSMessage::LSPS1(
                LSPS1Message::Request(sent, LSPS1Request::GetInfo(_)),
            ) && sent.0@ == request_id
            &&& after.per_peer_state == before.per_peer_state.insert(node, next)
            &&& next.inbound_channels_by_id.contains_key(id)
            &&& next.inbound_channels_by_id[id].id == id
            &&& next.inbound_channels_by_id[id].state is InfoRequested
            &&& next.request_to_cid.contains_key(request_id)
            &&& next.request_to_cid[request_id] == id
            &&& before.per_peer_state.contains_key(node) ==> {
                let peer = before.per_peer_state[node];
                &&& next.inbound_channels_by_id == peer.inbound_channels_by_id.insert(
                    id,
                    next.inbound_channels_by_id[id],
                )
                &&& next.request_to_cid == peer.request_to_cid.insert(request_id, id)
            }
            &&& after.config == before.config
        }),
{
}

/// An order is placed with the LSP exactly where its options are known for the channel and the order is
/// within them: its balances and its size are within their bounds, and its lease is no longer than the
/// longest one. What is sent is that very order. Otherwise nothing is sent, and a channel that was there
/// is given up.
pub proof fn lemma_orders_are_placed<MQ: MessageQueue<LSPSMessage>>(
    client: &mut LSPS1ClientHandler,
    id: u128,
    node: PublicKey,
    order: OrderParams,
    request_entropy: [u8; 32],
    messages: &mut MQ,
    result: Result<(), APIError>,
)
    requires
        call_ensures(
            LSPS1ClientHandler::place_order::<MQ>,
            (client, id, &node, order, &request_entropy, messages),
            result,
        ),
    ensures
        ({
            let before = old(client)@;
            let after = final(client)@;
            let known = before.per_peer_state.contains_key(node);
            let peer = before.per_peer_state[node];
            let found = known && peer.inbound_channels_by_id.contains_key(id);
            let channel = peer.inbound_channels_by_id[id];
            let offered = channel.state->options_supported;
            let within = {
                &&& channel.state is OptionsSupport
                &&& offered.min_initial_client_balance_sat <= order.client_balance_sat
                &&& order.client_balance_sat <= offered.max_initial_client_balance_sat
                &&& offered.min_initial_lsp_balance_sat <= order.lsp_balance_sat
                &&& order.lsp_balance_sat <= offered.max_initial_lsp_balance_sat
                &&& offered.min_channel_balance_sat <= order.lsp_balance_sat
                    + order.client_balance_sat
                &&& order.lsp_balance_sat + order.client_balance_sat
                    <= offered.max_channel_balance_sat
                &&& order.channel_expiry_blocks <= offered.max_channel_expiry_blocks
            };
            let next = after.per_peer_state[node];
            &&& result is Ok <==> found && within
            &&& !(found && within) ==> final(messages).pending() == old(messages).pending()
            &&& found && within ==> {
                &&& final(messages).pending().len() == old(messages).pending().len() + 1
                &&& final(messages).pending().drop_last() == old(messages).pending()
                &&& final(messages).pending().last().0 == node
                &&& final(messages).pending().last().1 matches LSPSMessage::LSPS1(
                    LSPS1Message::Request(sent, LSPS1Request::CreateOrder(asked)),
                ) && sent.0@ == request_id_text(request_entropy@) && asked.order == order
                &&& next.inbound_channels_by_id == peer.inbound_channels_by_id.insert(
                    id,
                    next.inbound_channels_by_id[id],
                )
                &&& next.inbound_channels_by_id[id].state == (InboundRequestState::OrderRequested { order })
                &&& next.request_to_cid == peer.request_to_cid.insert(
                    request_id_text(request_entropy@),
                    id,
                )
            }
            &&& found && !within ==> {
                &&& next.inbound_channels_by_id == peer.inbound_channels_by_id.remove(id)
                &&& channel.state is OptionsSupport ==> result->Err_0->err == (
                ErrorKind::OrderNotSupported { options_supported: offered, order })
                &&& !(channel.state is OptionsSupport) ==> result->Err_0->err == (
                ErrorKind::UnexpectedOrderRequest { state: ChannelState::Request(channel.state) })
            }
            &&& known && !found ==> next == peer && result->Err_0->err == (
            ErrorKind::ChannelNotFound { channel_id: id })
            &&& known ==> after.per_peer_state == before.per_peer_state.insert(node, next)
            &&& !known ==> after == before && result->Err_0->err == (ErrorKind::NoPeerState {
                counterparty_node_id: node,
            })
            &&& after.config == before.config
        }),
{
}

/// The state of an order is asked for exactly where its channel awaits payment, which it then awaits no
/// more. Otherwise nothing is sent, and a channel that was there is given up.
pub proof fn lemma_orders_are_asked_about<MQ: MessageQueue<LSPSMessage>>(
    client: &mut LSPS1ClientHandler,
    node: PublicKey,
    order_id: OrderId,
    id: u128,
    request_entropy: [u8; 32],
    messages: &mut MQ,
    result: Result<(), APIError>,
)
    requires
        call_ensures(
            LSPS1ClientHandler::check_order_status::<MQ>,
            (client, &node, order_id, id, &request_entropy, messages),
            result,
        ),
    ensures
        ({
            let before = old(client)@;
            let after = final(client)@;
            let known = before.per_peer_state.contains_key(node);
            let peer = before.per_peer_state[node];
            let found = known && peer.inbound_channels_by_id.contains_key(id);
            let payable = found && peer.inbound_channels_by_id[id].state is PendingPayment;
            let next = after.per_peer_state[node];
            &&& result is Ok <==> payable
            &&& !payable ==> final(messages).pending() == old(messages).pending()
            &&& payable ==> {
                &&& final(messages).pending().len() == old(messages).pending().len() + 1
                &&& final(messages).pending().drop_last() == old(messages).pending()
                &&& final(messages).pending().last().0 == node
                &&& final(messages).pending().last().1 matches LSPSMessage::LSPS1(
                    LSPS1Message::Request(sent, LSPS1Request::GetOrder(asked)),
                ) && sent.0@ == request_id_text(request_entropy@) && asked.order_id == order_id
                &&& next.inbound_channels_by_id == peer.inbound_channels_by_id.insert(
                    id,
                    next.inbound_channels_by_id[id],
                )
                &&& next.inbound_channels_by_id[id].state is AwaitingConfirmation
                &&& next.request_to_cid == peer.request_to_cid.insert(
                    request_id_text(request_entropy@),
                    id,
                )
            }
            &&& found && !payable ==> {
                &&& next.inbound_channels_by_id == peer.inbound_channels_by_id.remove(id)
                &&& result->Err_0->err == (ErrorKind::UnexpectedPayment {
                    state: ChannelState::Request(peer.inbound_channels_by_id[id].state),
                })
            }
            &&& known && !found ==> next == peer && result->Err_0->err == (
            ErrorKind::ChannelNotFound { channel_id: id })
            &&& known ==> after.per_peer_state == before.per_peer_state.insert(node, next)
            &&& !known ==> after == before && result->Err_0->err == (ErrorKind::NoPeerState {
                counterparty_node_id: node,
            })
            &&& after.config == before.config
        }),
{
}

/// A confirmed order is accepted and shown to the user exactly where it answers a request of ours, it
/// is in every field the order that was placed, its total is its fees and the balance of the client, and
/// its fees in millisatoshi are no more than the limit, if there is one.
pub proof fn lemma_accepted_orders_are_shown(
    client: &mut LSPS1ClientHandler,
    request_id: RequestId,
    response: CreateOrderResponse,
    node: PublicKey,
    events: &mut EventQueue,
    result: Result<(), LightningError>,
)
    requires
        call_ensures(
            LSPS1ClientHandler::handle_message,
            (
                client,
                LSPS1Message::Response(request_id, LSPS1Response::CreateOrder(response)),
                &node,
                events,
            ),
            result,
        ),
    ensures
        ({
            let before = old(client)@;
            let after = final(client)@;
            let peer = before.per_peer_state[node];
            let id = peer.request_to_cid[request_id.0@];
            let awaited = before.per_peer_state.contains_key(node)
                && peer.request_to_cid.contains_key(request_id.0@)
                && peer.inbound_channels_by_id.contains_key(id)
                && peer.inbound_channels_by_id[id].state is OrderRequested;
            let placed = peer.inbound_channels_by_id[id].state->OrderRequested_order;
            let confirmed = response.order;
            let same = {
                &&& placed.lsp_balance_sat == confirmed.lsp_balance_sat
                &&& placed.client_balance_sat == confirmed.client_balance_sat
                &&& placed.confirms_within_blocks == confirmed.confirms_within_blocks
                &&& placed.channel_expiry_blocks == confirmed.channel_expiry_blocks
                &&& placed.token@ == confirmed.token@
                &&& placed.refund_onchain_address is Some <==> confirmed.refund_onchain_address
                    is Some
                &&& placed.refund_onchain_address is Some ==> placed.refund_onchain_address->0@
                    == confirmed.refund_onchain_address->0@
                &&& placed.announce_channel == confirmed.announce_channel
            };
            let affordable = match before.config.max_channel_fees_msat {
                Some(limit_msat) => response.payment.fee_total_sat * 1000 <= limit_msat,
                None => true,
            };
            let accepted = awaited && same && affordable && response.payment.order_total_sat
                == response.payment.fee_total_sat + confirmed.client_balance_sat;
            &&& result is Ok <==> accepted
            &&& accepted ==> {
                &&& final(events)@ == old(events)@.push(
                    Event::LSPS1Client(
                        LSPS1ClientEvent::DisplayOrder {
                            id,
                            counterparty_node_id: node,
                            order: confirmed,
                            payment: response.payment,
                            channel: response.channel,
                        },
                    ),
                )
                &&& after.per_peer_state[node].inbound_channels_by_id[id].state == (
                InboundRequestState::PendingPayment { order_id: response.order_id })
            }
            &&& !accepted ==> final(events)@ == old(events)@
            &&& awaited && !accepted
                ==> !after.per_peer_state[node].inbound_channels_by_id.contains_key(id)
        }),
{
}

/// What the other messages of a peer lead to: each reply goes to the step that takes in what it says, and
/// a client takes in no requests.
pub proof fn lemma_other_messages_at_the_client(
    client: &mut LSPS1ClientHandler,
    message: LSPS1Message,
    node: PublicKey,
    events: &mut EventQueue,
    result: Result<(), LightningError>,
)
    requires
        call_ensures(LSPS1ClientHandler::handle_message, (client, message, &node, events), result),
    ensures
        ({
            let before = old(client)@;
            let after = final(client)@;
            let told = final(events)@;
            match message {
                LSPS1Message::Response(request_id, LSPS1Response::GetInfo(response)) => {
                    (after, told, result) == before.after_info_response(
                        old(events)@,
                        request_id,
                        node,
                        response,
                    )
                },
                LSPS1Message::Response(request_id, LSPS1Response::CreateOrderError(_)) => {
                    &&& told == old(events)@
                    &&& (after, result) == before.after_reply(
                        request_id,
                        node,
                        Reply::CreateOrderError,
                    )
                },
                LSPS1Message::Response(request_id, LSPS1Response::GetOrder(_)) => {
                    &&& told == old(events)@
                    &&& (after, result) == before.after_reply(
                        request_id,
                        node,
                        Reply::GetOrderResponse,
                    )
                },
                LSPS1Message::Response(request_id, LSPS1Response::GetOrderError(_)) => {
                    &&& told == old(events)@
                    &&& (after, result) == before.after_reply(
                        request_id,
                        node,
                        Reply::GetOrderError,
                    )
                },
                LSPS1Message::Request(_, _) => {
                    &&& after == before
                    &&& told == old(events)@
                    &&& result is Err
                    &&& result->Err_0.err == (ErrorKind::RequestAtClient {
                        protocol: Protocol::LSPS1,
                        counterparty_node_id: node,
                    })
                },
                LSPS1Message::Response(_, LSPS1Response::CreateOrder(_)) => true,
            }
        }),
{
}

/// A new client has asked nothing yet, and keeps its configuration.
pub proof fn lemma_clients_start_empty(config: LSPS1ClientConfig, client: LSPS1ClientHandler)
    requires
        call_ensures(LSPS1ClientHandler::new, (config, ), client),
    ensures
        forall|node: PublicKey| !#[trigger] client@.per_peer_state.contains_key(node),
        client@.config.max_channel_fees_msat == config.max_channel_fees_msat,
{
}

} // verus!
