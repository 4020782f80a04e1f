//! Contains the main LSPS1 server object, [`LSPS1ServiceHandler`].

use vstd::prelude::*;

use crate::collections::KeyedMap;
use crate::errors::{
    info, info_error, misuse, misuse_error, APIError, ErrorKind, LightningError, PeerRequest,
    Protocol,
};
use crate::events::{Event, EventQueue};
use crate::lsps0::msgs::{RequestId, ResponseError, ResponseErrorView};
use crate::lsps1::event::LSPS1ServiceEvent;
use crate::lsps1::msgs::{
    ChannelInfo, CreateOrderResponse, GetOrderRequest, OptionsSupported, OrderId, OrderPayment,
    OrderState, UtcDateTime, LSPS1_CREATE_ORDER_REQUEST_ORDER_MISMATCH_ERROR_CODE,
};
use crate::lsps1::orders::{generate_order_id, Orders, OrdersView};
pub use crate::lsps1::orders::{OutboundCRChannel, OutboundCRChannelConfig, OutboundRequestState};
use crate::lsps1::utils::is_valid;
use crate::message_queue::MessageQueue;
use crate::types::PublicKey;
use crate::utils::request_id_text;
use crate::versioned_msgs::{
    is_supported_version, supported_versions, supports_version, unsupported_version_error,
    unsupported_version_text, CreateOrderRequest, GetInfoResponse, GetOrderResponse, LSPS1Message,
    LSPS1Request, LSPS1Response, LSPSMessage,
    LSPS1_CREATE_ORDER_REQUEST_INVALID_VERSION_ERROR_CODE,
};

verus! {

/// Server-side configuration options for LSPS1 channel requests.
#[derive(Clone, Debug)]
pub struct LSPS1ServiceConfig {
    /// A token to be send with each channel request.
    pub token: Option<String>,
    /// The options supported by the LSP.
    pub options_supported: Option<OptionsSupported>,
    /// The LSP's website.
    pub website: Option<String>,
}

/// Why a `create_order` request is refused.
#[derive(Clone, Copy, Debug, PartialEq, Eq)]
pub enum OrderRefusal {
    UnsupportedVersion { version: u16 },
    OrderMismatch { options: OptionsSupported },
}

impl OrderRefusal {
    /// What the client is told.
    pub open spec fn answer(self) -> ResponseErrorView {
        match self {
            OrderRefusal::UnsupportedVersion { version } => ResponseErrorView {
                code: LSPS1_CREATE_ORDER_REQUEST_INVALID_VERSION_ERROR_CODE,
                message: unsupported_version_text(version),
                data: Some("Supported versions are [1]"@),
            },
            OrderRefusal::OrderMismatch { options } => ResponseErrorView {
                code: LSPS1_CREATE_ORDER_REQUEST_ORDER_MISMATCH_ERROR_CODE,
                message: "Order does not match options supported by LSP server"@,
                data: Some(options.listing()),
            },
        }
    }

    /// Makes the answer to the client.
    pub fn to_response_error(self) -> (error: ResponseError)
        ensures
            error@ == self.answer(),
    {
        match self {
            OrderRefusal::UnsupportedVersion { version } => unsupported_version_error(
                LSPS1_CREATE_ORDER_REQUEST_INVALID_VERSION_ERROR_CODE,
                version,
            ),
            OrderRefusal::OrderMismatch { options } => ResponseError {
                code: LSPS1_CREATE_ORDER_REQUEST_ORDER_MISMATCH_ERROR_CODE,
                message: "Order does not match options supported by LSP server".to_owned(),
                data: Some(options.list()),
            },
        }
    }
}

/// Why a `create_order` request is refused: by its version, or by its order.
pub open spec fn order_refusal(options: OptionsSupported, params: CreateOrderRequest) -> Option<
    OrderRefusal,
> {
    if !supports_version(params.version) {
        Some(OrderRefusal::UnsupportedVersion { version: params.version })
    } else if !options.supports(params.order) {
        Some(OrderRefusal::OrderMismatch { options })
    } else {
        None
    }
}

/// Finds out why a `create_order` request is refused.
pub fn refuse_order(options: &OptionsSupported, params: &CreateOrderRequest) -> (refusal: Option<
    OrderRefusal,
>)
    ensures
        refusal == order_refusal(*options, *params),
{
    if !is_supported_version(params.version) {
        return Some(OrderRefusal::UnsupportedVersion { version: params.version });
    }
    if !is_valid(&params.order, options) {
        return Some(OrderRefusal::OrderMismatch { options: *options });
    }
    None
}

/// Whether the messages are those before and one more, which answers a request as described.
pub open spec fn answered(
    before: Seq<(PublicKey, LSPSMessage)>,
    after: Seq<(PublicKey, LSPSMessage)>,
    counterparty_node_id: PublicKey,
    request_id: RequestId,
    describes: spec_fn(LSPS1Response) -> bool,
) -> bool {
    &&& after.len() == before.len() + 1
    &&& after.drop_last() == before
    &&& after.last().0 == counterparty_node_id
    &&& match after.last().1 {
        LSPSMessage::LSPS1(LSPS1Message::Response(id, response)) => id == request_id && describes(
            response,
        ),
        _ => false,
    }
}

/// A `get_info` request is answered with what the LSP supports.
pub open spec fn is_info(website: String, options: OptionsSupported) -> spec_fn(
    LSPS1Response,
) -> bool {
    |response: LSPS1Response|
        match response {
            LSPS1Response::GetInfo(info) => {
                &&& info.supported_versions@ == seq![1u16]
                &&& info.website == website
                &&& info.options == options
            },
            _ => false,
        }
}

/// A `create_order` request is answered with an error.
pub open spec fn is_order_error(error: ResponseErrorView) -> spec_fn(LSPS1Response) -> bool {
    |response: LSPS1Response|
        match response {
            LSPS1Response::CreateOrderError(e) => e@ == error,
            _ => false,
        }
}

/// A `create_order` request is answered with the order that was made, under an id made of the given
/// random bytes.
pub open spec fn is_order_made(
    orders: OrdersView,
    after: OrdersView,
    request_id: RequestId,
    entropy: Seq<u8>,
    payment: OrderPayment,
    created_at: UtcDateTime,
    expires_at: UtcDateTime,
) -> spec_fn(LSPS1Response) -> bool {
    |response: LSPS1Response|
        match response {
            LSPS1Response::CreateOrder(made) => {
                &&& made.order_id.0@ == request_id_text(entropy)
                &&& orders.invoice_step(
                    request_id,
                    made.order_id,
                    payment,
                    created_at,
                    expires_at,
                ) == (after, Ok::<CreateOrderResponse, ErrorKind>(made))
            },
            _ => false,
        }
}

/// The orders of one client.
pub struct PeerState {
    pub orders: Orders,
    pub request_to_cid: KeyedMap<RequestId, u128>,
}

/// The contents of a [`PeerState`].
#[verifier::ext_equal]
pub struct PeerStateView {
    pub orders: OrdersView,
    pub request_to_cid: Map<Seq<char>, u128>,
}

impl View for PeerState {
    type V = PeerStateView;

    open spec fn view(&self) -> PeerStateView {
        PeerStateView { orders: self.orders@, request_to_cid: self.request_to_cid@ }
    }
}

impl PeerStateView {
    /// No order at all.
    pub open spec fn empty() -> Self {
        PeerStateView { orders: OrdersView::empty(), request_to_cid: Map::empty() }
    }

    /// With the orders replaced.
    pub open spec fn with_orders(self, orders: OrdersView) -> Self {
        PeerStateView { orders, ..self }
    }
}

impl PeerState {
    /// Creates the state of a client without orders.
    pub fn new() -> (peer: Self)
        ensures
            peer@ == PeerStateView::empty(),
    {
        PeerState { orders: Orders::new(), request_to_cid: KeyedMap::new() }
    }

    /// Adds or replaces an order.
    pub fn insert_outbound_channel(&mut self, order_id: OrderId, channel: OutboundCRChannel)
        ensures
            final(self)@ == old(self)@.with_orders(
                old(self)@.orders.with_order(order_id.0@, channel),
            ),
    {
        self.orders.outbound_channels_by_order_id.insert(order_id, channel);
    }

    /// Notes which channel a request concerns.
    pub fn insert_request(&mut self, request_id: RequestId, channel_id: u128)
        ensures
            final(self)@ == (PeerStateView {
                request_to_cid: old(self)@.request_to_cid.insert(request_id.0@, channel_id),
                ..old(self)@
            }),
    {
        self.request_to_cid.insert(request_id, channel_id);
    }

    /// Gives up an order.
    pub fn remove_outbound_channel(&mut self, order_id: OrderId)
        ensures
            final(self)@ == old(self)@.with_orders(old(self)@.orders.without_order(order_id.0@)),
    {
        self.orders.outbound_channels_by_order_id.remove(&order_id);
    }
}

/// The main object allowing to send and receive LSPS1 messages.
pub struct LSPS1ServiceHandler {
    per_peer_state: KeyedMap<PublicKey, PeerState>,
    config: LSPS1ServiceConfig,
}

/// The contents of an [`LSPS1ServiceHandler`].
#[verifier::ext_equal]
pub struct LSPS1ServiceHandlerView {
    pub per_peer_state: Map<PublicKey, PeerStateView>,
    pub config: LSPS1ServiceConfig,
}

impl View for LSPS1ServiceHandler {
    type V = LSPS1ServiceHandlerView;

    closed spec fn view(&self) -> LSPS1ServiceHandlerView {
        LSPS1ServiceHandlerView { per_peer_state: self.per_peer_state@, config: self.config }
    }
}

impl LSPS1ServiceHandlerView {
    /// The state of a client, which is empty until there is an order.
    pub open spec fn peer(self, counterparty_node_id: PublicKey) -> PeerStateView {
        if self.per_peer_state.contains_key(counterparty_node_id) {
            self.per_peer_state[counterparty_node_id]
        } else {
            PeerStateView::empty()
        }
    }

    /// With the orders of one client replaced.
    pub open spec fn with_orders(self, counterparty_node_id: PublicKey, orders: OrdersView) -> Self {
        LSPS1ServiceHandlerView {
            per_peer_state: self.per_peer_state.insert(
                counterparty_node_id,
                self.peer(counterparty_node_id).with_orders(orders),
            ),
            ..self
        }
    }

    /// Whether the options and the website that clients ask for are configured.
    pub open spec fn configured(self) -> bool {
        self.config.options_supported is Some && self.config.website is Some
    }

    /// Whether a message can be taken in with the given configuration.
    pub open spec fn can_take_in(self, message: LSPS1Message) -> bool {
        match message {
            LSPS1Message::Request(_, LSPS1Request::GetInfo(_)) => self.configured(),
            LSPS1Message::Request(_, LSPS1Request::CreateOrder(params)) => supports_version(
                params.version,
            ) ==> self.config.options_supported is Some,
            _ => true,
        }
    }

    /// The state and the events after a `create_order` request that is not refused, which awaits
    /// the user's invoice.
    pub open spec fn after_order_request(
        self,
        events: Seq<Event>,
        request_id: RequestId,
        counterparty_node_id: PublicKey,
        params: CreateOrderRequest,
    ) -> (Self, Seq<Event>) {
        (
            self.with_orders(
                counterparty_node_id,
                self.peer(counterparty_node_id).orders.with_pending(
                    request_id.0@,
                    LSPS1Request::CreateOrder(params),
                ),
            ),
            events.push(
                Event::LSPS1Service(
                    LSPS1ServiceEvent::CreateInvoice {
                        request_id,
                        counterparty_node_id,
                        order: params.order,
                    },
                ),
            ),
        )
    }

    /// Why a `create_order` request is refused.
    pub open spec fn refusal(self, params: CreateOrderRequest) -> Option<OrderRefusal> {
        if !supports_version(params.version) {
            Some(OrderRefusal::UnsupportedVersion { version: params.version })
        } else {
            order_refusal(self.config.options_supported->0, params)
        }
    }

    /// The state, the events and the result after a `get_order` request.
    ///
    /// The user is asked whether the payment has come. An order that was asked for before is to be
    /// refunded.
    pub open spec fn after_order_asked(
        self,
        events: Seq<Event>,
        request_id: RequestId,
        counterparty_node_id: PublicKey,
        params: GetOrderRequest,
    ) -> (Self, Seq<Event>, Result<(), LightningError>) {
        if !self.per_peer_state.contains_key(counterparty_node_id) {
            (
                self,
                events,
                Err(
                    info(
                        ErrorKind::UnknownRequester {
                            request: PeerRequest::GetOrder,
                            counterparty_node_id,
                        },
                    ),
                ),
            )
        } else {
            let peer = self.per_peer_state[counterparty_node_id];
            let (orders, outcome) = peer.orders.order_asked_step(request_id, params);
            let order_id = params.order_id;
            (
                self.with_orders(counterparty_node_id, orders),
                match outcome {
                    Ok(_) => events.push(
                        Event::LSPS1Service(
                            LSPS1ServiceEvent::CheckPaymentConfirmation {
                                request_id,
                                counterparty_node_id,
                                order_id,
                            },
                        ),
                    ),
                    Err(ErrorKind::UnknownOrder { .. }) => events,
                    Err(_) => events.push(
                        Event::LSPS1Service(
                            LSPS1ServiceEvent::Refund {
                                request_id,
                                counterparty_node_id,
                                order_id,
                            },
                        ),
                    ),
                },
                match outcome {
                    Ok(_) => Ok(()),
                    Err(e) => Err(info(e)),
                },
            )
        }
    }
}

impl LSPS1ServiceHandler {
    /// Constructs an `LSPS1ServiceHandler`.
    pub fn new(config: LSPS1ServiceConfig) -> (handler: Self)
        ensures
            handler@ == (LSPS1ServiceHandlerView { per_peer_state: Map::empty(), config }),
    {
        LSPS1ServiceHandler { per_peer_state: KeyedMap::new(), config }
    }

    /// Returns whether the options and the website that clients ask for are configured.
    pub fn is_configured(&self) -> (configured: bool)
        ensures
            configured == self@.configured(),
    {
        self.config.options_supported.is_some() && self.config.website.is_some()
    }

    fn enqueue_response<MQ: MessageQueue<LSPSMessage>>(
        pending_messages: &mut MQ,
        counterparty_node_id: &PublicKey,
        request_id: RequestId,
        response: LSPS1Response,
    )
        ensures
            final(pending_messages).pending() == old(pending_messages).pending().push(
                (
                    *counterparty_node_id,
                    LSPSMessage::LSPS1(LSPS1Message::Response(request_id, response)),
                ),
            ),
            final(pending_messages).pending().drop_last() == old(pending_messages).pending(),
    {
        pending_messages.enqueue(
            counterparty_node_id,
            LSPSMessage::from(LSPS1Message::Response(request_id, response)),
        );
    }

    fn handle_get_info_request<MQ: MessageQueue<LSPSMessage>>(
        &self,
        request_id: RequestId,
        counterparty_node_id: &PublicKey,
        pending_messages: &mut MQ,
    ) -> (result: Result<(), LightningError>)
        requires
            self@.configured(),
        ensures
            result == Ok::<(), LightningError>(()),
            answered(
                old(pending_messages).pending(),
                final(pending_messages).pending(),
                *counterparty_node_id,
                request_id,
                is_info(self@.config.website->0, self@.config.options_supported->0),
            ),
    {
        let website = match &self.config.website {
            Some(website) => website.clone(),
            None => vstd::pervasive::unreached(),
        };
        let options = match &self.config.options_supported {
            Some(options) => *options,
            None => vstd::pervasive::unreached(),
        };
        Self::enqueue_response(
            pending_messages,
            counterparty_node_id,
            request_id,
            LSPS1Response::GetInfo(
                GetInfoResponse { supported_versions: supported_versions(), website, options },
            ),
        );
        Ok(())
    }

    fn handle_create_order_request<MQ: MessageQueue<LSPSMessage>>(
        &mut self,
        request_id: RequestId,
        counterparty_node_id: &PublicKey,
        params: CreateOrderRequest,
        pending_messages: &mut MQ,
        pending_events: &mut EventQueue,
    ) -> (result: Result<(), LightningError>)
        requires
            supports_version(params.version) ==> old(self)@.config.options_supported is Some,
        ensures
            match old(self)@.refusal(params) {
                None => {
                    &&& result == Ok::<(), LightningError>(())
                    &&& final(pending_messages).pending() == old(pending_messages).pending()
                    &&& (final(self)@, final(pending_events)@) == old(self)@.after_order_request(
                        old(pending_events)@,
                        request_id,
                        *counterparty_node_id,
                        params,
                    )
                },
                Some(refusal) => {
                    &&& result == Err::<(), LightningError>(
                        info(ErrorKind::UnsupportedVersion { version: params.version }),
                    )
                    &&& final(self)@ == old(self)@
                    &&& final(pending_events)@ == old(pending_events)@
                    &&& answered(
                        old(pending_messages).pending(),
                        final(pending_messages).pending(),
                        *counterparty_node_id,
                        request_id,
                        is_order_error(refusal.answer()),
                    )
                },
            },
    {
        let refusal = if !is_supported_version(params.version) {
            Some(OrderRefusal::UnsupportedVersion { version: params.version })
        } else {
            match &self.config.options_supported {
                Some(options) => refuse_order(options, &params),
                None => vstd::pervasive::unreached(),
            }
        };
        if let Some(refusal) = refusal {
            Self::enqueue_response(
                pending_messages,
                counterparty_node_id,
                request_id,
                LSPS1Response::CreateOrderError(refusal.to_response_error()),
            );
            return Err(info_error(ErrorKind::UnsupportedVersion { version: params.version }));
        }
        let mut peer_state = match self.per_peer_state.remove(counterparty_node_id) {
            Some(peer_state) => peer_state,
            None => PeerState::new(),
        };
        peer_state.orders.order_requested(request_id.clone(), params.clone());
        self.per_peer_state.insert(*counterparty_node_id, peer_state);
        pending_events.enqueue(
            Event::LSPS1Service(
                LSPS1ServiceEvent::CreateInvoice {
                    request_id,
                    counterparty_node_id: *counterparty_node_id,
                    order: params.order,
                },
            ),
        );
        Ok(())
    }

    /// Used by LSP to send invoice containing details regarding the channel fees and payment
    /// information.
    ///
    /// Should be called in response to receiving a [`LSPS1ServiceEvent::CreateInvoice`] event. The
    /// id of the order is made of random bytes.
    pub fn send_invoice_for_order<MQ: MessageQueue<LSPSMessage>>(
        &mut self,
        request_id: RequestId,
        counterparty_node_id: &PublicKey,
        payment: OrderPayment,
        created_at: UtcDateTime,
        expires_at: UtcDateTime,
        order_entropy: &[u8; 32],
        pending_messages: &mut MQ,
    ) -> (result: Result<(), APIError>)
        ensures
            !old(self)@.per_peer_state.contains_key(*counterparty_node_id) ==> {
                &&& final(self)@ == old(self)@
                &&& final(pending_messages).pending() == old(pending_messages).pending()
                &&& result == Err::<(), APIError>(
                    misuse(
                        ErrorKind::NoPeerState { counterparty_node_id: *counterparty_node_id },
                    ),
                )
            },
            old(self)@.per_peer_state.contains_key(*counterparty_node_id) ==> {
                let orders = old(self)@.per_peer_state[*counterparty_node_id].orders;
                let after = final(self)@.per_peer_state[*counterparty_node_id].orders;
                &&& final(self)@ == old(self)@.with_orders(*counterparty_node_id, after)
                &&& if orders.awaits_invoice(request_id.0@) {
                    &&& result == Ok::<(), APIError>(())
                    &&& answered(
                        old(pending_messages).pending(),
                        final(pending_messages).pending(),
                        *counterparty_node_id,
                        request_id,
                        is_order_made(
                            orders,
                            after,
                            request_id,
                            order_entropy@,
                            payment,
                            created_at,
                            expires_at,
                        ),
                    )
                } else {
                    &&& after == orders.without_pending(request_id.0@)
                    &&& final(pending_messages).pending() == old(pending_messages).pending()
                    &&& result == Err::<(), APIError>(
                        misuse(
                            ErrorKind::NoPendingRequest {
                                request: PeerRequest::CreateOrder,
                                request_id,
                            },
                        ),
                    )
                }
            },
    {
        match self.per_peer_state.remove(counterparty_node_id) {
            Some(mut peer_state) => {
                let order_id = generate_order_id(order_entropy);
                let made = peer_state.orders.invoice_created(
                    &request_id,
                    order_id,
                    payment,
                    created_at,
                    expires_at,
                );
                self.per_peer_state.insert(*counterparty_node_id, peer_state);
                assert(self@ =~= old(self)@.with_orders(
                    *counterparty_node_id,
                    peer_state.orders@,
                ));
                match made {
                    Ok(response) => {
                        Self::enqueue_response(
                            pending_messages,
                            counterparty_node_id,
                            request_id,
                            LSPS1Response::CreateOrder(response),
                        );
                        Ok(())
                    },
                    Err(e) => Err(misuse_error(e)),
                }
            },
            None => {
                assert(self@ =~= old(self)@);
                Err(
                    misuse_error(
                        ErrorKind::NoPeerState { counterparty_node_id: *counterparty_node_id },
                    ),
                )
            },
        }
    }

    fn handle_get_order_request(
        &mut self,
        request_id: RequestId,
        counterparty_node_id: &PublicKey,
        params: GetOrderRequest,
        pending_events: &mut EventQueue,
    ) -> (result: Result<(), LightningError>)
        ensures
            (final(self)@, final(pending_events)@, result) == old(self)@.after_order_asked(
                old(pending_events)@,
                request_id,
                *counterparty_node_id,
                params,
            ),
    {
        match self.per_peer_state.remove(counterparty_node_id) {
            Some(mut peer_state) => {
                let asked = peer_state.orders.order_asked(request_id.clone(), params.clone());
                self.per_peer_state.insert(*counterparty_node_id, peer_state);
                assert(self@ =~= old(self)@.with_orders(
                    *counterparty_node_id,
                    peer_state.orders@,
                ));
                match asked {
                    Ok(()) => {
                        pending_events.enqueue(
                            Event::LSPS1Service(
                                LSPS1ServiceEvent::CheckPaymentConfirmation {
                                    request_id,
                                    counterparty_node_id: *counterparty_node_id,
                                    order_id: params.order_id,
                                },
                            ),
                        );
                        Ok(())
                    },
                    Err(e) => {
                        let known = match &e {
                            ErrorKind::UnknownOrder { .. } => false,
                            _ => true,
                        };
                        if known {
                            pending_events.enqueue(
                                Event::LSPS1Service(
                                    LSPS1ServiceEvent::Refund {
                                        request_id,
                                        counterparty_node_id: *counterparty_node_id,
                                        order_id: params.order_id,
                                    },
                                ),
                            );
                        }
                        Err(info_error(e))
                    },
                }
            },
            None => {
                assert(self@ =~= old(self)@);
                Err(
                    info_error(
                        ErrorKind::UnknownRequester {
                            request: PeerRequest::GetOrder,
                            counterparty_node_id: *counterparty_node_id,
                        },
                    ),
                )
            },
        }
    }

    /// Used by LSP to give details to client regarding the status of channel opening.
    ///
    /// Should be called in response to receiving a
    /// [`LSPS1ServiceEvent::CheckPaymentConfirmation`] event.
    pub fn update_order_status<MQ: MessageQueue<LSPSMessage>>(
        &self,
        request_id: RequestId,
        counterparty_node_id: PublicKey,
        order_id: OrderId,
        order_state: OrderState,
        channel: Option<ChannelInfo>,
        pending_messages: &mut MQ,
    ) -> (result: Result<(), APIError>)
        ensures
            !self@.per_peer_state.contains_key(counterparty_node_id) ==> {
                &&& final(pending_messages).pending() == old(pending_messages).pending()
                &&& result == Err::<(), APIError>(
                    misuse(ErrorKind::NoPeerState { counterparty_node_id }),
                )
            },
            self@.per_peer_state.contains_key(counterparty_node_id) ==> match self@.per_peer_state[
                counterparty_node_id
            ].orders.order_status(order_id, order_state, channel) {
                Ok(response) => {
                    &&& result == Ok::<(), APIError>(())
                    &&& final(pending_messages).pending() == old(pending_messages).pending().push(
                        (
                            counterparty_node_id,
                            LSPSMessage::LSPS1(
                                LSPS1Message::Response(
                                    request_id,
                                    LSPS1Response::GetOrder(GetOrderResponse { response }),
                                ),
                            ),
                        ),
                    )
                },
                Err(e) => {
                    &&& final(pending_messages).pending() == old(pending_messages).pending()
                    &&& result == Err::<(), APIError>(misuse(e))
                },
            },
    {
        match self.per_peer_state.get(&counterparty_node_id) {
            Some(peer_state) => match peer_state.orders.status_of(order_id, order_state, channel) {
                Ok(response) => {
                    Self::enqueue_response(
                        pending_messages,
                        &counterparty_node_id,
                        request_id,
                        LSPS1Response::GetOrder(GetOrderResponse { response }),
                    );
                    Ok(())
                },
                Err(e) => Err(misuse_error(e)),
            },
            None => Err(misuse_error(ErrorKind::NoPeerState { counterparty_node_id })),
        }
    }

    /// Takes in an LSPS1 message from a client.
    pub fn handle_message<MQ: MessageQueue<LSPSMessage>>(
        &mut self,
        message: LSPS1Message,
        counterparty_node_id: &PublicKey,
        pending_messages: &mut MQ,
        pending_events: &mut EventQueue,
    ) -> (result: Result<(), LightningError>)
        requires
            old(self)@.can_take_in(message),
        ensures
            match message {
                LSPS1Message::Request(request_id, LSPS1Request::GetInfo(_)) => {
                    &&& result == Ok::<(), LightningError>(())
                    &&& final(self)@ == old(self)@
                    &&& final(pending_events)@ == old(pending_events)@
                    &&& answered(
                        old(pending_messages).pending(),
                        final(pending_messages).pending(),
                        *counterparty_node_id,
                        request_id,
                        is_info(old(self)@.config.website->0, old(self)@.config.options_supported->0),
                    )
                },
                LSPS1Message::Request(request_id, LSPS1Request::CreateOrder(params)) => {
                    match old(self)@.refusal(params) {
                        None => {
                            &&& result == Ok::<(), LightningError>(())
                            &&& final(pending_messages).pending() == old(pending_messages).pending()
                            &&& (final(self)@, final(pending_events)@)
                                == old(self)@.after_order_request(
                                old(pending_events)@,
                                request_id,
                                *counterparty_node_id,
                                params,
                            )
                        },
                        Some(refusal) => {
                            &&& result == Err::<(), LightningError>(
                                info(ErrorKind::UnsupportedVersion { version: params.version }),
                            )
                            &&& final(self)@ == old(self)@
                            &&& final(pending_events)@ == old(pending_events)@
                            &&& answered(
                                old(pending_messages).pending(),
                                final(pending_messages).pending(),
                                *counterparty_node_id,
                                request_id,
                                is_order_error(refusal.answer()),
                            )
                        },
                    }
                },
                LSPS1Message::Request(request_id, LSPS1Request::GetOrder(params)) => {
                    &&& final(pending_messages).pending() == old(pending_messages).pending()
                    &&& (final(self)@, final(pending_events)@, result)
                        == old(self)@.after_order_asked(
                        old(pending_events)@,
                        request_id,
                        *counterparty_node_id,
                        params,
                    )
                },
                LSPS1Message::Response(_, _) => {
                    &&& final(self)@ == old(self)@
                    &&& final(pending_messages).pending() == old(pending_messages).pending()
                    &&& final(pending_events)@ == old(pending_events)@
                    &&& result == Err::<(), LightningError>(
                        info(
                            ErrorKind::ResponseAtService {
                                protocol: Protocol::LSPS1,
                                counterparty_node_id: *counterparty_node_id,
                            },
                        ),
                    )
                },
            },
    {
        match message {
            LSPS1Message::Request(request_id, request) => match request {
                LSPS1Request::GetInfo(_) => self.handle_get_info_request(
                    request_id,
                    counterparty_node_id,
                    pending_messages,
                ),
                LSPS1Request::CreateOrder(params) => self.handle_create_order_request(
                    request_id,
                    counterparty_node_id,
                    params,
                    pending_messages,
                    pending_events,
                ),
                LSPS1Request::GetOrder(params) => self.handle_get_order_request(
                    request_id,
                    counterparty_node_id,
                    params,
                    pending_events,
                ),
            },
            LSPS1Message::Response(_, _) => Err(
                info_error(
                    ErrorKind::ResponseAtService {
                        protocol: Protocol::LSPS1,
                        counterparty_node_id: *counterparty_node_id,
                    },
                ),
            ),
        }
    }
}

/// An order that is not refused is within the options, and every such order of a supported version
/// is accepted.
pub proof fn lemma_accepted_orders(options: OptionsSupported, params: CreateOrderRequest)
    ensures
        order_refusal(options, params) is None <==> supports_version(params.version)
            && options.supports(params.order),
{
}

/// A `create_order` request is accepted exactly where its version is the supported one, the balance of
/// the client, the balance of the LSP and the size of the channel are within their bounds, and its
/// lease is no longer than the longest one. An unsupported version is what is told first.
pub proof fn lemma_which_orders_are_accepted(service: LSPS1ServiceHandlerView, params: CreateOrderRequest)
    ensures
        ({
            let options = service.config.options_supported->0;
            let order = params.order;
            let within = {
                &&& options.min_initial_client_balance_sat <= order.client_balance_sat
                &&& order.client_balance_sat <= options.max_initial_client_balance_sat
                &&& options.min_initial_lsp_balance_sat <= order.lsp_balance_sat
                &&& order.lsp_balance_sat <= options.max_initial_lsp_balance_sat
                &&& options.min_channel_balance_sat <= order.lsp_balance_sat
                    + order.client_balance_sat
                &&& order.lsp_balance_sat + order.client_balance_sat
                    <= options.max_channel_balance_sat
                &&& order.channel_expiry_blocks <= options.max_channel_expiry_blocks
            };
            &&& service.refusal(params) is None <==> params.version == 1 && within
            &&& params.version != 1 ==> service.refusal(params) == Some(
                OrderRefusal::UnsupportedVersion { version: params.version },
            )
            &&& params.version == 1 && !within ==> service.refusal(params) == Some(
                OrderRefusal::OrderMismatch { options },
            )
        }),
{
}

/// An order that is accepted stays accepted with a shorter lease.
pub proof fn lemma_shorter_leases_are_accepted(
    service: LSPS1ServiceHandlerView,
    params: CreateOrderRequest,
    shorter: CreateOrderRequest,
)
    requires
        service.refusal(params) is None,
        shorter.version == params.version,
        shorter.order.client_balance_sat == params.order.client_balance_sat,
        shorter.order.lsp_balance_sat == params.order.lsp_balance_sat,
        shorter.order.channel_expiry_blocks <= params.order.channel_expiry_blocks,
    ensures
        service.refusal(shorter) is None,
{
}

/// An accepted order awaits an invoice, beside what awaited our answer before, and the user is told
/// what was ordered. Nothing else changes.
pub proof fn lemma_accepted_orders_await_an_invoice(
    service: LSPS1ServiceHandlerView,
    events: Seq<Event>,
    request_id: RequestId,
    node: PublicKey,
    params: CreateOrderRequest,
)
    ensures
        ({
            let (after, told) = service.after_order_request(events, request_id, node, params);
            let known = service.per_peer_state.contains_key(node);
            let before = service.per_peer_state[node];
            &&& told == events.push(
                Event::LSPS1Service(
                    LSPS1ServiceEvent::CreateInvoice {
                        request_id,
                        counterparty_node_id: node,
                        order: params.order,
                    },
                ),
            )
            &&& after.per_peer_state == service.per_peer_state.insert(
                node,
                after.per_peer_state[node],
            )
            &&& after.per_peer_state[node].orders.pending_requests == (if known {
                before.orders.pending_requests
            } else {
                Map::<Seq<char>, LSPS1Request>::empty()
            }).insert(request_id.0@, LSPS1Request::CreateOrder(params))
            &&& known ==> {
                &&& after.per_peer_state[node].request_to_cid == before.request_to_cid
                &&& after.per_peer_state[node].orders.outbound_channels_by_order_id
                    == before.orders.outbound_channels_by_order_id
            }
            &&& after.config == service.config
        }),
{
}

/// The first `get_order` request for an order has the user check its payment, a further one has the
/// user refund it, and one for an order that is not there has the user do nothing.
pub proof fn lemma_what_asking_for_an_order_leads_to(
    service: LSPS1ServiceHandlerView,
    events: Seq<Event>,
    request_id: RequestId,
    node: PublicKey,
    params: GetOrderRequest,
)
    ensures
        ({
            let (after, told, result) = service.after_order_asked(events, request_id, node, params);
            let known = service.per_peer_state.contains_key(node);
            let before = service.per_peer_state[node];
            let orders = before.orders.outbound_channels_by_order_id;
            let ordered = known && orders.contains_key(params.order_id.0@);
            let order = orders[params.order_id.0@];
            let fresh = ordered && order.state is OrderCreated;
            &&& result is Ok <==> fresh
            &&& fresh ==> {
                let next = after.per_peer_state[node].orders;
                &&& told == events.push(
                    Event::LSPS1Service(
                        LSPS1ServiceEvent::CheckPaymentConfirmation {
                            request_id,
                            counterparty_node_id: node,
                            order_id: params.order_id,
                        },
                    ),
                )
                &&& next.outbound_channels_by_order_id == orders.insert(
                    params.order_id.0@,
                    next.outbound_channels_by_order_id[params.order_id.0@],
                )
                &&& next.outbound_channels_by_order_id[params.order_id.0@].config == order.config
                &&& next.outbound_channels_by_order_id[params.order_id.0@].state == (
                OutboundRequestState::WaitingPayment {
                    order_id: order.state->OrderCreated_order_id,
                })
                &&& next.pending_requests == before.orders.pending_requests.insert(
                    request_id.0@,
                    LSPS1Request::GetOrder(params),
                )
            }
            &&& ordered && !fresh ==> {
                &&& told == events.push(
                    Event::LSPS1Service(
                        LSPS1ServiceEvent::Refund {
                            request_id,
                            counterparty_node_id: node,
                            order_id: params.order_id,
                        },
                    ),
                )
                &&& after.per_peer_state[node].orders.outbound_channels_by_order_id == orders.remove(
                    params.order_id.0@,
                )
                &&& after.per_peer_state[node].orders.pending_requests
                    == before.orders.pending_requests
            }
            &&& !ordered ==> told == events
            &&& known && !ordered ==> after.per_peer_state[node] == before && result->Err_0.err == (
            ErrorKind::UnknownOrder { order_id: params.order_id })
            &&& known ==> {
                &&& after.per_peer_state == service.per_peer_state.insert(
                    node,
                    after.per_peer_state[node],
                )
                &&& after.per_peer_state[node].request_to_cid == before.request_to_cid
            }
            &&& !known ==> after == service && result->Err_0.err == (ErrorKind::UnknownRequester {
                request: PeerRequest::GetOrder,
                counterparty_node_id: node,
            })
            &&& after.config == service.config
        }),
{
}

/// What a refusal tells the client: its code, and what the LSP supports instead.
pub proof fn lemma_how_orders_are_refused(refusal: OrderRefusal)
    ensures
        match refusal {
            OrderRefusal::UnsupportedVersion { version } => {
                &&& refusal.answer().code == 1
                &&& refusal.answer().message == unsupported_version_text(version)
                &&& refusal.answer().data == Some("Supported versions are [1]"@)
            },
            OrderRefusal::OrderMismatch { options } => {
                &&& refusal.answer().code == 1000
                &&& refusal.answer().message
                    == "Order does not match options supported by LSP server"@
                &&& refusal.answer().data == Some(options.listing())
            },
        },
{
}

/// An answer is one more message, to the client that asked and under the id of its request, and it says
/// what it is to say: the supported version, the website and the options, why an order is refused, or
/// the order that was made of the request.
pub proof fn lemma_what_answers_say(
    before: Seq<(PublicKey, LSPSMessage)>,
    after: Seq<(PublicKey, LSPSMessage)>,
    node: PublicKey,
    request_id: RequestId,
    describes: spec_fn(LSPS1Response) -> bool,
    response: LSPS1Response,
    website: String,
    options: OptionsSupported,
    error: ResponseErrorView,
    orders: OrdersView,
    orders_after: OrdersView,
    entropy: Seq<u8>,
    payment: OrderPayment,
    created_at: UtcDateTime,
    expires_at: UtcDateTime,
)
    ensures
        answered(before, after, node, request_id, describes) ==> {
            &&& after.len() == before.len() + 1
            &&& forall|i: int| 0 <= i < before.len() ==> #[trigger] after[i] == before[i]
            &&& after.last().0 == node
            &&& after.last().1 matches LSPSMessage::LSPS1(LSPS1Message::Response(id, said)) && id
                == request_id && describes(said)
        },
        is_info(website, options)(response) ==> {
            &&& response matches LSPS1Response::GetInfo(listed)
            &&& listed.supported_versions@.len() == 1
            &&& listed.supported_versions@[0] == 1
            &&& listed.website == website
            &&& listed.options == options
        },
        is_order_error(error)(response) ==> response is CreateOrderError
            && response->CreateOrderError_0@ == error,
        is_order_made(
            orders,
            orders_after,
            request_id,
            entropy,
            payment,
            created_at,
            expires_at,
        )(response) ==> {
            let asked = orders.pending_requests[request_id.0@];
            &&& response matches LSPS1Response::CreateOrder(made)
            &&& orders.pending_requests.contains_key(request_id.0@)
            &&& asked is CreateOrder
            &&& made.order_id.0@ == request_id_text(entropy)
            &&& made.order == asked->CreateOrder_0.order
            &&& made.payment == payment
            &&& made.created_at == created_at
            &&& made.expires_at == expires_at
            &&& made.order_state is Created
            &&& made.channel is None
            &&& orders_after.pending_requests == orders.pending_requests.remove(request_id.0@)
            &&& orders_after.outbound_channels_by_order_id
                == orders.outbound_channels_by_order_id.insert(
                made.order_id.0@,
                orders_after.outbound_channels_by_order_id[made.order_id.0@],
            )
        },
{
    if answered(before, after, node, request_id, describes) {
        assert forall|i: int| 0 <= i < before.len() implies #[trigger] after[i] == before[i] by {
            assert(after.drop_last()[i] == before[i]);
        }
    }
}

/// A change concerns the orders of one client. The service can answer every message once its options
/// and its website are set, and without them all but those that ask for them.
pub proof fn lemma_changes_are_local(
    service: LSPS1ServiceHandlerView,
    node: PublicKey,
    orders: OrdersView,
    message: LSPS1Message,
)
    ensures
        ({
            let after = service.with_orders(node, orders);
            &&& after.per_peer_state == service.per_peer_state.insert(
                node,
                after.per_peer_state[node],
            )
            &&& after.per_peer_state[node].orders == orders
            &&& service.per_peer_state.contains_key(node) ==> {
                &&& service.peer(node) == service.per_peer_state[node]
                &&& after.per_peer_state[node].request_to_cid
                    == service.per_peer_state[node].request_to_cid
            }
            &&& !service.per_peer_state.contains_key(node) ==> {
                &&& service.peer(node).orders.pending_requests == Map::<
                    Seq<char>,
                    LSPS1Request,
                >::empty()
                &&& service.peer(node).orders.outbound_channels_by_order_id == Map::<
                    Seq<char>,
                    OutboundCRChannel,
                >::empty()
                &&& service.peer(node).request_to_cid == Map::<Seq<char>, u128>::empty()
            }
            &&& after.config == service.config
        }),
        service.config.options_supported is Some && service.config.website is Some
            ==> service.can_take_in(message),
        !(message is Request && (message->Request_1 is GetInfo || message->Request_1 is CreateOrder))
            ==> service.can_take_in(message),
{
}

/// A `create_order` request is accepted exactly where its version is the supported one, the balance of
/// the client, the balance of the LSP and the size of the channel are within their bounds, and its lease
/// is no longer than the longest one. It then awaits an invoice, and the user is told of it. Any other
/// request changes nothing, and the client is told so under the id of its request.
pub proof fn lemma_orders_within_the_options_are_accepted<MQ: MessageQueue<LSPSMessage>>(
    service: &mut LSPS1ServiceHandler,
    request_id: RequestId,
    params: CreateOrderRequest,
    node: PublicKey,
    messages: &mut MQ,
    events: &mut EventQueue,
    result: Result<(), LightningError>,
)
    requires
        call_ensures(
            LSPS1ServiceHandler::handle_message::<MQ>,
            (
                service,
                LSPS1Message::Request(request_id, LSPS1Request::CreateOrder(params)),
                &node,
                messages,
                events,
            ),
            result,
        ),
    ensures
        ({
            let before = old(service)@;
            let after = final(service)@;
            let offered = before.config.options_supported->0;
            let order = params.order;
            let accepted = {
                &&& params.version == 1
                &&& offered.min_initial_client_balance_sat <= order.client_balance_sat
                &&& order.client_balance_sat <= offered.max_initial_client_balance_sat
                &&& offered.min_initial_lsp_balance_sat <= order.lsp_balance_sat
                &&& order.lsp_balance_sat <= offered.max_initial_lsp_balance_sat
                &&& offered.min_channel_balance_sat <= order.lsp_balance_sat
                    + order.client_balance_sat
                &&& order.lsp_balance_sat + order.client_balance_sat
                    <= offered.max_channel_balance_sat
                &&& order.channel_expiry_blocks <= offered.max_channel_expiry_blocks
            };
            let known = before.per_peer_state.contains_key(node);
            let peer = before.per_peer_state[node];
            let next = after.per_peer_state[node];
            &&& result is Ok <==> accepted
            &&& accepted ==> {
                &&& final(messages).pending() == old(messages).pending()
                &&& final(events)@ == old(events)@.push(
                    Event::LSPS1Service(
                        LSPS1ServiceEvent::CreateInvoice {
                            request_id,
                            counterparty_node_id: node,
                            order,
                        },
                    ),
                )
                &&& after.per_peer_state == before.per_peer_state.insert(node, next)
                &&& next.orders.pending_requests == (if known {
                    peer.orders.pending_requests
                } else {
                    Map::<Seq<char>, LSPS1Request>::empty()
                }).insert(request_id.0@, LSPS1Request::CreateOrder(params))
                &&& known ==> next.orders.outbound_channels_by_order_id
                    == peer.orders.outbound_channels_by_order_id
            }
            &&& !accepted ==> {
                &&& result->Err_0.err == (ErrorKind::UnsupportedVersion {
                    version: params.version,
                })
                &&& after == before
                &&& final(events)@ == old(events)@
                &&& final(messages).pending().len() == old(messages).pending().len() + 1
                &&& final(messages).pending().drop_last() == old(messages).pending()
                &&& final(messages).pending().last().0 == node
                &&& final(messages).pending().last().1 matches LSPSMessage::LSPS1(
                    LSPS1Message::Response(id, LSPS1Response::CreateOrderError(error)),
                ) && id == request_id && (params.version != 1 ==> error.code == 1) && (
                params.version == 1 ==> error.code == 1000)
            }
            &&& after.config == before.config
        }),
{
}

/// An invoice makes an order of the request that asked for one: the client is told the order that it
/// asked for, under an id made of the given randomness and with the terms that were set. The request is
/// answered then. Where there is no such request, nothing is sent and no order is made.
pub proof fn lemma_invoices_make_orders<MQ: MessageQueue<LSPSMessage>>(
    service: &mut LSPS1ServiceHandler,
    request_id: RequestId,
    node: PublicKey,
    payment: OrderPayment,
    created_at: UtcDateTime,
    expires_at: UtcDateTime,
    order_entropy: [u8; 32],
    messages: &mut MQ,
    result: Result<(), APIError>,
)
    requires
        call_ensures(
            LSPS1ServiceHandler::send_invoice_for_order::<MQ>,
            (
                service,
                request_id,
                &node,
                payment,
                created_at,
                expires_at,
                &order_entropy,
                messages,
            ),
            result,
        ),
    ensures
        ({
            let before = old(service)@;
            let after = final(service)@;
            let known = before.per_peer_state.contains_key(node);
            let peer = before.per_peer_state[node];
            let next = after.per_peer_state[node];
            let asked = known && peer.orders.pending_requests.contains_key(request_id.0@)
                && peer.orders.pending_requests[request_id.0@] is CreateOrder;
            let order = peer.orders.pending_requests[request_id.0@]->CreateOrder_0.order;
            let order_id = request_id_text(order_entropy@);
            let made = next.orders.outbound_channels_by_order_id[order_id];
            &&& result is Ok <==> asked
            &&& !asked ==> final(messages).pending() == old(messages).pending()
            &&& asked ==> {
                &&& final(messages).pending().len() == old(messages).pending().len() + 1
                &&& final(messages).pending().drop_last() == old(messages).pending()
                &&& final(messages).pending().last().0 == node
                &&& final(messages).pending().last().1 matches LSPSMessage::LSPS1(
                    LSPS1Message::Response(id, LSPS1Response::CreateOrder(told)),
                ) && {
                    &&& id == request_id
                    &&& told.order_id.0@ == order_id
                    &&& told.order == order
                    &&& told.payment == payment
                    &&& told.created_at == created_at
                    &&& told.expires_at == expires_at
                    &&& told.order_state is Created
                    &&& told.channel is None
                }
                &&& next.orders.outbound_channels_by_order_id
                    == peer.orders.outbound_channels_by_order_id.insert(order_id, made)
                &&& made.state is OrderCreated
                &&& made.config.order == order
                &&& made.config.payment == payment
                &&& made.config.created_at == created_at
                &&& made.config.expires_at == expires_at
            }
            &&& known && !asked ==> next.orders.outbound_channels_by_order_id
                == peer.orders.outbound_channels_by_order_id
            &&& known ==> {
                &&& after.per_peer_state == before.per_peer_state.insert(node, next)
                &&& next.orders.pending_requests == peer.orders.pending_requests.remove(
                    request_id.0@,
                )
                &&& next.request_to_cid == peer.request_to_cid
            }
            &&& !known ==> after == before && result->Err_0->err == (ErrorKind::NoPeerState {
                counterparty_node_id: node,
            })
            &&& known && !asked ==> result->Err_0->err == (ErrorKind::NoPendingRequest {
                request: PeerRequest::CreateOrder,
                request_id,
            })
            &&& after.config == before.config
        }),
{
}

/// A client is told the terms that its order was made on, and the state that is given, under the id of
/// its request. Of an order that is not there it is told nothing.
pub proof fn lemma_clients_are_told_of_orders<MQ: MessageQueue<LSPSMessage>>(
    service: LSPS1ServiceHandler,
    request_id: RequestId,
    node: PublicKey,
    order_id: OrderId,
    order_state: OrderState,
    channel: Option<ChannelInfo>,
    messages: &mut MQ,
    result: Result<(), APIError>,
)
    requires
        call_ensures(
            LSPS1ServiceHandler::update_order_status::<MQ>,
            (&service, request_id, node, order_id, order_state, channel, messages),
            result,
        ),
    ensures
        ({
            let orders = service@.per_peer_state[node].orders.outbound_channels_by_order_id;
            let known = service@.per_peer_state.contains_key(node) && orders.contains_key(
                order_id.0@,
            );
            let config = orders[order_id.0@].config;
            &&& result is Ok <==> known
            &&& !service@.per_peer_state.contains_key(node) ==> result->Err_0->err == (
            ErrorKind::NoPeerState { counterparty_node_id: node })
            &&& service@.per_peer_state.contains_key(node) && !known ==> result->Err_0->err == (
            ErrorKind::OrderNotFound { order_id })
            &&& !known ==> final(messages).pending() == old(messages).pending()
            &&& known ==> {
                &&& final(messages).pending().len() == old(messages).pending().len() + 1
                &&& final(messages).pending().drop_last() == old(messages).pending()
                &&& final(messages).pending().last().0 == node
                &&& final(messages).pending().last().1 matches LSPSMessage::LSPS1(
                    LSPS1Message::Response(id, LSPS1Response::GetOrder(told)),
                ) && {
                    &&& id == request_id
                    &&& told.response.order_id == order_id
                    &&& told.response.order == config.order
                    &&& told.response.payment == config.payment
                    &&& told.response.created_at == config.created_at
                    &&& told.response.expires_at == config.expires_at
                    &&& told.response.order_state == order_state
                    &&& told.response.channel == channel
                }
            }
        }),
{
}

/// What the other messages of a peer lead to. Asked for its options, the service lists them with its website
/// and the supported version. A request for an order goes to the step that takes it in. The service
/// takes in no responses: they are reported as such.
pub proof fn lemma_other_messages_at_the_service<MQ: MessageQueue<LSPSMessage>>(
    service: &mut LSPS1ServiceHandler,
    message: LSPS1Message,
    node: PublicKey,
    messages: &mut MQ,
    events: &mut EventQueue,
    result: Result<(), LightningError>,
)
    requires
        call_ensures(
            LSPS1ServiceHandler::handle_message::<MQ>,
            (service, message, &node, messages, events),
            result,
        ),
    ensures
        ({
            let before = old(service)@;
            let after = final(service)@;
            let told = final(events)@;
            &&& message is Response ==> final(messages).pending() == old(messages).pending()
            &&& match message {
                LSPS1Message::Request(request_id, LSPS1Request::GetInfo(_)) => {
                    &&& result is Ok
                    &&& after == before
                    &&& told == old(events)@
                    &&& final(messages).pending().len() == old(messages).pending().len() + 1
                    &&& final(messages).pending().drop_last() == old(messages).pending()
                    &&& final(messages).pending().last().0 == node
                    &&& final(messages).pending().last().1 matches LSPSMessage::LSPS1(
                        LSPS1Message::Response(id, LSPS1Response::GetInfo(listed)),
                    ) && {
                        &&& id == request_id
                        &&& listed.supported_versions@.len() == 1
                        &&& listed.supported_versions@[0] == 1
                        &&& listed.website == before.config.website->0
                        &&& listed.options == before.config.options_supported->0
                    }
                },
                LSPS1Message::Request(request_id, LSPS1Request::GetOrder(params)) => {
                    &&& final(messages).pending() == old(messages).pending()
                    &&& (after, told, result) == before.after_order_asked(
                        old(events)@,
                        request_id,
                        node,
                        params,
                    )
                },
                LSPS1Message::Response(_, _) => {
                    &&& after == before
                    &&& told == old(events)@
                    &&& result is Err
                    &&& result->Err_0.err == (ErrorKind::ResponseAtService {
                        protocol: Protocol::LSPS1,
                        counterparty_node_id: node,
                    })
                },
                LSPS1Message::Request(_, LSPS1Request::CreateOrder(_)) => true,
            }
        }),
{
}

/// A new service has been asked nothing yet, and keeps its configuration.
pub proof fn lemma_services_start_empty(
    config: LSPS1ServiceConfig,
    service: LSPS1ServiceHandler,
    configured: bool,
)
    requires
        call_ensures(LSPS1ServiceHandler::new, (config, ), service),
        call_ensures(LSPS1ServiceHandler::is_configured, (&service, ), configured),
    ensures
        forall|node: PublicKey| !#[trigger] service@.per_peer_state.contains_key(node),
        service@.config.token == config.token,
        service@.config.options_supported == config.options_supported,
        service@.config.website == config.website,
        configured <==> config.options_supported is Some && config.website is Some,
{
}

} // verus!
