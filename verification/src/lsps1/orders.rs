//! The orders that a client has placed with us as LSP.

use vstd::prelude::*;

use crate::collections::KeyedMap;
use crate::errors::{
    info, ChannelState, ChannelStateError, ErrorKind, LightningError, PeerRequest,
};
use crate::lsps0::msgs::RequestId;
use crate::lsps1::msgs::{
    ChannelInfo, CreateOrderResponse, GetOrderRequest, OptionsSupported, OrderId, OrderParams,
    OrderPayment, OrderState, UtcDateTime,
};
use crate::lsps1::utils::is_valid;
use crate::utils::{hex_str, request_id_text};
use crate::versioned_msgs::{CreateOrderRequest, LSPS1Request};

verus! {

/// How far an order has come.
#[derive(Debug, PartialEq, Eq)]
pub enum OutboundRequestState {
    OrderCreated { order_id: OrderId },
    WaitingPayment { order_id: OrderId },
    Ready,
}

impl OutboundRequestState {
    /// Tells the state in an error.
    fn channel_state(&self) -> (state: ChannelState)
        ensures
            state == ChannelState::Order(*self),
    {
        ChannelState::Order(
            match self {
                OutboundRequestState::OrderCreated { order_id } => OutboundRequestState::OrderCreated {
                    order_id: order_id.clone(),
                },
                OutboundRequestState::WaitingPayment { order_id } => OutboundRequestState::WaitingPayment {
                    order_id: order_id.clone(),
                },
                OutboundRequestState::Ready => OutboundRequestState::Ready,
            },
        )
    }

    /// The state after the client has asked for the order, which then waits for payment.
    pub open spec fn after_invoice(self) -> Result<Self, ErrorKind> {
        match self {
            OutboundRequestState::OrderCreated { order_id } => Ok(
                OutboundRequestState::WaitingPayment { order_id },
            ),
            _ => Err(ErrorKind::UnexpectedInvoiceRequest { state: ChannelState::Order(self) }),
        }
    }

    /// Goes on from the client asking for the order.
    pub fn create_payment_invoice(&self) -> (next: Result<Self, ChannelStateError>)
        ensures
            next == (match self.after_invoice() {
                Ok(state) => Ok(state),
                Err(e) => Err(ChannelStateError(e)),
            }),
    {
        match self {
            OutboundRequestState::OrderCreated { order_id } => Ok(
                OutboundRequestState::WaitingPayment { order_id: order_id.clone() },
            ),
            _ => Err(
                ChannelStateError(ErrorKind::UnexpectedInvoiceRequest { state: self.channel_state() }),
            ),
        }
    }
}

/// What was agreed for an order.
#[derive(Debug, PartialEq, Eq)]
pub struct OutboundCRChannelConfig {
    pub order: OrderParams,
    pub created_at: UtcDateTime,
    pub expires_at: UtcDateTime,
    pub payment: OrderPayment,
}

/// A channel that a client has ordered.
#[derive(Debug, PartialEq, Eq)]
pub struct OutboundCRChannel {
    pub state: OutboundRequestState,
    pub config: OutboundCRChannelConfig,
}

impl View for OutboundCRChannel {
    type V = OutboundCRChannel;

    open spec fn view(&self) -> OutboundCRChannel {
        *self
    }
}

impl OutboundCRChannel {
    /// Creates a channel for a new order.
    pub fn new(
        order: OrderParams,
        created_at: UtcDateTime,
        expires_at: UtcDateTime,
        order_id: OrderId,
        payment: OrderPayment,
    ) -> (channel: Self)
        ensures
            channel == (OutboundCRChannel {
                state: OutboundRequestState::OrderCreated { order_id },
                config: OutboundCRChannelConfig { order, created_at, expires_at, payment },
            }),
    {
        OutboundCRChannel {
            state: OutboundRequestState::OrderCreated { order_id },
            config: OutboundCRChannelConfig { order, created_at, expires_at, payment },
        }
    }

    /// Goes on from the client asking for the order.
    pub fn create_payment_invoice(&mut self) -> (result: Result<(), LightningError>)
        ensures
            match old(self).state.after_invoice() {
                Ok(state) => *final(self) == (OutboundCRChannel { state, ..*old(self) })
                    && result == Ok::<(), LightningError>(()),
                Err(e) => *final(self) == *old(self) && result == Err::<(), LightningError>(
                    info(e),
                ),
            },
    {
        match self.state.create_payment_invoice() {
            Ok(state) => {
                self.state = state;
                Ok(())
            },
            Err(e) => Err(LightningError::from(e)),
        }
    }

    /// Returns whether the order is within the options that an LSP supports.
    pub fn check_order_validity(&self, options_supported: &OptionsSupported) -> (valid: bool)
        ensures
            valid == options_supported.supports(self.config.order),
    {
        is_valid(&self.config.order, options_supported)
    }
}

/// The orders of one client, and the requests that await our answer.
pub struct Orders {
    pub outbound_channels_by_order_id: KeyedMap<OrderId, OutboundCRChannel>,
    pub pending_requests: KeyedMap<RequestId, LSPS1Request>,
}

/// The contents of [`Orders`].
#[verifier::ext_equal]
pub struct OrdersView {
    pub outbound_channels_by_order_id: Map<Seq<char>, OutboundCRChannel>,
    pub pending_requests: Map<Seq<char>, LSPS1Request>,
}

impl View for Orders {
    type V = OrdersView;

    open spec fn view(&self) -> OrdersView {
        OrdersView {
            outbound_channels_by_order_id: self.outbound_channels_by_order_id@,
            pending_requests: self.pending_requests@,
        }
    }
}

impl OrdersView {
    /// No order and no request.
    pub open spec fn empty() -> Self {
        OrdersView { outbound_channels_by_order_id: Map::empty(), pending_requests: Map::empty() }
    }

    /// With a request of the client that awaits our answer.
    pub open spec fn with_pending(self, request_id: Seq<char>, request: LSPS1Request) -> Self {
        OrdersView { pending_requests: self.pending_requests.insert(request_id, request), ..self }
    }

    /// Without a request of the client.
    pub open spec fn without_pending(self, request_id: Seq<char>) -> Self {
        OrdersView { pending_requests: self.pending_requests.remove(request_id), ..self }
    }

    /// With an order added or replaced.
    pub open spec fn with_order(self, order_id: Seq<char>, channel: OutboundCRChannel) -> Self {
        OrdersView {
            outbound_channels_by_order_id: self.outbound_channels_by_order_id.insert(
                order_id,
                channel,
            ),
            ..self
        }
    }

    /// Without an order.
    pub open spec fn without_order(self, order_id: Seq<char>) -> Self {
        OrdersView {
            outbound_channels_by_order_id: self.outbound_channels_by_order_id.remove(order_id),
            ..self
        }
    }

    /// Whether a `create_order` request with the given id awaits our answer.
    pub open spec fn awaits_invoice(self, request_id: Seq<char>) -> bool {
        self.pending_requests.contains_key(request_id) && self.pending_requests[request_id]
            is CreateOrder
    }

    /// What the invoice for a `create_order` request leads to: a new order.
    ///
    /// The request is no longer pending afterwards, whatever it was.
    pub open spec fn invoice_step(
        self,
        request_id: RequestId,
        order_id: OrderId,
        payment: OrderPayment,
        created_at: UtcDateTime,
        expires_at: UtcDateTime,
    ) -> (OrdersView, Result<CreateOrderResponse, ErrorKind>) {
        let ended = self.without_pending(request_id.0@);
        if self.awaits_invoice(request_id.0@) {
            let order = self.pending_requests[request_id.0@]->CreateOrder_0.order;
            (
                ended.with_order(
                    order_id.0@,
                    OutboundCRChannel {
                        state: OutboundRequestState::OrderCreated { order_id },
                        config: OutboundCRChannelConfig { order, created_at, expires_at, payment },
                    },
                ),
                Ok(
                    CreateOrderResponse {
                        order_id,
                        order,
                        created_at,
                        expires_at,
                        order_state: OrderState::Created,
                        payment,
                        channel: None,
                    },
                ),
            )
        } else {
            (
                ended,
                Err(
                    ErrorKind::NoPendingRequest { request: PeerRequest::CreateOrder, request_id },
                ),
            )
        }
    }

    /// What a `get_order` request leads to: the order waits for payment, and the request for our
    /// answer. An order that was asked for before is given up.
    pub open spec fn order_asked_step(self, request_id: RequestId, params: GetOrderRequest) -> (
        OrdersView,
        Result<(), ErrorKind>,
    ) {
        if !self.outbound_channels_by_order_id.contains_key(params.order_id.0@) {
            (self, Err(ErrorKind::UnknownOrder { order_id: params.order_id }))
        } else {
            let channel = self.outbound_channels_by_order_id[params.order_id.0@];
            match channel.state.after_invoice() {
                Ok(state) => (
                    self.with_order(
                        params.order_id.0@,
                        OutboundCRChannel { state, ..channel },
                    ).with_pending(request_id.0@, LSPS1Request::GetOrder(params)),
                    Ok(()),
                ),
                Err(e) => (self.without_order(params.order_id.0@), Err(e)),
            }
        }
    }

    /// What a client is told about an order.
    pub open spec fn order_status(
        self,
        order_id: OrderId,
        order_state: OrderState,
        channel: Option<ChannelInfo>,
    ) -> Result<CreateOrderResponse, ErrorKind> {
        if self.outbound_channels_by_order_id.contains_key(order_id.0@) {
            let config = self.outbound_channels_by_order_id[order_id.0@].config;
            Ok(
                CreateOrderResponse {
                    order_id,
                    order: config.order,
                    created_at: config.created_at,
                    expires_at: config.expires_at,
                    order_state,
                    payment: config.payment,
                    channel,
                },
            )
        } else {
            Err(ErrorKind::OrderNotFound { order_id })
        }
    }
}

impl Orders {
    /// Creates an empty list of orders.
    pub fn new() -> (orders: Self)
        ensures
            orders@ == OrdersView::empty(),
    {
        Orders {
            outbound_channels_by_order_id: KeyedMap::new(),
            pending_requests: KeyedMap::new(),
        }
    }

    /// Notes a `create_order` request that awaits an invoice.
    pub fn order_requested(&mut self, request_id: RequestId, params: CreateOrderRequest)
        ensures
            final(self)@ == old(self)@.with_pending(
                request_id.0@,
                LSPS1Request::CreateOrder(params),
            ),
    {
        self.pending_requests.insert(request_id, LSPS1Request::CreateOrder(params));
    }

    /// Makes an order of a `create_order` request.
    pub fn invoice_created(
        &mut self,
        request_id: &RequestId,
        order_id: OrderId,
        payment: OrderPayment,
        created_at: UtcDateTime,
        expires_at: UtcDateTime,
    ) -> (response: Result<CreateOrderResponse, ErrorKind>)
        ensures
            (final(self)@, response) == old(self)@.invoice_step(
                *request_id,
                order_id,
                payment,
                created_at,
                expires_at,
            ),
    {
        match self.pending_requests.remove(request_id) {
            Some(LSPS1Request::CreateOrder(params)) => {
                let channel = OutboundCRChannel::new(
                    params.order.clone(),
                    created_at,
                    expires_at,
                    order_id.clone(),
                    payment.clone(),
                );
                self.outbound_channels_by_order_id.insert(order_id.clone(), channel);
                Ok(
                    CreateOrderResponse {
                        order: params.order,
                        order_id,
                        order_state: OrderState::Created,
                        created_at,
                        expires_at,
                        payment,
                        channel: None,
                    },
                )
            },
            _ => Err(
                ErrorKind::NoPendingRequest {
                    request: PeerRequest::CreateOrder,
                    request_id: request_id.clone(),
                },
            ),
        }
    }

    /// Goes on from a `get_order` request.
    pub fn order_asked(&mut self, request_id: RequestId, params: GetOrderRequest) -> (result: Result<
        (),
        ErrorKind,
    >)
        ensures
            (final(self)@, result) == old(self)@.order_asked_step(request_id, params),
    {
        match self.outbound_channels_by_order_id.remove(&params.order_id) {
            Some(mut channel) => match channel.create_payment_invoice() {
                Ok(()) => {
                    self.outbound_channels_by_order_id.insert(params.order_id.clone(), channel);
                    self.pending_requests.insert(request_id, LSPS1Request::GetOrder(params));
                    assert(self@.outbound_channels_by_order_id
                        =~= old(self)@.outbound_channels_by_order_id.insert(
                        params.order_id.0@,
                        channel,
                    ));
                    Ok(())
                },
                Err(e) => Err(e.err),
            },
            None => Err(ErrorKind::UnknownOrder { order_id: params.order_id }),
        }
    }

    /// Makes what a client is told about an order.
    pub fn status_of(
        &self,
        order_id: OrderId,
        order_state: OrderState,
        channel: Option<ChannelInfo>,
    ) -> (response: Result<CreateOrderResponse, ErrorKind>)
        ensures
            response == self@.order_status(order_id, order_state, channel),
    {
        match self.outbound_channels_by_order_id.get(&order_id) {
            Some(outbound_channel) => Ok(
                CreateOrderResponse {
                    order_id,
                    order: outbound_channel.config.order.clone(),
                    order_state,
                    created_at: outbound_channel.config.created_at,
                    expires_at: outbound_channel.config.expires_at,
                    payment: outbound_channel.config.payment.clone(),
                    channel,
                },
            ),
            None => Err(ErrorKind::OrderNotFound { order_id }),
        }
    }
}

/// Makes an order id of the first 16 of 32 random bytes.
pub fn generate_order_id(entropy: &[u8; 32]) -> (order_id: OrderId)
    ensures
        order_id.0@ == request_id_text(entropy@),
{
    let bytes = vstd::slice::slice_subrange(entropy.as_slice(), 0, 16);
    assert(bytes@ =~= entropy@.take(16));
    OrderId(hex_str(bytes))
}

/// An order that was made of a request can be asked for once: it then waits for payment, and
/// asking a second time gives it up.
pub proof fn lemma_order_is_asked_for_once(
    orders: OrdersView,
    request_id: RequestId,
    order_id: OrderId,
    payment: OrderPayment,
    created_at: UtcDateTime,
    expires_at: UtcDateTime,
    first: RequestId,
    second: RequestId,
)
    requires
        orders.awaits_invoice(request_id.0@),
    ensures
        ({
            let params = GetOrderRequest { order_id };
            let (created, response) = orders.invoice_step(
                request_id,
                order_id,
                payment,
                created_at,
                expires_at,
            );
            let (asked, asked_result) = created.order_asked_step(first, params);
            let (given_up, given_up_result) = asked.order_asked_step(second, params);
            &&& response is Ok
            &&& asked_result == Ok::<(), ErrorKind>(())
            &&& asked.outbound_channels_by_order_id[order_id.0@].state
                == (OutboundRequestState::WaitingPayment { order_id })
            &&& given_up_result == Err::<(), ErrorKind>(
                ErrorKind::UnexpectedInvoiceRequest {
                    state: ChannelState::Order(OutboundRequestState::WaitingPayment { order_id }),
                },
            )
            &&& !given_up.outbound_channels_by_order_id.contains_key(order_id.0@)
        }),
{
}

/// A client is told about an order what was told when the order was made.
pub proof fn lemma_order_keeps_its_terms(
    orders: OrdersView,
    request_id: RequestId,
    order_id: OrderId,
    payment: OrderPayment,
    created_at: UtcDateTime,
    expires_at: UtcDateTime,
    asked: RequestId,
    order_state: OrderState,
    channel: Option<ChannelInfo>,
)
    requires
        orders.awaits_invoice(request_id.0@),
    ensures
        ({
            let (created, response) = orders.invoice_step(
                request_id,
                order_id,
                payment,
                created_at,
                expires_at,
            );
            let (waiting, _) = created.order_asked_step(asked, GetOrderRequest { order_id });
            &&& response is Ok
            &&& waiting.order_status(order_id, order_state, channel) == Ok::<
                CreateOrderResponse,
                ErrorKind,
            >(CreateOrderResponse { order_state, channel, ..response->Ok_0 })
        }),
{
}

/// The invoice for a request makes an order exactly where the request is a `create_order` request that
/// awaits our answer: the order is the one that was asked for, with the terms that were set for it,
/// and the client is told them. The request is answered either way, and other orders and requests are
/// left alone.
pub proof fn lemma_orders_are_made_as_asked(
    orders: OrdersView,
    request_id: RequestId,
    order_id: OrderId,
    payment: OrderPayment,
    created_at: UtcDateTime,
    expires_at: UtcDateTime,
)
    ensures
        ({
            let (after, response) = orders.invoice_step(
                request_id,
                order_id,
                payment,
                created_at,
                expires_at,
            );
            let asked = orders.pending_requests.contains_key(request_id.0@)
                && orders.pending_requests[request_id.0@] is CreateOrder;
            let order = orders.pending_requests[request_id.0@]->CreateOrder_0.order;
            &&& orders.awaits_invoice(request_id.0@) <==> asked
            &&& after.pending_requests == orders.pending_requests.remove(request_id.0@)
            &&& response is Ok <==> asked
            &&& asked ==> {
                let made = after.outbound_channels_by_order_id[order_id.0@];
                let told = response->Ok_0;
                &&& after.outbound_channels_by_order_id
                    == orders.outbound_channels_by_order_id.insert(order_id.0@, made)
                &&& made.state == (OutboundRequestState::OrderCreated { order_id })
                &&& made.config.order == order && told.order == order
                &&& made.config.payment == payment && told.payment == payment
                &&& made.config.created_at == created_at && told.created_at == created_at
                &&& made.config.expires_at == expires_at && told.expires_at == expires_at
                &&& told.order_id == order_id
                &&& told.order_state is Created
                &&& told.channel is None
            }
            &&& !asked ==> {
                &&& after.outbound_channels_by_order_id == orders.outbound_channels_by_order_id
                &&& response == Err::<CreateOrderResponse, ErrorKind>(
                    ErrorKind::NoPendingRequest { request: PeerRequest::CreateOrder, request_id },
                )
            }
        }),
{
}

/// A `get_order` request is taken in exactly where it is the first for an order that was made: the
/// order then waits for payment on the same terms, and the request for our answer. A further request
/// gives the order up, and one for an unknown order changes nothing.
pub proof fn lemma_what_asking_for_an_order_does(
    orders: OrdersView,
    request_id: RequestId,
    params: GetOrderRequest,
)
    ensures
        ({
            let (after, result) = orders.order_asked_step(request_id, params);
            let known = orders.outbound_channels_by_order_id.contains_key(params.order_id.0@);
            let channel = orders.outbound_channels_by_order_id[params.order_id.0@];
            let fresh = known && channel.state is OrderCreated;
            &&& result is Ok <==> fresh
            &&& fresh ==> {
                let next = after.outbound_channels_by_order_id[params.order_id.0@];
                &&& after.outbound_channels_by_order_id
                    == orders.outbound_channels_by_order_id.insert(params.order_id.0@, next)
                &&& next.config == channel.config
                &&& next.state == (OutboundRequestState::WaitingPayment {
                    order_id: channel.state->OrderCreated_order_id,
                })
                &&& after.pending_requests == orders.pending_requests.insert(
                    request_id.0@,
                    LSPS1Request::GetOrder(params),
                )
            }
            &&& known && !fresh ==> {
                &&& after.outbound_channels_by_order_id
                    == orders.outbound_channels_by_order_id.remove(params.order_id.0@)
                &&& after.pending_requests == orders.pending_requests
                &&& result == Err::<(), ErrorKind>(
                    ErrorKind::UnexpectedInvoiceRequest {
                        state: ChannelState::Order(channel.state),
                    },
                )
            }
            &&& !known ==> after == orders && result == Err::<(), ErrorKind>(
                ErrorKind::UnknownOrder { order_id: params.order_id },
            )
        }),
{
}

/// A client is told the terms that its order was made on, and the state that is given; of an order
/// that is not there it is told nothing.
pub proof fn lemma_what_is_told_of_an_order(
    orders: OrdersView,
    order_id: OrderId,
    order_state: OrderState,
    channel: Option<ChannelInfo>,
)
    ensures
        ({
            let status = orders.order_status(order_id, order_state, channel);
            let known = orders.outbound_channels_by_order_id.contains_key(order_id.0@);
            let config = orders.outbound_channels_by_order_id[order_id.0@].config;
            &&& status is Ok <==> known
            &&& known ==> {
                &&& status->Ok_0.order_id == order_id
                &&& status->Ok_0.order == config.order
                &&& status->Ok_0.payment == config.payment
                &&& status->Ok_0.created_at == config.created_at
                &&& status->Ok_0.expires_at == config.expires_at
                &&& status->Ok_0.order_state == order_state
                &&& status->Ok_0.channel == channel
            }
            &&& !known ==> status->Err_0 == (ErrorKind::OrderNotFound { order_id })
        }),
{
}

/// A change to the orders concerns one order or one request.
pub proof fn lemma_changes_are_local(
    orders: OrdersView,
    request_id: Seq<char>,
    request: LSPS1Request,
    order_id: Seq<char>,
    channel: OutboundCRChannel,
)
    ensures
        orders.with_pending(request_id, request).pending_requests == orders.pending_requests.insert(
            request_id,
            request,
        ),
        orders.with_pending(request_id, request).outbound_channels_by_order_id
            == orders.outbound_channels_by_order_id,
        orders.without_pending(request_id).pending_requests == orders.pending_requests.remove(
            request_id,
        ),
        orders.without_pending(request_id).outbound_channels_by_order_id
            == orders.outbound_channels_by_order_id,
        orders.with_order(order_id, channel).outbound_channels_by_order_id
            == orders.outbound_channels_by_order_id.insert(order_id, channel),
        orders.with_order(order_id, channel).pending_requests == orders.pending_requests,
        orders.without_order(order_id).outbound_channels_by_order_id
            == orders.outbound_channels_by_order_id.remove(order_id),
        orders.without_order(order_id).pending_requests == orders.pending_requests,
{
}

/// An order that was made is within the options of the LSP exactly where its balances and its size are
/// within their bounds and its lease is no longer than the longest one.
pub proof fn lemma_made_orders_are_checked(
    channel: OutboundCRChannel,
    options: OptionsSupported,
    valid: bool,
)
    requires
        call_ensures(OutboundCRChannel::check_order_validity, (&channel, &options), valid),
    ensures
        ({
            let order = channel.config.order;
            valid <==> {
                &&& options.min_initial_client_balance_sat <= order.client_balance_sat
                &&& order.client_balance_sat <= options.max_initial_client_balance_sat
                &&& options.min_initial_lsp_balance_sat <= order.lsp_balance_sat
                &&& order.lsp_balance_sat <= options.max_initial_lsp_balance_sat
                &&& options.min_channel_balance_sat <= order.lsp_balance_sat
                    + order.client_balance_sat
                &&& order.lsp_balance_sat + order.client_balance_sat
                    <= options.max_channel_balance_sat
                &&& order.channel_expiry_blocks <= options.max_channel_expiry_blocks
            }
        }),
{
}

} // verus!
