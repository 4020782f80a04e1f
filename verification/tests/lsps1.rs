use lightning_liquidity::errors::{
    APIError, ChannelState, ChannelStateError, ErrorKind, PeerRequest, Protocol, Reply,
};
use lightning_liquidity::events::{Event, EventQueue};
use lightning_liquidity::lsps0::msgs::{LSPSMessage, RequestId, ResponseError};
use lightning_liquidity::lsps1;
use lightning_liquidity::lsps1::channel_manager::{CRChannelConfig, CRManager};
use lightning_liquidity::lsps1::client::{
    InboundRequestState, LSPS1ClientConfig, LSPS1ClientHandler,
};
use lightning_liquidity::lsps1::event::{LSPS1ClientEvent, LSPS1ServiceEvent};
use lightning_liquidity::lsps1::msgs::{
    CreateOrderResponse, GetInfoRequest, GetInfoResponse, GetOrderRequest, LSPS1Message,
    LSPS1Request, LSPS1Response, OnchainPayment, OptionsSupported, OrderId, OrderParams,
    OrderPayment, OrderState, PaymentState, UtcDateTime,
};
use lightning_liquidity::lsps1::orders::{generate_order_id, OutboundRequestState};
use lightning_liquidity::lsps1::service::{LSPS1ServiceConfig, LSPS1ServiceHandler};
use lightning_liquidity::lsps1::utils::{accepts_fees, accepts_total, is_valid};
use lightning_liquidity::message_queue::DefaultMessageQueue;
use lightning_liquidity::types::PublicKey;
use lightning_liquidity::utils::parse_pubkey;
use lightning_liquidity::versioned_msgs;

fn node() -> PublicKey {
    parse_pubkey("027100442c3b79f606f80f322d98d499eefcb060599efc5d4ecb00209c2cb54190").unwrap()
}

fn id(text: &str) -> RequestId {
    RequestId(text.to_string())
}

fn options() -> OptionsSupported {
    OptionsSupported {
        min_channel_confirmations: 1,
        min_onchain_payment_confirmations: Some(2),
        supports_zero_channel_reserve: true,
        min_onchain_payment_size_sat: None,
        max_channel_expiry_blocks: 100,
        min_initial_client_balance_sat: 10,
        max_initial_client_balance_sat: 20,
        min_initial_lsp_balance_sat: 30,
        max_initial_lsp_balance_sat: 40,
        min_channel_balance_sat: 45,
        max_channel_balance_sat: 55,
    }
}

fn order() -> OrderParams {
    OrderParams {
        lsp_balance_sat: 35,
        client_balance_sat: 15,
        confirms_within_blocks: 1,
        channel_expiry_blocks: 100,
        token: String::new(),
        refund_onchain_address: None,
        announce_channel: true,
    }
}

fn payment() -> OrderPayment {
    OrderPayment {
        state: PaymentState::ExpectPayment,
        fee_total_sat: 5,
        order_total_sat: 20,
        bolt11_invoice: "lnbc1".to_string(),
        onchain_address: "bc1".to_string(),
        min_onchain_payment_confirmations: None,
        min_fee_for_0conf: 1,
        onchain_payment: OnchainPayment { outpoint: "0:0".to_string(), sat: 20, confirmed: false },
    }
}

const CREATED: UtcDateTime = UtcDateTime { seconds: 1, nanoseconds: 2 };
const EXPIRES: UtcDateTime = UtcDateTime { seconds: 3, nanoseconds: 4 };

fn confirmed(order_id: &str) -> CreateOrderResponse {
    CreateOrderResponse {
        order_id: OrderId(order_id.to_string()),
        order: order(),
        created_at: CREATED,
        expires_at: EXPIRES,
        order_state: OrderState::Created,
        payment: payment(),
        channel: None,
    }
}

#[test]
fn orders_within_the_options_are_valid() {
    assert!(is_valid(&order(), &options()));
    let with = |change: &dyn Fn(&mut OrderParams)| {
        let mut order = order();
        change(&mut order);
        is_valid(&order, &options())
    };
    assert!(!with(&|order| order.client_balance_sat = 9));
    assert!(!with(&|order| order.client_balance_sat = 21));
    assert!(!with(&|order| order.lsp_balance_sat = 29));
    assert!(!with(&|order| order.lsp_balance_sat = 41));
    assert!(!with(&|order| order.channel_expiry_blocks = 101));
    assert!(!with(&|order| order.lsp_balance_sat = u64::MAX));
    // The balances are within bounds, and their sum is not.
    assert!(!with(&|order| {
        order.client_balance_sat = 20;
        order.lsp_balance_sat = 40;
    }));
    assert!(!with(&|order| {
        order.client_balance_sat = 10;
        order.lsp_balance_sat = 30;
    }));
}

#[test]
fn fees_add_up_and_stay_below_the_limit() {
    assert!(accepts_fees(&payment(), &order(), None));
    // A fee of 5 sat is 5000 msat.
    assert!(accepts_fees(&payment(), &order(), Some(5000)));
    assert!(!accepts_fees(&payment(), &order(), Some(4999)));
    assert!(accepts_total(&payment(), &order(), None));
    assert!(accepts_total(&payment(), &order(), Some(21)));
    assert!(!accepts_total(&payment(), &order(), Some(20)));
    let mut wrong = payment();
    wrong.order_total_sat = 21;
    assert!(!accepts_fees(&wrong, &order(), None));
    assert!(!accepts_total(&wrong, &order(), None));
    wrong.fee_total_sat = u64::MAX;
    assert!(!accepts_fees(&wrong, &order(), None));
    let mut free = order();
    free.client_balance_sat = 0;
    wrong.order_total_sat = u64::MAX;
    assert!(accepts_fees(&wrong, &free, None));
    assert!(!accepts_fees(&wrong, &free, Some(u64::MAX)));
    assert!(!accepts_total(&wrong, &free, None));
}

#[test]
fn lists_options_as_they_are_shown_for_debugging() {
    assert_eq!(options().list(), format!("Supported options are {:?}", options()));
    let mut other = options();
    other.supports_zero_channel_reserve = false;
    other.min_onchain_payment_confirmations = None;
    other.min_onchain_payment_size_sat = Some(u32::MAX);
    assert_eq!(other.list(), format!("Supported options are {:?}", other));
}

#[test]
fn order_ids_are_made_of_random_bytes() {
    assert_eq!(generate_order_id(&[0x0f; 32]), OrderId("0f".repeat(16)));
}

fn only_request(queue: &mut DefaultMessageQueue<LSPSMessage>) -> (RequestId, LSPS1Request) {
    let mut messages = queue.get_and_clear_pending_msgs();
    assert_eq!(messages.len(), 1);
    match messages.remove(0) {
        (to, LSPSMessage::LSPS1(LSPS1Message::Request(request_id, request))) => {
            assert_eq!(to, node());
            (request_id, request)
        }
        _ => panic!("expected a request"),
    }
}

#[test]
fn a_client_orders_a_channel() {
    let mut client = LSPS1ClientHandler::new(LSPS1ClientConfig { max_channel_fees_msat: None });
    let mut messages = DefaultMessageQueue::new();
    let mut events = EventQueue::new();

    client.request_for_info(node(), 7, &[1; 32], &mut messages);
    let (request_id, request) = only_request(&mut messages);
    assert_eq!(request_id, id(&"01".repeat(16)));
    assert_eq!(request, LSPS1Request::GetInfo(GetInfoRequest {}));

    let info = GetInfoResponse { website: "w".to_string(), options: options() };
    let response = LSPS1Message::Response(request_id.clone(), LSPS1Response::GetInfo(info));
    client.handle_message(response.clone(), &node(), &mut events).unwrap();
    assert_eq!(
        events.next_event(),
        Some(Event::LSPS1Client(LSPS1ClientEvent::GetInfoResponse {
            id: 7,
            request_id: request_id.clone(),
            counterparty_node_id: node(),
            website: "w".to_string(),
            options_supported: options(),
        }))
    );
    assert_eq!(
        client.handle_message(response, &node(), &mut events).unwrap_err().err,
        ErrorKind::UnknownRequest { reply: Reply::GetInfoResponse, request_id }
    );

    client.place_order(7, &node(), order(), &[2; 32], &mut messages).unwrap();
    let (request_id, request) = only_request(&mut messages);
    assert!(matches!(request, LSPS1Request::CreateOrder(params) if params.order == order()));

    let response =
        LSPS1Message::Response(request_id, LSPS1Response::CreateOrder(confirmed("o")));
    client.handle_message(response, &node(), &mut events).unwrap();
    assert_eq!(
        events.next_event(),
        Some(Event::LSPS1Client(LSPS1ClientEvent::DisplayOrder {
            id: 7,
            counterparty_node_id: node(),
            order: order(),
            payment: payment(),
            channel: None,
        }))
    );

    client
        .check_order_status(&node(), OrderId("o".to_string()), 7, &[3; 32], &mut messages)
        .unwrap();
    let (_, request) = only_request(&mut messages);
    assert_eq!(
        request,
        LSPS1Request::GetOrder(GetOrderRequest { order_id: OrderId("o".to_string()) })
    );
}

#[test]
fn a_client_refuses_an_order_that_it_did_not_place() {
    let mut client = LSPS1ClientHandler::new(LSPS1ClientConfig { max_channel_fees_msat: None });
    let mut messages = DefaultMessageQueue::new();
    let mut events = EventQueue::new();
    client.request_for_info(node(), 7, &[1; 32], &mut messages);
    let (request_id, _) = only_request(&mut messages);
    let info = GetInfoResponse { website: "w".to_string(), options: options() };
    let response = LSPS1Message::Response(request_id, LSPS1Response::GetInfo(info));
    client.handle_message(response, &node(), &mut events).unwrap();
    events.next_event();
    client.place_order(7, &node(), order(), &[2; 32], &mut messages).unwrap();
    let (request_id, _) = only_request(&mut messages);
    let mut other = confirmed("o");
    other.order.lsp_balance_sat = 36;
    let different = other.order.clone();
    let response = LSPS1Message::Response(request_id, LSPS1Response::CreateOrder(other));
    assert_eq!(
        client.handle_message(response, &node(), &mut events).unwrap_err().err,
        ErrorKind::OrderMismatch { order: order(), response_order: different }
    );
    assert!(events.is_empty());
}

#[test]
fn a_client_knows_its_channels() {
    let mut client = LSPS1ClientHandler::new(LSPS1ClientConfig { max_channel_fees_msat: None });
    let mut messages = DefaultMessageQueue::new();
    let mut events = EventQueue::new();
    for entropy in [[1; 32], [2; 32], [3; 32]] {
        client.request_for_info(node(), 7, &entropy, &mut messages);
    }
    assert_eq!(
        client.place_order(8, &node(), order(), &[3; 32], &mut messages),
        Err(APIError::APIMisuseError { err: ErrorKind::ChannelNotFound { channel_id: 8 } })
    );
    let mut reply = |request_id: String| {
        let info = GetInfoResponse { website: "w".to_string(), options: options() };
        client.handle_message(
            LSPS1Message::Response(RequestId(request_id), LSPS1Response::GetInfo(info)),
            &node(),
            &mut events,
        )
    };
    assert_eq!(reply("01".repeat(16)), Ok(()));
    // A second menu ends the negotiation.
    assert_eq!(
        reply("02".repeat(16)).unwrap_err().err,
        ErrorKind::UnexpectedInfo {
            state: ChannelState::Request(InboundRequestState::OptionsSupport {
                options_supported: options()
            })
        }
    );
    assert_eq!(
        reply("03".repeat(16)).unwrap_err().err,
        ErrorKind::UnknownChannel { reply: Reply::GetInfoResponse, channel_id: 7 }
    );
}

#[test]
fn a_client_refuses_high_fees() {
    let config = LSPS1ClientConfig { max_channel_fees_msat: Some(4999) };
    let mut client = LSPS1ClientHandler::new(config);
    let mut messages = DefaultMessageQueue::new();
    let mut events = EventQueue::new();
    client.request_for_info(node(), 7, &[1; 32], &mut messages);
    let (request_id, _) = only_request(&mut messages);
    let info = GetInfoResponse { website: "w".to_string(), options: options() };
    let response = LSPS1Message::Response(request_id, LSPS1Response::GetInfo(info));
    client.handle_message(response, &node(), &mut events).unwrap();
    events.next_event();
    client.place_order(7, &node(), order(), &[2; 32], &mut messages).unwrap();
    let (request_id, _) = only_request(&mut messages);
    let response =
        LSPS1Message::Response(request_id, LSPS1Response::CreateOrder(confirmed("o")));
    assert_eq!(
        client.handle_message(response, &node(), &mut events).unwrap_err().err,
        ErrorKind::FeesTooHigh { fee_total_sat: 5, client_balance_sat: 15 }
    );
    assert!(events.is_empty());
}

#[test]
fn clients_take_no_requests() {
    let mut client = LSPS1ClientHandler::new(LSPS1ClientConfig { max_channel_fees_msat: None });
    let mut events = EventQueue::new();
    let request = LSPS1Message::Request(id("a"), LSPS1Request::GetInfo(GetInfoRequest {}));
    assert_eq!(
        client.handle_message(request, &node(), &mut events).unwrap_err().err,
        ErrorKind::RequestAtClient { protocol: Protocol::LSPS1, counterparty_node_id: node() }
    );
    let error = ResponseError { code: 1, message: String::new(), data: None };
    let response = LSPS1Message::Response(id("a"), LSPS1Response::CreateOrderError(error));
    assert_eq!(
        client.handle_message(response, &node(), &mut events).unwrap_err().err,
        ErrorKind::UnknownPeer {
            reply: Reply::CreateOrderError,
            counterparty_node_id: node()
        }
    );
}

#[test]
fn order_states_go_in_order() {
    let state = InboundRequestState::InfoRequested;
    let was = || ChannelState::Request(InboundRequestState::InfoRequested);
    assert_eq!(
        state.order_requested(order()),
        Err(ChannelStateError(ErrorKind::UnexpectedOrderRequest { state: was() }))
    );
    assert_eq!(
        state.order_received(&order(), OrderId("o".to_string())),
        Err(ChannelStateError(ErrorKind::UnexpectedOrder { state: was() }))
    );
    let state = state.info_received(options()).unwrap();
    assert_eq!(
        state.info_received(options()),
        Err(ChannelStateError(ErrorKind::UnexpectedInfo {
            state: ChannelState::Request(InboundRequestState::OptionsSupport {
                options_supported: options()
            })
        }))
    );
    let mut large = order();
    large.lsp_balance_sat = 41;
    assert_eq!(
        state.order_requested(large.clone()),
        Err(ChannelStateError(ErrorKind::OrderNotSupported {
            options_supported: options(),
            order: large
        }))
    );
    let state = state.order_requested(order()).unwrap();
    assert_eq!(
        state.pay_for_channel(1),
        Err(ChannelStateError(ErrorKind::UnexpectedPayment {
            state: ChannelState::Request(InboundRequestState::OrderRequested { order: order() })
        }))
    );
    let mut other = order();
    other.lsp_balance_sat = 36;
    assert_eq!(
        state.order_received(&other, OrderId("o".to_string())),
        Err(ChannelStateError(ErrorKind::OrderMismatch {
            order: order(),
            response_order: other
        }))
    );
    let order_id = OrderId("o".to_string());
    let state = state.order_received(&order(), order_id.clone()).unwrap();
    assert_eq!(state, InboundRequestState::PendingPayment { order_id: order_id.clone() });
    let state = state.pay_for_channel(1).unwrap();
    assert_eq!(state, InboundRequestState::AwaitingConfirmation { id: 1, order_id });
}

fn service() -> LSPS1ServiceHandler {
    LSPS1ServiceHandler::new(LSPS1ServiceConfig {
        token: None,
        options_supported: Some(options()),
        website: Some("w".to_string()),
    })
}

fn only_answer(
    queue: &mut DefaultMessageQueue<versioned_msgs::LSPSMessage>,
) -> (RequestId, versioned_msgs::LSPS1Response) {
    let mut messages = queue.get_and_clear_pending_msgs();
    assert_eq!(messages.len(), 1);
    match messages.remove(0) {
        (
            to,
            versioned_msgs::LSPSMessage::LSPS1(versioned_msgs::LSPS1Message::Response(
                request_id,
                response,
            )),
        ) => {
            assert_eq!(to, node());
            (request_id, response)
        }
        _ => panic!("expected a response"),
    }
}

fn create_order(version: u16, order: OrderParams) -> versioned_msgs::LSPS1Request {
    versioned_msgs::LSPS1Request::CreateOrder(versioned_msgs::CreateOrderRequest { order, version })
}

fn ask(text: &str, request: versioned_msgs::LSPS1Request) -> versioned_msgs::LSPS1Message {
    versioned_msgs::LSPS1Message::Request(id(text), request)
}

#[test]
fn a_service_fills_an_order() {
    let mut service = service();
    let mut messages = DefaultMessageQueue::new();
    let mut events = EventQueue::new();
    assert!(service.is_configured());

    let request = ask("a", versioned_msgs::LSPS1Request::GetInfo(GetInfoRequest {}));
    service.handle_message(request, &node(), &mut messages, &mut events).unwrap();
    assert_eq!(
        only_answer(&mut messages),
        (
            id("a"),
            versioned_msgs::LSPS1Response::GetInfo(versioned_msgs::GetInfoResponse {
                supported_versions: vec![1],
                website: "w".to_string(),
                options: options(),
            })
        )
    );

    let request = ask("b", create_order(1, order()));
    service.handle_message(request, &node(), &mut messages, &mut events).unwrap();
    assert_eq!(
        events.next_event(),
        Some(Event::LSPS1Service(LSPS1ServiceEvent::CreateInvoice {
            request_id: id("b"),
            counterparty_node_id: node(),
            order: order(),
        }))
    );
    service
        .send_invoice_for_order(
            id("b"),
            &node(),
            payment(),
            CREATED,
            EXPIRES,
            &[0x0f; 32],
            &mut messages,
        )
        .unwrap();
    let order_id = "0f".repeat(16);
    assert_eq!(
        only_answer(&mut messages),
        (id("b"), versioned_msgs::LSPS1Response::CreateOrder(confirmed(&order_id)))
    );
    // The request is answered once.
    assert_eq!(
        service.send_invoice_for_order(
            id("b"),
            &node(),
            payment(),
            CREATED,
            EXPIRES,
            &[0x0f; 32],
            &mut messages
        ),
        Err(APIError::APIMisuseError {
            err: ErrorKind::NoPendingRequest {
                request: PeerRequest::CreateOrder,
                request_id: id("b"),
            }
        })
    );

    let get = versioned_msgs::LSPS1Request::GetOrder(GetOrderRequest {
        order_id: OrderId(order_id.clone()),
    });
    service.handle_message(ask("c", get), &node(), &mut messages, &mut events).unwrap();
    assert_eq!(
        events.next_event(),
        Some(Event::LSPS1Service(LSPS1ServiceEvent::CheckPaymentConfirmation {
            request_id: id("c"),
            counterparty_node_id: node(),
            order_id: OrderId(order_id.clone()),
        }))
    );
    service
        .update_order_status(
            id("c"),
            node(),
            OrderId(order_id.clone()),
            OrderState::Completed,
            None,
            &mut messages,
        )
        .unwrap();
    let mut completed = confirmed(&order_id);
    completed.order_state = OrderState::Completed;
    assert_eq!(
        only_answer(&mut messages),
        (
            id("c"),
            versioned_msgs::LSPS1Response::GetOrder(versioned_msgs::GetOrderResponse {
                response: completed
            })
        )
    );

    assert_eq!(
        service.update_order_status(
            id("c"),
            node(),
            OrderId("none".to_string()),
            OrderState::Completed,
            None,
            &mut messages,
        ),
        Err(APIError::APIMisuseError {
            err: ErrorKind::OrderNotFound { order_id: OrderId("none".to_string()) }
        })
    );
    // An order that is asked for a second time is given up.
    for expected in [
        ErrorKind::UnexpectedInvoiceRequest {
            state: ChannelState::Order(OutboundRequestState::WaitingPayment {
                order_id: OrderId(order_id.clone()),
            }),
        },
        ErrorKind::UnknownOrder { order_id: OrderId(order_id.clone()) },
    ] {
        let get = versioned_msgs::LSPS1Request::GetOrder(GetOrderRequest {
            order_id: OrderId(order_id.clone()),
        });
        assert_eq!(
            service
                .handle_message(ask("d", get), &node(), &mut messages, &mut events)
                .unwrap_err()
                .err,
            expected
        );
    }
}

#[test]
fn a_service_refuses_orders() {
    let mut service = service();
    let mut messages = DefaultMessageQueue::new();
    let mut events = EventQueue::new();
    let request = ask("a", create_order(2, order()));
    assert_eq!(
        service.handle_message(request, &node(), &mut messages, &mut events).unwrap_err().err,
        ErrorKind::UnsupportedVersion { version: 2 }
    );
    let (request_id, response) = only_answer(&mut messages);
    assert_eq!(request_id, id("a"));
    assert_eq!(
        response,
        versioned_msgs::LSPS1Response::CreateOrderError(ResponseError {
            code: 1,
            message: "version 2 is not supported".to_string(),
            data: Some("Supported versions are [1]".to_string()),
        })
    );

    let mut small = order();
    small.lsp_balance_sat = 1;
    let request = ask("b", create_order(1, small));
    assert_eq!(
        service.handle_message(request, &node(), &mut messages, &mut events).unwrap_err().err,
        ErrorKind::UnsupportedVersion { version: 1 }
    );
    let (_, response) = only_answer(&mut messages);
    match response {
        versioned_msgs::LSPS1Response::CreateOrderError(error) => {
            assert_eq!(error.code, 1000);
            assert_eq!(error.data, Some(options().list()));
        }
        _ => panic!("expected an error"),
    }
    assert!(events.is_empty());

    let unknown = versioned_msgs::LSPS1Request::GetOrder(GetOrderRequest {
        order_id: OrderId("none".to_string()),
    });
    assert_eq!(
        service
            .handle_message(ask("c", unknown), &node(), &mut messages, &mut events)
            .unwrap_err()
            .err,
        ErrorKind::UnknownRequester {
            request: PeerRequest::GetOrder,
            counterparty_node_id: node(),
        }
    );
    let response = versioned_msgs::LSPS1Message::Response(
        id("d"),
        versioned_msgs::LSPS1Response::CreateOrder(confirmed("o")),
    );
    assert_eq!(
        service.handle_message(response, &node(), &mut messages, &mut events).unwrap_err().err,
        ErrorKind::ResponseAtService { protocol: Protocol::LSPS1, counterparty_node_id: node() }
    );
}

#[test]
fn a_service_without_options_is_not_configured() {
    let service = LSPS1ServiceHandler::new(LSPS1ServiceConfig {
        token: None,
        options_supported: None,
        website: None,
    });
    assert!(!service.is_configured());
}

#[test]
fn a_manager_plays_both_parts() {
    let config = CRChannelConfig {
        max_fees: None,
        options_supported: Some(options()),
        website: Some("w".to_string()),
    };
    let mut client = CRManager::new(&config);
    let mut service = CRManager::new(&config);
    assert!(service.is_configured());
    let mut messages: Vec<(PublicKey, versioned_msgs::LSPSMessage)> = Vec::new();
    let mut events = EventQueue::new();

    client.request_for_info(node(), 7, &[1; 32], &mut messages);
    for (to_service, name) in [(true, "request"), (false, "response")] {
        assert_eq!(messages.len(), 1, "{}", name);
        let (_, message) = messages.remove(0);
        let message = match message {
            versioned_msgs::LSPSMessage::LSPS1(message) => message,
            _ => panic!("expected an LSPS1 message"),
        };
        let manager = if to_service { &mut service } else { &mut client };
        manager.handle_message(message, &node(), &mut messages, &mut events).unwrap();
    }
    assert!(matches!(
        events.next_event(),
        Some(Event::LSPS1(lsps1::event::Event::GetInfoResponse { id: 7, version: 1, .. }))
    ));

    client.place_order(7, &node(), order(), &[2; 32], &mut messages).unwrap();
    let (_, message) = messages.remove(0);
    if let versioned_msgs::LSPSMessage::LSPS1(message) = message {
        service.handle_message(message, &node(), &mut messages, &mut events).unwrap();
    }
    let request_id = match events.next_event() {
        Some(Event::LSPS1(lsps1::event::Event::CreateInvoice { request_id, order: wanted, .. })) => {
            assert_eq!(wanted, order());
            request_id
        }
        _ => panic!("expected an order"),
    };
    service
        .send_invoice_for_order(
            request_id,
            &node(),
            payment(),
            CREATED,
            EXPIRES,
            &[4; 32],
            &mut messages,
        )
        .unwrap();
    let (_, message) = messages.remove(0);
    if let versioned_msgs::LSPSMessage::LSPS1(message) = message {
        client.handle_message(message, &node(), &mut messages, &mut events).unwrap();
    }
    assert!(matches!(
        events.next_event(),
        Some(Event::LSPS1(lsps1::event::Event::DisplayOrder { id: 7, .. }))
    ));
    let order_id = OrderId("04".repeat(16));
    client.check_order_status(&node(), order_id.clone(), 7, &[5; 32], &mut messages).unwrap();
    let (_, message) = messages.remove(0);
    if let versioned_msgs::LSPSMessage::LSPS1(message) = message {
        service.handle_message(message, &node(), &mut messages, &mut events).unwrap();
    }
    assert!(matches!(
        events.next_event(),
        Some(Event::LSPS1(lsps1::event::Event::CheckPaymentConfirmation { .. }))
    ));
    assert!(matches!(
        service.update_order_status(
            id("x"),
            node(),
            OrderId("none".to_string()),
            OrderState::Failed,
            None,
            &mut messages
        ),
        Err(APIError::APIMisuseError { .. })
    ));
}
