use lightning_liquidity::errors::{
    APIError, ChannelState, ChannelStateError, ErrorKind, PeerRequest, Protocol, Reply,
};
use lightning_liquidity::events::{Event, EventQueue};
use lightning_liquidity::jit_channel::msgs::{
    BuyRequest, BuyResponse as ServiceBuyResponse, GetInfoRequest, GetInfoResponse,
    GetVersionsRequest, GetVersionsResponse, JitChannelScid, Message, OpeningFeeParams,
    RawOpeningFeeParams, Request, Response,
};
use lightning_liquidity::lsps0::msgs::{LSPSMessage, RequestId, ResponseError};
use lightning_liquidity::lsps2::client::{LSPS2ClientConfig, LSPS2ClientHandler};
use lightning_liquidity::lsps2::event::{LSPS2ClientEvent, LSPS2ServiceEvent};
use lightning_liquidity::lsps2::forwarding::{
    calculate_amount_to_forward_per_htlc, check_can_forward, sum_msat, InterceptedHTLC,
};
use lightning_liquidity::lsps2::msgs;
use lightning_liquidity::lsps2::msgs::{
    BuyResponse, InterceptScid, LSPS2Message, LSPS2Request, LSPS2Response,
};
use lightning_liquidity::lsps2::service::{
    HtlcToFail, LSPS2ServiceConfig, LSPS2ServiceHandler, OutboundJITChannelState,
};
use lightning_liquidity::message_queue::DefaultMessageQueue;
use lightning_liquidity::types::{InterceptId, PublicKey};
use lightning_liquidity::utils::parse_pubkey;
use lightning_liquidity::versioned_msgs;

const SECRET: [u8; 32] = [1u8; 32];

fn node() -> PublicKey {
    parse_pubkey("027100442c3b79f606f80f322d98d499eefcb060599efc5d4ecb00209c2cb54190").unwrap()
}

fn id(text: &str) -> RequestId {
    RequestId(text.to_string())
}

fn raw(min_fee_msat: u64, proportional: u32) -> RawOpeningFeeParams {
    RawOpeningFeeParams {
        min_fee_msat,
        proportional,
        valid_until: "2035-05-20T08:30:45Z".to_string(),
        min_lifetime: 144,
        max_client_to_self_delay: 128,
    }
}

fn promised(min_fee_msat: u64, proportional: u32) -> OpeningFeeParams {
    raw(min_fee_msat, proportional).into_opening_fee_params(&SECRET)
}

fn htlc(number: u8, amount: u64) -> InterceptedHTLC {
    InterceptedHTLC {
        intercept_id: InterceptId([number; 32]),
        expected_outbound_amount_msat: amount,
    }
}

#[test]
fn test_calculate_amount_to_forward() {
    let htlcs = vec![
        InterceptedHTLC { intercept_id: InterceptId([0; 32]), expected_outbound_amount_msat: 1000 },
        InterceptedHTLC { intercept_id: InterceptId([1; 32]), expected_outbound_amount_msat: 2000 },
        InterceptedHTLC { intercept_id: InterceptId([2; 32]), expected_outbound_amount_msat: 3000 },
    ];

    let total_amt_to_forward_msat = 5000;

    let result = calculate_amount_to_forward_per_htlc(&htlcs, total_amt_to_forward_msat);

    assert_eq!(result[0].0, htlcs[0].intercept_id);
    assert_eq!(result[0].1, 834);

    assert_eq!(result[1].0, htlcs[1].intercept_id);
    assert_eq!(result[1].1, 1667);

    assert_eq!(result[2].0, htlcs[2].intercept_id);
    assert_eq!(result[2].1, 2499);
}

#[test]
fn forwarded_amounts_add_up() {
    let htlcs = vec![htlc(0, 7), htlc(1, 11), htlc(2, 13)];
    assert_eq!(sum_msat(&htlcs), 31);
    for total in 0..=31u64 {
        if check_can_forward(&htlcs, total) {
            let forwards = calculate_amount_to_forward_per_htlc(&htlcs, total);
            assert_eq!(forwards.iter().map(|(_, amount)| amount).sum::<u64>(), total);
            for (forward, htlc) in forwards.iter().zip(htlcs.iter()) {
                assert!(forward.1 <= htlc.expected_outbound_amount_msat);
            }
        }
    }
    assert!(check_can_forward(&htlcs, 31));
    assert_eq!(
        calculate_amount_to_forward_per_htlc(&htlcs, 31),
        vec![
            (InterceptId([0; 32]), 7),
            (InterceptId([1; 32]), 11),
            (InterceptId([2; 32]), 13)
        ]
    );
}

#[test]
fn a_known_payment_is_collected() {
    let state = OutboundJITChannelState::new(Some(10_000_000), promised(100, 21));
    let state = state.htlc_intercepted(htlc(0, 4_000_000), 0).unwrap();
    assert!(matches!(state, OutboundJITChannelState::AwaitingPayment { .. }));
    assert_eq!(
        state.channel_ready(),
        Err(ChannelStateError(ErrorKind::UnexpectedChannelReady {
            state: ChannelState::OutboundJIT(OutboundJITChannelState::AwaitingPayment {
                min_fee_msat: 100,
                proportional_fee: 21,
                valid_until: Some(2063262645),
                htlcs: vec![htlc(0, 4_000_000)],
                payment_size_msat: Some(10_000_000),
            })
        }))
    );
    let state = state.htlc_intercepted(htlc(1, 6_000_000), 0).unwrap();
    match &state {
        OutboundJITChannelState::PendingChannelOpen {
            htlcs,
            opening_fee_msat,
            amt_to_forward_msat,
        } => {
            assert_eq!(htlcs.len(), 2);
            assert_eq!(*opening_fee_msat, 210);
            assert_eq!(*amt_to_forward_msat, 9_999_790);
        }
        _ => panic!("expected a channel to open"),
    }
    let state = state.channel_ready().unwrap();
    assert!(matches!(
        state,
        OutboundJITChannelState::ChannelReady { amt_to_forward_msat: 9_999_790, .. }
    ));
    let was = || {
        ChannelState::OutboundJIT(OutboundJITChannelState::ChannelReady {
            htlcs: vec![htlc(0, 4_000_000), htlc(1, 6_000_000)],
            amt_to_forward_msat: 9_999_790,
        })
    };
    assert_eq!(
        state.channel_ready(),
        Err(ChannelStateError(ErrorKind::UnexpectedChannelReady { state: was() }))
    );
    assert_eq!(
        state.htlc_intercepted(htlc(2, 1), 0),
        Err(ChannelStateError(ErrorKind::UnexpectedHtlc { state: was() }))
    );
}

#[test]
fn a_payment_of_unknown_size_is_one_htlc() {
    let state = OutboundJITChannelState::new(None, promised(100, 21));
    assert_eq!(
        state.htlc_intercepted(htlc(0, 99), 0),
        Err(ChannelStateError(ErrorKind::HtlcTooSmall))
    );
    let state = state.htlc_intercepted(htlc(0, 1000), 0).unwrap();
    assert!(matches!(
        state,
        OutboundJITChannelState::PendingChannelOpen {
            opening_fee_msat: 100,
            amt_to_forward_msat: 900,
            ..
        }
    ));
}

fn service() -> LSPS2ServiceHandler {
    LSPS2ServiceHandler::new(LSPS2ServiceConfig {
        promise_secret: SECRET,
        min_payment_size_msat: 1000,
        max_payment_size_msat: 100_000_000,
    })
}

fn only_answer(
    queue: &mut DefaultMessageQueue<versioned_msgs::LSPSMessage>,
) -> (RequestId, Response) {
    let mut messages = queue.get_and_clear_pending_msgs();
    assert_eq!(messages.len(), 1);
    match messages.remove(0) {
        (to, versioned_msgs::LSPSMessage::LSPS2(Message::Response(request_id, response))) => {
            assert_eq!(to, node());
            (request_id, response)
        }
        _ => panic!("expected a response"),
    }
}

fn buy(version: u16, params: OpeningFeeParams, payment_size_msat: Option<u64>) -> Request {
    Request::Buy(BuyRequest { version, opening_fee_params: params, payment_size_msat })
}

#[test]
fn a_service_sells_a_channel_for_a_payment_in_parts() {
    let mut service = service();
    let mut messages = DefaultMessageQueue::new();
    let mut events = EventQueue::new();

    let request = Message::Request(id("a"), Request::GetVersions(GetVersionsRequest {}));
    service.handle_message(request, &node(), 0, &mut messages, &mut events).unwrap();
    assert_eq!(
        only_answer(&mut messages),
        (id("a"), Response::GetVersions(GetVersionsResponse { versions: vec![1] }))
    );

    let info = GetInfoRequest { version: 1, token: Some("t".to_string()) };
    let request = Message::Request(id("b"), Request::GetInfo(info));
    service.handle_message(request, &node(), 0, &mut messages, &mut events).unwrap();
    assert_eq!(
        events.next_event(),
        Some(Event::LSPS2Service(LSPS2ServiceEvent::GetInfo {
            request_id: id("b"),
            counterparty_node_id: node(),
            version: 1,
            token: Some("t".to_string()),
        }))
    );
    service
        .opening_fee_params_generated(&node(), id("b"), vec![raw(100, 21)], &mut messages)
        .unwrap();
    assert_eq!(
        only_answer(&mut messages),
        (
            id("b"),
            Response::GetInfo(GetInfoResponse {
                opening_fee_params_menu: vec![promised(100, 21)],
                min_payment_size_msat: 1000,
                max_payment_size_msat: 100_000_000,
            })
        )
    );

    let request = Message::Request(id("c"), buy(1, promised(100, 21), Some(10_000_000)));
    service.handle_message(request, &node(), 2063262645, &mut messages, &mut events).unwrap();
    assert!(matches!(
        events.next_event(),
        Some(Event::LSPS2Service(LSPS2ServiceEvent::BuyRequest { .. }))
    ));
    service
        .invoice_parameters_generated(&node(), id("c"), 99, 144, true, &mut messages)
        .unwrap();
    assert_eq!(
        only_answer(&mut messages),
        (
            id("c"),
            Response::Buy(ServiceBuyResponse {
                jit_channel_scid: JitChannelScid("0x0x99".to_string()),
                lsp_cltv_expiry_delta: 144,
                client_trusts_lsp: true,
            })
        )
    );

    assert!(service.fits_htlc(99, 4_000_000));
    let to_fail =
        service.htlc_intercepted(99, InterceptId([1; 32]), 4_000_000, 0, &mut events).unwrap();
    assert!(to_fail.is_none());
    assert!(events.is_empty());
    assert!(service.fits_htlc(99, 6_000_000));
    let to_fail =
        service.htlc_intercepted(99, InterceptId([2; 32]), 6_000_000, 0, &mut events).unwrap();
    assert!(to_fail.is_none());
    assert_eq!(
        events.next_event(),
        Some(Event::LSPS2Service(LSPS2ServiceEvent::OpenChannel {
            their_network_key: node(),
            amt_to_forward_msat: 9_999_790,
            opening_fee_msat: 210,
            user_channel_id: 99,
        }))
    );
    assert!(service.is_forwardable(99, &node()));
    let forwards = service.channel_ready(99, &node()).unwrap();
    assert_eq!(forwards.iter().map(|(_, amount)| amount).sum::<u64>(), 9_999_790);
    assert_eq!(
        forwards,
        vec![(InterceptId([1; 32]), 3_999_916), (InterceptId([2; 32]), 5_999_874)]
    );
    assert_eq!(
        service.channel_ready(99, &node()),
        Err(APIError::APIMisuseError {
            err: ErrorKind::ChannelReadyFailed {
                cause: Box::new(ErrorKind::UnexpectedChannelReady {
                    state: ChannelState::OutboundJIT(OutboundJITChannelState::ChannelReady {
                        htlcs: vec![htlc(1, 4_000_000), htlc(2, 6_000_000)],
                        amt_to_forward_msat: 9_999_790,
                    })
                })
            }
        })
    );
    assert_eq!(
        service.invoice_parameters_generated(&node(), id("c"), 99, 144, true, &mut messages),
        Err(APIError::APIMisuseError {
            err: ErrorKind::NoPendingRequest { request: PeerRequest::Buy, request_id: id("c") }
        })
    );
}

#[test]
fn a_fee_that_overflows_is_not_taken_from_a_payment() {
    let state = OutboundJITChannelState::new(None, promised(7, u32::MAX));
    assert_eq!(
        state.htlc_intercepted(htlc(0, u64::MAX), 0),
        Err(ChannelStateError(ErrorKind::OpeningFeeOverflow {
            min_fee_msat: 7,
            proportional: u32::MAX,
            expected_outbound_amount_msat: u64::MAX,
        }))
    );
}

#[test]
fn a_payment_that_is_too_small_fails() {
    let mut service = service();
    let mut messages = DefaultMessageQueue::new();
    let mut events = EventQueue::new();
    let request = Message::Request(id("c"), buy(1, promised(100, 21), None));
    service.handle_message(request, &node(), 0, &mut messages, &mut events).unwrap();
    events.next_event();
    service
        .invoice_parameters_generated(&node(), id("c"), 99, 144, true, &mut messages)
        .unwrap();
    assert!(service.fits_htlc(99, 50));
    let failed = service
        .htlc_intercepted(99, InterceptId([1; 32]), 50, 0, &mut events)
        .unwrap()
        .expect("an HTLC to fail");
    assert_eq!(failed.intercept_id, InterceptId([1; 32]));
    assert_eq!(failed.scid, 99);
    assert_eq!(
        service.intercepted_htlc_failed(failed),
        APIError::APIMisuseError { err: ErrorKind::HtlcTooSmall }
    );
    // The channel is given up, and from then on none of ours.
    assert_eq!(service.channel_ready(99, &node()), Ok(vec![]));
    assert!(events.is_empty());
}

#[test]
fn an_offer_that_has_expired_opens_no_channel() {
    // One second past 2035-05-20T08:30:45Z.
    let past = 2063262646;
    for payment_size_msat in [None, Some(1_000_000)] {
        let mut service = service();
        let mut messages = DefaultMessageQueue::new();
        let mut events = EventQueue::new();
        let request = Message::Request(id("c"), buy(1, promised(100, 21), payment_size_msat));
        service.handle_message(request, &node(), 0, &mut messages, &mut events).unwrap();
        events.next_event();
        service
            .invoice_parameters_generated(&node(), id("c"), 99, 144, true, &mut messages)
            .unwrap();
        let failed = service
            .htlc_intercepted(99, InterceptId([1; 32]), 1_000_000, past, &mut events)
            .unwrap()
            .expect("an HTLC to fail");
        assert_eq!(
            failed,
            HtlcToFail {
                intercept_id: InterceptId([1; 32]),
                counterparty_node_id: node(),
                scid: 99,
                err: ErrorKind::OfferExpired,
            }
        );
        assert!(events.is_empty());
        // Within the offer, the same HTLC opens the channel.
        let to_fail = service
            .htlc_intercepted(99, InterceptId([1; 32]), 1_000_000, past - 1, &mut events)
            .unwrap();
        assert_eq!(to_fail, None);
        assert!(matches!(
            events.next_event(),
            Some(Event::LSPS2Service(LSPS2ServiceEvent::OpenChannel {
                opening_fee_msat: 100,
                amt_to_forward_msat: 999_900,
                ..
            }))
        ));
        assert_eq!(
            service.intercepted_htlc_failed(failed),
            APIError::APIMisuseError { err: ErrorKind::OfferExpired }
        );
    }
    let mut params = promised(100, 21);
    params.valid_until = "no time".to_string();
    assert_eq!(
        OutboundJITChannelState::new(None, params).htlc_intercepted(htlc(0, 1000), 0),
        Err(ChannelStateError(ErrorKind::OfferExpired))
    );
}

#[test]
fn channels_that_are_none_of_ours_are_ignored() {
    let mut service = service();
    let mut messages = DefaultMessageQueue::new();
    let mut events = EventQueue::new();
    assert_eq!(service.channel_ready(7, &node()), Ok(vec![]));
    assert_eq!(service.channel_ready(u128::MAX, &node()), Ok(vec![]));
    let info = GetInfoRequest { version: 1, token: None };
    let request = Message::Request(id("b"), Request::GetInfo(info));
    service.handle_message(request, &node(), 0, &mut messages, &mut events).unwrap();
    assert_eq!(service.channel_ready(7, &node()), Ok(vec![]));
}

#[test]
fn a_service_refuses_to_sell() {
    let refused = |request: Request, now: u64| {
        let mut service = service();
        let mut messages = DefaultMessageQueue::new();
        let mut events = EventQueue::new();
        let result = service.handle_message(
            Message::Request(id("a"), request),
            &node(),
            now,
            &mut messages,
            &mut events,
        );
        assert!(events.is_empty());
        let error = match only_answer(&mut messages).1 {
            Response::BuyError(error) => error,
            Response::GetInfoError(error) => error,
            _ => panic!("expected an error"),
        };
        (result.unwrap_err().err, error.code)
    };
    assert_eq!(
        refused(buy(2, promised(100, 21), None), 0),
        (ErrorKind::UnsupportedVersion { version: 2 }, 1)
    );
    assert_eq!(
        refused(buy(1, promised(100, 21), Some(999)), 0),
        (ErrorKind::PaymentSizeBelowMinimum, 3)
    );
    assert_eq!(
        refused(buy(1, promised(100, 21), Some(100_000_001)), 0),
        (ErrorKind::PaymentSizeAboveMaximum, 4)
    );
    assert_eq!(
        refused(buy(1, promised(2000, 21), Some(1000)), 0),
        (ErrorKind::PaymentSizeBelowFee, 3)
    );
    assert_eq!(
        refused(buy(1, promised(100, 21), None), 2063262646),
        (ErrorKind::InvalidOpeningFeeParams, 2)
    );
    let mut changed = promised(100, 21);
    changed.min_fee_msat = 1;
    assert_eq!(refused(buy(1, changed, None), 0), (ErrorKind::InvalidOpeningFeeParams, 2));
    assert_eq!(
        refused(Request::GetInfo(GetInfoRequest { version: 2, token: None }), 0),
        (ErrorKind::UnsupportedVersion { version: 2 }, 1)
    );
}

#[test]
fn a_fee_that_overflows_is_refused() {
    let mut service = LSPS2ServiceHandler::new(LSPS2ServiceConfig {
        promise_secret: SECRET,
        min_payment_size_msat: 0,
        max_payment_size_msat: u64::MAX,
    });
    let mut messages = DefaultMessageQueue::new();
    let mut events = EventQueue::new();
    let request = Message::Request(id("a"), buy(1, promised(0, u32::MAX), Some(u64::MAX)));
    let result = service.handle_message(request, &node(), 0, &mut messages, &mut events);
    assert_eq!(result.unwrap_err().err, ErrorKind::FeeOverflow);
}

#[test]
fn a_token_can_be_refused() {
    let mut service = service();
    let mut messages = DefaultMessageQueue::new();
    let mut events = EventQueue::new();
    let info = GetInfoRequest { version: 1, token: Some("t".to_string()) };
    let request = Message::Request(id("b"), Request::GetInfo(info));
    service.handle_message(request, &node(), 0, &mut messages, &mut events).unwrap();
    service.invalid_token_provided(&node(), id("b"), &mut messages).unwrap();
    match only_answer(&mut messages) {
        (request_id, Response::GetInfoError(error)) => {
            assert_eq!(request_id, id("b"));
            assert_eq!(error.code, 2);
        }
        _ => panic!("expected an error"),
    }
    assert_eq!(
        service.invalid_token_provided(&node(), id("b"), &mut messages),
        Err(APIError::APIMisuseError {
            err: ErrorKind::NoPendingRequest {
                request: PeerRequest::GetInfo,
                request_id: id("b"),
            }
        })
    );
    let response = Message::Response(
        id("c"),
        Response::GetVersions(GetVersionsResponse { versions: vec![] }),
    );
    assert_eq!(
        service
            .handle_message(response, &node(), 0, &mut messages, &mut events)
            .unwrap_err()
            .err,
        ErrorKind::ResponseAtService { protocol: Protocol::LSPS2, counterparty_node_id: node() }
    );
}

fn only_request(queue: &mut DefaultMessageQueue<LSPSMessage>) -> (RequestId, LSPS2Request) {
    let mut messages = queue.get_and_clear_pending_msgs();
    assert_eq!(messages.len(), 1);
    match messages.remove(0) {
        (to, LSPSMessage::LSPS2(LSPS2Message::Request(request_id, request))) => {
            assert_eq!(to, node());
            (request_id, request)
        }
        _ => panic!("expected a request"),
    }
}

fn bought(scid: &str, client_trusts_lsp: bool) -> LSPS2Response {
    LSPS2Response::Buy(BuyResponse {
        intercept_scid: InterceptScid(scid.to_string()),
        lsp_cltv_expiry_delta: 144,
        client_trusts_lsp,
    })
}

#[test]
fn a_client_buys_a_channel_with_invoice_parameters() {
    let mut client = LSPS2ClientHandler::new(LSPS2ClientConfig::default());
    let mut messages = DefaultMessageQueue::new();
    let mut events = EventQueue::new();

    let asked = client.request_opening_params(
        node(),
        Some("t".to_string()),
        &[1; 32],
        &mut messages,
    );
    let (request_id, request) = only_request(&mut messages);
    assert_eq!(request_id, asked);
    assert_eq!(
        request,
        LSPS2Request::GetInfo(msgs::GetInfoRequest { token: Some("t".to_string()) })
    );

    let menu = GetInfoResponse {
        opening_fee_params_menu: vec![promised(1, 2)],
        min_payment_size_msat: 3,
        max_payment_size_msat: 4,
    };
    let response = LSPS2Message::Response(request_id.clone(), LSPS2Response::GetInfo(menu));
    client.handle_message(response.clone(), &node(), &mut events).unwrap();
    assert_eq!(
        events.next_event(),
        Some(Event::LSPS2Client(LSPS2ClientEvent::OpeningParametersReady {
            request_id: request_id.clone(),
            counterparty_node_id: node(),
            opening_fee_params_menu: vec![promised(1, 2)],
            min_payment_size_msat: 3,
            max_payment_size_msat: 4,
        }))
    );
    assert_eq!(
        client.handle_message(response, &node(), &mut events).unwrap_err().err,
        ErrorKind::UnknownRequest { reply: Reply::GetInfoResponse, request_id }
    );

    client
        .select_opening_params(node(), 42, Some(9), promised(1, 2), &[2; 32], &mut messages)
        .unwrap();
    let (request_id, request) = only_request(&mut messages);
    assert_eq!(
        request,
        LSPS2Request::Buy(msgs::BuyRequest {
            opening_fee_params: promised(1, 2),
            payment_size_msat: Some(9),
        })
    );
    let response = LSPS2Message::Response(request_id, bought("1x2x3", false));
    client.handle_message(response, &node(), &mut events).unwrap();
    assert_eq!(
        events.next_event(),
        Some(Event::LSPS2Client(LSPS2ClientEvent::InvoiceParametersReady {
            counterparty_node_id: node(),
            intercept_scid: (1 << 40) | (2 << 16) | 3,
            cltv_expiry_delta: 144,
            payment_size_msat: Some(9),
            user_channel_id: 42,
        }))
    );

    assert_eq!(
        client.select_opening_params(node(), 42, None, promised(1, 2), &[3; 32], &mut messages),
        Err(APIError::APIMisuseError { err: ErrorKind::DuplicateUserChannelId })
    );
    assert!(messages.get_and_clear_pending_msgs().is_empty());
}

#[test]
fn trust_is_not_forced() {
    for (trusting, expected) in [(false, false), (true, true)] {
        let mut client =
            LSPS2ClientHandler::new(LSPS2ClientConfig { client_trusts_lsp: trusting });
        let mut messages = DefaultMessageQueue::new();
        let mut events = EventQueue::new();
        client
            .select_opening_params(node(), 42, None, promised(1, 2), &[2; 32], &mut messages)
            .unwrap();
        let (request_id, _) = only_request(&mut messages);
        let response = LSPS2Message::Response(request_id, bought("1x2x3", true));
        let result = client.handle_message(response, &node(), &mut events);
        match result {
            Ok(()) => assert!(expected),
            Err(error) => {
                assert!(!expected);
                assert_eq!(error.err, ErrorKind::TrustNotGranted);
            }
        }
        assert_eq!(events.is_empty(), !expected);
    }
}

#[test]
fn a_client_refuses_malformed_scids() {
    let mut client = LSPS2ClientHandler::new(LSPS2ClientConfig { client_trusts_lsp: false });
    let mut messages = DefaultMessageQueue::new();
    let mut events = EventQueue::new();
    client
        .select_opening_params(node(), 42, None, promised(1, 2), &[2; 32], &mut messages)
        .unwrap();
    let (request_id, _) = only_request(&mut messages);
    let response = LSPS2Message::Response(request_id, bought("1x2", false));
    assert_eq!(
        client.handle_message(response, &node(), &mut events).unwrap_err().err,
        ErrorKind::InvalidScid { text: "1x2".to_string() }
    );
    assert!(events.is_empty());
}

#[test]
fn errors_end_requests() {
    let mut client = LSPS2ClientHandler::new(LSPS2ClientConfig { client_trusts_lsp: false });
    let mut messages = DefaultMessageQueue::new();
    let mut events = EventQueue::new();
    let error = ResponseError { code: 1, message: "no".to_string(), data: None };
    let request_id = client.request_opening_params(node(), None, &[1; 32], &mut messages);
    let failed = LSPS2Message::Response(
        request_id.clone(),
        LSPS2Response::GetInfoError(error.clone()),
    );
    client.handle_message(failed.clone(), &node(), &mut events).unwrap();
    assert_eq!(
        client.handle_message(failed, &node(), &mut events).unwrap_err().err,
        ErrorKind::UnknownRequest { reply: Reply::GetInfoError, request_id }
    );
    let unknown = LSPS2Message::Response(id("x"), LSPS2Response::BuyError(error));
    assert_eq!(
        client.handle_message(unknown, &node(), &mut events).unwrap_err().err,
        ErrorKind::UnknownRequest { reply: Reply::BuyError, request_id: id("x") }
    );
    let request = LSPS2Message::Request(
        id("a"),
        LSPS2Request::GetInfo(msgs::GetInfoRequest { token: None }),
    );
    assert_eq!(
        client.handle_message(request, &node(), &mut events).unwrap_err().err,
        ErrorKind::RequestAtClient { protocol: Protocol::LSPS2, counterparty_node_id: node() }
    );
}
