use lightning_liquidity::errors::{
    APIError, ChannelState, ChannelStateError, ErrorKind, LightningError, PeerRequest, Reply,
};
use lightning_liquidity::events::{Event, EventQueue};
use lightning_liquidity::jit_channel::channel_manager::{
    HtlcToFail, HtlcToForward, InboundJITChannelState, JITChannelManager, OutboundJITChannelState,
};
use lightning_liquidity::jit_channel::msgs::{
    BuyRequest, BuyResponse, GetInfoRequest, GetInfoResponse, GetVersionsRequest,
    GetVersionsResponse, JitChannelScid, Message, OpeningFeeParams, RawOpeningFeeParams, Request,
    Response,
};
use lightning_liquidity::jit_channel::utils::{
    compute_opening_fee, is_not_past, is_valid_opening_fee_params,
};
use lightning_liquidity::lsps0::msgs::{RequestId, ResponseError};
use lightning_liquidity::lsps2::event::LSPS2Event;
use lightning_liquidity::types::{InterceptId, PublicKey};
use lightning_liquidity::utils::parse_pubkey;
use lightning_liquidity::versioned_msgs::{
    find_max_shared_version, is_supported_version, supported_versions, LSPSMessage,
};

const SECRET: [u8; 32] = [1u8; 32];

fn node() -> PublicKey {
    parse_pubkey("027100442c3b79f606f80f322d98d499eefcb060599efc5d4ecb00209c2cb54190").unwrap()
}

fn other_node() -> PublicKey {
    parse_pubkey("0279be667ef9dcbbac55a06295ce870b07029bfcdb2dce28d959f2815b16f81798").unwrap()
}

fn id(text: &str) -> RequestId {
    RequestId(text.to_string())
}

fn raw(valid_until: &str) -> RawOpeningFeeParams {
    RawOpeningFeeParams {
        min_fee_msat: 100,
        proportional: 21,
        valid_until: valid_until.to_string(),
        min_lifetime: 144,
        max_client_to_self_delay: 128,
    }
}

fn promised() -> OpeningFeeParams {
    raw("2035-05-20T08:30:45Z").into_opening_fee_params(&SECRET)
}

#[test]
fn into_opening_fee_params_produces_valid_promise() {
    let min_fee_msat = 100;
    let proportional = 21;
    let valid_until = "2023-05-20".to_string();
    let min_lifetime = 144;
    let max_client_to_self_delay = 128;

    let raw = RawOpeningFeeParams {
        min_fee_msat,
        proportional,
        valid_until: valid_until.clone(),
        min_lifetime,
        max_client_to_self_delay,
    };

    let promise_secret = [1u8; 32];

    let opening_fee_params = raw.into_opening_fee_params(&promise_secret);

    assert_eq!(opening_fee_params.min_fee_msat, min_fee_msat);
    assert_eq!(opening_fee_params.proportional, proportional);
    assert_eq!(opening_fee_params.valid_until, valid_until);
    assert_eq!(opening_fee_params.min_lifetime, min_lifetime);
    assert_eq!(opening_fee_params.max_client_to_self_delay, max_client_to_self_delay);

    assert!(opening_fee_params.is_valid(&promise_secret));
}

#[test]
fn changing_single_field_produced_invalid_params() {
    let min_fee_msat = 100;
    let proportional = 21;
    let valid_until = "2023-05-20".to_string();
    let min_lifetime = 144;
    let max_client_to_self_delay = 128;

    let raw = RawOpeningFeeParams {
        min_fee_msat,
        proportional,
        valid_until,
        min_lifetime,
        max_client_to_self_delay,
    };

    let promise_secret = [1u8; 32];

    let mut opening_fee_params = raw.into_opening_fee_params(&promise_secret);
    opening_fee_params.min_fee_msat = min_fee_msat + 1;
    assert!(!opening_fee_params.is_valid(&promise_secret));
}

#[test]
fn wrong_secret_produced_invalid_params() {
    let min_fee_msat = 100;
    let proportional = 21;
    let valid_until = "2023-05-20".to_string();
    let min_lifetime = 144;
    let max_client_to_self_delay = 128;

    let raw = RawOpeningFeeParams {
        min_fee_msat,
        proportional,
        valid_until,
        min_lifetime,
        max_client_to_self_delay,
    };

    let promise_secret = [1u8; 32];
    let other_secret = [2u8; 32];

    let opening_fee_params = raw.into_opening_fee_params(&promise_secret);
    assert!(!opening_fee_params.is_valid(&other_secret));
}

#[test]
fn a_promise_is_the_hmac_of_the_parameters() {
    let params = raw("2023-05-20").into_opening_fee_params(&SECRET);
    assert_eq!(
        params.promise,
        "271b953867a2007f246b83e8ba5ac84d443c4a08e2b20ab32507718c9f45add0"
    );
    assert_eq!(
        promised().promise,
        "7cb7c4b2eb646ddace6990821f8ea5731ff7d911b120d537e5acf689eea1b906"
    );
}

#[test]
fn promised_params_are_valid_until_they_expire() {
    let params = promised();
    assert!(is_valid_opening_fee_params(&params, &SECRET, 0));
    assert!(is_valid_opening_fee_params(&params, &SECRET, 2063262645));
    assert!(!is_valid_opening_fee_params(&params, &SECRET, 2063262646));
    assert!(!is_valid_opening_fee_params(&params, &[2u8; 32], 0));
    let mut changed = promised();
    changed.max_client_to_self_delay = 129;
    assert!(!is_valid_opening_fee_params(&changed, &SECRET, 0));
}

#[test]
fn an_expiry_that_is_no_time_is_past() {
    let params = raw("2023-05-20").into_opening_fee_params(&SECRET);
    assert!(!is_valid_opening_fee_params(&params, &SECRET, 0));
    let early = raw("1969-12-31T23:59:59Z").into_opening_fee_params(&SECRET);
    assert!(!is_valid_opening_fee_params(&early, &SECRET, 0));
    assert!(is_not_past(Some(7), 7));
    assert!(!is_not_past(Some(7), 8));
    assert!(!is_not_past(None, 0));
}

#[test]
fn computes_opening_fees() {
    assert_eq!(compute_opening_fee(1_000_000, 0, 21), Some(21));
    assert_eq!(compute_opening_fee(1_000_001, 0, 21), Some(22));
    assert_eq!(compute_opening_fee(1_000_000, 100, 21), Some(100));
    assert_eq!(compute_opening_fee(0, 0, 21), Some(0));
    assert_eq!(compute_opening_fee(u64::MAX, 0, 2), None);
    assert_eq!(compute_opening_fee(u64::MAX, 0, 1), None);
    assert_eq!(compute_opening_fee(u64::MAX - 999_999, 0, 1), Some(18446744073709));
}

#[test]
fn shares_the_largest_version() {
    assert_eq!(supported_versions(), vec![1]);
    assert!(is_supported_version(1));
    assert!(!is_supported_version(2));
    assert_eq!(find_max_shared_version(&vec![3, 1, 2]), Some(1));
    assert_eq!(find_max_shared_version(&vec![2, 3]), None);
    assert_eq!(find_max_shared_version(&vec![]), None);
}

fn only_request(messages: &mut Vec<(PublicKey, LSPSMessage)>) -> (RequestId, Request) {
    assert_eq!(messages.len(), 1);
    let (to, message) = messages.remove(0);
    assert_eq!(to, node());
    match message {
        LSPSMessage::LSPS2(Message::Request(request_id, request)) => (request_id, request),
        _ => panic!("expected a request"),
    }
}

fn only_response(messages: &mut Vec<(PublicKey, LSPSMessage)>) -> (RequestId, Response) {
    assert_eq!(messages.len(), 1);
    let (to, message) = messages.remove(0);
    assert_eq!(to, node());
    match message {
        LSPSMessage::LSPS2(Message::Response(request_id, response)) => (request_id, response),
        _ => panic!("expected a response"),
    }
}

fn respond(
    client: &mut JITChannelManager,
    request_id: RequestId,
    response: Response,
    entropy: &[u8; 32],
    messages: &mut Vec<(PublicKey, LSPSMessage)>,
    events: &mut EventQueue,
) -> Result<(), LightningError> {
    client.handle_message(
        Message::Response(request_id, response),
        &node(),
        0,
        entropy,
        messages,
        events,
    )
}

#[test]
fn a_client_buys_a_channel() {
    let mut client = JITChannelManager::new(SECRET);
    let mut messages = Vec::new();
    let mut events = EventQueue::new();

    let mut channel_entropy = [0u8; 32];
    channel_entropy[15] = 7;
    client.create_invoice(
        node(),
        Some(1_000_000),
        Some("token".to_string()),
        42,
        &channel_entropy,
        &[1; 32],
        &mut messages,
    );
    let (request_id, request) = only_request(&mut messages);
    assert_eq!(request_id, id(&"01".repeat(16)));
    assert_eq!(request, Request::GetVersions(GetVersionsRequest {}));

    let versions = Response::GetVersions(GetVersionsResponse { versions: vec![1, 2] });
    respond(&mut client, request_id, versions, &[2; 32], &mut messages, &mut events).unwrap();
    let (request_id, request) = only_request(&mut messages);
    assert_eq!(request_id, id(&"02".repeat(16)));
    assert_eq!(
        request,
        Request::GetInfo(GetInfoRequest { version: 1, token: Some("token".to_string()) })
    );

    let menu = GetInfoResponse {
        opening_fee_params_menu: vec![promised()],
        min_payment_size_msat: 1,
        max_payment_size_msat: 2,
    };
    respond(
        &mut client,
        request_id,
        Response::GetInfo(menu.clone()),
        &[0; 32],
        &mut messages,
        &mut events,
    )
    .unwrap();
    assert_eq!(
        events.next_event(),
        Some(Event::LSPS2(LSPS2Event::GetInfoResponse {
            jit_channel_id: 7,
            counterparty_node_id: node(),
            opening_fee_params_menu: vec![promised()],
            min_payment_size_msat: 1,
            max_payment_size_msat: 2,
            user_channel_id: 42,
        }))
    );

    client
        .opening_fee_params_selected(node(), 7, promised(), &[3; 32], &mut messages)
        .unwrap();
    let (request_id, request) = only_request(&mut messages);
    assert_eq!(
        request,
        Request::Buy(BuyRequest {
            version: 1,
            opening_fee_params: promised(),
            payment_size_msat: Some(1_000_000),
        })
    );

    let bought = Response::Buy(BuyResponse {
        jit_channel_scid: JitChannelScid("1x2x3".to_string()),
        lsp_cltv_expiry_delta: 144,
        client_trusts_lsp: false,
    });
    respond(
        &mut client,
        request_id.clone(),
        bought.clone(),
        &[0; 32],
        &mut messages,
        &mut events,
    )
    .unwrap();
    assert_eq!(
        events.next_event(),
        Some(Event::LSPS2(LSPS2Event::InvoiceGenerationReady {
            counterparty_node_id: node(),
            scid: (1 << 40) | (2 << 16) | 3,
            cltv_expiry_delta: 144,
            payment_size_msat: Some(1_000_000),
            client_trusts_lsp: false,
            user_channel_id: 42,
        }))
    );

    // The same reply does not count twice.
    let again = respond(&mut client, request_id.clone(), bought, &[0; 32], &mut messages, &mut events);
    assert_eq!(
        again.unwrap_err().err,
        ErrorKind::UnknownRequest { reply: Reply::BuyResponse, request_id }
    );
    assert!(events.is_empty());
    assert!(messages.is_empty());
}

#[test]
fn a_client_gives_up_without_a_shared_version() {
    let mut client = JITChannelManager::new(SECRET);
    let mut messages = Vec::new();
    let mut events = EventQueue::new();
    client.create_invoice(node(), None, None, 0, &[0; 32], &[1; 32], &mut messages);
    let (request_id, _) = only_request(&mut messages);
    let versions = Response::GetVersions(GetVersionsResponse { versions: vec![2, 3] });
    let result = respond(&mut client, request_id, versions, &[2; 32], &mut messages, &mut events);
    assert_eq!(result.unwrap_err().err, ErrorKind::NoSharedVersion { theirs: vec![2, 3] });
    assert!(messages.is_empty());
    assert!(matches!(
        client.opening_fee_params_selected(node(), 0, promised(), &[3; 32], &mut messages),
        Err(APIError::APIMisuseError { .. })
    ));
}

#[test]
fn replies_out_of_nowhere_are_refused() {
    let mut client = JITChannelManager::new(SECRET);
    let mut messages = Vec::new();
    let mut events = EventQueue::new();
    let error = ResponseError { code: 1, message: "no".to_string(), data: None };
    for (response, reply) in [
        (
            Response::GetVersions(GetVersionsResponse { versions: vec![] }),
            Reply::GetVersionsResponse,
        ),
        (Response::GetInfoError(error.clone()), Reply::GetInfoError),
        (Response::BuyError(error), Reply::BuyError),
    ] {
        let result =
            respond(&mut client, id("x"), response, &[0; 32], &mut messages, &mut events);
        assert_eq!(
            result.unwrap_err().err,
            ErrorKind::UnknownPeer { reply, counterparty_node_id: node() }
        );
    }
}

fn request(
    service: &mut JITChannelManager,
    request_id: &str,
    request: Request,
    messages: &mut Vec<(PublicKey, LSPSMessage)>,
    events: &mut EventQueue,
) -> Result<(), LightningError> {
    service.handle_message(
        Message::Request(id(request_id), request),
        &node(),
        0,
        &[0; 32],
        messages,
        events,
    )
}

#[test]
fn a_service_sells_a_channel() {
    let mut service = JITChannelManager::new(SECRET);
    let mut messages = Vec::new();
    let mut events = EventQueue::new();

    request(
        &mut service,
        "a",
        Request::GetVersions(GetVersionsRequest {}),
        &mut messages,
        &mut events,
    )
    .unwrap();
    assert_eq!(
        only_response(&mut messages),
        (id("a"), Response::GetVersions(GetVersionsResponse { versions: vec![1] }))
    );

    let info = GetInfoRequest { version: 1, token: None };
    request(&mut service, "b", Request::GetInfo(info), &mut messages, &mut events).unwrap();
    assert!(matches!(
        events.next_event(),
        Some(Event::LSPS2(LSPS2Event::GetInfo { version: 1, token: None, .. }))
    ));
    service
        .opening_fee_params_generated(
            node(),
            id("b"),
            vec![raw("2035-05-20T08:30:45Z")],
            1,
            2,
            &mut messages,
        )
        .unwrap();
    assert_eq!(
        only_response(&mut messages),
        (
            id("b"),
            Response::GetInfo(GetInfoResponse {
                opening_fee_params_menu: vec![promised()],
                min_payment_size_msat: 1,
                max_payment_size_msat: 2,
            })
        )
    );

    let buy = BuyRequest {
        version: 1,
        opening_fee_params: promised(),
        payment_size_msat: Some(1_000_000),
    };
    request(&mut service, "c", Request::Buy(buy), &mut messages, &mut events).unwrap();
    assert!(matches!(
        events.next_event(),
        Some(Event::LSPS2(LSPS2Event::BuyRequest { payment_size_msat: Some(1_000_000), .. }))
    ));
    service
        .invoice_parameters_generated(node(), id("c"), 99, 144, true, &mut messages)
        .unwrap();
    assert_eq!(
        only_response(&mut messages),
        (
            id("c"),
            Response::Buy(BuyResponse {
                jit_channel_scid: JitChannelScid("0x0x99".to_string()),
                lsp_cltv_expiry_delta: 144,
                client_trusts_lsp: true,
            })
        )
    );

    assert!(service.covers_fee(99, 1_000_000));
    assert!(!service.covers_fee(99, 99));
    let to_fail = service
        .htlc_intercepted(99, InterceptId([5; 32]), 1_000_001, 1_000_000, &mut events)
        .unwrap();
    assert!(to_fail.is_none());
    assert_eq!(
        events.next_event(),
        Some(Event::LSPS2(LSPS2Event::OpenChannel {
            their_network_key: node(),
            inbound_amount_msat: 1_000_001,
            expected_outbound_amount_msat: 1_000_000,
            amt_to_forward_msat: 999_900,
            opening_fee_msat: 100,
            user_channel_id: 99,
        }))
    );
    assert_eq!(
        service.channel_ready(99, &node()),
        Ok(Some(HtlcToForward { intercept_id: InterceptId([5; 32]), amt_to_forward_msat: 999_900 }))
    );
    // The HTLC is forwarded once.
    assert_eq!(
        service.channel_ready(99, &node()),
        Err(APIError::APIMisuseError {
            err: ErrorKind::ChannelReadyFailed {
                cause: Box::new(ErrorKind::UnexpectedChannelReady {
                    state: ChannelState::SingleOutboundJIT(OutboundJITChannelState::ChannelReady {
                        intercept_id: InterceptId([5; 32]),
                        amt_to_forward_msat: 999_900,
                    })
                })
            }
        })
    );
    assert_eq!(
        service.channel_ready(98, &node()),
        Err(APIError::APIMisuseError {
            err: ErrorKind::UserChannelNotFound { user_channel_id: 98 }
        })
    );
    assert_eq!(
        service.invoice_parameters_generated(node(), id("c"), 99, 144, true, &mut messages),
        Err(APIError::APIMisuseError {
            err: ErrorKind::NoPendingRequest { request: PeerRequest::Buy, request_id: id("c") }
        })
    );
    // A second HTLC is to be failed, and then the channel is given up.
    let unexpected = || ErrorKind::UnexpectedHtlc {
        state: ChannelState::SingleOutboundJIT(OutboundJITChannelState::ChannelReady {
            intercept_id: InterceptId([5; 32]),
            amt_to_forward_msat: 999_900,
        }),
    };
    assert!(service.covers_fee(99, 1_000_000));
    let failed = service
        .htlc_intercepted(99, InterceptId([6; 32]), 1_000_001, 1_000_000, &mut events)
        .unwrap()
        .expect("an HTLC to fail");
    assert_eq!(
        failed,
        HtlcToFail {
            intercept_id: InterceptId([6; 32]),
            counterparty_node_id: node(),
            scid: 99,
            err: unexpected(),
        }
    );
    assert_eq!(
        service.intercepted_htlc_failed(failed),
        APIError::APIMisuseError { err: unexpected() }
    );
    assert_eq!(
        service.channel_ready(99, &node()),
        Err(APIError::APIMisuseError {
            err: ErrorKind::UserChannelNotFound { user_channel_id: 99 }
        })
    );
}

#[test]
fn expired_or_changed_params_cannot_be_bought() {
    let mut service = JITChannelManager::new(SECRET);
    let mut messages = Vec::new();
    let mut events = EventQueue::new();
    let mut params = promised();
    params.proportional = 20;
    let buy = BuyRequest { version: 1, opening_fee_params: params, payment_size_msat: None };
    let _ = request(&mut service, "a", Request::Buy(buy), &mut messages, &mut events);
    assert!(events.is_empty());
    let buy = BuyRequest { version: 1, opening_fee_params: promised(), payment_size_msat: None };
    let _ = service.handle_message(
        Message::Request(id("b"), Request::Buy(buy)),
        &node(),
        2063262646,
        &[0; 32],
        &mut messages,
        &mut events,
    );
    assert!(events.is_empty());
}

#[test]
fn answers_need_a_pending_request() {
    let mut service = JITChannelManager::new(SECRET);
    let mut messages: Vec<(PublicKey, LSPSMessage)> = Vec::new();
    assert_eq!(
        service.opening_fee_params_generated(node(), id("x"), vec![], 1, 2, &mut messages),
        Err(APIError::APIMisuseError {
            err: ErrorKind::NoPeerState { counterparty_node_id: node() }
        })
    );
    assert!(service
        .invoice_parameters_generated(other_node(), id("x"), 1, 2, false, &mut messages)
        .is_err());
    assert!(messages.is_empty());
    assert_eq!(service.channel_ready(1, &node()).is_ok(), false);
}

#[test]
fn channel_states_go_in_order() {
    let state = InboundJITChannelState::VersionsRequested;
    let was = || ChannelState::VersionedInboundJIT(InboundJITChannelState::VersionsRequested);
    assert_eq!(
        state.info_received(),
        Err(ChannelStateError(ErrorKind::UnexpectedInfo { state: was() }))
    );
    assert_eq!(
        state.opening_fee_params_selected(),
        Err(ChannelStateError(ErrorKind::UnexpectedSelection { state: was() }))
    );
    assert_eq!(
        state.invoice_params_received(true, JitChannelScid("1x2x3".to_string())),
        Err(ChannelStateError(ErrorKind::UnexpectedInvoiceParams { state: was() }))
    );
    let state = state.versions_received(vec![1]).unwrap();
    assert_eq!(state, InboundJITChannelState::MenuRequested { version: 1 });
    assert_eq!(
        state.versions_received(vec![1]),
        Err(ChannelStateError(ErrorKind::UnexpectedVersions {
            state: ChannelState::VersionedInboundJIT(InboundJITChannelState::MenuRequested {
                version: 1
            })
        }))
    );
    assert_eq!(
        state.versions_received(vec![2]),
        Err(ChannelStateError(ErrorKind::NoSharedVersion { theirs: vec![2] }))
    );
    let state = state.info_received().unwrap();
    assert_eq!(state, InboundJITChannelState::PendingMenuSelection { version: 1 });
    let state = state.opening_fee_params_selected().unwrap();
    assert_eq!(state, InboundJITChannelState::BuyRequested { version: 1 });
    let scid = JitChannelScid("1x2x3".to_string());
    let state = state.invoice_params_received(true, scid.clone()).unwrap();
    assert_eq!(
        state,
        InboundJITChannelState::PendingPayment { client_trusts_lsp: true, short_channel_id: scid }
    );

    let state = OutboundJITChannelState::new(1, 144, None, promised());
    assert_eq!(
        state.channel_ready(),
        Err(ChannelStateError(ErrorKind::UnexpectedChannelReady {
            state: ChannelState::SingleOutboundJIT(OutboundJITChannelState::new(
                1,
                144,
                None,
                promised()
            ))
        }))
    );
    let state = state.htlc_intercepted(5_000_000, InterceptId([1; 32])).unwrap();
    assert_eq!(
        state,
        OutboundJITChannelState::PendingChannelOpen {
            intercept_id: InterceptId([1; 32]),
            opening_fee_msat: 105,
            amt_to_forward_msat: 4_999_895,
        }
    );
    assert_eq!(
        state.htlc_intercepted(5_000_000, InterceptId([2; 32])),
        Err(ChannelStateError(ErrorKind::UnexpectedHtlc {
            state: ChannelState::SingleOutboundJIT(OutboundJITChannelState::PendingChannelOpen {
                intercept_id: InterceptId([1; 32]),
                opening_fee_msat: 105,
                amt_to_forward_msat: 4_999_895,
            })
        }))
    );
    let state = state.channel_ready().unwrap();
    assert_eq!(
        state.channel_ready(),
        Err(ChannelStateError(ErrorKind::UnexpectedChannelReady {
            state: ChannelState::SingleOutboundJIT(OutboundJITChannelState::ChannelReady {
                intercept_id: InterceptId([1; 32]),
                amt_to_forward_msat: 4_999_895,
            })
        }))
    );
}

#[test]
fn a_fee_that_overflows_is_not_taken_from_an_htlc() {
    let mut params = promised();
    params.proportional = u32::MAX;
    let state = OutboundJITChannelState::new(1, 144, None, params);
    assert_eq!(
        state.htlc_intercepted(u64::MAX, InterceptId([1; 32])),
        Err(ChannelStateError(ErrorKind::OpeningFeeOverflow {
            min_fee_msat: 100,
            proportional: u32::MAX,
            expected_outbound_amount_msat: u64::MAX,
        }))
    );
}

#[test]
fn a_second_request_for_a_channel_finds_it_gone() {
    let mut client = JITChannelManager::new(SECRET);
    let mut messages = Vec::new();
    let mut events = EventQueue::new();
    for request_entropy in [[2; 32], [3; 32]] {
        client.create_invoice(
            node(),
            None,
            None,
            7,
            &[1; 32],
            &request_entropy,
            &mut messages,
        );
    }
    let error = ResponseError { code: 1, message: "no".to_string(), data: None };
    let mut fail = |request_id: String| {
        respond(
            &mut client,
            RequestId(request_id),
            Response::GetInfoError(error.clone()),
            &[0; 32],
            &mut messages,
            &mut events,
        )
    };
    assert_eq!(fail("02".repeat(16)), Ok(()));
    assert_eq!(
        fail("03".repeat(16)).unwrap_err().err,
        ErrorKind::UnknownChannel {
            reply: Reply::GetInfoError,
            channel_id: u128::from_be_bytes([1; 16]),
        }
    );
    assert_eq!(
        client.opening_fee_params_selected(node(), 5, promised(), &[4; 32], &mut messages),
        Err(APIError::APIMisuseError { err: ErrorKind::ChannelNotFound { channel_id: 5 } })
    );
}

#[test]
fn jit_scids_survive_their_text() {
    let scid = JitChannelScid::from_scid(12345678901234567890);
    assert_eq!(scid.to_scid(), Ok(12345678901234567890));
    assert_eq!(JitChannelScid("nonsense".to_string()).to_scid(), Err(()));
}
