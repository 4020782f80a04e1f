use lightning_liquidity::collections::KeyedMap;
use lightning_liquidity::errors::{ErrorKind, Protocol};
use lightning_liquidity::events::EventQueue;
use lightning_liquidity::lsps0::client::LSPS0ClientHandler;
use lightning_liquidity::lsps0::message_handler::ProtocolMessageHandler;
use lightning_liquidity::lsps0::msgs::{
    DecodeError, Frame, LSPS0Message, LSPS0Request, LSPS0Response, LSPSMessage,
    ListProtocolsRequest, ListProtocolsResponse, Payload, RawLSPSMessage, RequestId,
    ResponseError, LSPS_MESSAGE_TYPE_ID,
};
use lightning_liquidity::lsps0::protocol::LSPS0MessageHandler;
use lightning_liquidity::lsps0::ser::{
    amount_from_str, amount_to_string, optional_amount_from_str, optional_amount_to_string,
    LSPSMethod, UnknownMethod,
};
use lightning_liquidity::lsps1::client::{LSPS1ClientConfig, LSPS1ClientHandler};
use lightning_liquidity::lsps1::msgs::{
    CreateOrderResponse, GetInfoRequest as LSPS1GetInfoRequest,
    GetInfoResponse as LSPS1GetInfoResponse, GetOrderRequest, LSPS1Message, LSPS1Request,
    LSPS1Response, OnchainPayment, OptionsSupported, OrderId, OrderParams, OrderPayment,
    OrderState, PaymentState, UtcDateTime,
};
use lightning_liquidity::lsps2::client::{LSPS2ClientConfig, LSPS2ClientHandler};
use lightning_liquidity::lsps2::msgs::{
    BuyResponse, GetInfoRequest, GetInfoResponse, InterceptScid, LSPS2Message, LSPS2Request,
    LSPS2Response,
};
use lightning_liquidity::transport;
use lightning_liquidity::types::PublicKey;
use lightning_liquidity::utils::parse_pubkey;

fn node() -> PublicKey {
    parse_pubkey("027100442c3b79f606f80f322d98d499eefcb060599efc5d4ecb00209c2cb54190").unwrap()
}

fn options() -> LSPS1GetInfoResponse {
    LSPS1GetInfoResponse {
        website: "w".to_string(),
        options: OptionsSupported {
            min_channel_confirmations: 1,
            min_onchain_payment_confirmations: None,
            supports_zero_channel_reserve: true,
            min_onchain_payment_size_sat: None,
            max_channel_expiry_blocks: 100,
            min_initial_client_balance_sat: 10,
            max_initial_client_balance_sat: 20,
            min_initial_lsp_balance_sat: 30,
            max_initial_lsp_balance_sat: 40,
            min_channel_balance_sat: 45,
            max_channel_balance_sat: 55,
        },
    }
}

fn order() -> CreateOrderResponse {
    let time = UtcDateTime { seconds: 1, nanoseconds: 2 };
    CreateOrderResponse {
        order_id: OrderId("o".to_string()),
        order: OrderParams {
            lsp_balance_sat: 35,
            client_balance_sat: 15,
            confirms_within_blocks: 1,
            channel_expiry_blocks: 100,
            token: String::new(),
            refund_onchain_address: None,
            announce_channel: true,
        },
        created_at: time,
        expires_at: time,
        order_state: OrderState::Created,
        payment: OrderPayment {
            state: PaymentState::ExpectPayment,
            fee_total_sat: 5,
            order_total_sat: 20,
            bolt11_invoice: "lnbc1".to_string(),
            onchain_address: "bc1".to_string(),
            min_onchain_payment_confirmations: None,
            min_fee_for_0conf: 1,
            onchain_payment: OnchainPayment {
                outpoint: "0:0".to_string(),
                sat: 20,
                confirmed: false,
            },
        },
        channel: None,
    }
}

fn id(text: &str) -> RequestId {
    RequestId(text.to_string())
}

fn from_str_with_id_map(
    json: &str,
    request_id_to_method_map: &mut KeyedMap<String, String>,
) -> Result<LSPSMessage, DecodeError> {
    let frame = LSPSMessage::from_str_with_id_map(json, request_id_to_method_map)?;
    let payload = frame.read_payload()?.unwrap_or(Payload::Nothing);
    Ok(frame.into_message(payload).unwrap())
}

#[test]
fn deserializes_request() {
    let json = r#"{
			"jsonrpc": "2.0",
			"id": "request:id:xyz123",
			"method": "lsps0.list_protocols"
		}"#;

    let mut request_id_method_map = KeyedMap::new();

    let msg = from_str_with_id_map(json, &mut request_id_method_map);
    assert!(msg.is_ok());
    let msg = msg.unwrap();
    assert_eq!(
        msg,
        LSPSMessage::LSPS0(LSPS0Message::Request(
            RequestId("request:id:xyz123".to_string()),
            LSPS0Request::ListProtocols(ListProtocolsRequest {})
        ))
    );
}

#[test]
fn serializes_request() {
    let request = LSPSMessage::LSPS0(LSPS0Message::Request(
        RequestId("request:id:xyz123".to_string()),
        LSPS0Request::ListProtocols(ListProtocolsRequest {}),
    ));
    let json = request.to_json("{}");
    assert_eq!(
        json,
        r#"{"jsonrpc":"2.0","method":"lsps0.list_protocols","id":"request:id:xyz123","params":{}}"#
    );
}

#[test]
fn msgs_deserializes_success_response() {
    let json = r#"{
	        "jsonrpc": "2.0",
	        "id": "request:id:xyz123",
	        "result": {
	            "protocols": [1,2,3]
	        }
	    }"#;
    let mut request_id_to_method_map = KeyedMap::new();
    request_id_to_method_map
        .insert("request:id:xyz123".to_string(), "lsps0.list_protocols".to_string());

    let response = from_str_with_id_map(json, &mut request_id_to_method_map).unwrap();

    assert_eq!(
        response,
        LSPSMessage::LSPS0(LSPS0Message::Response(
            RequestId("request:id:xyz123".to_string()),
            LSPS0Response::ListProtocols(ListProtocolsResponse { protocols: vec![1, 2, 3] })
        ))
    );
}

#[test]
fn msgs_deserializes_error_response() {
    let json = r#"{
	        "jsonrpc": "2.0",
	        "id": "request:id:xyz123",
	        "error": {
	            "code": -32617,
				"message": "Unknown Error"
	        }
	    }"#;
    let mut request_id_to_method_map = KeyedMap::new();
    request_id_to_method_map
        .insert("request:id:xyz123".to_string(), "lsps0.list_protocols".to_string());

    let response = from_str_with_id_map(json, &mut request_id_to_method_map).unwrap();

    assert_eq!(
        response,
        LSPSMessage::LSPS0(LSPS0Message::Response(
            RequestId("request:id:xyz123".to_string()),
            LSPS0Response::ListProtocolsError(ResponseError {
                code: -32617,
                message: "Unknown Error".to_string(),
                data: None
            })
        ))
    );
}

#[test]
fn deserialize_fails_with_unknown_request_id() {
    let json = r#"{
			"jsonrpc": "2.0",
			"id": "request:id:xyz124",
			"result": {
				"protocols": [1,2,3]
			}
		}"#;
    let mut request_id_to_method_map = KeyedMap::new();
    request_id_to_method_map
        .insert("request:id:xyz123".to_string(), "lsps0.list_protocols".to_string());

    let response = from_str_with_id_map(json, &mut request_id_to_method_map);
    assert!(response.is_err());
}

#[test]
fn serializes_response() {
    let response = LSPSMessage::LSPS0(LSPS0Message::Response(
        RequestId("request:id:xyz123".to_string()),
        LSPS0Response::ListProtocols(ListProtocolsResponse { protocols: vec![1, 2, 3] }),
    ));
    let payload = ListProtocolsResponse { protocols: vec![1, 2, 3] }.to_json();
    let json = response.to_json(&payload);
    assert_eq!(
        json,
        r#"{"jsonrpc":"2.0","id":"request:id:xyz123","result":{"protocols":[1,2,3]}}"#
    );
}

#[test]
fn each_reason_why_a_text_is_no_message() {
    let decode = |json: &str| {
        let mut methods = KeyedMap::new();
        methods.insert("known".to_string(), "lsps0.list_protocols".to_string());
        methods.insert("info".to_string(), "lsps1.get_info".to_string());
        methods.insert("odd".to_string(), "lsps9.odd".to_string());
        from_str_with_id_map(json, &mut methods).unwrap_err()
    };
    assert_eq!(decode(""), DecodeError::Json);
    assert_eq!(decode("[]"), DecodeError::Json);
    assert_eq!(decode(r#"{"id":"a""#), DecodeError::Json);
    assert_eq!(decode(r#"{"id":1}"#), DecodeError::Json);
    assert_eq!(decode(r#"{"id":"a","method":"lsps0.list\u005fprotocols"}"#), DecodeError::Json);
    assert_eq!(decode(r#"{"method":"lsps0.list_protocols"}"#), DecodeError::UnknownNotification);
    assert_eq!(
        decode(r#"{"id":null,"method":"lsps0.list_protocols"}"#),
        DecodeError::UnknownNotification
    );
    assert_eq!(decode("{}"), DecodeError::NoIdAndNoMethod);
    assert_eq!(decode(r#"{"id":"a","method":"lsps0.other"}"#), DecodeError::UnknownMethod);
    assert_eq!(decode(r#"{"id":"a","result":{}}"#), DecodeError::UnknownRequestId);
    assert_eq!(
        decode(r#"{"id":"info","error":{"code":1,"message":"m"}}"#),
        DecodeError::UnknownRequestMethod
    );
    assert_eq!(decode(r#"{"id":"info"}"#), DecodeError::NoResultAndNoError);
    assert_eq!(decode(r#"{"id":"odd","result":{}}"#), DecodeError::UnknownRequestMethod);
    assert_eq!(decode(r#"{"id":"known"}"#), DecodeError::NoResultAndNoError);
}

#[test]
fn of_members_with_one_name_the_last_counts() {
    let json = r#" {"id":"a","x":[1,{"y":null}],"id":"b","method":"lsps2.buy",
        "params":{"z":1},"params":{"z":2}} and what follows"#;
    let mut methods = KeyedMap::new();
    assert_eq!(
        LSPSMessage::from_str_with_id_map(json, &mut methods),
        Ok(Frame::Request {
            request_id: id("b"),
            method: LSPSMethod::LSPS2Buy,
            params: r#"{"z":2}"#.to_string(),
        })
    );
    let json = r#"{"error":{"code":1,"message":"a"},"id":"x","error":{"message":"b","code":2}}"#;
    methods.insert("x".to_string(), "lsps2.buy".to_string());
    assert!(matches!(
        LSPSMessage::from_str_with_id_map(json, &mut methods),
        Ok(Frame::ErrorResponse { error: ResponseError { code: 2, .. }, .. })
    ));
}

#[test]
fn parameters_are_optional() {
    let mut methods = KeyedMap::new();
    assert_eq!(
        LSPSMessage::from_str_with_id_map(
            r#"{"id":"a","method":"lsps2.get_info"}"#,
            &mut methods
        ),
        Ok(Frame::Request {
            request_id: id("a"),
            method: LSPSMethod::LSPS2GetInfo,
            params: "{}".to_string(),
        })
    );
}

#[test]
fn a_response_ends_its_request() {
    let json = r#"{"id":"a","result":{"protocols":[]}}"#;
    let mut methods = KeyedMap::new();
    methods.insert("a".to_string(), "lsps0.list_protocols".to_string());
    assert!(from_str_with_id_map(json, &mut methods).is_ok());
    assert_eq!(from_str_with_id_map(json, &mut methods), Err(DecodeError::UnknownRequestId));
}

#[test]
fn ids_survive_whatever_they_hold() {
    for text in ["", "plain", "with \"quotes\"", "back\\slash", "line\nbreak\u{1}", "\u{1F600}é"] {
        let message = LSPSMessage::LSPS2(LSPS2Message::Request(
            id(text),
            LSPS2Request::GetInfo(GetInfoRequest { token: None }),
        ));
        let json = message.to_json(r#"{"token":null}"#);
        let mut methods = KeyedMap::new();
        assert_eq!(
            LSPSMessage::from_str_with_id_map(&json, &mut methods),
            Ok(Frame::Request {
                request_id: id(text),
                method: LSPSMethod::LSPS2GetInfo,
                params: r#"{"token":null}"#.to_string(),
            })
        );
        let value: serde_json::Value = serde_json::from_str(&json).unwrap();
        assert_eq!(value["id"], text);
    }
}

fn error() -> ResponseError {
    ResponseError { code: -1, message: "a \"b\"".to_string(), data: Some("c".to_string()) }
}

#[test]
fn writes_errors_as_json() {
    assert_eq!(error().to_json(), r#"{"code":-1,"message":"a \"b\"","data":"c"}"#);
    let error = ResponseError { code: 100, message: String::new(), data: None };
    assert_eq!(error.to_json(), r#"{"code":100,"message":"","data":null}"#);
    assert_eq!(ListProtocolsResponse { protocols: vec![] }.to_json(), r#"{"protocols":[]}"#);
    assert_eq!(
        ListProtocolsResponse { protocols: vec![65535] }.to_json(),
        r#"{"protocols":[65535]}"#
    );
}

#[test]
fn reads_errors() {
    assert_eq!(ResponseError::from_json(&error().to_json()), Some(error()));
    for code in [0, 1, -1, i32::MAX, i32::MIN] {
        let error = ResponseError { code, message: "\u{1}\"\\".to_string(), data: None };
        assert_eq!(ResponseError::from_json(&error.to_json()), Some(error));
    }
    let error = |data: Option<&str>| {
        Some(ResponseError {
            code: 7,
            message: "m".to_string(),
            data: data.map(|data| data.to_string()),
        })
    };
    assert_eq!(ResponseError::from_json(r#"{"code":7,"message":"m"}"#), error(None));
    assert_eq!(ResponseError::from_json(r#"{"code":7,"x":[{}],"message":"m"}"#), error(None));
    assert_eq!(ResponseError::from_json(r#"{"c\u006fde":7,"message":"m"}"#), error(None));
    assert_eq!(ResponseError::from_json(r#"[7,"m",null]"#), error(None));
    assert_eq!(ResponseError::from_json(r#" [ 7 , "m" , "d" ] "#), error(Some("d")));
    for text in [
        "",
        "null",
        "7",
        "{}",
        r#"{"code":7}"#,
        r#"{"message":"m"}"#,
        r#"{"code":7,"code":7,"message":"m"}"#,
        r#"{"code":"7","message":"m"}"#,
        r#"{"code":7.0,"message":"m"}"#,
        r#"{"code":2147483648,"message":"m"}"#,
        r#"{"code":7,"message":null}"#,
        r#"{"code":7,"message":"m","data":8}"#,
        r#"[7,"m"]"#,
        r#"[7,"m",null,8]"#,
    ] {
        assert_eq!(ResponseError::from_json(text), None, "{}", text);
    }
}

#[test]
fn reads_lists_of_protocols() {
    let read = |text: &str| ListProtocolsResponse::from_json(text).map(|r| r.protocols);
    for protocols in [vec![], vec![0], vec![1, 22, 65535]] {
        let response = ListProtocolsResponse { protocols: protocols.clone() };
        assert_eq!(read(&response.to_json()), Some(protocols));
    }
    assert_eq!(read(r#"{"protocols":[1],"x":2,"protocols":[3,4]}"#), Some(vec![3, 4]));
    assert_eq!(read("[[5]]"), Some(vec![5]));
    for text in ["{}", "[]", "[5]", "null", r#"{"protocols":[65536]}"#, r#"{"protocols":null}"#] {
        assert_eq!(read(text), None);
    }
    assert!(ListProtocolsRequest::from_json("{}").is_some());
    assert!(ListProtocolsRequest::from_json(r#"{"x":1}"#).is_some());
    assert!(ListProtocolsRequest::from_json("[]").is_some());
    assert!(ListProtocolsRequest::from_json("[1]").is_none());
    assert!(ListProtocolsRequest::from_json("null").is_none());
}

#[test]
fn writes_every_kind_of_message() {
    let request = |request| LSPSMessage::LSPS1(LSPS1Message::Request(id("a"), request));
    assert_eq!(
        request(LSPS1Request::GetInfo(LSPS1GetInfoRequest {})).to_json("{}"),
        r#"{"jsonrpc":"2.0","id":"a","method":"lsps1.get_info","params":{}}"#
    );
    let order_id = OrderId("o".to_string());
    assert_eq!(
        request(LSPS1Request::GetOrder(GetOrderRequest { order_id }))
            .to_json(r#"{"order_id":"o"}"#),
        r#"{"jsonrpc":"2.0","id":"a","method":"lsps1.get_order","params":{"order_id":"o"}}"#
    );
    let response = |response| LSPSMessage::LSPS1(LSPS1Message::Response(id("a"), response));
    assert_eq!(
        response(LSPS1Response::CreateOrderError(error())).to_json("ignored"),
        r#"{"jsonrpc":"2.0","id":"a","error":{"code":-1,"message":"a \"b\"","data":"c"}}"#
    );
    for success in [
        LSPS1Response::GetInfo(options()),
        LSPS1Response::CreateOrder(order()),
        LSPS1Response::GetOrder(order()),
    ] {
        assert_eq!(response(success).to_json("{}"), r#"{"jsonrpc":"2.0","id":"a","result":{}}"#);
    }
    assert_eq!(
        response(LSPS1Response::GetOrderError(error())).to_json("ignored"),
        r#"{"jsonrpc":"2.0","id":"a","error":{"code":-1,"message":"a \"b\"","data":"c"}}"#
    );
    let response = |response| LSPSMessage::LSPS2(LSPS2Message::Response(id("a"), response));
    let menu = GetInfoResponse {
        opening_fee_params_menu: vec![],
        min_payment_size_msat: 0,
        max_payment_size_msat: 0,
    };
    assert_eq!(
        response(LSPS2Response::GetInfo(menu)).to_json("{}"),
        r#"{"jsonrpc":"2.0","id":"a","result":{}}"#
    );
    assert_eq!(
        response(LSPS2Response::GetInfoError(error())).to_json(&error().to_json()),
        r#"{"jsonrpc":"2.0","id":"a","error":{"code":-1,"message":"a \"b\"","data":"c"}}"#
    );
    assert_eq!(
        LSPSMessage::Invalid.to_json("ignored"),
        r#"{"jsonrpc":"2.0","id":null,"error":{"code":-32700,"message":"parse error","data":null}}"#
    );
}

#[test]
fn a_response_is_read_by_the_method_of_its_request() {
    let purchase = BuyResponse {
        intercept_scid: InterceptScid("1x2x3".to_string()),
        lsp_cltv_expiry_delta: 4,
        client_trusts_lsp: true,
    };
    let message =
        LSPSMessage::LSPS2(LSPS2Message::Response(id("a"), LSPS2Response::Buy(purchase.clone())));
    let json = message.to_json(r#"{"k":1}"#);
    let mut methods = KeyedMap::new();
    methods.insert("a".to_string(), "lsps2.buy".to_string());
    let frame = LSPSMessage::from_str_with_id_map(&json, &mut methods).unwrap();
    assert_eq!(
        frame,
        Frame::Response {
            request_id: id("a"),
            method: LSPSMethod::LSPS2Buy,
            result: r#"{"k":1}"#.to_string(),
        }
    );
    assert_eq!(frame.into_message(Payload::Purchase(purchase)), Some(message));

    let message =
        LSPSMessage::LSPS2(LSPS2Message::Response(id("a"), LSPS2Response::BuyError(error())));
    let json = message.to_json(&error().to_json());
    methods.insert("a".to_string(), "lsps2.buy".to_string());
    assert_eq!(from_str_with_id_map(&json, &mut methods), Ok(message));
}

#[test]
fn lsps1_responses_are_read_as_what_they_were() {
    for (response, method, payload) in [
        (LSPS1Response::GetInfo(options()), "lsps1.get_info", Payload::Options(options())),
        (LSPS1Response::CreateOrder(order()), "lsps1.create_order", Payload::Order(order())),
        (LSPS1Response::GetOrder(order()), "lsps1.get_order", Payload::Order(order())),
        (LSPS1Response::CreateOrderError(error()), "lsps1.create_order", Payload::Nothing),
        (LSPS1Response::GetOrderError(error()), "lsps1.get_order", Payload::Nothing),
    ] {
        let message = LSPSMessage::LSPS1(LSPS1Message::Response(id("a"), response));
        let json = message.to_json(r#"{"k":[1,null]}"#);
        let mut methods = KeyedMap::new();
        methods.insert("a".to_string(), method.to_string());
        let frame = LSPSMessage::from_str_with_id_map(&json, &mut methods).unwrap();
        if let Frame::Response { result, .. } = &frame {
            assert_eq!(result, r#"{"k":[1,null]}"#);
        }
        assert_eq!(frame.into_message(payload), Some(message));
        assert!(!methods.contains_key(&"a".to_string()));
    }
}

#[test]
fn what_was_written_is_read_back() {
    let messages = vec![
        LSPSMessage::LSPS0(LSPS0Message::Request(
            id("a"),
            LSPS0Request::ListProtocols(ListProtocolsRequest {}),
        )),
        LSPSMessage::LSPS0(LSPS0Message::Response(
            id("b"),
            LSPS0Response::ListProtocols(ListProtocolsResponse { protocols: vec![1, 2, 65535] }),
        )),
        LSPSMessage::LSPS0(LSPS0Message::Response(
            id("c"),
            LSPS0Response::ListProtocolsError(error()),
        )),
        LSPSMessage::LSPS2(LSPS2Message::Response(
            id("d \" }"),
            LSPS2Response::GetInfoError(error()),
        )),
        LSPSMessage::LSPS2(LSPS2Message::Response(id("e"), LSPS2Response::BuyError(error()))),
    ];
    let mut methods = KeyedMap::new();
    methods.insert("b".to_string(), "lsps0.list_protocols".to_string());
    methods.insert("c".to_string(), "lsps0.list_protocols".to_string());
    methods.insert("d \" }".to_string(), "lsps2.get_info".to_string());
    methods.insert("e".to_string(), "lsps2.buy".to_string());
    for message in messages {
        let json = message.to_json("");
        assert_eq!(from_str_with_id_map(&json, &mut methods), Ok(message));
    }
}

#[test]
fn payloads_are_read_where_their_format_is_known() {
    let response = |method: LSPSMethod, result: &str| Frame::Response {
        request_id: id("1"),
        method,
        result: result.to_string(),
    };
    assert_eq!(
        response(LSPSMethod::LSPS0ListProtocols, r#"{"protocols":[7]}"#).read_payload(),
        Ok(Some(Payload::Protocols(ListProtocolsResponse { protocols: vec![7] })))
    );
    assert_eq!(
        response(LSPSMethod::LSPS0ListProtocols, r#"{"protocols":7}"#).read_payload(),
        Err(DecodeError::Json)
    );
    assert_eq!(response(LSPSMethod::LSPS2Buy, "{}").read_payload(), Ok(None));
}

#[test]
fn a_frame_takes_what_belongs_to_its_method() {
    let frame = || Frame::Request {
        request_id: id("a"),
        method: LSPSMethod::LSPS2GetInfo,
        params: "{}".to_string(),
    };
    let request = LSPS2Request::GetInfo(GetInfoRequest { token: Some("t".to_string()) });
    assert_eq!(
        frame().into_message(Payload::LSPS2Request(request.clone())),
        Some(LSPSMessage::LSPS2(LSPS2Message::Request(id("a"), request)))
    );
    assert_eq!(frame().into_message(Payload::Nothing), None);
    assert_eq!(
        frame().into_message(Payload::LSPS1Request(LSPS1Request::GetInfo(LSPS1GetInfoRequest {}))),
        None
    );
}

#[test]
fn only_requests_have_a_method() {
    let request = LSPSMessage::LSPS2(LSPS2Message::Request(
        id("a"),
        LSPS2Request::GetInfo(GetInfoRequest { token: None }),
    ));
    assert_eq!(
        request.get_request_id_and_method(),
        Some(("a".to_string(), "lsps2.get_info".to_string()))
    );
    assert_eq!(LSPSMessage::Invalid.get_request_id_and_method(), None);
    let response =
        LSPSMessage::LSPS2(LSPS2Message::Response(id("a"), LSPS2Response::BuyError(error())));
    assert_eq!(response.get_request_id_and_method(), None);
}

#[test]
fn methods_are_told_by_their_names() {
    for method in [
        LSPSMethod::LSPS0ListProtocols,
        LSPSMethod::LSPS1GetInfo,
        LSPSMethod::LSPS1CreateOrder,
        LSPSMethod::LSPS1GetOrder,
        LSPSMethod::LSPS2GetInfo,
        LSPSMethod::LSPS2Buy,
    ] {
        assert_eq!(LSPSMethod::from_str(method.as_str()), Ok(method));
    }
    assert_eq!(LSPSMethod::LSPS1CreateOrder.as_str(), "lsps1.create_order");
    assert_eq!(LSPSMethod::from_str("lsps0.listprotocols"), Err(UnknownMethod));
    assert_eq!(
        LSPSMethod::from(&LSPS0Request::ListProtocols(ListProtocolsRequest {})),
        LSPSMethod::LSPS0ListProtocols
    );
    let request = LSPS2Request::GetInfo(GetInfoRequest { token: None });
    assert_eq!(LSPSMethod::from(&request), LSPSMethod::LSPS2GetInfo);
}

#[test]
fn amounts_are_written_as_strings() {
    assert_eq!(amount_to_string(1500), "1500");
    assert_eq!(amount_from_str("1500"), Some(1500));
    assert_eq!(amount_from_str("-1"), None);
    assert_eq!(optional_amount_to_string(None), None);
    assert_eq!(optional_amount_to_string(Some(7)), Some("7".to_string()));
    assert_eq!(optional_amount_from_str(&None), Ok(None));
    assert_eq!(optional_amount_from_str(&Some("7".to_string())), Ok(Some(7)));
    assert_eq!(optional_amount_from_str(&Some("seven".to_string())), Err(()));
}

#[test]
fn the_type_of_raw_messages() {
    let message = RawLSPSMessage { payload: "{}".to_string() };
    assert_eq!(message.type_id(), 37913);
    assert_eq!(LSPS_MESSAGE_TYPE_ID, 37913);
}

#[test]
fn client_test_list_protocols() {
    let lsps0_handler = LSPS0ClientHandler::new();
    let mut pending_messages = Vec::new();

    let counterparty_node_id = parse_pubkey(
        "027100442c3b79f606f80f322d98d499eefcb060599efc5d4ecb00209c2cb54190",
    )
    .unwrap();

    lsps0_handler.list_protocols(counterparty_node_id, &[0; 32], &mut pending_messages);

    assert_eq!(pending_messages.len(), 1);

    let (pubkey, message) = &pending_messages[0];

    assert_eq!(*pubkey, counterparty_node_id);
    assert_eq!(
        *message,
        LSPSMessage::LSPS0(LSPS0Message::Request(
            RequestId("00000000000000000000000000000000".to_string()),
            LSPS0Request::ListProtocols(ListProtocolsRequest {})
        ))
    );
}

#[test]
fn protocol_test_handle_list_protocols_request() {
    let counterparty_node_id = parse_pubkey(
        "027100442c3b79f606f80f322d98d499eefcb060599efc5d4ecb00209c2cb54190",
    )
    .unwrap();

    let lsps0_handler = LSPS0MessageHandler::new(vec![]);
    let mut pending_messages = Vec::new();

    let list_protocols_request = LSPS0Message::Request(
        RequestId("xyz123".to_string()),
        LSPS0Request::ListProtocols(ListProtocolsRequest {}),
    );

    lsps0_handler
        .handle_message(list_protocols_request, &counterparty_node_id, &mut pending_messages)
        .unwrap();

    assert_eq!(pending_messages.len(), 1);

    let (pubkey, message) = &pending_messages[0];

    assert_eq!(*pubkey, counterparty_node_id);
    assert_eq!(
        *message,
        LSPSMessage::LSPS0(LSPS0Message::Response(
            RequestId("xyz123".to_string()),
            LSPS0Response::ListProtocols(ListProtocolsResponse { protocols: vec![] })
        ))
    );

    // The transport layer's own handler, which has no protocol number itself.
    let mut lsps0_handler = transport::protocol::LSPS0MessageHandler::new();
    let list_protocols_request = transport::protocol::LSPS0Message::Request(
        RequestId("xyz123".to_string()),
        transport::msgs::LSPS0Request::ListProtocols(ListProtocolsRequest {}),
    );

    lsps0_handler
        .handle_message(list_protocols_request, &counterparty_node_id, &vec![None])
        .unwrap();
    let pending_messages = lsps0_handler.get_and_clear_pending_protocol_messages();

    assert_eq!(pending_messages.len(), 1);

    let (pubkey, message) = &pending_messages[0];

    assert_eq!(*pubkey, counterparty_node_id);
    assert_eq!(
        *message,
        transport::protocol::LSPS0Message::Response(
            RequestId("xyz123".to_string()),
            transport::msgs::LSPS0Response::ListProtocols(ListProtocolsResponse {
                protocols: vec![]
            })
        )
    );
}

#[test]
fn protocol_test_list_protocols() {
    let counterparty_node_id = parse_pubkey(
        "027100442c3b79f606f80f322d98d499eefcb060599efc5d4ecb00209c2cb54190",
    )
    .unwrap();

    let lsps0_handler = LSPS0MessageHandler::new(vec![1, 2, 3]);
    let mut pending_messages = Vec::new();

    lsps0_handler.list_protocols(counterparty_node_id, &[0; 32], &mut pending_messages);

    assert_eq!(pending_messages.len(), 1);

    let (pubkey, message) = &pending_messages[0];

    assert_eq!(*pubkey, counterparty_node_id);
    assert_eq!(
        *message,
        LSPSMessage::LSPS0(LSPS0Message::Request(
            RequestId("00000000000000000000000000000000".to_string()),
            LSPS0Request::ListProtocols(ListProtocolsRequest {})
        ))
    );

    let mut lsps0_handler = transport::protocol::LSPS0MessageHandler::new();

    lsps0_handler.list_protocols(counterparty_node_id, &[0; 32]);
    let pending_messages = lsps0_handler.get_and_clear_pending_protocol_messages();

    assert_eq!(pending_messages.len(), 1);

    let (pubkey, message) = &pending_messages[0];

    assert_eq!(*pubkey, counterparty_node_id);
    assert_eq!(
        *message,
        transport::protocol::LSPS0Message::Request(
            RequestId("00000000000000000000000000000000".to_string()),
            transport::msgs::LSPS0Request::ListProtocols(ListProtocolsRequest {})
        )
    );
}

#[test]
fn a_handler_lists_its_protocols() {
    let mut handler = LSPS0MessageHandler::new(vec![1, 2]);
    let mut messages = Vec::new();
    let mut events = EventQueue::new();
    let request =
        LSPS0Message::Request(id("a"), LSPS0Request::ListProtocols(ListProtocolsRequest {}));
    <LSPS0MessageHandler as ProtocolMessageHandler<LSPS0Message>>::handle_message(
        &mut handler,
        request,
        &node(),
        &mut messages,
        &mut events,
    )
    .unwrap();
    assert_eq!(
        messages,
        vec![(
            node(),
            LSPSMessage::LSPS0(LSPS0Message::Response(
                id("a"),
                LSPS0Response::ListProtocols(ListProtocolsResponse { protocols: vec![1, 2] })
            ))
        )]
    );
}

#[test]
fn clients_take_in_responses_only() {
    let client = LSPS0ClientHandler::new();
    let listed = LSPS0Response::ListProtocols(ListProtocolsResponse { protocols: vec![7] });
    assert_eq!(client.handle_message(LSPS0Message::Response(id("a"), listed), &node()), Ok(()));
    let failed = LSPS0Message::Response(id("a"), LSPS0Response::ListProtocolsError(error()));
    assert_eq!(
        client.handle_message(failed, &node()).unwrap_err().err,
        ErrorKind::ListProtocolsFailed {
            code: -1,
            message: "a \"b\"".to_string(),
            data: Some("c".to_string()),
        }
    );
    let request =
        LSPS0Message::Request(id("a"), LSPS0Request::ListProtocols(ListProtocolsRequest {}));
    assert_eq!(
        client.handle_message(request, &node()).unwrap_err().err,
        ErrorKind::RequestAtClient { protocol: Protocol::LSPS0, counterparty_node_id: node() }
    );
}

#[test]
fn protocols_have_numbers() {
    assert_eq!(LSPS0MessageHandler::new(vec![]).protocol_number(), None);
    assert_eq!(LSPS0ClientHandler::new().protocol_number(), None);
    let lsps1_client = LSPS1ClientHandler::new(LSPS1ClientConfig { max_channel_fees_msat: None });
    assert_eq!(lsps1_client.protocol_number(), Some(1));
    let lsps2_client = LSPS2ClientHandler::new(LSPS2ClientConfig::default());
    assert_eq!(lsps2_client.protocol_number(), Some(2));
}
