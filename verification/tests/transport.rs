use lightning_liquidity::collections::KeyedMap;
use lightning_liquidity::errors::{ErrorAction, ErrorKind, Level};
use lightning_liquidity::transport::event::{Answer, Event};
use lightning_liquidity::transport::jsonrpc;
use lightning_liquidity::transport::jsonrpc::{
    ErrorResponse, Method, Notification, ParseMethodError, Prefix, Request, Response,
    SuccessResponse, Value,
};
use lightning_liquidity::transport::message_handler::{LiquidityManager, LiquidityProviderConfig};
use lightning_liquidity::transport::msgs;
use lightning_liquidity::transport::msgs::{
    DecodeError, LSPS0Notification, LSPS0Request, LSPS0Response, LSPSMessage,
    LSPSNotification, LSPSRequest, LSPSResponse, ListProtocolsRequest, ListProtocolsResponse,
    RequestId, ResponseError,
};
use lightning_liquidity::transport::protocol::{LSPS0Message, LSPS0MessageHandler};
use lightning_liquidity::types::PublicKey;
use lightning_liquidity::utils::parse_pubkey;

fn node() -> PublicKey {
    parse_pubkey("027100442c3b79f606f80f322d98d499eefcb060599efc5d4ecb00209c2cb54190").unwrap()
}

fn value(json: &str) -> Value {
    Value::from_json(json).unwrap()
}

fn json_value(json: serde_json::Value) -> Value {
    value(&json.to_string())
}

fn params(entries: &[(&str, serde_json::Value)]) -> KeyedMap<String, Value> {
    let mut params = KeyedMap::new();
    for (name, json) in entries {
        params.insert(name.to_string(), json_value(json.clone()));
    }
    params
}

fn id(text: &str) -> RequestId {
    RequestId(text.to_string())
}

fn request(text: &str) -> LSPSMessage {
    LSPSMessage::Request(LSPSRequest::LSPS0(
        id(text),
        LSPS0Request::ListProtocols(ListProtocolsRequest {}),
    ))
}

fn listed(text: &str, protocols: Vec<u16>) -> LSPSMessage {
    LSPSMessage::Response(LSPSResponse::LSPS0(
        id(text),
        LSPS0Response::ListProtocols(ListProtocolsResponse { protocols }),
    ))
}

fn error() -> ResponseError {
    ResponseError { code: -32600, message: "Invalid Request".to_string(), data: None }
}

fn failed(text: &str) -> LSPSMessage {
    LSPSMessage::Response(LSPSResponse::LSPS0(
        id(text),
        LSPS0Response::ListProtocolsError(error()),
    ))
}

#[test]
fn test_handle_list_protocols_response() {
    let mut lsps0_handler = LSPS0MessageHandler::new();
    let list_protocols_response = LSPS0Message::Response(
        RequestId("00000000000000000000000000000000".to_string()),
        LSPS0Response::ListProtocols(ListProtocolsResponse { protocols: vec![1, 2, 3] }),
    );
    let counterparty_node_id = parse_pubkey(
        "027100442c3b79f606f80f322d98d499eefcb060599efc5d4ecb00209c2cb54190",
    )
    .unwrap();

    lsps0_handler
        .handle_message(list_protocols_response, &counterparty_node_id, &vec![])
        .unwrap();
    let pending_events = lsps0_handler.get_and_clear_pending_protocol_events();

    assert_eq!(pending_events.len(), 1);
    assert_eq!(
        pending_events[0],
        Event::ListProtocols { counterparty_node_id, protocols: vec![1, 2, 3] }
    );
}

#[test]
fn lists_the_protocols_that_have_a_number() {
    let mut handler = LSPS0MessageHandler::new();
    let request =
        LSPS0Message::Request(id("a"), LSPS0Request::ListProtocols(ListProtocolsRequest {}));
    handler.handle_message(request, &node(), &vec![None, Some(2), None, Some(1)]).unwrap();
    assert_eq!(
        handler.get_and_clear_pending_protocol_messages(),
        vec![(
            node(),
            LSPS0Message::Response(
                id("a"),
                LSPS0Response::ListProtocols(ListProtocolsResponse { protocols: vec![2, 1] })
            )
        )]
    );
    assert!(handler.get_and_clear_pending_protocol_messages().is_empty());
    let failed = LSPS0Message::Response(id("a"), LSPS0Response::ListProtocolsError(error()));
    assert_eq!(handler.handle_message(failed, &node(), &vec![]), Ok(()));
    assert!(handler.get_and_clear_pending_protocol_events().is_empty());
}

#[test]
fn deserializes_request_method() {
    let json = r#"{
			"jsonrpc": "2.0",
			"method": "prefix.name",
			"params": { "a": 5 },
			"id": 3
		}"#;

    let request = Request::from_json(json).unwrap();
    assert_eq!(
        request,
        Request {
            method: Method { prefix: Prefix::LSPS0, name: "name".to_string() },
            params: params(&[("a", serde_json::Value::from(5))]),
            id: json_value(serde_json::Value::from(3)),
            jsonrpc: "2.0".to_string(),
        }
    );
}

#[test]
fn serializes_request_method() {
    let request = Request {
        method: Method { prefix: Prefix::LSPS0, name: "name".to_string() },
        params: params(&[("a", serde_json::Value::from(5))]),
        id: json_value(serde_json::Value::from(3)),
        jsonrpc: "2.0".to_string(),
    };

    let json = request.to_json();
    assert_eq!(json, r#"{"method":"prefix.name","params":{"a":5},"id":3,"jsonrpc":"2.0"}"#);
}

#[test]
fn requests_need_their_members() {
    let request = Request {
        method: Method { prefix: Prefix::LSPS0, name: "n".to_string() },
        params: params(&[
            ("b \"c\"", serde_json::from_str("[1,{}]").unwrap()),
            ("a", serde_json::Value::Null),
        ]),
        id: value("\"i\""),
        jsonrpc: "2.0".to_string(),
    };
    let json = request.to_json();
    assert_eq!(
        json,
        r#"{"method":"prefix.n","params":{"b \"c\"":[1,{}],"a":null},"id":"i","jsonrpc":"2.0"}"#
    );
    assert_eq!(Request::from_json(&json), Some(request.clone()));
    // The order of parameters does not matter.
    assert_eq!(
        Request::from_json(r#" ["prefix.n",{"a":null,"b \"c\"":[1,{}]},"i","2.0"] "#),
        Some(request.clone())
    );
    let mut other = request.clone();
    other.params.remove(&"a".to_string());
    assert_ne!(other, request);
    other.params.insert("a".to_string(), value("0"));
    assert_ne!(other, request);
    other.params.insert("a".to_string(), value(" null "));
    assert_eq!(other, request);
    // Other members do not matter, and of parameters with one name the last one counts.
    let read = Request::from_json(
        r#"{"x":[],"method":"lsp1.m","params":{"a":1,"b":2,"a":3},"id":null,"jsonrpc":"1.0"}"#,
    )
    .unwrap();
    assert_eq!(read.method, Method { prefix: Prefix::LSPS1, name: "m".to_string() });
    assert_eq!(read.params.len(), 2);
    assert_eq!(read.params.get(&"b".to_string()), Some(&value("2")));
    assert_eq!(read.params.get(&"a".to_string()), Some(&value("3")));
    assert_eq!(read.id, value("null"));
    assert_eq!(read.jsonrpc, "1.0");
    for text in [
        "",
        "{}",
        "[]",
        r#"{"params":{},"id":1,"jsonrpc":"2.0"}"#,
        r#"{"method":"prefix.n","id":1,"jsonrpc":"2.0"}"#,
        r#"{"method":"prefix.n","params":{},"jsonrpc":"2.0"}"#,
        r#"{"method":"prefix.n","params":{},"id":1}"#,
        r#"{"method":"prefix.n","params":{},"id":1,"id":1,"jsonrpc":"2.0"}"#,
        r#"{"method":"other.n","params":{},"id":1,"jsonrpc":"2.0"}"#,
        r#"{"method":"prefix","params":{},"id":1,"jsonrpc":"2.0"}"#,
        r#"{"method":1,"params":{},"id":1,"jsonrpc":"2.0"}"#,
        r#"{"method":"prefix.n","params":[],"id":1,"jsonrpc":"2.0"}"#,
        r#"{"method":"prefix.n","params":{},"id":1,"jsonrpc":2}"#,
        r#"{"method":"prefix.n","params":{},"id":1,"jsonrpc":"2.0"} x"#,
    ] {
        assert_eq!(Request::from_json(text), None, "{}", text);
    }
}

#[test]
fn notifications_need_their_members() {
    let notification = Notification {
        method: Method { prefix: Prefix::LSPS0, name: "n".to_string() },
        params: params(&[("a", serde_json::Value::from(5))]),
        jsonrpc: "2.0".to_string(),
    };
    let json = notification.to_json();
    assert_eq!(json, r#"{"method":"prefix.n","params":{"a":5},"jsonrpc":"2.0"}"#);
    assert_eq!(Notification::from_json(&json), Some(notification.clone()));
    assert_eq!(
        Notification::from_json(r#"["prefix.n",{"a":5},"2.0"]"#),
        Some(notification)
    );
    for text in [
        "null",
        r#"{"method":"prefix.n","params":{"a":5}}"#,
        r#"{"params":{"a":5},"jsonrpc":"2.0"}"#,
        r#"{"method":"prefix.n","jsonrpc":"2.0"}"#,
        r#"{"method":"prefix.n","params":{},"jsonrpc":"2.0"},"#,
        r#"["prefix.n",{"a":5},"2.0",1]"#,
    ] {
        assert_eq!(Notification::from_json(text), None, "{}", text);
    }
}

#[test]
fn methods_have_a_prefix_and_a_name() {
    let method = |prefix, name: &str| Method { prefix, name: name.to_string() };
    assert_eq!(Method::from_str("lsp0.a"), Ok(method(Prefix::LSPS0, "a")));
    assert_eq!(Method::from_str("lsp1.a.b"), Ok(method(Prefix::LSPS1, "a")));
    assert_eq!(Method::from_str("lsp2."), Ok(method(Prefix::LSPS2, "")));
    assert_eq!(Method::from_str("lsp2"), Err(ParseMethodError));
    assert_eq!(Method::from_str("lsps0.a"), Err(ParseMethodError));
    assert_eq!(Method::from_str(""), Err(ParseMethodError));
    assert_eq!(ParseMethodError.message(), "invalid method format");
    assert_eq!(method(Prefix::LSPS1, "a").to_text(), "lsps1.a");
    assert_eq!(method(Prefix::LSPS2, "a").to_text(), "lsps2.a");
    let written = method(Prefix::LSPS0, "a").to_text();
    assert_eq!(Method::from_str(&written), Ok(method(Prefix::LSPS0, "a")));
    assert_eq!(jsonrpc::VERSION, "2.0");
    assert_eq!(jsonrpc::INVALID_REQUEST_ERROR_CODE, -32600);
}

#[test]
fn responses_have_the_id_of_their_request() {
    let success = Response::Success(SuccessResponse {
        result: value("5"),
        id: value("\"1\""),
        jsonrpc: "2.0".to_string(),
    });
    assert_eq!(success.get_id(), &value("\"1\""));
    let failure = Response::Error(ErrorResponse {
        error: jsonrpc::Error { code: 1, message: String::new(), data: None },
        id: value("null"),
        jsonrpc: "2.0".to_string(),
    });
    assert_eq!(failure.get_id(), &value("null"));
}

#[test]
fn reads_messages() {
    let mut methods = KeyedMap::new();
    methods.insert("known".to_string(), "lsps0.listprotocols".to_string());
    methods.insert("odd".to_string(), "lsps0.odd".to_string());
    let decode = |json: &str| LSPSMessage::from_str_with_id_map(json, &methods);
    assert_eq!(
        decode(r#"{"id":"a","method":"lsps0.listprotocols","params":{}}"#),
        Ok(request("a"))
    );
    assert_eq!(
        decode(r#"{"id":"a","method":"lsps0.listprotocols"}"#),
        Err(DecodeError::Json)
    );
    assert_eq!(
        decode(r#"{"id":"a","method":"lsps0.list\u0070rotocols","params":[]}"#),
        Ok(request("a"))
    );
    assert_eq!(decode(r#"{"id":"a","method":"lsps0.other"}"#), Err(DecodeError::UnknownMethod));
    let notification =
        LSPSMessage::Notification(LSPSNotification::LSPS0(LSPS0Notification::Unknown));
    assert_eq!(decode(r#"{"method":"whatever"}"#), Ok(notification));
    assert_eq!(
        decode(r#"{"id":"known","result":{"protocols":[5]}}"#),
        Ok(listed("known", vec![5]))
    );
    // A request is not ended by its response.
    assert!(decode(r#"{"id":"known","result":{"protocols":[5]}}"#).is_ok());
    assert_eq!(decode(r#"{"id":"known","result":5}"#), Err(DecodeError::Json));
    assert_eq!(decode(r#"{"id":"known"}"#), Err(DecodeError::InvalidObject));
    assert_eq!(decode(r#"{"id":"odd","result":5}"#), Err(DecodeError::UnknownMethod));
    assert_eq!(decode(r#"{"id":"a","result":5}"#), Err(DecodeError::UnknownRequestId));
    assert_eq!(decode("{}"), Err(DecodeError::InvalidObject));
    assert_eq!(decode(r#"{"id":null}"#), Err(DecodeError::Json));
    assert_eq!(decode("5"), Err(DecodeError::Json));
    assert_eq!(
        decode(r#"{"id":"known","error":{"code":-32600,"message":"Invalid Request"}}"#),
        Ok(failed("known"))
    );
    assert_eq!(decode(r#"{"id":"known","error":{}}"#), Err(DecodeError::Json));
}

#[test]
fn writes_messages() {
    assert_eq!(
        request("a").to_json(),
        r#"{"jsonrpc":"2.0","method":"lsps0.listprotocols","id":"a","params":{}}"#
    );
    assert_eq!(
        listed("a", vec![1, 22]).to_json(),
        r#"{"jsonrpc":"2.0","id":"a","result":{"protocols":[1,22]}}"#
    );
    assert_eq!(
        failed("a").to_json(),
        r#"{"jsonrpc":"2.0","id":"a","error":{"code":-32600,"message":"Invalid Request","data":null}}"#
    );
    assert_eq!(
        LSPSMessage::Response(LSPSResponse::InvalidRequest(error())).to_json(),
        r#"{"jsonrpc":"2.0","id":null,"error":{"code":-32600,"message":"Invalid Request","data":null}}"#
    );
    let notification =
        LSPSMessage::Notification(LSPSNotification::LSPS0(LSPS0Notification::Unknown));
    assert_eq!(notification.to_json(), r#"{"jsonrpc":"2.0","method":"lsps0.unknown"}"#);
}

#[test]
fn messages_survive_a_round_trip() {
    let mut methods = KeyedMap::new();
    methods.insert("a\"b".to_string(), "lsps0.listprotocols".to_string());
    for message in [
        request("a\"b"),
        listed("a\"b", vec![3, 4]),
        listed("a\"b", vec![]),
        failed("a\"b"),
        LSPSMessage::Notification(LSPSNotification::LSPS0(LSPS0Notification::Unknown)),
    ] {
        assert_eq!(
            LSPSMessage::from_str_with_id_map(&message.to_json(), &methods),
            Ok(message)
        );
    }
}

#[test]
fn messages_know_their_protocol() {
    let request = LSPSRequest::LSPS0(id("a"), LSPS0Request::ListProtocols(ListProtocolsRequest {}));
    assert_eq!(request.prefix(), msgs::Prefix::LSPS0);
    assert_eq!(request.method(), "lsps0.listprotocols");
    assert_eq!(request.id(), "a");
    assert!(LSPS0Request::try_from(request).is_ok());
    let response = LSPSResponse::LSPS0(id("a"), LSPS0Response::ListProtocolsError(error()));
    assert_eq!(response.prefix(), Some(msgs::Prefix::LSPS0));
    assert_eq!(
        LSPS0Response::try_from(response),
        Ok(LSPS0Response::ListProtocolsError(error()))
    );
    let invalid = LSPSResponse::InvalidRequest(error());
    assert_eq!(invalid.prefix(), None);
    assert_eq!(LSPS0Response::try_from(invalid), Err(()));
    let notification = LSPSNotification::LSPS0(LSPS0Notification::Unknown);
    assert_eq!(notification.prefix(), msgs::Prefix::LSPS0);
    assert_eq!(LSPS0Notification::try_from(notification), Ok(LSPS0Notification::Unknown));
    assert_eq!(msgs::LSPS_MESSAGE_TYPE, 37913);
}

#[test]
fn two_managers_ask_and_answer() {
    let mut client = LiquidityManager::new(None);
    let mut service = LiquidityManager::new(Some(LiquidityProviderConfig));
    assert!(!client.provides_liquidity());
    assert!(service.provides_liquidity());

    let request_id = client.list_protocols(node(), &[0x11; 32]).unwrap();
    assert_eq!(request_id, id(&"11".repeat(16)));
    let mut sent = client.get_and_clear_pending_msg();
    assert_eq!(sent.len(), 1);
    let (to, payload) = sent.remove(0);
    assert_eq!(to, node());

    service.handle_custom_message(&payload, &node()).unwrap();
    let mut sent = service.get_and_clear_pending_msg();
    assert_eq!(sent.len(), 1);
    let (_, payload) = sent.remove(0);

    client.handle_custom_message(&payload, &node()).unwrap();
    assert!(client.has_event());
    assert_eq!(
        client.wait_event_result(&request_id),
        Some(Event::ListProtocols { counterparty_node_id: node(), protocols: vec![] })
    );
    assert!(!client.has_event());
    assert_eq!(client.wait_event_result(&request_id), None);
}

#[test]
fn a_manager_tells_what_it_could_not_read() {
    let mut manager = LiquidityManager::new(None);
    assert_eq!(manager.handle_custom_message("nonsense", &node()), Ok(()));
    let sent = manager.get_and_clear_pending_msg();
    assert_eq!(
        sent,
        vec![(
            node(),
            r#"{"jsonrpc":"2.0","id":null,"error":{"code":-32700,"message":"parse error","data":null}}"#
                .to_string()
        )]
    );
}

fn asking_manager() -> LiquidityManager {
    let mut manager = LiquidityManager::new(None);
    for byte in [0xaa, 0xbb] {
        manager.list_protocols(node(), &[byte; 32]).unwrap();
    }
    assert_eq!(manager.get_and_clear_pending_msg().len(), 2);
    manager
}

#[test]
fn a_manager_reports_errors() {
    let mut manager = asking_manager();
    let payload = failed(&"aa".repeat(16)).to_json();
    let result = manager.handle_custom_message(&payload, &node()).unwrap_err();
    assert_eq!(
        result.err,
        ErrorKind::ListProtocolsFailed {
            code: -32600,
            message: "Invalid Request".to_string(),
            data: None
        }
    );
    assert_eq!(result.action, ErrorAction::IgnoreAndLog(Level::Info));
    let notification =
        LSPSMessage::Notification(LSPSNotification::LSPS0(LSPS0Notification::Unknown));
    assert_eq!(manager.handle_custom_message(&notification.to_json(), &node()), Ok(()));
    assert!(!manager.has_event());
    assert!(manager.get_and_clear_pending_msg().is_empty());
}

#[test]
fn events_come_in_order() {
    let mut manager = asking_manager();
    for byte in ["aa", "bb", "aa"] {
        let payload = listed(&byte.repeat(16), vec![1]).to_json();
        manager.handle_custom_message(&payload, &node()).unwrap();
    }
    let event = manager.wait_next_event();
    assert_eq!(event.id, id(&"aa".repeat(16)));
    let result = Event::ListProtocols { counterparty_node_id: node(), protocols: vec![1] };
    assert_eq!(
        manager.get_and_clear_pending_events(),
        vec![
            Answer { id: id(&"bb".repeat(16)), result: result.clone() },
            Answer { id: id(&"aa".repeat(16)), result },
        ]
    );
}

#[test]
fn jsonrpc_deserializes_error_response() {
    let json = r#"{
            "jsonrpc": "2.0",
            "error": {
                "code": -32600,
                "message": "Invalid Request"
            },
            "id": null
        }"#;

    let response: Response = Response::from_json(json).unwrap();
    assert_eq!(
        response,
        Response::Error(ErrorResponse {
            error: jsonrpc::Error {
                code: -32600,
                message: "Invalid Request".to_string(),
                data: None
            },
            id: json_value(serde_json::Value::Null),
            jsonrpc: "2.0".to_string(),
        })
    );
}

#[test]
fn jsonrpc_deserializes_success_response() {
    let json = r#"{
            "jsonrpc": "2.0",
            "result": 5,
            "id": "1"
        }"#;

    let response: Response = Response::from_json(json).unwrap();
    assert_eq!(
        response,
        Response::Success(SuccessResponse {
            result: json_value(serde_json::Value::from(5)),
            id: json_value(serde_json::Value::from("1")),
            jsonrpc: "2.0".to_string(),
        })
    );
}

#[test]
fn fails_deserialize_with_both_error_result() {
    let json = r#"{
            "jsonrpc": "2.0",
            "result": 5,
            "error": {
                "code": -32600,
                "message": "Invalid Request"
            },
            "id": "1"
        }"#;

    let response: Option<Response> = Response::from_json(json);
    assert!(response.is_none());
}

#[test]
fn serializes_error_response() {
    let response = Response::Error(ErrorResponse {
        error: jsonrpc::Error {
            code: -32600,
            message: "Invalid Request".to_string(),
            data: None,
        },
        id: json_value(serde_json::Value::Null),
        jsonrpc: "2.0".to_string(),
    });

    let json = response.to_json();
    assert_eq!(
        json,
        r#"{"error":{"code":-32600,"message":"Invalid Request","data":null},"id":null,"jsonrpc":"2.0"}"#
    );
}

#[test]
fn serializes_success_response() {
    let response = Response::Success(SuccessResponse {
        result: json_value(serde_json::Value::from(5)),
        id: json_value(serde_json::Value::from("1")),
        jsonrpc: "2.0".to_string(),
    });

    let json = response.to_json();
    assert_eq!(json, r#"{"result":5,"id":"1","jsonrpc":"2.0"}"#);
}

#[test]
fn values_are_written_in_one_way() {
    assert_eq!(value(" [ 1 , 2.50 ,1E2]").as_json(), "[1,2.5,100.0]");
    assert_eq!(value(r#"{"b":1,"a":{"d":2, "c":3},"b":4}"#).as_json(), r#"{"a":{"c":3,"d":2},"b":4}"#);
    assert_eq!(value(r#""\u0061\/""#).as_json(), r#""a/""#);
    for json in ["null", "true", "false", "0", "-7", "18446744073709551615", r#""a\n""#, "[]", "{}"] {
        assert_eq!(value(json).as_json(), json);
    }
    for json in ["", "nul", "1 2", "1e999", "[1,]", "{'a':1}"] {
        assert_eq!(Value::from_json(json), None);
    }
    let json = r#"{"result": {"b": 1.0e1, "a": [ ], "b": 2}, "id": 0, "jsonrpc": "2.0"}"#;
    let response = Response::from_json(json).unwrap();
    assert_eq!(
        response.to_json(),
        r#"{"result":{"a":[],"b":2},"id":0,"jsonrpc":"2.0"}"#
    );
    assert_eq!(Response::from_json(&response.to_json()), Some(response));
}

#[test]
fn errors_are_read_whole() {
    let read = jsonrpc::Error::from_json;
    let error = |data| jsonrpc::Error { code: 1, message: "m".to_string(), data };
    assert_eq!(read(r#"{"code":1,"message":"m","data": { } }"#), Some(error(Some(value("{}")))));
    assert_eq!(read(r#"{"code":1,"message":"m","data":null}"#), Some(error(None)));
    assert_eq!(read(r#" [1,"m",null] "#), Some(error(None)));
    assert_eq!(read(r#"{"code":1,"message":"m","data":1e999}"#), None);
    assert_eq!(read(r#"{"code":1,"message":"m"} x"#), None);
}

#[test]
fn reads_responses_strictly() {
    let read = Response::from_json;
    assert!(read(r#"[5,"1","2.0"]"#).is_some());
    assert_eq!(read(r#"{"result":5,"id":1}"#), None);
    assert_eq!(read(r#"{"result":5,"id":1,"jsonrpc":"2.0","x":1}"#), None);
    assert_eq!(read(r#"{"result":5,"id":1,"id":2,"jsonrpc":"2.0"}"#), None);
    assert_eq!(read(r#"{"result":5,"id":1,"jsonrpc":2}"#), None);
    assert_eq!(read(r#"{"error":5,"id":1,"jsonrpc":"2.0"}"#), None);
    assert_eq!(read(r#"{"result":5,"id":1,"jsonrpc":"2.0"} x"#), None);
    assert_eq!(read(r#"{"result":1e999,"id":1,"jsonrpc":"2.0"}"#), None);
    assert_eq!(read("5"), None);
    let data = read(r#"{"error":{"code":1,"message":"m","data":[2]},"id":1,"jsonrpc":"2.0"}"#);
    match data {
        Some(Response::Error(response)) => {
            assert_eq!(response.error.data, Some(value("[2]")));
        }
        _ => panic!("expected an error"),
    }
}
