use lightning_liquidity::errors::{ErrorAction, ErrorKind, Level, Protocol};
use lightning_liquidity::events::{Event, EventQueue};
use lightning_liquidity::lsps0::msgs::{
    DecodeError, LSPS0Message, LSPS0Request, LSPS0Response, LSPSMessage, ListProtocolsRequest,
    ListProtocolsResponse, Payload, RequestId,
};
use lightning_liquidity::lsps1::client::{LSPS1ClientConfig, LSPS1ClientHandler};
use lightning_liquidity::lsps1::msgs::{GetInfoRequest, LSPS1Message, LSPS1Request};
use lightning_liquidity::lsps2::client::{LSPS2ClientConfig, LSPS2ClientHandler};
use lightning_liquidity::lsps2::event::LSPS2ClientEvent;
use lightning_liquidity::lsps2::msgs::{
    GetInfoResponse, LSPS2Message, LSPS2Request, LSPS2Response,
};
use lightning_liquidity::lsps2::msgs;
use lightning_liquidity::manager::{
    BestBlock, ChainParameters, LiquidityManager, LiquidityProviderConfig, Network,
    LSPS_FEATURE_BIT,
};
use lightning_liquidity::message_queue::{DefaultMessageQueue, MessageQueue};
use lightning_liquidity::types::PublicKey;
use lightning_liquidity::utils::{hex_str, parse_pubkey};

fn node() -> PublicKey {
    parse_pubkey("027100442c3b79f606f80f322d98d499eefcb060599efc5d4ecb00209c2cb54190").unwrap()
}

fn id(text: &str) -> RequestId {
    RequestId(text.to_string())
}

type Manager = LiquidityManager<LSPS1ClientHandler, LSPS2ClientHandler>;

fn manager() -> Manager {
    LiquidityManager::new(
        Some(LiquidityProviderConfig {
            lsps1_message_handler: Some(LSPS1ClientHandler::new(LSPS1ClientConfig {
                max_channel_fees_msat: None,
            })),
            lsps2_message_handler: Some(LSPS2ClientHandler::new(LSPS2ClientConfig {
                client_trusts_lsp: false,
            })),
        }),
        None,
    )
}

#[test]
fn the_first_blocks_of_the_networks() {
    let hash = |network| {
        let best_block = BestBlock { block_hash: [0; 32], height: 0 };
        let manager: Manager =
            LiquidityManager::new(None, Some(ChainParameters { network, best_block }));
        let mut bytes = manager.genesis_hash.unwrap();
        bytes.reverse();
        hex_str(&bytes)
    };
    assert_eq!(
        hash(Network::Bitcoin),
        "000000000019d6689c085ae165831e934ff763ae46a2a6c172b3f1b60a8ce26f"
    );
    assert_eq!(
        hash(Network::Testnet),
        "000000000933ea01ad0ee984209779baaec3ced90fa3f408719526f8d77f4943"
    );
    assert_eq!(
        hash(Network::Signet),
        "00000008819873e925422c1ff0f99f7cc9bbb232af63a077a480a3633bee1ef6"
    );
    assert_eq!(
        hash(Network::Regtest),
        "0f9188f13cb7b2c71f2a335e3a4fc328bf5beb436012afca590b1a11466e2206"
    );
}

#[test]
fn handlers_are_as_configured() {
    let none: Manager = LiquidityManager::new(None, None);
    assert!(!none.provides_liquidity);
    assert!(none.lsps1_message_handler().is_none());
    assert!(none.lsps2_message_handler().is_none());
    let both = manager();
    assert!(both.provides_liquidity);
    assert!(both.lsps1_message_handler().is_some());
    assert!(both.lsps2_message_handler().is_some());
    assert_eq!(LSPS_FEATURE_BIT, 729);
}

#[test]
fn messages_without_a_handler_are_refused() {
    let mut manager: Manager = LiquidityManager::new(None, None);
    let message = LSPSMessage::LSPS1(LSPS1Message::Request(
        id("a"),
        LSPS1Request::GetInfo(GetInfoRequest {}),
    ));
    assert_eq!(
        manager.handle_custom_message(Ok(message), &node()).unwrap_err().err,
        ErrorKind::NoHandler { protocol: Protocol::LSPS1, counterparty_node_id: node() }
    );
    let message = LSPSMessage::LSPS2(LSPS2Message::Request(
        id("a"),
        LSPS2Request::GetInfo(msgs::GetInfoRequest { token: None }),
    ));
    let error = manager.handle_custom_message(Ok(message), &node()).unwrap_err();
    assert_eq!(
        error.err,
        ErrorKind::NoHandler { protocol: Protocol::LSPS2, counterparty_node_id: node() }
    );
    assert_eq!(error.action, ErrorAction::IgnoreAndLog(Level::Info));
    let error = manager.handle_custom_message(Ok(LSPSMessage::Invalid), &node()).unwrap_err();
    assert_eq!(error.err, ErrorKind::NotUnderstood { counterparty_node_id: node() });
    assert_eq!(error.action, ErrorAction::IgnoreAndLog(Level::Error));
}

#[test]
fn a_peer_is_told_what_could_not_be_read() {
    let mut manager = manager();
    let error = manager.decode_message("nonsense").unwrap_err();
    assert_eq!(error, DecodeError::Json);
    assert_eq!(manager.handle_custom_message(Err(error), &node()), Ok(()));
    assert_eq!(manager.get_and_clear_pending_msg(), vec![(node(), LSPSMessage::Invalid)]);
    assert!(manager.get_and_clear_pending_msg().is_empty());
}

#[test]
fn requests_are_answered_by_the_base_protocol() {
    let mut manager = manager();
    let request = LSPSMessage::LSPS0(LSPS0Message::Request(
        id("a"),
        LSPS0Request::ListProtocols(ListProtocolsRequest {}),
    ));
    manager.handle_custom_message(Ok(request), &node()).unwrap();
    assert_eq!(
        manager.get_and_clear_pending_msg(),
        vec![(
            node(),
            LSPSMessage::LSPS0(LSPS0Message::Response(
                id("a"),
                LSPS0Response::ListProtocols(ListProtocolsResponse { protocols: vec![] })
            ))
        )]
    );
}

#[test]
fn a_request_travels_there_and_back() {
    let mut manager = manager();
    let handler = manager.lsps2_message_handler.as_mut().unwrap();
    let request_id =
        handler.request_opening_params(node(), None, &[7; 32], &mut manager.pending_messages);
    let sent = manager.get_and_clear_pending_msg();
    assert_eq!(sent.len(), 1);

    let menu = GetInfoResponse {
        opening_fee_params_menu: vec![],
        min_payment_size_msat: 1,
        max_payment_size_msat: 2,
    };
    let answer = LSPSMessage::LSPS2(LSPS2Message::Response(
        request_id.clone(),
        LSPS2Response::GetInfo(menu.clone()),
    ));
    let json = answer.to_json("{}");
    let frame = manager.decode_message(&json).unwrap();
    let message = frame.into_message(Payload::FeeMenu(menu)).unwrap();
    assert_eq!(message, answer);
    manager.handle_custom_message(Ok(message), &node()).unwrap();
    let expected = Event::LSPS2Client(LSPS2ClientEvent::OpeningParametersReady {
        request_id,
        counterparty_node_id: node(),
        opening_fee_params_menu: vec![],
        min_payment_size_msat: 1,
        max_payment_size_msat: 2,
    });
    assert_eq!(manager.next_event(), Some(expected));
    assert_eq!(manager.next_event(), None);
    // A second answer belongs to no request.
    assert_eq!(manager.decode_message(&json), Err(DecodeError::UnknownRequestId));
}

#[test]
fn blocks_come_in_order() {
    let best_block = BestBlock { block_hash: [5; 32], height: 100 };
    let mut manager: Manager = LiquidityManager::new(
        None,
        Some(ChainParameters { network: Network::Regtest, best_block }),
    );
    assert!(manager.filtered_block_connected(&[5; 32], 101));
    assert!(!manager.filtered_block_connected(&[5; 32], 100));
    assert!(!manager.filtered_block_connected(&[6; 32], 101));
    assert!(!manager.block_disconnected(&[6; 32], &[4; 32], 100));
    assert!(!manager.block_disconnected(&[5; 32], &[4; 32], 99));
    assert_eq!(manager.best_block, Some(best_block));
    assert!(manager.block_disconnected(&[5; 32], &[4; 32], 100));
    assert_eq!(manager.best_block, Some(BestBlock { block_hash: [4; 32], height: 99 }));
    let mut without: Manager = LiquidityManager::new(None, None);
    assert!(without.filtered_block_connected(&[9; 32], 7));
    assert!(without.block_disconnected(&[9; 32], &[8; 32], 7));
    assert_eq!(without.best_block, None);
}

#[test]
fn queues_keep_their_order() {
    let mut queue: DefaultMessageQueue<u8> = DefaultMessageQueue::new();
    queue.enqueue(&node(), 1);
    queue.enqueue(&node(), 2);
    assert_eq!(queue.get_and_clear_pending_msgs(), vec![(node(), 1), (node(), 2)]);
    assert!(queue.get_and_clear_pending_msgs().is_empty());

    let event = |size| {
        Event::LSPS2Client(LSPS2ClientEvent::OpeningParametersReady {
            request_id: id("a"),
            counterparty_node_id: node(),
            opening_fee_params_menu: vec![],
            min_payment_size_msat: size,
            max_payment_size_msat: 0,
        })
    };
    let mut events = EventQueue::new();
    assert_eq!(events.next_event(), None);
    events.enqueue(event(1));
    events.enqueue(event(2));
    events.enqueue(event(3));
    assert_eq!(events.wait_next_event(), (event(1), true));
    assert_eq!(events.get_and_clear_pending_events(), vec![event(2), event(3)]);
    events.enqueue(event(4));
    assert_eq!(events.wait_next_event(), (event(4), false));
    assert!(events.is_empty());
}
