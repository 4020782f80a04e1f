//! The interface of the handlers that implement the protocols.

use vstd::prelude::*;

use crate::errors::{info, ErrorKind, LightningError, Protocol, Reply};
use crate::events::{Event, EventQueue};
use crate::lsps0::client::{list_protocols_result, LSPS0ClientHandler};
use crate::lsps0::msgs::{LSPS0Message, LSPS0Response, LSPSMessage};
use crate::lsps0::protocol::{protocols_listed, LSPS0MessageHandler};
use crate::lsps1::client::{LSPS1ClientHandler, LSPS1ClientHandlerView};
use crate::lsps1::msgs::{LSPS1Message, LSPS1Response};
use crate::lsps2::client::{LSPS2ClientHandler, LSPS2ClientHandlerView};
use crate::lsps2::msgs::{LSPS2Message, LSPS2Response};
use crate::types::PublicKey;

verus! {

/// The messages and the events that wait to be taken.
#[verifier::ext_equal]
pub struct Pending {
    pub messages: Seq<(PublicKey, LSPSMessage)>,
    pub events: Seq<Event>,
}

/// A trait used to implement a specific LSPS protocol.
pub trait ProtocolMessageHandler<M>: Sized {
    /// Whether taking in a message from a peer may lead from one state to another, with the given
    /// result.
    spec fn takes_in(
        before: (Self, Pending),
        after: (Self, Pending),
        message: M,
        counterparty_node_id: PublicKey,
        result: Result<(), LightningError>,
    ) -> bool;

    /// The number of the protocol, if it has one.
    spec fn number() -> Option<u16>;

    /// Returns the number of the protocol, if it has one.
    fn protocol_number(&self) -> (number: Option<u16>)
        ensures
            number == Self::number(),
    ;

    /// Takes in a message from a peer.
    fn handle_message(
        &mut self,
        message: M,
        counterparty_node_id: &PublicKey,
        pending_messages: &mut Vec<(PublicKey, LSPSMessage)>,
        pending_events: &mut EventQueue,
    ) -> (result: Result<(), LightningError>)
        ensures
            Self::takes_in(
                (
                    *old(self),
                    (Pending { messages: old(pending_messages)@, events: old(pending_events)@ }),
                ),
                (
                    *final(self),
                    (Pending { messages: final(pending_messages)@, events: final(pending_events)@ }),
                ),
                message,
                *counterparty_node_id,
                result,
            ),
    ;
}

/// Whether a handler that supports the given protocols takes in an LSPS0 message as stated.
pub open spec fn lsps0_takes_in(
    protocols: Seq<u16>,
    before: Pending,
    after: Pending,
    message: LSPS0Message,
    counterparty_node_id: PublicKey,
    result: Result<(), LightningError>,
) -> bool {
    &&& after.events == before.events
    &&& match message {
        LSPS0Message::Request(request_id, _) => {
            &&& result == Ok::<(), LightningError>(())
            &&& protocols_listed(
                before.messages,
                after.messages,
                counterparty_node_id,
                request_id,
                protocols,
            )
        },
        LSPS0Message::Response(_, response) => {
            &&& result == list_protocols_result(response)
            &&& after.messages == before.messages
        },
    }
}

impl ProtocolMessageHandler<LSPS0Message> for LSPS0MessageHandler {
    open spec fn takes_in(
        before: (Self, Pending),
        after: (Self, Pending),
        message: LSPS0Message,
        counterparty_node_id: PublicKey,
        result: Result<(), LightningError>,
    ) -> bool {
        &&& after.0@ == before.0@
        &&& lsps0_takes_in(
            before.0@,
            before.1,
            after.1,
            message,
            counterparty_node_id,
            result,
        )
    }

    open spec fn number() -> Option<u16> {
        None
    }

    fn protocol_number(&self) -> (number: Option<u16>) {
        None
    }

    fn handle_message(
        &mut self,
        message: LSPS0Message,
        counterparty_node_id: &PublicKey,
        pending_messages: &mut Vec<(PublicKey, LSPSMessage)>,
        pending_events: &mut EventQueue,
    ) -> (result: Result<(), LightningError>) {
        LSPS0MessageHandler::handle_message(self, message, counterparty_node_id, pending_messages)
    }
}

impl ProtocolMessageHandler<LSPS0Message> for LSPS0ClientHandler {
    open spec fn takes_in(
        before: (Self, Pending),
        after: (Self, Pending),
        message: LSPS0Message,
        counterparty_node_id: PublicKey,
        result: Result<(), LightningError>,
    ) -> bool {
        &&& after == before
        &&& result == (match message {
            LSPS0Message::Response(_, response) => list_protocols_result(response),
            LSPS0Message::Request(_, _) => Err(
                info(
                    ErrorKind::RequestAtClient { protocol: Protocol::LSPS0, counterparty_node_id },
                ),
            ),
        })
    }

    open spec fn number() -> Option<u16> {
        None
    }

    fn protocol_number(&self) -> (number: Option<u16>) {
        None
    }

    fn handle_message(
        &mut self,
        message: LSPS0Message,
        counterparty_node_id: &PublicKey,
        pending_messages: &mut Vec<(PublicKey, LSPSMessage)>,
        pending_events: &mut EventQueue,
    ) -> (result: Result<(), LightningError>) {
        LSPS0ClientHandler::handle_message(self, message, counterparty_node_id)
    }
}

/// The state, the events and the result after an LSPS1 client has taken in a message.
pub open spec fn lsps1_client_step(
    handler: LSPS1ClientHandlerView,
    events: Seq<Event>,
    message: LSPS1Message,
    counterparty_node_id: PublicKey,
) -> (LSPS1ClientHandlerView, Seq<Event>, Result<(), LightningError>) {
    match message {
        LSPS1Message::Response(request_id, LSPS1Response::GetInfo(response)) => {
            handler.after_info_response(events, request_id, counterparty_node_id, response)
        },
        LSPS1Message::Response(request_id, LSPS1Response::CreateOrder(response)) => {
            handler.after_order_response(events, request_id, counterparty_node_id, response)
        },
        LSPS1Message::Response(request_id, response) => {
            let (next, result) = handler.after_reply(
                request_id,
                counterparty_node_id,
                match response {
                    LSPS1Response::CreateOrderError(_) => Reply::CreateOrderError,
                    LSPS1Response::GetOrder(_) => Reply::GetOrderResponse,
                    _ => Reply::GetOrderError,
                },
            );
            (next, events, result)
        },
        LSPS1Message::Request(_, _) => (
            handler,
            events,
            Err(
                info(
                    ErrorKind::RequestAtClient { protocol: Protocol::LSPS1, counterparty_node_id },
                ),
            ),
        ),
    }
}

impl ProtocolMessageHandler<LSPS1Message> for LSPS1ClientHandler {
    open spec fn takes_in(
        before: (Self, Pending),
        after: (Self, Pending),
        message: LSPS1Message,
        counterparty_node_id: PublicKey,
        result: Result<(), LightningError>,
    ) -> bool {
        &&& after.1.messages == before.1.messages
        &&& (after.0@, after.1.events, result) == lsps1_client_step(
            before.0@,
            before.1.events,
            message,
            counterparty_node_id,
        )
    }

    open spec fn number() -> Option<u16> {
        Some(1)
    }

    fn protocol_number(&self) -> (number: Option<u16>) {
        Some(1)
    }

    fn handle_message(
        &mut self,
        message: LSPS1Message,
        counterparty_node_id: &PublicKey,
        pending_messages: &mut Vec<(PublicKey, LSPSMessage)>,
        pending_events: &mut EventQueue,
    ) -> (result: Result<(), LightningError>) {
        LSPS1ClientHandler::handle_message(self, message, counterparty_node_id, pending_events)
    }
}

/// The state, the events and the result after an LSPS2 client has taken in a message.
pub open spec fn lsps2_client_step(
    handler: LSPS2ClientHandlerView,
    events: Seq<Event>,
    message: LSPS2Message,
    counterparty_node_id: PublicKey,
) -> (LSPS2ClientHandlerView, Seq<Event>, Result<(), LightningError>) {
    match message {
        LSPS2Message::Response(request_id, LSPS2Response::GetInfo(response)) => {
            handler.after_info_response(events, request_id, counterparty_node_id, response)
        },
        LSPS2Message::Response(request_id, LSPS2Response::GetInfoError(_)) => {
            let (next, result) = handler.after_info_error(request_id, counterparty_node_id);
            (next, events, result)
        },
        LSPS2Message::Response(request_id, LSPS2Response::Buy(response)) => {
            handler.after_buy_response(events, request_id, counterparty_node_id, response)
        },
        LSPS2Message::Response(request_id, LSPS2Response::BuyError(_)) => {
            let (next, result) = handler.after_buy_error(request_id, counterparty_node_id);
            (next, events, result)
        },
        LSPS2Message::Request(_, _) => (
            handler,
            events,
            Err(
                info(
                    ErrorKind::RequestAtClient { protocol: Protocol::LSPS2, counterparty_node_id },
                ),
            ),
        ),
    }
}

impl ProtocolMessageHandler<LSPS2Message> for LSPS2ClientHandler {
    open spec fn takes_in(
        before: (Self, Pending),
        after: (Self, Pending),
        message: LSPS2Message,
        counterparty_node_id: PublicKey,
        result: Result<(), LightningError>,
    ) -> bool {
        &&& after.1.messages == before.1.messages
        &&& (after.0@, after.1.events, result) == lsps2_client_step(
            before.0@,
            before.1.events,
            message,
            counterparty_node_id,
        )
    }

    open spec fn number() -> Option<u16> {
        Some(2)
    }

    fn protocol_number(&self) -> (number: Option<u16>) {
        Some(2)
    }

    fn handle_message(
        &mut self,
        message: LSPS2Message,
        counterparty_node_id: &PublicKey,
        pending_messages: &mut Vec<(PublicKey, LSPSMessage)>,
        pending_events: &mut EventQueue,
    ) -> (result: Result<(), LightningError>) {
        LSPS2ClientHandler::handle_message(self, message, counterparty_node_id, pending_events)
    }
}

/// A client takes in no requests: they change nothing and are reported as such. A response goes to the
/// step that takes in what it says, and no other response has something shown to the user.
pub proof fn lemma_clients_take_in_responses(
    lsps1: LSPS1ClientHandlerView,
    lsps2: LSPS2ClientHandlerView,
    events: Seq<Event>,
    lsps1_message: LSPS1Message,
    lsps2_message: LSPS2Message,
    node: PublicKey,
)
    ensures
        ({
            let (after, told, result) = lsps1_client_step(lsps1, events, lsps1_message, node);
            &&& lsps1_message is Request ==> {
                &&& after == lsps1 && told == events
                &&& result is Err
                &&& result->Err_0.err == (ErrorKind::RequestAtClient {
                    protocol: Protocol::LSPS1,
                    counterparty_node_id: node,
                })
            }
            &&& match lsps1_message {
                LSPS1Message::Response(id, LSPS1Response::GetInfo(response)) => {
                    (after, told, result) == lsps1.after_info_response(events, id, node, response)
                },
                LSPS1Message::Response(id, LSPS1Response::CreateOrder(response)) => {
                    (after, told, result) == lsps1.after_order_response(events, id, node, response)
                },
                LSPS1Message::Response(id, LSPS1Response::CreateOrderError(_)) => told == events && (
                    after,
                    result,
                ) == lsps1.after_reply(id, node, Reply::CreateOrderError),
                LSPS1Message::Response(id, LSPS1Response::GetOrder(_)) => told == events && (
                    after,
                    result,
                ) == lsps1.after_reply(id, node, Reply::GetOrderResponse),
                LSPS1Message::Response(id, LSPS1Response::GetOrderError(_)) => told == events && (
                    after,
                    result,
                ) == lsps1.after_reply(id, node, Reply::GetOrderError),
                LSPS1Message::Request(_, _) => true,
            }
        }),
        ({
            let (after, told, result) = lsps2_client_step(lsps2, events, lsps2_message, node);
            &&& lsps2_message is Request ==> {
                &&& after == lsps2 && told == events
                &&& result is Err
                &&& result->Err_0.err == (ErrorKind::RequestAtClient {
                    protocol: Protocol::LSPS2,
                    counterparty_node_id: node,
                })
            }
            &&& match lsps2_message {
                LSPS2Message::Response(id, LSPS2Response::GetInfo(response)) => {
                    (after, told, result) == lsps2.after_info_response(events, id, node, response)
                },
                LSPS2Message::Response(id, LSPS2Response::GetInfoError(_)) => told == events && (
                    after,
                    result,
                ) == lsps2.after_info_error(id, node),
                LSPS2Message::Response(id, LSPS2Response::Buy(response)) => {
                    (after, told, result) == lsps2.after_buy_response(events, id, node, response)
                },
                LSPS2Message::Response(id, LSPS2Response::BuyError(_)) => told == events && (
                    after,
                    result,
                ) == lsps2.after_buy_error(id, node),
                LSPS2Message::Request(_, _) => true,
            }
        }),
{
}

/// Asked for its protocols, a node answers with all of them, in order, under the id of the request. The
/// answer of a peer has nothing sent, and it is an error exactly where the peer says so, which then
/// carries the code and the words of the peer.
pub proof fn lemma_protocols_are_told(
    protocols: Seq<u16>,
    before: Pending,
    after: Pending,
    message: LSPS0Message,
    node: PublicKey,
    result: Result<(), LightningError>,
)
    requires
        lsps0_takes_in(protocols, before, after, message, node, result),
    ensures
        after.events == before.events,
        match message {
            LSPS0Message::Request(request_id, _) => {
                &&& result is Ok
                &&& after.messages.len() == before.messages.len() + 1
                &&& after.messages.drop_last() == before.messages
                &&& after.messages.last().0 == node
                &&& after.messages.last().1 matches LSPSMessage::LSPS0(
                    LSPS0Message::Response(id, LSPS0Response::ListProtocols(listed)),
                ) && id == request_id && listed.protocols@ == protocols
            },
            LSPS0Message::Response(_, LSPS0Response::ListProtocols(_)) => result is Ok
                && after.messages == before.messages,
            LSPS0Message::Response(_, LSPS0Response::ListProtocolsError(error)) => {
                &&& after.messages == before.messages
                &&& result is Err
                &&& result->Err_0.err == (ErrorKind::ListProtocolsFailed {
                    code: error.code,
                    message: error.message,
                    data: error.data,
                })
            },
        },
{
}

} // verus!
