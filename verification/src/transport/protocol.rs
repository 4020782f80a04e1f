//! The handler of the protocol that the transport layer knows.

use vstd::prelude::*;

use crate::errors::LightningError;
use crate::transport::event::Event;
use crate::transport::msgs::{
    LSPS0Request, LSPS0Response, ListProtocolsRequest, ListProtocolsResponse, RequestId,
};
use crate::types::PublicKey;
use crate::utils;
use crate::utils::request_id_text;

verus! {

/// A message of the LSPS0 protocol.
#[derive(Clone, Debug, PartialEq, Eq)]
pub enum LSPS0Message {
    Request(RequestId, LSPS0Request),
    Response(RequestId, LSPS0Response),
}

/// The numbers of the protocols that have one.
pub open spec fn announced(protocol_numbers: Seq<Option<u16>>) -> Seq<u16>
    decreases protocol_numbers.len(),
{
    if protocol_numbers.len() == 0 {
        Seq::empty()
    } else {
        let before = announced(protocol_numbers.drop_last());
        match protocol_numbers.last() {
            Some(number) => before.push(number),
            None => before,
        }
    }
}

/// Asks peers which protocols they support, and tells them which ones have a handler.
pub struct LSPS0MessageHandler {
    pending_messages: Vec<(PublicKey, LSPS0Message)>,
    pending_events: Vec<Event>,
}

/// The contents of a [`LSPS0MessageHandler`].
#[verifier::ext_equal]
pub struct LSPS0MessageHandlerView {
    pub pending_messages: Seq<(PublicKey, LSPS0Message)>,
    pub pending_events: Seq<Event>,
}

impl View for LSPS0MessageHandler {
    type V = LSPS0MessageHandlerView;

    closed spec fn view(&self) -> LSPS0MessageHandlerView {
        LSPS0MessageHandlerView {
            pending_messages: self.pending_messages@,
            pending_events: self.pending_events@,
        }
    }
}

impl LSPS0MessageHandlerView {
    /// With one more message.
    pub open spec fn with_message(self, node_id: PublicKey, message: LSPS0Message) -> Self {
        LSPS0MessageHandlerView {
            pending_messages: self.pending_messages.push((node_id, message)),
            ..self
        }
    }

    /// With one more event.
    pub open spec fn with_event(self, event: Event) -> Self {
        LSPS0MessageHandlerView { pending_events: self.pending_events.push(event), ..self }
    }
}

impl LSPS0MessageHandler {
    /// Creates a handler without messages and events.
    pub fn new() -> (handler: Self)
        ensures
            handler@ == (LSPS0MessageHandlerView {
                pending_messages: Seq::empty(),
                pending_events: Seq::empty(),
            }),
    {
        LSPS0MessageHandler { pending_messages: Vec::new(), pending_events: Vec::new() }
    }

    /// Makes the id of a request of random bytes.
    pub fn generate_request_id(&self, entropy: &[u8; 32]) -> (request_id: RequestId)
        ensures
            request_id.0@ == request_id_text(entropy@),
    {
        utils::generate_request_id(entropy)
    }

    /// Asks a peer which protocols it supports.
    ///
    /// The id of the request is made of random bytes.
    pub fn list_protocols(
        &mut self,
        counterparty_node_id: PublicKey,
        request_entropy: &[u8; 32],
    ) -> (result: Result<(), LightningError>)
        ensures
            result == Ok::<(), LightningError>(()),
            exists|request_id: RequestId|
                request_id.0@ == request_id_text(request_entropy@) && final(self)@
                    == #[trigger] old(self)@.with_message(
                    counterparty_node_id,
                    LSPS0Message::Request(
                        request_id,
                        LSPS0Request::ListProtocols(ListProtocolsRequest {  }),
                    ),
                ),
    {
        let msg = LSPS0Message::Request(
            self.generate_request_id(request_entropy),
            LSPS0Request::ListProtocols(ListProtocolsRequest {  }),
        );
        self.enqueue_message(counterparty_node_id, msg);
        Ok(())
    }

    fn enqueue_message(&mut self, counterparty_node_id: PublicKey, message: LSPS0Message)
        ensures
            final(self)@ == old(self)@.with_message(counterparty_node_id, message),
    {
        self.pending_messages.push((counterparty_node_id, message));
    }

    fn enqueue_event(&mut self, event: Event)
        ensures
            final(self)@ == old(self)@.with_event(event),
    {
        self.pending_events.push(event);
    }

    fn handle_request(
        &mut self,
        request_id: RequestId,
        request: LSPS0Request,
        counterparty_node_id: &PublicKey,
        protocol_numbers: &Vec<Option<u16>>,
    ) -> (result: Result<(), LightningError>)
        ensures
            result == Ok::<(), LightningError>(()),
            exists|protocols: Vec<u16>|
                protocols@ == announced(protocol_numbers@) && final(self)@
                    == #[trigger] old(self)@.with_message(
                    *counterparty_node_id,
                    LSPS0Message::Response(
                        request_id,
                        LSPS0Response::ListProtocols(ListProtocolsResponse { protocols }),
                    ),
                ),
    {
        match request {
            LSPS0Request::ListProtocols(_) => {
                let mut protocols: Vec<u16> = Vec::new();
                let mut i: usize = 0;
                assert(protocol_numbers@.take(0) =~= Seq::empty());
                while i < protocol_numbers.len()
                    invariant
                        i <= protocol_numbers@.len(),
                        protocols@ == announced(protocol_numbers@.take(i as int)),
                    decreases protocol_numbers@.len() - i,
                {
                    assert(protocol_numbers@.take(i + 1).drop_last() =~= protocol_numbers@.take(
                        i as int,
                    ));
                    if let Some(protocol_number) = protocol_numbers[i] {
                        protocols.push(protocol_number);
                    }
                    i += 1;
                }
                assert(protocol_numbers@.take(i as int) =~= protocol_numbers@);
                let msg = LSPS0Message::Response(
                    request_id,
                    LSPS0Response::ListProtocols(ListProtocolsResponse { protocols }),
                );
                self.enqueue_message(*counterparty_node_id, msg);
                Ok(())
            },
        }
    }

    fn handle_response(
        &mut self,
        response: LSPS0Response,
        counterparty_node_id: &PublicKey,
    ) -> (result: Result<(), LightningError>)
        ensures
            result == Ok::<(), LightningError>(()),
            final(self)@ == (match response {
                LSPS0Response::ListProtocols(response) => old(self)@.with_event(
                    Event::ListProtocols {
                        counterparty_node_id: *counterparty_node_id,
                        protocols: response.protocols,
                    },
                ),
                LSPS0Response::ListProtocolsError(_) => old(self)@,
            }),
    {
        match response {
            LSPS0Response::ListProtocols(ListProtocolsResponse { protocols }) => {
                self.enqueue_event(
                    Event::ListProtocols { counterparty_node_id: *counterparty_node_id, protocols },
                );
                Ok(())
            },
            LSPS0Response::ListProtocolsError(_) => Ok(()),
        }
    }

    /// Takes in a message from a peer, given the protocol numbers of all handlers, of which those
    /// without a number are not told.
    ///
    /// An error response has no consequence but that it may be logged.
    pub fn handle_message(
        &mut self,
        message: LSPS0Message,
        counterparty_node_id: &PublicKey,
        protocol_numbers: &Vec<Option<u16>>,
    ) -> (result: Result<(), LightningError>)
        ensures
            result == Ok::<(), LightningError>(()),
            match message {
                LSPS0Message::Request(request_id, _) => exists|protocols: Vec<u16>|
                    protocols@ == announced(protocol_numbers@) && final(self)@
                        == #[trigger] old(self)@.with_message(
                        *counterparty_node_id,
                        LSPS0Message::Response(
                            request_id,
                            LSPS0Response::ListProtocols(ListProtocolsResponse { protocols }),
                        ),
                    ),
                LSPS0Message::Response(_, LSPS0Response::ListProtocols(response)) => final(self)@
                    == old(self)@.with_event(
                    Event::ListProtocols {
                        counterparty_node_id: *counterparty_node_id,
                        protocols: response.protocols,
                    },
                ),
                LSPS0Message::Response(_, LSPS0Response::ListProtocolsError(_)) => final(self)@
                    == old(self)@,
            },
    {
        match message {
            LSPS0Message::Request(request_id, request) => {
                self.handle_request(request_id, request, counterparty_node_id, protocol_numbers)
            },
            LSPS0Message::Response(_, response) => {
                self.handle_response(response, counterparty_node_id)
            },
        }
    }

    /// Takes all messages that are to be sent, in order.
    pub fn get_and_clear_pending_protocol_messages(&mut self) -> (messages: Vec<
        (PublicKey, LSPS0Message),
    >)
        ensures
            messages@ == old(self)@.pending_messages,
            final(self)@ == (LSPS0MessageHandlerView {
                pending_messages: Seq::empty(),
                ..old(self)@
            }),
    {
        let mut messages: Vec<(PublicKey, LSPS0Message)> = Vec::new();
        std::mem::swap(&mut messages, &mut self.pending_messages);
        messages
    }

    /// Takes all events, in order.
    pub fn get_and_clear_pending_protocol_events(&mut self) -> (events: Vec<Event>)
        ensures
            events@ == old(self)@.pending_events,
            final(self)@ == (LSPS0MessageHandlerView { pending_events: Seq::empty(), ..old(self)@ }),
    {
        let mut events: Vec<Event> = Vec::new();
        std::mem::swap(&mut events, &mut self.pending_events);
        events
    }
}

/// The announced protocols are those that have a number, in their order.
pub proof fn lemma_numbered_protocols_are_announced(
    front: Seq<Option<u16>>,
    back: Seq<Option<u16>>,
    number: u16,
)
    ensures
        announced(Seq::<Option<u16>>::empty()) == Seq::<u16>::empty(),
        announced(seq![Some(number)]) == seq![number],
        announced(seq![None::<u16>]) == Seq::<u16>::empty(),
        announced(front + back) == announced(front) + announced(back),
    decreases back.len(),
{
    let none = Seq::<Option<u16>>::empty();
    assert(announced(none) =~= Seq::<u16>::empty());
    assert(seq![Some(number)].drop_last() =~= none);
    assert(announced(seq![Some(number)]) =~= announced(none).push(number));
    assert(seq![None::<u16>].drop_last() =~= none);
    assert(announced(seq![None::<u16>]) =~= announced(none));
    if back.len() == 0 {
        assert(front + back =~= front);
        assert(announced(front) + announced(back) =~= announced(front));
    } else {
        lemma_numbered_protocols_are_announced(front, back.drop_last(), number);
        assert((front + back).drop_last() =~= front + back.drop_last());
        assert(announced(front + back) =~= announced(front) + announced(back));
    }
}

/// A message or an event is added behind those that wait.
pub proof fn lemma_additions_wait_in_turn(
    handler: LSPS0MessageHandlerView,
    node: PublicKey,
    message: LSPS0Message,
    event: Event,
)
    ensures
        handler.with_message(node, message).pending_messages == handler.pending_messages.push(
            (node, message),
        ),
        handler.with_message(node, message).pending_events == handler.pending_events,
        handler.with_event(event).pending_events == handler.pending_events.push(event),
        handler.with_event(event).pending_messages == handler.pending_messages,
{
}

/// Asked for its protocols, a node answers with the numbers of those that have one, in order, under the
/// id of the request. The protocols of a peer are handed to the user as they are, and its errors change
/// nothing.
pub proof fn lemma_protocols_are_told(
    handler: &mut LSPS0MessageHandler,
    message: LSPS0Message,
    node: PublicKey,
    numbers: Vec<Option<u16>>,
    result: Result<(), LightningError>,
)
    requires
        call_ensures(
            LSPS0MessageHandler::handle_message,
            (handler, message, &node, &numbers),
            result,
        ),
    ensures
        ({
            let before = old(handler)@;
            let after = final(handler)@;
            &&& result is Ok
            &&& match message {
                LSPS0Message::Request(request_id, _) => {
                    &&& after.pending_events == before.pending_events
                    &&& after.pending_messages.len() == before.pending_messages.len() + 1
                    &&& after.pending_messages.drop_last() == before.pending_messages
                    &&& after.pending_messages.last().0 == node
                    &&& after.pending_messages.last().1 matches LSPS0Message::Response(
                        id,
                        LSPS0Response::ListProtocols(listed),
                    ) && id == request_id && listed.protocols@ == announced(numbers@)
                },
                LSPS0Message::Response(_, LSPS0Response::ListProtocols(listed)) => {
                    &&& after.pending_messages == before.pending_messages
                    &&& after.pending_events == before.pending_events.push(
                        Event::ListProtocols {
                            counterparty_node_id: node,
                            protocols: listed.protocols,
                        },
                    )
                },
                LSPS0Message::Response(_, LSPS0Response::ListProtocolsError(_)) => after == before,
            }
        }),
{
}

} // verus!
