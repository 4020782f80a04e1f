//! Contains [`LSPS0MessageHandler`], which asks and answers which protocols are supported.

use vstd::prelude::*;

use crate::errors::LightningError;
use crate::lsps0::client::{
    enqueue_list_protocols, list_protocols_enqueued, list_protocols_result, take_in_list_protocols,
};
use crate::lsps0::msgs::{
    LSPS0Message, LSPS0Request, LSPS0Response, LSPSMessage, ListProtocolsResponse, RequestId,
};
use crate::types::PublicKey;
use crate::utils::request_id_text;

verus! {

/// Whether the messages are those before and one more, which lists protocols in answer to a
/// request.
pub open spec fn protocols_listed(
    before: Seq<(PublicKey, LSPSMessage)>,
    after: Seq<(PublicKey, LSPSMessage)>,
    counterparty_node_id: PublicKey,
    request_id: RequestId,
    protocols: Seq<u16>,
) -> bool {
    &&& after.len() == before.len() + 1
    &&& after.drop_last() == before
    &&& after.last().0 == counterparty_node_id
    &&& match after.last().1 {
        LSPSMessage::LSPS0(
            LSPS0Message::Response(id, LSPS0Response::ListProtocols(response)),
        ) => id == request_id && response.protocols@ == protocols,
        _ => false,
    }
}

/// Asks peers which protocols they support, and tells them which ones we support.
pub struct LSPS0MessageHandler {
    protocols: Vec<u16>,
}

impl View for LSPS0MessageHandler {
    type V = Seq<u16>;

    closed spec fn view(&self) -> Seq<u16> {
        self.protocols@
    }
}

impl LSPS0MessageHandler {
    /// Creates a handler for the protocols that we support.
    pub fn new(protocols: Vec<u16>) -> (handler: Self)
        ensures
            handler@ == protocols@,
    {
        LSPS0MessageHandler { protocols }
    }

    /// Asks a peer which protocols it supports.
    ///
    /// The id of the request is made of random bytes.
    pub fn list_protocols(
        &self,
        counterparty_node_id: PublicKey,
        request_entropy: &[u8; 32],
        pending_messages: &mut Vec<(PublicKey, LSPSMessage)>,
    )
        ensures
            list_protocols_enqueued(
                old(pending_messages)@,
                final(pending_messages)@,
                counterparty_node_id,
                request_entropy@,
            ),
    {
        enqueue_list_protocols(counterparty_node_id, request_entropy, pending_messages)
    }

    fn handle_request(
        &self,
        request_id: RequestId,
        request: LSPS0Request,
        counterparty_node_id: &PublicKey,
        pending_messages: &mut Vec<(PublicKey, LSPSMessage)>,
    ) -> (result: Result<(), LightningError>)
        ensures
            result == Ok::<(), LightningError>(()),
            protocols_listed(
                old(pending_messages)@,
                final(pending_messages)@,
                *counterparty_node_id,
                request_id,
                self@,
            ),
    {
        match request {
            LSPS0Request::ListProtocols(_) => {
                let msg = LSPS0Message::Response(
                    request_id,
                    LSPS0Response::ListProtocols(
                        ListProtocolsResponse {
                            protocols: vstd::slice::slice_to_vec(self.protocols.as_slice()),
                        },
                    ),
                );
                pending_messages.push((*counterparty_node_id, LSPSMessage::from(msg)));
                assert(pending_messages@.drop_last() =~= old(pending_messages)@);
                Ok(())
            },
        }
    }

    fn handle_response(
        &self,
        response: LSPS0Response,
        _counterparty_node_id: &PublicKey,
    ) -> (result: Result<(), LightningError>)
        ensures
            result == list_protocols_result(response),
    {
        take_in_list_protocols(response)
    }

    /// Takes in an LSPS0 message from a peer.
    pub fn handle_message(
        &self,
        message: LSPS0Message,
        counterparty_node_id: &PublicKey,
        pending_messages: &mut Vec<(PublicKey, LSPSMessage)>,
    ) -> (result: Result<(), LightningError>)
        ensures
            match message {
                LSPS0Message::Request(request_id, _) => {
                    &&& result == Ok::<(), LightningError>(())
                    &&& protocols_listed(
                        old(pending_messages)@,
                        final(pending_messages)@,
                        *counterparty_node_id,
                        request_id,
                        self@,
                    )
                },
                LSPS0Message::Response(_, response) => {
                    &&& result == list_protocols_result(response)
                    &&& final(pending_messages)@ == old(pending_messages)@
                },
            },
    {
        match message {
            LSPS0Message::Request(request_id, request) => self.handle_request(
                request_id,
                request,
                counterparty_node_id,
                pending_messages,
            ),
            LSPS0Message::Response(_, response) => self.handle_response(
                response,
                counterparty_node_id,
            ),
        }
    }
}

/// A node lists the protocols that it was made with, all of them and in order, to the peer that asks and
/// under the id of its request. It asks a peer for its own in one request.
pub proof fn lemma_protocols_are_listed(
    protocols: Vec<u16>,
    handler: LSPS0MessageHandler,
    request_id: RequestId,
    request: LSPS0Request,
    node: PublicKey,
    messages: &mut Vec<(PublicKey, LSPSMessage)>,
    result: Result<(), LightningError>,
    request_entropy: [u8; 32],
    other_messages: &mut Vec<(PublicKey, LSPSMessage)>,
    asked: (),
)
    requires
        call_ensures(LSPS0MessageHandler::new, (protocols, ), handler),
        call_ensures(
            LSPS0MessageHandler::handle_message,
            (&handler, LSPS0Message::Request(request_id, request), &node, messages),
            result,
        ),
        call_ensures(
            LSPS0MessageHandler::list_protocols,
            (&handler, node, &request_entropy, other_messages),
            asked,
        ),
    ensures
        result is Ok,
        final(messages)@.len() == old(messages)@.len() + 1,
        final(messages)@.drop_last() == old(messages)@,
        final(messages)@.last().0 == node,
        final(messages)@.last().1 matches LSPSMessage::LSPS0(
            LSPS0Message::Response(id, LSPS0Response::ListProtocols(listed)),
        ) && id == request_id && listed.protocols@ == protocols@,
        final(other_messages)@.len() == old(other_messages)@.len() + 1,
        final(other_messages)@.drop_last() == old(other_messages)@,
        final(other_messages)@.last().0 == node,
        final(other_messages)@.last().1 matches LSPSMessage::LSPS0(LSPS0Message::Request(id, _))
            && id.0@ == request_id_text(request_entropy@),
{
}

} // verus!
