//! Contains the main LSPS0 client-side object, [`LSPS0ClientHandler`].

use vstd::prelude::*;

use crate::errors::{info, info_error, ErrorKind, LightningError, Protocol};
use crate::lsps0::msgs::{
    LSPS0Message, LSPS0Request, LSPS0Response, LSPSMessage, ListProtocolsRequest,
};
use crate::types::PublicKey;
use crate::utils::{generate_request_id, request_id_text};

verus! {

/// Whether the messages are those before and one more `list_protocols` request, with an id made of
/// the given random bytes.
pub open spec fn list_protocols_enqueued(
    before: Seq<(PublicKey, LSPSMessage)>,
    after: Seq<(PublicKey, LSPSMessage)>,
    counterparty_node_id: PublicKey,
    entropy: Seq<u8>,
) -> bool {
    &&& after.len() == before.len() + 1
    &&& after.drop_last() == before
    &&& after.last().0 == counterparty_node_id
    &&& match after.last().1 {
        LSPSMessage::LSPS0(LSPS0Message::Request(request_id, _)) => request_id.0@
            == request_id_text(entropy),
        _ => false,
    }
}

/// The result of a response to `list_protocols`.
pub open spec fn list_protocols_result(response: LSPS0Response) -> Result<(), LightningError> {
    match response {
        LSPS0Response::ListProtocols(_) => Ok(()),
        LSPS0Response::ListProtocolsError(error) => Err(
            info(
                ErrorKind::ListProtocolsFailed {
                    code: error.code,
                    message: error.message,
                    data: error.data,
                },
            ),
        ),
    }
}

/// Enqueues a `list_protocols` request.
pub fn enqueue_list_protocols(
    counterparty_node_id: PublicKey,
    request_entropy: &[u8; 32],
    pending_messages: &mut Vec<(PublicKey, LSPSMessage)>,
)
    ensures
        list_protocols_enqueued(
            old(pending_messages)@,
            final(pending_messages)@,
            counterparty_node_id,
            request_entropy@,
        ),
{
    let msg = LSPS0Message::Request(
        generate_request_id(request_entropy),
        LSPS0Request::ListProtocols(ListProtocolsRequest {  }),
    );
    pending_messages.push((counterparty_node_id, LSPSMessage::from(msg)));
    assert(pending_messages@.drop_last() =~= old(pending_messages)@);
}

/// Takes in a response to `list_protocols`.
pub fn take_in_list_protocols(response: LSPS0Response) -> (result: Result<(), LightningError>)
    ensures
        result == list_protocols_result(response),
{
    match response {
        LSPS0Response::ListProtocols(_) => Ok(()),
        LSPS0Response::ListProtocolsError(error) => Err(
            info_error(
                ErrorKind::ListProtocolsFailed {
                    code: error.code,
                    message: error.message,
                    data: error.data,
                },
            ),
        ),
    }
}

/// A message handler capable of sending and handling LSPS0 messages.
pub struct LSPS0ClientHandler {}

impl LSPS0ClientHandler {
    /// Returns a new instance of [`LSPS0ClientHandler`].
    pub fn new() -> (handler: Self)
        ensures
            handler == (LSPS0ClientHandler {  }),
    {
        LSPS0ClientHandler {  }
    }

    /// Calls LSPS0's `list_protocols`.
    ///
    /// The id of the request is made of random bytes.
    pub fn list_protocols(
        &self,
        counterparty_node_id: PublicKey,
        request_entropy: &[u8; 32],
        pending_messages: &mut Vec<(PublicKey, LSPSMessage)>,
    )
        ensures
            list_protocols_enqueued(
                old(pending_messages)@,
                final(pending_messages)@,
                counterparty_node_id,
                request_entropy@,
            ),
    {
        enqueue_list_protocols(counterparty_node_id, request_entropy, pending_messages)
    }

    fn handle_response(
        &self,
        response: LSPS0Response,
        _counterparty_node_id: &PublicKey,
    ) -> (result: Result<(), LightningError>)
        ensures
            result == list_protocols_result(response),
    {
        take_in_list_protocols(response)
    }

    /// Takes in an LSPS0 message from a peer.
    pub fn handle_message(
        &self,
        message: LSPS0Message,
        counterparty_node_id: &PublicKey,
    ) -> (result: Result<(), LightningError>)
        ensures
            result == (match message {
                LSPS0Message::Response(_, response) => list_protocols_result(response),
                LSPS0Message::Request(_, _) => Err(
                    info(
                        ErrorKind::RequestAtClient {
                            protocol: Protocol::LSPS0,
                            counterparty_node_id: *counterparty_node_id,
                        },
                    ),
                ),
            }),
    {
        match message {
            LSPS0Message::Response(_, response) => self.handle_response(
                response,
                counterparty_node_id,
            ),
            LSPS0Message::Request(_, _) => Err(
                info_error(
                    ErrorKind::RequestAtClient {
                        protocol: Protocol::LSPS0,
                        counterparty_node_id: *counterparty_node_id,
                    },
                ),
            ),
        }
    }
}

/// A request for the protocols of a peer is one more message, to that peer, under an id made of the
/// given randomness.
pub proof fn lemma_what_is_asked(
    before: Seq<(PublicKey, LSPSMessage)>,
    after: Seq<(PublicKey, LSPSMessage)>,
    node: PublicKey,
    entropy: Seq<u8>,
)
    requires
        list_protocols_enqueued(before, after, node, entropy),
    ensures
        after.len() == before.len() + 1,
        forall|i: int| 0 <= i < before.len() ==> #[trigger] after[i] == before[i],
        after.last().0 == node,
        after.last().1 matches LSPSMessage::LSPS0(LSPS0Message::Request(id, _)) && id.0@
            == request_id_text(entropy),
{
    assert forall|i: int| 0 <= i < before.len() implies #[trigger] after[i] == before[i] by {
        assert(after.drop_last()[i] == before[i]);
    }
}

/// A client takes in the protocols of a peer, reports its error with its code and its words, and takes in
/// no requests.
pub proof fn lemma_clients_take_in_protocols(
    client: LSPS0ClientHandler,
    message: LSPS0Message,
    node: PublicKey,
    result: Result<(), LightningError>,
)
    requires
        call_ensures(LSPS0ClientHandler::handle_message, (&client, message, &node), result),
    ensures
        match message {
            LSPS0Message::Response(_, LSPS0Response::ListProtocols(_)) => result is Ok,
            LSPS0Message::Response(_, LSPS0Response::ListProtocolsError(error)) => {
                &&& result is Err
                &&& result->Err_0.err == (ErrorKind::ListProtocolsFailed {
                    code: error.code,
                    message: error.message,
                    data: error.data,
                })
            },
            LSPS0Message::Request(_, _) => {
                &&& result is Err
                &&& result->Err_0.err == (ErrorKind::RequestAtClient {
                    protocol: Protocol::LSPS0,
                    counterparty_node_id: node,
                })
            },
        },
{
}

} // verus!
