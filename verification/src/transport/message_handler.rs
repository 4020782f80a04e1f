//! The main interface into the transport layer, [`LiquidityManager`].

use vstd::prelude::*;

use crate::collections::KeyedMap;
use crate::errors::{info, info_error, ErrorAction, ErrorKind, Level, LightningError};
use crate::lsps0::envelope::{Dialect, EnvelopeView};
use crate::lsps0::msgs::{ResponseErrorView, JSONRPC_INVALID_MESSAGE_ERROR_CODE};
use crate::manager::not_understood;
use crate::text::same_text;
use crate::transport::event::{Answer, Event};
use crate::transport::msgs::{
    frame_of, reads_as, DecodeError, FrameView, LSPS0Request, LSPS0Response, LSPSMessage,
    LSPSRequest, LSPSResponse, ListProtocolsRequest, ListProtocolsResponse, RequestId,
    ResponseError,
};
use crate::types::PublicKey;
use crate::utils::{generate_request_id, request_id_text};

verus! {

/// A configuration for [`LiquidityManager`].
///
/// Allows end-user to configure options when using the [`LiquidityManager`]
/// to provide liquidity services to clients.
#[derive(Clone, Copy, Debug, PartialEq, Eq)]
pub struct LiquidityProviderConfig;

/// The main interface into LSP functionality.
pub struct LiquidityManager {
    pending_messages: Vec<(PublicKey, LSPSMessage)>,
    pending_events: Vec<Answer>,
    request_id_to_method_map: KeyedMap<String, String>,
    provider_config: Option<LiquidityProviderConfig>,
}

/// The contents of a [`LiquidityManager`].
#[verifier::ext_equal]
pub struct LiquidityManagerView {
    pub messages: Seq<(PublicKey, LSPSMessage)>,
    pub events: Seq<Answer>,
    /// The methods of the requests that were sent, by their ids.
    pub methods: Map<Seq<char>, Seq<char>>,
    pub provides_liquidity: bool,
}

impl View for LiquidityManager {
    type V = LiquidityManagerView;

    closed spec fn view(&self) -> LiquidityManagerView {
        LiquidityManagerView {
            messages: self.pending_messages@,
            events: self.pending_events@,
            methods: self.request_id_to_method_map@,
            provides_liquidity: self.provider_config is Some,
        }
    }
}

/// What a peer is told whose message could not be read.
pub open spec fn parse_error() -> ResponseErrorView {
    ResponseErrorView { code: JSONRPC_INVALID_MESSAGE_ERROR_CODE, message: "parse error"@, data: None }
}

/// Whether a message answers a request with the protocols that we support, which are none.
pub open spec fn lists_no_protocols(message: LSPSMessage, request_id: RequestId) -> bool {
    match message {
        LSPSMessage::Response(
            LSPSResponse::LSPS0(id, LSPS0Response::ListProtocols(response)),
        ) => id == request_id && response.protocols@.len() == 0,
        _ => false,
    }
}

/// Whether a message tells a peer that its message could not be read.
pub open spec fn tells_parse_error(message: LSPSMessage) -> bool {
    match message {
        LSPSMessage::Response(LSPSResponse::InvalidRequest(error)) => error@ == parse_error(),
        _ => false,
    }
}

/// Whether a message asks for the supported protocols, with the given id.
pub open spec fn asks_for_protocols(message: LSPSMessage, request_id: Seq<char>) -> bool {
    match message {
        LSPSMessage::Request(LSPSRequest::LSPS0(id, _)) => id.0@ == request_id,
        _ => false,
    }
}

/// The methods of the requests that were sent, after the given messages were sent too.
pub open spec fn methods_after(
    methods: Map<Seq<char>, Seq<char>>,
    messages: Seq<(PublicKey, LSPSMessage)>,
) -> Map<Seq<char>, Seq<char>>
    decreases messages.len(),
{
    if messages.len() == 0 {
        methods
    } else {
        let before = methods_after(methods, messages.drop_last());
        match messages.last().1.request_id_and_method() {
            Some((request_id, method)) => before.insert(request_id, method),
            None => before,
        }
    }
}

/// What the payload of a message is read as, given the methods of the requests that were sent.
pub open spec fn payload_frame(payload: Seq<char>, methods: Map<Seq<char>, Seq<char>>) -> Result<
    FrameView,
    DecodeError,
> {
    match EnvelopeView::of_text(Dialect::Strict, payload) {
        Some(envelope) => frame_of(envelope, methods),
        None => Err(DecodeError::Json),
    }
}

/// The first answer to a request.
pub open spec fn first_answer(answers: Seq<Answer>, request_id: Seq<char>) -> Option<Event>
    decreases answers.len(),
{
    if answers.len() == 0 {
        None
    } else if answers[0].id.0@ == request_id {
        Some(answers[0].result)
    } else {
        first_answer(answers.skip(1), request_id)
    }
}

impl LiquidityManagerView {
    /// Whether this state has one more message than the one before, to the given peer.
    pub open spec fn has_enqueued(self, before: Self, node_id: PublicKey) -> bool {
        &&& self.messages.len() == before.messages.len() + 1
        &&& self == (LiquidityManagerView {
            messages: before.messages.push(self.messages.last()),
            ..before
        })
        &&& self.messages.last().0 == node_id
    }

    /// Whether taking in a message leads from this state to another, with the given result.
    pub open spec fn takes_in(
        self,
        after: Self,
        message: LSPSMessage,
        sender_node_id: PublicKey,
        result: Result<(), LightningError>,
    ) -> bool {
        match message {
            LSPSMessage::Response(LSPSResponse::InvalidRequest(_)) => {
                &&& after == self
                &&& result == Err::<(), LightningError>(not_understood(sender_node_id))
            },
            LSPSMessage::Request(LSPSRequest::LSPS0(request_id, _)) => {
                &&& after.has_enqueued(self, sender_node_id)
                &&& lists_no_protocols(after.messages.last().1, request_id)
                &&& result == Ok::<(), LightningError>(())
            },
            LSPSMessage::Response(
                LSPSResponse::LSPS0(request_id, LSPS0Response::ListProtocols(response)),
            ) => {
                &&& after == (LiquidityManagerView {
                    events: self.events.push(
                        Answer {
                            id: request_id,
                            result: Event::ListProtocols {
                                counterparty_node_id: sender_node_id,
                                protocols: response.protocols,
                            },
                        },
                    ),
                    ..self
                })
                &&& result == Ok::<(), LightningError>(())
            },
            LSPSMessage::Response(
                LSPSResponse::LSPS0(_, LSPS0Response::ListProtocolsError(error)),
            ) => {
                &&& after == self
                &&& result == Err::<(), LightningError>(
                    info(
                        ErrorKind::ListProtocolsFailed {
                            code: error.code,
                            message: error.message,
                            data: error.data,
                        },
                    ),
                )
            },
            LSPSMessage::Notification(_) => {
                &&& after == self
                &&& result == Ok::<(), LightningError>(())
            },
        }
    }
}

impl LiquidityManager {
    /// Constructor for the LiquidityManager
    pub fn new(provider_config: Option<LiquidityProviderConfig>) -> (manager: Self)
        ensures
            manager@ == (LiquidityManagerView {
                messages: Seq::empty(),
                events: Seq::empty(),
                methods: Map::empty(),
                provides_liquidity: provider_config is Some,
            }),
    {
        LiquidityManager {
            pending_messages: Vec::new(),
            pending_events: Vec::new(),
            request_id_to_method_map: KeyedMap::new(),
            provider_config,
        }
    }

    /// Returns whether the node announces that it provides liquidity.
    pub fn provides_liquidity(&self) -> (provides: bool)
        ensures
            provides == self@.provides_liquidity,
    {
        self.provider_config.is_some()
    }

    /// Returns whether an event waits.
    pub fn has_event(&self) -> (waits: bool)
        ensures
            waits == (self@.events.len() > 0),
    {
        self.pending_events.len() > 0
    }

    /// Takes the next event of a manager that has one.
    pub fn wait_next_event(&mut self) -> (event: Answer)
        requires
            old(self)@.events.len() > 0,
        ensures
            event == old(self)@.events.first(),
            final(self)@ == (LiquidityManagerView {
                events: old(self)@.events.drop_first(),
                ..old(self)@
            }),
    {
        let event = self.pending_events.remove(0);
        assert(self@.events =~= old(self)@.events.drop_first());
        event
    }

    /// Returns and clears all events without blocking
    pub fn get_and_clear_pending_events(&mut self) -> (events: Vec<Answer>)
        ensures
            events@ == old(self)@.events,
            final(self)@ == (LiquidityManagerView { events: Seq::empty(), ..old(self)@ }),
    {
        let mut events: Vec<Answer> = Vec::new();
        std::mem::swap(&mut events, &mut self.pending_events);
        events
    }

    /// Takes all events, and returns the first answer to a request among them.
    pub fn wait_event_result(&mut self, request_id: &RequestId) -> (result: Option<Event>)
        ensures
            result == first_answer(old(self)@.events, request_id.0@),
            final(self)@ == (LiquidityManagerView { events: Seq::empty(), ..old(self)@ }),
    {
        let mut events = self.get_and_clear_pending_events();
        let ghost all = events@;
        assert(all.skip(0) =~= all);
        while events.len() > 0
            invariant
                all == old(self)@.events,
                events@.len() <= all.len(),
                events@ == all.skip(all.len() - events@.len()),
                first_answer(all, request_id.0@) == first_answer(events@, request_id.0@),
                self@ == (LiquidityManagerView { events: Seq::empty(), ..old(self)@ }),
            decreases events@.len(),
        {
            let ghost before = events@;
            let Answer { id, result } = events.remove(0);
            assert(events@ =~= before.skip(1));
            if same_text(id.0.as_str(), request_id.0.as_str()) {
                return Some(result);
            }
            assert(events@ =~= all.skip(all.len() - events@.len()));
        }
        None
    }

    /// This allows the list the protocols of LSPS0
    ///
    /// The id of the request is made of random bytes.
    pub fn list_protocols(
        &mut self,
        counterparty_node_id: PublicKey,
        request_entropy: &[u8; 32],
    ) -> (result: Result<RequestId, LightningError>)
        ensures
            result is Ok,
            result->Ok_0.0@ == request_id_text(request_entropy@),
            final(self)@.has_enqueued(old(self)@, counterparty_node_id),
            asks_for_protocols(
                final(self)@.messages.last().1,
                request_id_text(request_entropy@),
            ),
    {
        let request_id = generate_request_id(request_entropy);
        let message = LSPSMessage::Request(
            LSPSRequest::LSPS0(
                request_id.clone(),
                LSPS0Request::ListProtocols(ListProtocolsRequest {  }),
            ),
        );
        self.enqueue_message(counterparty_node_id, message);
        Ok(request_id)
    }

    fn handle_lsps_message(&mut self, msg: LSPSMessage, sender_node_id: &PublicKey) -> (result:
        Result<(), LightningError>)
        ensures
            old(self)@.takes_in(final(self)@, msg, *sender_node_id, result),
    {
        match msg {
            LSPSMessage::Response(LSPSResponse::InvalidRequest(_)) => Err(
                LightningError {
                    err: ErrorKind::NotUnderstood { counterparty_node_id: *sender_node_id },
                    action: ErrorAction::IgnoreAndLog(Level::Error),
                },
            ),
            LSPSMessage::Request(LSPSRequest::LSPS0(request_id, _)) => {
                let response = LSPS0Response::ListProtocols(
                    ListProtocolsResponse { protocols: Vec::new() },
                );
                self.enqueue_message(
                    *sender_node_id,
                    LSPSMessage::Response(LSPSResponse::LSPS0(request_id, response)),
                );
                Ok(())
            },
            LSPSMessage::Response(
                LSPSResponse::LSPS0(request_id, LSPS0Response::ListProtocols(response)),
            ) => {
                self.pending_events.push(
                    Answer {
                        id: request_id,
                        result: Event::ListProtocols {
                            counterparty_node_id: *sender_node_id,
                            protocols: response.protocols,
                        },
                    },
                );
                Ok(())
            },
            LSPSMessage::Response(
                LSPSResponse::LSPS0(_, LSPS0Response::ListProtocolsError(error)),
            ) => Err(
                info_error(
                    ErrorKind::ListProtocolsFailed {
                        code: error.code,
                        message: error.message,
                        data: error.data,
                    },
                ),
            ),
            LSPSMessage::Notification(_) => Ok(()),
        }
    }

    fn enqueue_message(&mut self, node_id: PublicKey, msg: LSPSMessage)
        ensures
            final(self)@.has_enqueued(old(self)@, node_id),
            final(self)@.messages.last().1 == msg,
    {
        self.pending_messages.push((node_id, msg));
    }

    /// Takes in the payload of a message from a peer. A peer whose message cannot be read is told so.
    pub fn handle_custom_message(&mut self, payload: &str, sender_node_id: &PublicKey) -> (result:
        Result<(), LightningError>)
        ensures
            exists|message: Result<LSPSMessage, DecodeError>|
                #![trigger reads_as(message, payload_frame(payload@, old(self)@.methods))]
                reads_as(message, payload_frame(payload@, old(self)@.methods)) && match message {
                    Ok(message) => old(self)@.takes_in(
                        final(self)@,
                        message,
                        *sender_node_id,
                        result,
                    ),
                    Err(_) => {
                        &&& result == Ok::<(), LightningError>(())
                        &&& final(self)@.has_enqueued(old(self)@, *sender_node_id)
                        &&& tells_parse_error(final(self)@.messages.last().1)
                    },
                },
    {
        let message = LSPSMessage::from_str_with_id_map(payload, &self.request_id_to_method_map);
        assert(reads_as(message, payload_frame(payload@, old(self)@.methods)));
        match message {
            Ok(msg) => self.handle_lsps_message(msg, sender_node_id),
            Err(_) => {
                let error = ResponseError {
                    code: JSONRPC_INVALID_MESSAGE_ERROR_CODE,
                    message: "parse error".to_owned(),
                    data: None,
                };
                self.enqueue_message(
                    *sender_node_id,
                    LSPSMessage::Response(LSPSResponse::InvalidRequest(error)),
                );
                Ok(())
            },
        }
    }

    /// Takes all messages that are to be sent, in order, as JSON, and remembers the methods of the
    /// requests among them.
    pub fn get_and_clear_pending_msg(&mut self) -> (payloads: Vec<(PublicKey, String)>)
        ensures
            payloads@.len() == old(self)@.messages.len(),
            forall|i: int|
                0 <= i < payloads@.len() ==> (#[trigger] payloads@[i]).0 == old(self)@.messages[i].0
                    && payloads@[i].1@ == old(self)@.messages[i].1.json_text(),
            final(self)@ == (LiquidityManagerView {
                messages: Seq::empty(),
                methods: methods_after(old(self)@.methods, old(self)@.messages),
                ..old(self)@
            }),
    {
        let mut messages: Vec<(PublicKey, LSPSMessage)> = Vec::new();
        std::mem::swap(&mut messages, &mut self.pending_messages);
        let mut payloads: Vec<(PublicKey, String)> = Vec::new();
        let ghost sent = messages@;
        let mut i: usize = 0;
        assert(sent.take(0) =~= Seq::empty());
        while i < messages.len()
            invariant
                i <= messages@.len(),
                sent == messages@,
                sent == old(self)@.messages,
                payloads@.len() == i,
                forall|j: int|
                    0 <= j < i ==> (#[trigger] payloads@[j]).0 == sent[j].0 && payloads@[j].1@
                        == sent[j].1.json_text(),
                self@ == (LiquidityManagerView {
                    messages: Seq::empty(),
                    methods: methods_after(old(self)@.methods, sent.take(i as int)),
                    ..old(self)@
                }),
            decreases messages@.len() - i,
        {
            assert(sent.take(i + 1).drop_last() =~= sent.take(i as int));
            if let Some((request_id, method_name)) = messages[i].1.get_request_id_and_method() {
                self.request_id_to_method_map.insert(request_id, method_name);
            }
            payloads.push((messages[i].0, messages[i].1.to_json()));
            i += 1;
        }
        assert(sent.take(i as int) =~= sent);
        payloads
    }
}

/// What a message from a peer leads to. Asked for its protocols, the node lists none, under the id of
/// the request. The protocols of a peer are kept as the answer to the request that asked for them. An
/// error of a peer is reported with its code and its words. Nothing else changes.
pub proof fn lemma_what_messages_lead_to(
    manager: LiquidityManagerView,
    after: LiquidityManagerView,
    message: LSPSMessage,
    node: PublicKey,
    result: Result<(), LightningError>,
)
    requires
        manager.takes_in(after, message, node, result),
    ensures
        after.methods == manager.methods,
        after.provides_liquidity == manager.provides_liquidity,
        match message {
            LSPSMessage::Request(LSPSRequest::LSPS0(request_id, _)) => {
                &&& result is Ok
                &&& after.events == manager.events
                &&& after.messages.len() == manager.messages.len() + 1
                &&& after.messages.drop_last() == manager.messages
                &&& after.messages.last().0 == node
                &&& after.messages.last().1 matches LSPSMessage::Response(
                    LSPSResponse::LSPS0(id, LSPS0Response::ListProtocols(listed)),
                ) && id == request_id && listed.protocols@.len() == 0
            },
            LSPSMessage::Response(
                LSPSResponse::LSPS0(request_id, LSPS0Response::ListProtocols(listed)),
            ) => {
                &&& result is Ok
                &&& after.messages == manager.messages
                &&& after.events.len() == manager.events.len() + 1
                &&& after.events.drop_last() == manager.events
                &&& after.events.last().id == request_id
                &&& after.events.last().result == (Event::ListProtocols {
                    counterparty_node_id: node,
                    protocols: listed.protocols,
                })
            },
            LSPSMessage::Response(
                LSPSResponse::LSPS0(_, LSPS0Response::ListProtocolsError(error)),
            ) => {
                &&& after == manager
                &&& result is Err
                &&& result->Err_0.err == (ErrorKind::ListProtocolsFailed {
                    code: error.code,
                    message: error.message,
                    data: error.data,
                })
            },
            LSPSMessage::Response(LSPSResponse::InvalidRequest(_)) => {
                &&& after == manager
                &&& result is Err
                &&& result->Err_0.err == (ErrorKind::NotUnderstood { counterparty_node_id: node })
            },
            LSPSMessage::Notification(_) => after == manager && result is Ok,
        },
{
}

/// The answer to a request is the first that came with its id, if any did.
pub proof fn lemma_first_answers(answers: Seq<Answer>, request_id: Seq<char>, i: int)
    ensures
        (forall|k: int| 0 <= k < answers.len() ==> (#[trigger] answers[k]).id.0@ != request_id)
            ==> first_answer(answers, request_id) is None,
        0 <= i < answers.len() && answers[i].id.0@ == request_id && (forall|k: int|
            0 <= k < i ==> (#[trigger] answers[k]).id.0@ != request_id) ==> first_answer(
            answers,
            request_id,
        ) == Some(answers[i].result),
    decreases answers.len(),
{
    if answers.len() > 0 {
        let rest = answers.skip(1);
        lemma_first_answers(rest, request_id, i - 1);
        assert(forall|k: int| 0 <= k < rest.len() ==> #[trigger] rest[k] == answers[k + 1]);
    }
}

/// Sending remembers the requests one after the other, each by its id, and what is no request changes
/// nothing that is remembered.
pub proof fn lemma_sent_requests_are_remembered_in_turn(
    methods: Map<Seq<char>, Seq<char>>,
    messages: Seq<(PublicKey, LSPSMessage)>,
    last: (PublicKey, LSPSMessage),
)
    ensures
        methods_after(methods, Seq::empty()) == methods,
        last.1 is Request ==> {
            &&& last.1.request_id_and_method() is Some
            &&& methods_after(methods, messages.push(last)) == methods_after(
                methods,
                messages,
            ).insert((last.1.request_id_and_method()->0).0, "lsps0.listprotocols"@)
        },
        !(last.1 is Request) ==> methods_after(methods, messages.push(last)) == methods_after(
            methods,
            messages,
        ),
{
    assert(messages.push(last).drop_last() =~= messages);
}

/// What a message says, by the parts that it is recognized by.
pub proof fn lemma_what_is_recognized(
    message: LSPSMessage,
    request_id: RequestId,
    before: LiquidityManagerView,
    after: LiquidityManagerView,
    node: PublicKey,
)
    ensures
        parse_error().code == -32700,
        parse_error().message == "parse error"@,
        parse_error().data is None,
        tells_parse_error(message) ==> (message matches LSPSMessage::Response(
            LSPSResponse::InvalidRequest(error),
        ) && error@ == parse_error()),
        asks_for_protocols(message, request_id.0@) ==> (message matches LSPSMessage::Request(
            LSPSRequest::LSPS0(id, _),
        ) && id.0@ == request_id.0@),
        after.has_enqueued(before, node) ==> {
            &&& after.messages.len() == before.messages.len() + 1
            &&& after.messages.drop_last() == before.messages
            &&& after.messages.last().0 == node
            &&& after.events == before.events
            &&& after.methods == before.methods
            &&& after.provides_liquidity == before.provides_liquidity
        },
{
}

/// Asking a peer for its protocols sends one request, whose id the user gets, and the answer to it is the
/// first that came with that id. Waiting for an answer takes all that came.
pub proof fn lemma_protocols_are_asked_for(
    manager: &mut LiquidityManager,
    node: PublicKey,
    request_entropy: [u8; 32],
    asked: Result<RequestId, LightningError>,
    later: &mut LiquidityManager,
    request_id: RequestId,
    answer: Option<Event>,
    i: int,
)
    requires
        call_ensures(LiquidityManager::list_protocols, (manager, node, &request_entropy), asked),
        call_ensures(LiquidityManager::wait_event_result, (later, &request_id), answer),
    ensures
        ({
            let before = old(manager)@;
            let after = final(manager)@;
            &&& asked is Ok
            &&& (asked->Ok_0).0@ == request_id_text(request_entropy@)
            &&& after.messages.len() == before.messages.len() + 1
            &&& after.messages.drop_last() == before.messages
            &&& after.messages.last().0 == node
            &&& after.messages.last().1 matches LSPSMessage::Request(LSPSRequest::LSPS0(id, _))
                && id.0@ == (asked->Ok_0).0@
            &&& after.events == before.events
            &&& after.methods == before.methods
        }),
        ({
            let events = old(later)@.events;
            &&& (forall|k: int| 0 <= k < events.len() ==> (#[trigger] events[k]).id.0@
                != request_id.0@) ==> answer is None
            &&& 0 <= i < events.len() && events[i].id.0@ == request_id.0@ && (forall|k: int|
                0 <= k < i ==> (#[trigger] events[k]).id.0@ != request_id.0@) ==> answer == Some(
                events[i].result,
            )
            &&& final(later)@.events.len() == 0
            &&& final(later)@.messages == old(later)@.messages
            &&& final(later)@.methods == old(later)@.methods
        }),
{
    lemma_first_answers(old(later)@.events, request_id.0@, i);
}

} // verus!
