//! Messages of the transport layer in the JSON-RPC 2.0 format.

use vstd::prelude::*;

use crate::collections::KeyedMap;
use crate::json::{in_quotes, member_views, object_text, quote, write_object};
use crate::lsps0::envelope::{
    are_readable, field_members, Dialect, Envelope, EnvelopeView, Field,
};
use crate::lsps0::msgs::{
    is_protocols_request, lemma_no_params_are_compact, lemma_protocols_are_compact,
    protocols_json, protocols_of_json, ResponseErrorView,
};
pub use crate::lsps0::msgs::{
    ListProtocolsRequest, ListProtocolsResponse, RawLSPSMessage, RequestId, ResponseError,
};
use crate::text::same_text;

verus! {

/// The Lightning message type of LSPS messages.
pub const LSPS_MESSAGE_TYPE: u16 = 37913;

/// The name of the method that lists the supported protocols.
pub const LISTPROTOCOLS_METHOD_NAME: &'static str = "lsps0.listprotocols";

/// The protocol that a message belongs to.
#[derive(Clone, Copy, Debug, PartialEq, Eq, Hash)]
pub enum Prefix {
    LSPS0,
}

/// A request of the LSPS0 protocol.
#[derive(Clone, Debug, PartialEq, Eq)]
pub enum LSPS0Request {
    ListProtocols(ListProtocolsRequest),
}

impl TryFrom<LSPSRequest> for LSPS0Request {
    type Error = ();

    fn try_from(request: LSPSRequest) -> (result: Result<Self, ()>) {
        match request {
            LSPSRequest::LSPS0(_, request) => Ok(request),
        }
    }
}

impl vstd::std_specs::convert::TryFromSpecImpl<LSPSRequest> for LSPS0Request {
    open spec fn obeys_try_from_spec() -> bool {
        true
    }

    open spec fn try_from_spec(request: LSPSRequest) -> Result<Self, ()> {
        match request {
            LSPSRequest::LSPS0(_, request) => Ok(request),
        }
    }
}

/// A request with its id.
#[derive(Clone, Debug, PartialEq, Eq)]
pub enum LSPSRequest {
    LSPS0(RequestId, LSPS0Request),
}

impl LSPSRequest {
    /// Returns the protocol that the request belongs to.
    pub fn prefix(&self) -> (prefix: Prefix)
        ensures
            prefix == Prefix::LSPS0,
    {
        match self {
            LSPSRequest::LSPS0(_, _) => Prefix::LSPS0,
        }
    }

    /// Returns the name of the method.
    pub fn method(&self) -> (name: &'static str)
        ensures
            name@ == "lsps0.listprotocols"@,
    {
        match self {
            LSPSRequest::LSPS0(_, request) => match request {
                LSPS0Request::ListProtocols(_) => LISTPROTOCOLS_METHOD_NAME,
            },
        }
    }

    /// Returns the id.
    pub fn id(&self) -> (id: &str)
        ensures
            id@ == self->LSPS0_0.0@,
    {
        match self {
            LSPSRequest::LSPS0(request_id, _) => request_id.0.as_str(),
        }
    }
}

/// A response of the LSPS0 protocol.
#[derive(Clone, Debug, PartialEq, Eq)]
pub enum LSPS0Response {
    ListProtocols(ListProtocolsResponse),
    ListProtocolsError(ResponseError),
}

impl TryFrom<LSPSResponse> for LSPS0Response {
    type Error = ();

    fn try_from(response: LSPSResponse) -> (result: Result<Self, ()>) {
        match response {
            LSPSResponse::LSPS0(_, response) => Ok(response),
            LSPSResponse::InvalidRequest(_) => Err(()),
        }
    }
}

impl vstd::std_specs::convert::TryFromSpecImpl<LSPSResponse> for LSPS0Response {
    open spec fn obeys_try_from_spec() -> bool {
        true
    }

    open spec fn try_from_spec(response: LSPSResponse) -> Result<Self, ()> {
        match response {
            LSPSResponse::LSPS0(_, response) => Ok(response),
            LSPSResponse::InvalidRequest(_) => Err(()),
        }
    }
}

/// A response with the id of its request.
#[derive(Clone, Debug, PartialEq, Eq)]
pub enum LSPSResponse {
    /// The answer to what could not be read.
    InvalidRequest(ResponseError),
    /// A response of the LSPS0 protocol.
    LSPS0(RequestId, LSPS0Response),
}

impl LSPSResponse {
    /// Returns the protocol that the response belongs to.
    pub fn prefix(&self) -> (prefix: Option<Prefix>)
        ensures
            prefix == (match self {
                LSPSResponse::LSPS0(_, _) => Some(Prefix::LSPS0),
                LSPSResponse::InvalidRequest(_) => None,
            }),
    {
        match self {
            LSPSResponse::LSPS0(_, _) => Some(Prefix::LSPS0),
            LSPSResponse::InvalidRequest(_) => None,
        }
    }
}

/// A notification of the LSPS0 protocol.
#[derive(Clone, Copy, Debug, PartialEq, Eq)]
pub enum LSPS0Notification {
    Unknown,
}

impl TryFrom<LSPSNotification> for LSPS0Notification {
    type Error = ();

    fn try_from(notification: LSPSNotification) -> (result: Result<Self, ()>) {
        match notification {
            LSPSNotification::LSPS0(notification) => Ok(notification),
        }
    }
}

impl vstd::std_specs::convert::TryFromSpecImpl<LSPSNotification> for LSPS0Notification {
    open spec fn obeys_try_from_spec() -> bool {
        true
    }

    open spec fn try_from_spec(notification: LSPSNotification) -> Result<Self, ()> {
        match notification {
            LSPSNotification::LSPS0(notification) => Ok(notification),
        }
    }
}

/// A notification.
#[derive(Clone, Copy, Debug, PartialEq, Eq)]
pub enum LSPSNotification {
    LSPS0(LSPS0Notification),
}

impl LSPSNotification {
    /// Returns the protocol that the notification belongs to.
    pub fn prefix(&self) -> (prefix: Prefix)
        ensures
            prefix == Prefix::LSPS0,
    {
        match self {
            LSPSNotification::LSPS0(_) => Prefix::LSPS0,
        }
    }
}

/// A message of the transport layer.
#[derive(Clone, Debug, PartialEq, Eq)]
pub enum LSPSMessage {
    Request(LSPSRequest),
    Response(LSPSResponse),
    Notification(LSPSNotification),
}

/// Why a text is no message.
#[derive(Clone, Copy, Debug, PartialEq, Eq)]
pub enum DecodeError {
    /// The text is no JSON object, or a member of it is not as it needs to be.
    Json,
    /// The message belongs to a method that is not known.
    UnknownMethod,
    /// A response belongs to no request.
    UnknownRequestId,
    /// The members do not make a message.
    InvalidObject,
}

/// A message whose parameters or result are a JSON text that is still to be read.
#[verifier::ext_equal]
pub enum FrameView {
    /// A `listprotocols` request with its parameters.
    Request { request_id: Seq<char>, params: Seq<char> },
    /// A response to a `listprotocols` request with its result.
    Response { request_id: Seq<char>, result: Seq<char> },
    /// A response to a `listprotocols` request with its error.
    ErrorResponse { request_id: Seq<char>, error: ResponseErrorView },
    /// A notification.
    Notification,
}

/// The message that an envelope makes, given the methods of the requests that were sent.
pub open spec fn frame_of(
    envelope: EnvelopeView,
    methods: Map<Seq<char>, Seq<char>>,
) -> Result<FrameView, DecodeError> {
    match (envelope.method, envelope.id) {
        (Some(_), None) => Ok(FrameView::Notification),
        (None, None) => Err(DecodeError::InvalidObject),
        (Some(method), Some(request_id)) => if method == "lsps0.listprotocols"@ {
            Ok(
                FrameView::Request {
                    request_id,
                    params: match envelope.params {
                        Some(params) => params,
                        None => "null"@,
                    },
                },
            )
        } else {
            Err(DecodeError::UnknownMethod)
        },
        (None, Some(request_id)) => if !methods.contains_key(request_id) {
            Err(DecodeError::UnknownRequestId)
        } else if methods[request_id] != "lsps0.listprotocols"@ {
            Err(DecodeError::UnknownMethod)
        } else {
            match (envelope.error, envelope.result) {
                (Some(error), _) => Ok(FrameView::ErrorResponse { request_id, error }),
                (None, Some(result)) => Ok(FrameView::Response { request_id, result }),
                (None, None) => Err(DecodeError::InvalidObject),
            }
        },
    }
}

impl FrameView {
    /// Whether a message is the one that the frame makes. Parameters and results that cannot be read
    /// make none.
    pub open spec fn makes(self, message: Result<LSPSMessage, DecodeError>) -> bool {
        match self {
            FrameView::Request { request_id, params } => if is_protocols_request(params) {
                match message {
                    Ok(LSPSMessage::Request(LSPSRequest::LSPS0(id, _))) => id.0@ == request_id,
                    _ => false,
                }
            } else {
                message == Err::<LSPSMessage, DecodeError>(DecodeError::Json)
            },
            FrameView::Response { request_id, result } => match protocols_of_json(result) {
                Some(protocols) => match message {
                    Ok(
                        LSPSMessage::Response(
                            LSPSResponse::LSPS0(id, LSPS0Response::ListProtocols(response)),
                        ),
                    ) => id.0@ == request_id && response.protocols@ == protocols,
                    _ => false,
                },
                None => message == Err::<LSPSMessage, DecodeError>(DecodeError::Json),
            },
            FrameView::ErrorResponse { request_id, error } => match message {
                Ok(
                    LSPSMessage::Response(
                        LSPSResponse::LSPS0(id, LSPS0Response::ListProtocolsError(response)),
                    ),
                ) => id.0@ == request_id && response@ == error,
                _ => false,
            },
            FrameView::Notification => message == Ok::<LSPSMessage, DecodeError>(
                LSPSMessage::Notification(LSPSNotification::LSPS0(LSPS0Notification::Unknown)),
            ),
        }
    }
}

/// Whether what was read is as expected.
pub open spec fn reads_as(
    message: Result<LSPSMessage, DecodeError>,
    expected: Result<FrameView, DecodeError>,
) -> bool {
    match expected {
        Ok(frame) => frame.makes(message),
        Err(e) => message == Err::<LSPSMessage, DecodeError>(e),
    }
}

/// Makes the message that an envelope holds.
fn into_message(envelope: Envelope, request_id_to_method: &KeyedMap<String, String>) -> (message:
    Result<LSPSMessage, DecodeError>)
    ensures
        reads_as(message, frame_of(envelope@, request_id_to_method@)),
        match frame_of(envelope@, request_id_to_method@) {
            Ok(FrameView::Request { params, .. }) => params == "{}"@ ==> is_protocols_request(
                params,
            ),
            Ok(FrameView::Response { result, .. }) => forall|protocols: Seq<u16>|
                result == #[trigger] protocols_json(protocols) ==> protocols_of_json(result)
                    == Some(protocols),
            _ => true,
        },
{
    if let Some(method) = envelope.method {
        if let Some(id) = envelope.id {
            if same_text(method.as_str(), LISTPROTOCOLS_METHOD_NAME) {
                let params = match envelope.params {
                    Some(params) => params,
                    None => "null".to_owned(),
                };
                match ListProtocolsRequest::from_json(params.as_str()) {
                    Some(request) => Ok(
                        LSPSMessage::Request(
                            LSPSRequest::LSPS0(
                                RequestId(id),
                                LSPS0Request::ListProtocols(request),
                            ),
                        ),
                    ),
                    None => Err(DecodeError::Json),
                }
            } else {
                Err(DecodeError::UnknownMethod)
            }
        } else {
            Ok(LSPSMessage::Notification(LSPSNotification::LSPS0(LSPS0Notification::Unknown)))
        }
    } else if let Some(id) = envelope.id {
        if let Some(method) = request_id_to_method.get(&id) {
            if same_text(method.as_str(), LISTPROTOCOLS_METHOD_NAME) {
                if let Some(error) = envelope.error {
                    Ok(
                        LSPSMessage::Response(
                            LSPSResponse::LSPS0(
                                RequestId(id),
                                LSPS0Response::ListProtocolsError(error),
                            ),
                        ),
                    )
                } else if let Some(result) = envelope.result {
                    match ListProtocolsResponse::from_json(result.as_str()) {
                        Some(response) => Ok(
                            LSPSMessage::Response(
                                LSPSResponse::LSPS0(
                                    RequestId(id),
                                    LSPS0Response::ListProtocols(response),
                                ),
                            ),
                        ),
                        None => Err(DecodeError::Json),
                    }
                } else {
                    Err(DecodeError::InvalidObject)
                }
            } else {
                Err(DecodeError::UnknownMethod)
            }
        } else {
            Err(DecodeError::UnknownRequestId)
        }
    } else {
        Err(DecodeError::InvalidObject)
    }
}

impl LSPSMessage {
    /// Reads a message from a raw JSON string.
    ///
    /// The given `request_id_to_method` associates request ids with method names, as response
    /// objects don't carry the latter.
    ///
    /// What [`LSPSMessage::to_json`] has written is read back.
    pub fn from_str_with_id_map(
        json_str: &str,
        request_id_to_method: &KeyedMap<String, String>,
    ) -> (message: Result<LSPSMessage, DecodeError>)
        ensures
            reads_as(
                message,
                match EnvelopeView::of_text(Dialect::Strict, json_str@) {
                    Some(envelope) => frame_of(envelope, request_id_to_method@),
                    None => Err(DecodeError::Json),
                },
            ),
            forall|written: LSPSMessage|
                #![trigger written.fields()]
                json_str@ == written.json_text() && written.is_expected(request_id_to_method@)
                    ==> message is Ok && message->Ok_0.says_the_same(written),
    {
        proof {
            assert forall|written: LSPSMessage|
                #![trigger written.fields()]
                written.is_expected(request_id_to_method@) implies are_readable(
                written.fields(),
            ) by {
                lemma_written_message(written, request_id_to_method@);
            }
        }
        match Envelope::from_str(Dialect::Strict, json_str) {
            Some(envelope) => {
                let ghost view = envelope@;
                let message = into_message(envelope, request_id_to_method);
                proof {
                    assert forall|written: LSPSMessage|
                        #![trigger written.fields()]
                        json_str@ == written.json_text() && written.is_expected(
                            request_id_to_method@,
                        ) implies message is Ok && message->Ok_0.says_the_same(written) by {
                        lemma_written_message(written, request_id_to_method@);
                        assert(view == EnvelopeView::of_fields(written.fields()));
                    }
                }
                message
            },
            None => Err(DecodeError::Json),
        }
    }

    /// Whether the message is no answer, or answers a request of ours.
    pub open spec fn is_expected(self, methods: Map<Seq<char>, Seq<char>>) -> bool {
        match self {
            LSPSMessage::Response(LSPSResponse::LSPS0(id, _)) => methods.contains_key(id.0@)
                && methods[id.0@] == "lsps0.listprotocols"@,
            LSPSMessage::Response(LSPSResponse::InvalidRequest(_)) => false,
            _ => true,
        }
    }

    /// Whether two messages hold the same.
    pub open spec fn says_the_same(self, other: LSPSMessage) -> bool {
        match (self, other) {
            (
                LSPSMessage::Request(LSPSRequest::LSPS0(id, _)),
                LSPSMessage::Request(LSPSRequest::LSPS0(other_id, _)),
            ) => id.0@ == other_id.0@,
            (
                LSPSMessage::Response(
                    LSPSResponse::LSPS0(id, LSPS0Response::ListProtocols(response)),
                ),
                LSPSMessage::Response(
                    LSPSResponse::LSPS0(other_id, LSPS0Response::ListProtocols(other_response)),
                ),
            ) => id.0@ == other_id.0@ && response.protocols@ == other_response.protocols@,
            (
                LSPSMessage::Response(
                    LSPSResponse::LSPS0(id, LSPS0Response::ListProtocolsError(error)),
                ),
                LSPSMessage::Response(
                    LSPSResponse::LSPS0(other_id, LSPS0Response::ListProtocolsError(other_error)),
                ),
            ) => id.0@ == other_id.0@ && error@ == other_error@,
            (LSPSMessage::Notification(_), LSPSMessage::Notification(_)) => true,
            _ => false,
        }
    }

    /// The members that the message is written with.
    pub open spec fn fields(self) -> Seq<Field> {
        match self {
            LSPSMessage::Request(LSPSRequest::LSPS0(id, _)) => seq![
                Field::Version,
                Field::Method("lsps0.listprotocols"@),
                Field::Id(id.0@),
                Field::Params("{}"@),
            ],
            LSPSMessage::Response(
                LSPSResponse::LSPS0(id, LSPS0Response::ListProtocols(response)),
            ) => seq![
                Field::Version,
                Field::Id(id.0@),
                Field::Success(protocols_json(response.protocols@)),
            ],
            LSPSMessage::Response(
                LSPSResponse::LSPS0(id, LSPS0Response::ListProtocolsError(error)),
            ) => seq![Field::Version, Field::Id(id.0@), Field::Failure(error@)],
            LSPSMessage::Response(LSPSResponse::InvalidRequest(error)) => seq![
                Field::Version,
                Field::NoId,
                Field::Failure(error@),
            ],
            LSPSMessage::Notification(_) => seq![
                Field::Version,
                Field::Method("lsps0.unknown"@),
            ],
        }
    }

    /// The JSON text of the message.
    pub open spec fn json_text(self) -> Seq<char> {
        object_text(field_members(self.fields()))
    }

    /// Writes the message as JSON.
    pub fn to_json(&self) -> (json: String)
        ensures
            json@ == self.json_text(),
    {
        let mut members: Vec<(String, String)> = Vec::new();
        members.push(("jsonrpc".to_owned(), "\"2.0\"".to_owned()));
        match self {
            LSPSMessage::Request(request) => {
                members.push(("method".to_owned(), "\"lsps0.listprotocols\"".to_owned()));
                members.push(("id".to_owned(), quote(request.id())));
                members.push(("params".to_owned(), "{}".to_owned()));
            },
            LSPSMessage::Response(response) => match response {
                LSPSResponse::LSPS0(request_id, response) => {
                    members.push(("id".to_owned(), quote(request_id.0.as_str())));
                    match response {
                        LSPS0Response::ListProtocols(result) => {
                            members.push(("result".to_owned(), result.to_json()));
                        },
                        LSPS0Response::ListProtocolsError(error) => {
                            members.push(("error".to_owned(), error.to_json()));
                        },
                    }
                },
                LSPSResponse::InvalidRequest(error) => {
                    members.push(("id".to_owned(), "null".to_owned()));
                    members.push(("error".to_owned(), error.to_json()));
                },
            },
            LSPSMessage::Notification(_) => {
                members.push(("method".to_owned(), "\"lsps0.unknown\"".to_owned()));
            },
        }
        proof {
            reveal_strlit("\"2.0\"");
            reveal_strlit("2.0");
            reveal_strlit("\"lsps0.listprotocols\"");
            reveal_strlit("lsps0.listprotocols");
            reveal_strlit("\"lsps0.unknown\"");
            reveal_strlit("lsps0.unknown");
            assert("\"2.0\""@ =~= in_quotes("2.0"@));
            assert("\"lsps0.listprotocols\""@ =~= in_quotes("lsps0.listprotocols"@));
            assert("\"lsps0.unknown\""@ =~= in_quotes("lsps0.unknown"@));
            assert(member_views(members@) =~= field_members(self.fields()));
        }
        write_object(&members)
    }

    /// The id and the method of a request.
    pub open spec fn request_id_and_method(self) -> Option<(Seq<char>, Seq<char>)> {
        match self {
            LSPSMessage::Request(LSPSRequest::LSPS0(id, _)) => Some(
                (id.0@, "lsps0.listprotocols"@),
            ),
            _ => None,
        }
    }

    /// Returns the id and the method of a request.
    pub fn get_request_id_and_method(&self) -> (pair: Option<(String, String)>)
        ensures
            match (pair, self.request_id_and_method()) {
                (Some((id, name)), Some((request_id, method))) => id@ == request_id && name@
                    == method,
                (None, None) => true,
                _ => false,
            },
    {
        match self {
            LSPSMessage::Request(request) => Some(
                (request.id().to_owned(), request.method().to_owned()),
            ),
            _ => None,
        }
    }
}

/// The frame of a message that was written.
proof fn lemma_written_message(message: LSPSMessage, methods: Map<Seq<char>, Seq<char>>)
    requires
        message.is_expected(methods),
    ensures
        are_readable(message.fields()),
        frame_of(EnvelopeView::of_fields(message.fields()), methods) == Ok::<
            FrameView,
            DecodeError,
        >(
            match message {
                LSPSMessage::Request(LSPSRequest::LSPS0(id, _)) => FrameView::Request {
                    request_id: id.0@,
                    params: "{}"@,
                },
                LSPSMessage::Response(
                    LSPSResponse::LSPS0(id, LSPS0Response::ListProtocols(response)),
                ) => FrameView::Response {
                    request_id: id.0@,
                    result: protocols_json(response.protocols@),
                },
                LSPSMessage::Response(
                    LSPSResponse::LSPS0(id, LSPS0Response::ListProtocolsError(error)),
                ) => FrameView::ErrorResponse {
                    request_id: id.0@,
                    error: error@,
                },
                _ => FrameView::Notification,
            },
        ),
{
    reveal_with_fuel(EnvelopeView::of_fields, 5);
    let fields = message.fields();
    assert(fields.drop_last() =~= fields.take(fields.len() - 1));
    assert(fields.drop_last().drop_last() =~= fields.take(fields.len() - 2));
    if fields.len() > 2 {
        assert(fields.drop_last().drop_last().drop_last() =~= fields.take(fields.len() - 3));
    }
    reveal_strlit("lsps0.listprotocols");
    reveal_strlit("lsps0.unknown");
    lemma_no_params_are_compact();
    if let LSPSMessage::Response(
        LSPSResponse::LSPS0(_, LSPS0Response::ListProtocols(response)),
    ) = message {
        lemma_protocols_are_compact(response.protocols@);
    }
}

/// How a message is read, by what it holds. With an id and a method it is a request, if the method is
/// the known one. With an id alone it is the response to the request of that id: an error where there is
/// one, or else a result. With a method alone it is a notification.
pub proof fn lemma_how_messages_are_read(
    envelope: EnvelopeView,
    methods: Map<Seq<char>, Seq<char>>,
)
    ensures
        ({
            let outcome = frame_of(envelope, methods);
            let id = envelope.id->0;
            let known = "lsps0.listprotocols"@;
            let response = envelope.id is Some && envelope.method is None;
            let answers = response && methods.contains_key(id) && methods[id] == known;
            &&& envelope.id is None && envelope.method is Some ==> outcome == Ok::<
                FrameView,
                DecodeError,
            >(FrameView::Notification)
            &&& envelope.id is None && envelope.method is None ==> outcome == Err::<
                FrameView,
                DecodeError,
            >(DecodeError::InvalidObject)
            &&& envelope.id is Some && envelope.method == Some(known) ==> {
                &&& outcome is Ok
                &&& outcome->Ok_0 is Request
                &&& outcome->Ok_0->Request_request_id == id
                &&& envelope.params is Some ==> outcome->Ok_0->params == envelope.params->0
                &&& envelope.params is None ==> outcome->Ok_0->params == "null"@
            }
            &&& envelope.id is Some && envelope.method is Some && envelope.method->0 != known
                ==> outcome == Err::<FrameView, DecodeError>(DecodeError::UnknownMethod)
            &&& response && !methods.contains_key(id) ==> outcome == Err::<FrameView, DecodeError>(
                DecodeError::UnknownRequestId,
            )
            &&& response && methods.contains_key(id) && methods[id] != known ==> outcome == Err::<
                FrameView,
                DecodeError,
            >(DecodeError::UnknownMethod)
            &&& answers && envelope.error is Some ==> {
                &&& outcome is Ok
                &&& outcome->Ok_0 is ErrorResponse
                &&& outcome->Ok_0->ErrorResponse_request_id == id
                &&& outcome->Ok_0->error == envelope.error->0
            }
            &&& answers && envelope.error is None && envelope.result is Some ==> {
                &&& outcome is Ok
                &&& outcome->Ok_0 is Response
                &&& outcome->Ok_0->Response_request_id == id
                &&& outcome->Ok_0->result == envelope.result->0
            }
            &&& answers && envelope.error is None && envelope.result is None ==> outcome == Err::<
                FrameView,
                DecodeError,
            >(DecodeError::InvalidObject)
        }),
{
}

/// A message that is written and read says what was written.
pub proof fn lemma_messages_are_written_and_read(
    message: LSPSMessage,
    written: String,
    text: &str,
    methods: KeyedMap<String, String>,
    read: Result<LSPSMessage, DecodeError>,
)
    requires
        call_ensures(LSPSMessage::to_json, (&message, ), written),
        text@ == written@,
        call_ensures(LSPSMessage::from_str_with_id_map, (text, &methods), read),
        message.is_expected(methods@),
    ensures
        read is Ok,
        match message {
            LSPSMessage::Request(LSPSRequest::LSPS0(id, _)) => {
                read->Ok_0 matches LSPSMessage::Request(LSPSRequest::LSPS0(same, _)) && same.0@
                    == id.0@
            },
            LSPSMessage::Response(
                LSPSResponse::LSPS0(id, LSPS0Response::ListProtocols(listed)),
            ) => {
                read->Ok_0 matches LSPSMessage::Response(
                    LSPSResponse::LSPS0(same, LSPS0Response::ListProtocols(told)),
                ) && same.0@ == id.0@ && told.protocols@ == listed.protocols@
            },
            LSPSMessage::Response(
                LSPSResponse::LSPS0(id, LSPS0Response::ListProtocolsError(error)),
            ) => {
                read->Ok_0 matches LSPSMessage::Response(
                    LSPSResponse::LSPS0(same, LSPS0Response::ListProtocolsError(told)),
                ) && same.0@ == id.0@ && told.code == error.code && told.message@ == error.message@
            },
            LSPSMessage::Response(LSPSResponse::InvalidRequest(_)) => false,
            LSPSMessage::Notification(_) => read->Ok_0 is Notification,
        },
{
    let fields = message.fields();
    assert(text@ == message.json_text());
}

} // verus!
