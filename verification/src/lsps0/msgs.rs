//! Data types of LSPS messages in the JSON-RPC 2.0 format.

use vstd::prelude::*;
use vstd::string::StringExecFns;

use crate::collections::{KeyedMap, MapKey};
use crate::json::{
    are_closed, count_members, find_last_member, in_brackets, in_quotes, is_closed, is_compact,
    is_word, json_array, json_i32, json_optional_string, json_quoted, json_string, json_u16_list,
    last_member, lemma_compact_is_deeper, lemma_member_count, max_depth, member_count,
    member_views, needs_no_escape, object_members, object_text, quote, read_array,
    read_i32, read_object, read_optional_string, read_string, read_u16_list, text_views,
    write_object, Names,
};
use crate::lsps0::envelope::{
    are_readable, field_members, is_readable_value, Dialect, Envelope, EnvelopeView, Field,
};
use crate::lsps0::ser::{
    lemma_method_names, lsps0_method, lsps1_method, lsps2_method, LSPSMethod,
};
use crate::lsps1::msgs::{
    CreateOrderResponse, GetInfoResponse as LSPS1GetInfoResponse, LSPS1Message, LSPS1Request,
    LSPS1Response,
};
use crate::lsps2::msgs::{
    BuyResponse, GetInfoResponse, LSPS2Message, LSPS2Request, LSPS2Response,
};
use crate::text::{i32_to_string, numbers_text, signed_digits, u64_to_string};

verus! {

/// A JSON-RPC request's `id`.
#[derive(Debug, PartialEq, Eq, Hash)]
pub struct RequestId(pub String);

impl Clone for RequestId {
    fn clone(&self) -> (copy: Self)
        ensures
            copy == *self,
    {
        RequestId(self.0.clone())
    }
}

impl MapKey for RequestId {
    type KeyView = Seq<char>;

    open spec fn key_view(&self) -> Seq<char> {
        self.0@
    }

    fn same_key(&self, other: &Self) -> (same: bool) {
        self.0 == other.0
    }
}

/// An error returned in response to a JSON-RPC request.
#[derive(Clone, Debug, PartialEq, Eq)]
pub struct ResponseError {
    /// A number that indicates the error type that occurred.
    pub code: i32,
    /// A string providing a short description of the error.
    pub message: String,
    /// A primitive or structured value that contains additional information about the error.
    pub data: Option<String>,
}

/// The contents of a [`ResponseError`].
#[verifier::ext_equal]
pub struct ResponseErrorView {
    pub code: i32,
    pub message: Seq<char>,
    pub data: Option<Seq<char>>,
}

impl View for ResponseError {
    type V = ResponseErrorView;

    open spec fn view(&self) -> ResponseErrorView {
        ResponseErrorView {
            code: self.code,
            message: self.message@,
            data: match self.data {
                Some(data) => Some(data@),
                None => None,
            },
        }
    }
}

/// The Lightning message type id for LSPS messages.
pub const LSPS_MESSAGE_TYPE_ID: u16 = 37913;

/// The code of the error that tells a peer that its message could not be read.
pub const JSONRPC_INVALID_MESSAGE_ERROR_CODE: i32 = -32700;

pub const LSPS0_LISTPROTOCOLS_METHOD_NAME: &'static str = "lsps0.list_protocols";

/// Lightning message type used by LSPS protocols.
#[derive(Clone, Debug, PartialEq, Eq)]
pub struct RawLSPSMessage {
    /// The raw string payload that holds the actual message.
    pub payload: String,
}

impl RawLSPSMessage {
    /// Returns the Lightning message type id.
    pub fn type_id(&self) -> (id: u16)
        ensures
            id == LSPS_MESSAGE_TYPE_ID,
    {
        LSPS_MESSAGE_TYPE_ID
    }
}

/// A `list_protocols` request.
#[derive(Clone, Debug, PartialEq, Eq)]
pub struct ListProtocolsRequest {}

/// A response to a `list_protocols` request.
#[derive(Clone, Debug, PartialEq, Eq)]
pub struct ListProtocolsResponse {
    /// A list of supported protocols.
    pub protocols: Vec<u16>,
}

/// An LSPS0 protocol request.
#[derive(Clone, Debug, PartialEq, Eq)]
pub enum LSPS0Request {
    /// A request calling `list_protocols`.
    ListProtocols(ListProtocolsRequest),
}

impl LSPS0Request {
    /// Returns the method name associated with the given request variant.
    pub fn method(&self) -> (name: &'static str)
        ensures
            name@ == "lsps0.list_protocols"@,
    {
        match self {
            LSPS0Request::ListProtocols(_) => LSPS0_LISTPROTOCOLS_METHOD_NAME,
        }
    }
}

/// An LSPS0 protocol request.
#[derive(Clone, Debug, PartialEq, Eq)]
pub enum LSPS0Response {
    /// A response to a `list_protocols` request.
    ListProtocols(ListProtocolsResponse),
    /// An error response to a `list_protocols` request.
    ListProtocolsError(ResponseError),
}

/// An LSPS0 protocol message.
#[derive(Clone, Debug, PartialEq, Eq)]
pub enum LSPS0Message {
    /// A request variant.
    Request(RequestId, LSPS0Request),
    /// A response variant.
    Response(RequestId, LSPS0Response),
}

/// An LSPS message allowing to be sent over the wire.
#[derive(Clone, Debug, PartialEq, Eq)]
pub enum LSPSMessage {
    /// An invalid variant.
    Invalid,
    /// An LSPS0 message.
    LSPS0(LSPS0Message),
    /// An LSPS1 message.
    LSPS1(LSPS1Message),
    /// An LSPS2 message.
    LSPS2(LSPS2Message),
}

impl TryFrom<LSPSMessage> for LSPS0Message {
    type Error = ();

    fn try_from(message: LSPSMessage) -> (result: Result<Self, ()>) {
        match message {
            LSPSMessage::LSPS0(message) => Ok(message),
            _ => Err(()),
        }
    }
}

impl vstd::std_specs::convert::TryFromSpecImpl<LSPSMessage> for LSPS0Message {
    open spec fn obeys_try_from_spec() -> bool {
        true
    }

    open spec fn try_from_spec(message: LSPSMessage) -> Result<Self, ()> {
        match message {
            LSPSMessage::LSPS0(message) => Ok(message),
            _ => Err(()),
        }
    }
}

impl From<LSPS0Message> for LSPSMessage {
    fn from(message: LSPS0Message) -> (result: Self) {
        LSPSMessage::LSPS0(message)
    }
}

impl vstd::std_specs::convert::FromSpecImpl<LSPS0Message> for LSPSMessage {
    open spec fn obeys_from_spec() -> bool {
        true
    }

    open spec fn from_spec(message: LSPS0Message) -> Self {
        LSPSMessage::LSPS0(message)
    }
}

impl TryFrom<LSPSMessage> for LSPS1Message {
    type Error = ();

    fn try_from(message: LSPSMessage) -> (result: Result<Self, ()>) {
        match message {
            LSPSMessage::LSPS1(message) => Ok(message),
            _ => Err(()),
        }
    }
}

impl vstd::std_specs::convert::TryFromSpecImpl<LSPSMessage> for LSPS1Message {
    open spec fn obeys_try_from_spec() -> bool {
        true
    }

    open spec fn try_from_spec(message: LSPSMessage) -> Result<Self, ()> {
        match message {
            LSPSMessage::LSPS1(message) => Ok(message),
            _ => Err(()),
        }
    }
}

impl From<LSPS1Message> for LSPSMessage {
    fn from(message: LSPS1Message) -> (result: Self) {
        LSPSMessage::LSPS1(message)
    }
}

impl vstd::std_specs::convert::FromSpecImpl<LSPS1Message> for LSPSMessage {
    open spec fn obeys_from_spec() -> bool {
        true
    }

    open spec fn from_spec(message: LSPS1Message) -> Self {
        LSPSMessage::LSPS1(message)
    }
}

impl TryFrom<LSPSMessage> for LSPS2Message {
    type Error = ();

    fn try_from(message: LSPSMessage) -> (result: Result<Self, ()>) {
        match message {
            LSPSMessage::LSPS2(message) => Ok(message),
            _ => Err(()),
        }
    }
}

impl vstd::std_specs::convert::TryFromSpecImpl<LSPSMessage> for LSPS2Message {
    open spec fn obeys_try_from_spec() -> bool {
        true
    }

    open spec fn try_from_spec(message: LSPSMessage) -> Result<Self, ()> {
        match message {
            LSPSMessage::LSPS2(message) => Ok(message),
            _ => Err(()),
        }
    }
}

impl From<LSPS2Message> for LSPSMessage {
    fn from(message: LSPS2Message) -> (result: Self) {
        LSPSMessage::LSPS2(message)
    }
}

impl vstd::std_specs::convert::FromSpecImpl<LSPS2Message> for LSPSMessage {
    open spec fn obeys_from_spec() -> bool {
        true
    }

    open spec fn from_spec(message: LSPS2Message) -> Self {
        LSPSMessage::LSPS2(message)
    }
}

/// Why a text is no LSPS message.
#[derive(Clone, Copy, Debug, PartialEq, Eq)]
pub enum DecodeError {
    /// The text is no JSON object, or a member of it is not as it needs to be.
    Json,
    /// A notification names a method that is not known.
    UnknownNotification,
    /// There is neither an id nor a method.
    NoIdAndNoMethod,
    /// A request names a method that is not known.
    UnknownMethod,
    /// A response belongs to no request.
    UnknownRequestId,
    /// A response belongs to a request whose method is not known, or has no such response.
    UnknownRequestMethod,
    /// A response holds neither a result nor an error.
    NoResultAndNoError,
}

/// An LSPS message whose parameters or result are a JSON text that is still to be read.
#[derive(Debug, PartialEq, Eq)]
pub enum Frame {
    /// A request with its parameters.
    Request { request_id: RequestId, method: LSPSMethod, params: String },
    /// A response with its result.
    Response { request_id: RequestId, method: LSPSMethod, result: String },
    /// A response with its error.
    ErrorResponse { request_id: RequestId, method: LSPSMethod, error: ResponseError },
}

/// The contents of a [`Frame`].
#[verifier::ext_equal]
pub enum FrameView {
    Request { request_id: Seq<char>, method: LSPSMethod, params: Seq<char> },
    Response { request_id: Seq<char>, method: LSPSMethod, result: Seq<char> },
    ErrorResponse { request_id: Seq<char>, method: LSPSMethod, error: ResponseErrorView },
}

impl View for Frame {
    type V = FrameView;

    open spec fn view(&self) -> FrameView {
        match self {
            Frame::Request { request_id, method, params } => FrameView::Request {
                request_id: request_id.0@,
                method: *method,
                params: params@,
            },
            Frame::Response { request_id, method, result } => FrameView::Response {
                request_id: request_id.0@,
                method: *method,
                result: result@,
            },
            Frame::ErrorResponse { request_id, method, error } => FrameView::ErrorResponse {
                request_id: request_id.0@,
                method: *method,
                error: error@,
            },
        }
    }
}

/// Whether a request of a method may be answered with an error.
pub open spec fn may_fail(method: LSPSMethod) -> bool {
    method != LSPSMethod::LSPS1GetInfo
}

/// The message that an envelope makes, given the methods of the requests that were sent.
///
/// A response ends its request.
pub open spec fn frame_of(
    envelope: EnvelopeView,
    methods: Map<Seq<char>, Seq<char>>,
) -> (Map<Seq<char>, Seq<char>>, Result<FrameView, DecodeError>) {
    match (envelope.id, envelope.method) {
        (None, Some(_)) => (methods, Err(DecodeError::UnknownNotification)),
        (None, None) => (methods, Err(DecodeError::NoIdAndNoMethod)),
        (Some(request_id), Some(name)) => match LSPSMethod::named(name) {
            Some(method) => (
                methods,
                Ok(
                    FrameView::Request {
                        request_id,
                        method,
                        params: match envelope.params {
                            Some(params) => params,
                            None => "{}"@,
                        },
                    },
                ),
            ),
            None => (methods, Err(DecodeError::UnknownMethod)),
        },
        (Some(request_id), None) => if methods.contains_key(request_id) {
            (
                methods.remove(request_id),
                match LSPSMethod::named(methods[request_id]) {
                    Some(method) => match (envelope.error, envelope.result) {
                        (Some(error), _) => if may_fail(method) {
                            Ok(FrameView::ErrorResponse { request_id, method, error })
                        } else {
                            Err(DecodeError::UnknownRequestMethod)
                        },
                        (None, Some(result)) => Ok(
                            FrameView::Response { request_id, method, result },
                        ),
                        (None, None) => Err(DecodeError::NoResultAndNoError),
                    },
                    None => Err(DecodeError::UnknownRequestMethod),
                },
            )
        } else {
            (methods, Err(DecodeError::UnknownRequestId))
        },
    }
}

/// Makes the message that an envelope holds.
fn into_frame(
    envelope: Envelope,
    request_id_to_method_map: &mut KeyedMap<String, String>,
) -> (frame: Result<Frame, DecodeError>)
    ensures
        ({
            let (methods, outcome) = frame_of(envelope@, old(request_id_to_method_map)@);
            &&& final(request_id_to_method_map)@ == methods
            &&& match (frame, outcome) {
                (Ok(frame), Ok(view)) => frame@ == view,
                (Err(e), Err(expected)) => e == expected,
                _ => false,
            }
        }),
{
    let id = match envelope.id {
        Some(id) => id,
        None => {
            return if envelope.method.is_some() {
                Err(DecodeError::UnknownNotification)
            } else {
                Err(DecodeError::NoIdAndNoMethod)
            };
        },
    };
    match envelope.method {
        Some(name) => match LSPSMethod::from_str(name.as_str()) {
            Ok(method) => {
                let params = match envelope.params {
                    Some(params) => params,
                    None => "{}".to_owned(),
                };
                Ok(Frame::Request { request_id: RequestId(id), method, params })
            },
            Err(_) => Err(DecodeError::UnknownMethod),
        },
        None => match request_id_to_method_map.remove(&id) {
            Some(name) => match LSPSMethod::from_str(name.as_str()) {
                Ok(method) => match envelope.error {
                    Some(error) => match method {
                        LSPSMethod::LSPS1GetInfo => Err(DecodeError::UnknownRequestMethod),
                        _ => Ok(Frame::ErrorResponse { request_id: RequestId(id), method, error }),
                    },
                    None => match envelope.result {
                        Some(result) => Ok(
                            Frame::Response { request_id: RequestId(id), method, result },
                        ),
                        None => Err(DecodeError::NoResultAndNoError),
                    },
                },
                Err(_) => Err(DecodeError::UnknownRequestMethod),
            },
            None => Err(DecodeError::UnknownRequestId),
        },
    }
}

impl LSPSMessage {
    /// Whether the JSON text of the parameters or the result of the message is to be given.
    pub open spec fn takes_payload(self) -> bool {
        match self {
            LSPSMessage::LSPS0(_) => false,
            LSPSMessage::LSPS1(LSPS1Message::Request(_, _)) => true,
            LSPSMessage::LSPS2(LSPS2Message::Request(_, _)) => true,
            _ => self.response_id_and_method() is Some && self.error() is None,
        }
    }

    /// The members that the message is written with, given the JSON text of its parameters or its
    /// result.
    pub open spec fn fields(self, payload: Seq<char>) -> Seq<Field> {
        match self {
            LSPSMessage::LSPS0(LSPS0Message::Request(id, request)) => seq![
                Field::Version,
                Field::Method(lsps0_method(request).name()),
                Field::Id(id.0@),
                Field::Params("{}"@),
            ],
            LSPSMessage::LSPS0(LSPS0Message::Response(id, response)) => seq![
                Field::Version,
                Field::Id(id.0@),
                match response {
                    LSPS0Response::ListProtocols(response) => Field::Success(
                        protocols_json(response.protocols@),
                    ),
                    LSPS0Response::ListProtocolsError(error) => Field::Failure(error@),
                },
            ],
            LSPSMessage::LSPS1(LSPS1Message::Request(id, request)) => seq![
                Field::Version,
                Field::Id(id.0@),
                Field::Method(lsps1_method(request).name()),
                Field::Params(payload),
            ],
            LSPSMessage::LSPS1(LSPS1Message::Response(id, response)) => seq![
                Field::Version,
                Field::Id(id.0@),
                match response {
                    LSPS1Response::GetInfo(_) => Field::Success(payload),
                    LSPS1Response::CreateOrder(_) => Field::Success(payload),
                    LSPS1Response::CreateOrderError(error) => Field::Failure(error@),
                    LSPS1Response::GetOrder(_) => Field::Success(payload),
                    LSPS1Response::GetOrderError(error) => Field::Failure(error@),
                },
            ],
            LSPSMessage::LSPS2(LSPS2Message::Request(id, request)) => seq![
                Field::Version,
                Field::Id(id.0@),
                Field::Method(lsps2_method(request).name()),
                Field::Params(payload),
            ],
            LSPSMessage::LSPS2(LSPS2Message::Response(id, response)) => seq![
                Field::Version,
                Field::Id(id.0@),
                match response {
                    LSPS2Response::GetInfo(_) => Field::Success(payload),
                    LSPS2Response::GetInfoError(error) => Field::Failure(error@),
                    LSPS2Response::Buy(_) => Field::Success(payload),
                    LSPS2Response::BuyError(error) => Field::Failure(error@),
                },
            ],
            LSPSMessage::Invalid => seq![
                Field::Version,
                Field::NoId,
                Field::Failure(
                    ResponseErrorView {
                        code: JSONRPC_INVALID_MESSAGE_ERROR_CODE,
                        message: "parse error"@,
                        data: None,
                    },
                ),
            ],
        }
    }

    /// The JSON text of the message, given the JSON text of its parameters or its result.
    pub open spec fn json_text(self, payload: Seq<char>) -> Seq<char> {
        object_text(field_members(self.fields(payload)))
    }

    /// Writes the message as JSON, given the JSON text of its parameters or its result.
    ///
    /// LSPS0 messages, errors and that a message could not be read are written without looking at
    /// the given text.
    pub fn to_json(&self, payload: &str) -> (json: String)
        ensures
            json@ == self.json_text(payload@),
    {
        let mut members: Vec<(String, String)> = Vec::new();
        members.push(("jsonrpc".to_owned(), "\"2.0\"".to_owned()));
        match self {
            LSPSMessage::LSPS0(LSPS0Message::Request(request_id, request)) => {
                members.push(("method".to_owned(), quoted_name(request.method())));
                members.push(("id".to_owned(), quote(request_id.0.as_str())));
                members.push(("params".to_owned(), "{}".to_owned()));
            },
            LSPSMessage::LSPS0(LSPS0Message::Response(request_id, response)) => {
                members.push(("id".to_owned(), quote(request_id.0.as_str())));
                match response {
                    LSPS0Response::ListProtocols(response) => {
                        members.push(("result".to_owned(), response.to_json()));
                    },
                    LSPS0Response::ListProtocolsError(error) => {
                        members.push(("error".to_owned(), error.to_json()));
                    },
                }
            },
            LSPSMessage::LSPS1(LSPS1Message::Request(request_id, request)) => {
                members.push(("id".to_owned(), quote(request_id.0.as_str())));
                members.push(("method".to_owned(), quoted_name(request.method())));
                members.push(("params".to_owned(), payload.to_owned()));
            },
            LSPSMessage::LSPS1(LSPS1Message::Response(request_id, response)) => {
                members.push(("id".to_owned(), quote(request_id.0.as_str())));
                match response {
                    LSPS1Response::GetInfo(_) => {
                        members.push(("result".to_owned(), payload.to_owned()));
                    },
                    LSPS1Response::CreateOrder(_) => {
                        members.push(("result".to_owned(), payload.to_owned()));
                    },
                    LSPS1Response::CreateOrderError(error) => {
                        members.push(("error".to_owned(), error.to_json()));
                    },
                    LSPS1Response::GetOrder(_) => {
                        members.push(("result".to_owned(), payload.to_owned()));
                    },
                    LSPS1Response::GetOrderError(error) => {
                        members.push(("error".to_owned(), error.to_json()));
                    },
                }
            },
            LSPSMessage::LSPS2(LSPS2Message::Request(request_id, request)) => {
                members.push(("id".to_owned(), quote(request_id.0.as_str())));
                members.push(("method".to_owned(), quoted_name(request.method())));
                members.push(("params".to_owned(), payload.to_owned()));
            },
            LSPSMessage::LSPS2(LSPS2Message::Response(request_id, response)) => {
                members.push(("id".to_owned(), quote(request_id.0.as_str())));
                match response {
                    LSPS2Response::GetInfo(_) => {
                        members.push(("result".to_owned(), payload.to_owned()));
                    },
                    LSPS2Response::GetInfoError(error) => {
                        members.push(("error".to_owned(), error.to_json()));
                    },
                    LSPS2Response::Buy(_) => {
                        members.push(("result".to_owned(), payload.to_owned()));
                    },
                    LSPS2Response::BuyError(error) => {
                        members.push(("error".to_owned(), error.to_json()));
                    },
                }
            },
            LSPSMessage::Invalid => {
                members.push(("id".to_owned(), "null".to_owned()));
                let error = ResponseError {
                    code: JSONRPC_INVALID_MESSAGE_ERROR_CODE,
                    message: "parse error".to_owned(),
                    data: None,
                };
                members.push(("error".to_owned(), error.to_json()));
            },
        }
        proof {
            reveal_strlit("\"2.0\"");
            reveal_strlit("2.0");
            assert("\"2.0\""@ =~= in_quotes("2.0"@));
            assert(member_views(members@) =~= field_members(self.fields(payload@)));
        }
        write_object(&members)
    }
}

/// Writes the name of a method as a JSON string.
fn quoted_name(name: &str) -> (quoted: String)
    ensures
        quoted@ == in_quotes(name@),
{
    let mut quoted = String::new();
    quoted.push('"');
    quoted.append(name);
    quoted.push('"');
    assert(quoted@ =~= in_quotes(name@));
    quoted
}

impl LSPSMessage {
    /// Reads an LSPS message from a raw JSON string, up to its parameters or its result.
    ///
    /// The given `request_id_to_method` associates request ids with method names, as response objects
    /// don't carry the latter.
    ///
    /// What [`LSPSMessage::to_json`] has written is read back.
    pub fn from_str_with_id_map(
        json_str: &str,
        request_id_to_method_map: &mut KeyedMap<String, String>,
    ) -> (frame: Result<Frame, DecodeError>)
        ensures
            match EnvelopeView::of_text(Dialect::Lenient, json_str@) {
                Some(envelope) => {
                    let (methods, outcome) = frame_of(envelope, old(request_id_to_method_map)@);
                    &&& final(request_id_to_method_map)@ == methods
                    &&& match (frame, outcome) {
                        (Ok(frame), Ok(view)) => frame@ == view,
                        (Err(e), Err(expected)) => e == expected,
                        _ => false,
                    }
                },
                None => {
                    &&& final(request_id_to_method_map)@ == old(request_id_to_method_map)@
                    &&& frame == Err::<Frame, DecodeError>(DecodeError::Json)
                },
            },
            forall|message: LSPSMessage, payload: Seq<char>|
                #![trigger message.fields(payload)]
                json_str@ == message.json_text(payload) && message !is Invalid && (
                message.takes_payload() ==> is_readable_value(payload)) && message.is_expected(
                    old(request_id_to_method_map)@,
                ) ==> {
                    &&& frame is Ok
                    &&& frame->Ok_0@ == message.frame(payload)
                    &&& final(request_id_to_method_map)@ == message.methods_once_read(
                        old(request_id_to_method_map)@,
                    )
                },
    {
        proof {
            assert forall|message: LSPSMessage, payload: Seq<char>|
                #![trigger message.fields(payload)]
                json_str@ == message.json_text(payload) && message !is Invalid && (
                message.takes_payload() ==> is_readable_value(payload)) && message.is_expected(
                    request_id_to_method_map@,
                ) implies are_readable(message.fields(payload)) && frame_of(
                EnvelopeView::of_fields(message.fields(payload)),
                request_id_to_method_map@,
            ) == (
                message.methods_once_read(request_id_to_method_map@),
                Ok::<FrameView, DecodeError>(message.frame(payload)),
            ) by {
                lemma_message_round_trip(message, payload, request_id_to_method_map@);
            }
        }
        match Envelope::from_str(Dialect::Lenient, json_str) {
            Some(envelope) => into_frame(envelope, request_id_to_method_map),
            None => Err(DecodeError::Json),
        }
    }

    /// Returns the request id and the method.
    pub fn get_request_id_and_method(&self) -> (pair: Option<(String, String)>)
        ensures
            match (pair, self.request_id_and_method()) {
                (Some((id, name)), Some((request_id, method))) => id@ == request_id && name@
                    == method.name(),
                (None, None) => true,
                _ => false,
            },
    {
        match self {
            LSPSMessage::LSPS0(LSPS0Message::Request(request_id, request)) => Some(
                (request_id.0.clone(), request.method().to_owned()),
            ),
            LSPSMessage::LSPS1(LSPS1Message::Request(request_id, request)) => Some(
                (request_id.0.clone(), request.method().to_owned()),
            ),
            LSPSMessage::LSPS2(LSPS2Message::Request(request_id, request)) => Some(
                (request_id.0.clone(), request.method().to_owned()),
            ),
            _ => None,
        }
    }

    /// The id and the method of a request.
    pub open spec fn request_id_and_method(self) -> Option<(Seq<char>, LSPSMethod)> {
        match self {
            LSPSMessage::LSPS0(LSPS0Message::Request(id, request)) => Some(
                (id.0@, lsps0_method(request)),
            ),
            LSPSMessage::LSPS1(LSPS1Message::Request(id, request)) => Some(
                (id.0@, lsps1_method(request)),
            ),
            LSPSMessage::LSPS2(LSPS2Message::Request(id, request)) => Some(
                (id.0@, lsps2_method(request)),
            ),
            _ => None,
        }
    }

    /// The id and the method of the request that a response belongs to, and whether the response is an
    /// error.
    pub open spec fn response_id_and_method(self) -> Option<(Seq<char>, LSPSMethod, bool)> {
        match self {
            LSPSMessage::LSPS0(LSPS0Message::Response(id, response)) => Some(
                (
                    id.0@,
                    LSPSMethod::LSPS0ListProtocols,
                    response is ListProtocolsError,
                ),
            ),
            LSPSMessage::LSPS1(LSPS1Message::Response(id, response)) => Some(
                (
                    id.0@,
                    match response {
                        LSPS1Response::GetInfo(_) => LSPSMethod::LSPS1GetInfo,
                        LSPS1Response::CreateOrder(_) => LSPSMethod::LSPS1CreateOrder,
                        LSPS1Response::CreateOrderError(_) => LSPSMethod::LSPS1CreateOrder,
                        LSPS1Response::GetOrder(_) => LSPSMethod::LSPS1GetOrder,
                        LSPS1Response::GetOrderError(_) => LSPSMethod::LSPS1GetOrder,
                    },
                    response is CreateOrderError || response is GetOrderError,
                ),
            ),
            LSPSMessage::LSPS2(LSPS2Message::Response(id, response)) => Some(
                (
                    id.0@,
                    match response {
                        LSPS2Response::GetInfo(_) => LSPSMethod::LSPS2GetInfo,
                        LSPS2Response::GetInfoError(_) => LSPSMethod::LSPS2GetInfo,
                        LSPS2Response::Buy(_) => LSPSMethod::LSPS2Buy,
                        LSPS2Response::BuyError(_) => LSPSMethod::LSPS2Buy,
                    },
                    response is GetInfoError || response is BuyError,
                ),
            ),
            _ => None,
        }
    }
}

/// The names of all methods are written without escapes.
pub proof fn lemma_method_names_need_no_escape(method: LSPSMethod)
    ensures
        needs_no_escape(method.name()),
{
    reveal_strlit("lsps0.list_protocols");
    reveal_strlit("lsps1.get_info");
    reveal_strlit("lsps1.create_order");
    reveal_strlit("lsps1.get_order");
    reveal_strlit("lsps2.get_info");
    reveal_strlit("lsps2.buy");
}

/// The envelope of three members.
proof fn lemma_three_fields(a: Field, b: Field, c: Field)
    ensures
        EnvelopeView::of_fields(seq![a, b, c]) == EnvelopeView::empty().with_field(a).with_field(
            b,
        ).with_field(c),
{
    reveal_with_fuel(EnvelopeView::of_fields, 4);
    assert(seq![a, b, c].drop_last() =~= seq![a, b]);
    assert(seq![a, b].drop_last() =~= seq![a]);
    assert(seq![a].drop_last() =~= Seq::<Field>::empty());
}

/// The envelope of four members.
proof fn lemma_four_fields(a: Field, b: Field, c: Field, d: Field)
    ensures
        EnvelopeView::of_fields(seq![a, b, c, d]) == EnvelopeView::empty().with_field(a).with_field(
            b,
        ).with_field(c).with_field(d),
{
    lemma_three_fields(a, b, c);
    assert(seq![a, b, c, d].drop_last() =~= seq![a, b, c]);
}

impl LSPSMessage {
    /// The frame that the message is read back as, given the JSON text of its parameters or its
    /// result.
    pub open spec fn frame(self, payload: Seq<char>) -> FrameView {
        match (self.request_id_and_method(), self.response_id_and_method()->0, self.error()) {
            (Some((request_id, method)), _, _) => FrameView::Request {
                request_id,
                method,
                params: if self.takes_payload() {
                    payload
                } else {
                    "{}"@
                },
            },
            (None, (request_id, method, _), Some(error)) => FrameView::ErrorResponse {
                request_id,
                method,
                error,
            },
            (None, (request_id, method, _), None) => FrameView::Response {
                request_id,
                method,
                result: match self.payload() {
                    Payload::Protocols(response) => protocols_json(response.protocols@),
                    _ => payload,
                },
            },
        }
    }

    /// Whether the message answers a request of ours, if it is an answer.
    pub open spec fn is_expected(self, methods: Map<Seq<char>, Seq<char>>) -> bool {
        match self.response_id_and_method() {
            Some((request_id, method, _)) => methods.contains_key(request_id)
                && methods[request_id] == method.name(),
            None => true,
        }
    }

    /// The methods of our requests once the message was read: a response ends its request.
    pub open spec fn methods_once_read(self, methods: Map<Seq<char>, Seq<char>>) -> Map<
        Seq<char>,
        Seq<char>,
    > {
        match self.response_id_and_method() {
            Some((request_id, _, _)) => methods.remove(request_id),
            None => methods,
        }
    }
}

/// A message that was written is read back: a request with its id, its method and its parameters; and
/// a response to a request of ours with its id, with the method of the request, and with its result or
/// its error, and it ends the request.
pub proof fn lemma_message_round_trip(
    message: LSPSMessage,
    payload: Seq<char>,
    methods: Map<Seq<char>, Seq<char>>,
)
    requires
        message !is Invalid,
        message.takes_payload() ==> is_readable_value(payload),
        message.is_expected(methods),
    ensures
        are_readable(message.fields(payload)),
        frame_of(EnvelopeView::of_fields(message.fields(payload)), methods) == (
            message.methods_once_read(methods),
            Ok::<FrameView, DecodeError>(message.frame(payload)),
        ),
{
    let fields = message.fields(payload);
    match message.request_id_and_method() {
        Some((_, method)) => {
            lemma_method_names_need_no_escape(method);
            lemma_method_names(method, method.name());
            lemma_no_params_are_compact();
            lemma_four_fields(fields[0], fields[1], fields[2], fields[3]);
            assert(fields =~= seq![fields[0], fields[1], fields[2], fields[3]]);
        },
        None => {
            let (_, method, _) = message.response_id_and_method()->0;
            lemma_method_names(method, method.name());
            if let Payload::Protocols(response) = message.payload() {
                lemma_protocols_are_compact(response.protocols@);
            }
            lemma_three_fields(fields[0], fields[1], fields[2]);
            assert(fields =~= seq![fields[0], fields[1], fields[2]]);
        },
    }
}

/// An empty object is written without white space.
pub proof fn lemma_no_params_are_compact()
    ensures
        "{}"@ == object_text(Seq::empty()),
        is_readable_value("{}"@),
{
    reveal_strlit("{}");
    let none = Seq::<(Seq<char>, Seq<char>)>::empty();
    assert("{}"@ =~= object_text(none));
    assert(is_compact("{}"@, 1));
    lemma_compact_is_deeper("{}"@, 1, (max_depth() - 1) as nat);
}

/// A list of protocols is written without white space.
pub proof fn lemma_protocols_are_compact(protocols: Seq<u16>)
    ensures
        is_readable_value(protocols_json(protocols)),
{
    reveal_strlit("protocols");
    let members = seq![("protocols"@, in_brackets(numbers_text(protocols)))];
    assert(protocols_json(protocols) == object_text(members));
    assert(is_compact(members[0].1, 0));
    assert(is_compact(protocols_json(protocols), 1));
    lemma_compact_is_deeper(protocols_json(protocols), 1, (max_depth() - 1) as nat);
}

/// What the parameters or the result of a [`Frame`] hold.
#[derive(Debug, PartialEq, Eq)]
pub enum Payload {
    /// Nothing that the message holds.
    Nothing,
    /// The parameters of an LSPS1 request.
    LSPS1Request(LSPS1Request),
    /// The parameters of an LSPS2 request.
    LSPS2Request(LSPS2Request),
    /// The result of a `list_protocols` request.
    Protocols(ListProtocolsResponse),
    /// The result of an LSPS1 `get_info` request.
    Options(LSPS1GetInfoResponse),
    /// The result of a `create_order` or `get_order` request.
    Order(CreateOrderResponse),
    /// The result of an LSPS2 `get_info` request.
    FeeMenu(GetInfoResponse),
    /// The result of a `buy` request.
    Purchase(BuyResponse),
}

impl Payload {
    /// Whether another payload holds the same.
    pub open spec fn says_the_same(self, other: Payload) -> bool {
        match (self, other) {
            (Payload::Protocols(mine), Payload::Protocols(theirs)) => mine.protocols@
                == theirs.protocols@,
            _ => self == other,
        }
    }
}

/// Whether [`Frame::read_payload`] knows what a frame holds: it does for `list_protocols`, and for
/// errors, which hold nothing else.
pub open spec fn is_known_payload(frame: FrameView) -> bool {
    match frame {
        FrameView::Request { method, .. } => method == LSPSMethod::LSPS0ListProtocols,
        FrameView::Response { method, .. } => method == LSPSMethod::LSPS0ListProtocols,
        FrameView::ErrorResponse { .. } => true,
    }
}

impl Frame {
    /// Reads what the parameters or the result of an LSPS0 message hold, and nothing from an error.
    /// The parameters and results of other protocols are left to be read.
    ///
    /// What [`LSPSMessage::to_json`] has written is read back.
    pub fn read_payload(&self) -> (payload: Result<Option<Payload>, DecodeError>)
        ensures
            !is_known_payload(self@) ==> payload == Ok::<Option<Payload>, DecodeError>(None),
            is_known_payload(self@) ==> match self@ {
                FrameView::Response { result, .. } => match (payload, protocols_of_json(result)) {
                    (Ok(Some(Payload::Protocols(response))), Some(protocols)) => response.protocols@
                        == protocols,
                    (Err(e), None) => e == DecodeError::Json,
                    _ => false,
                },
                _ => payload == Ok::<Option<Payload>, DecodeError>(Some(Payload::Nothing)),
            },
            forall|message: LSPSMessage, text: Seq<char>|
                message !is Invalid && !message.takes_payload() && self@ == #[trigger] message.frame(
                    text,
                ) ==> payload is Ok && payload->Ok_0 is Some && payload->Ok_0->0.says_the_same(
                    message.payload(),
                ),
    {
        match self {
            Frame::Request { method: LSPSMethod::LSPS0ListProtocols, .. } => Ok(
                Some(Payload::Nothing),
            ),
            Frame::Response { method: LSPSMethod::LSPS0ListProtocols, result, .. } => {
                match ListProtocolsResponse::from_json(result.as_str()) {
                    Some(response) => Ok(Some(Payload::Protocols(response))),
                    None => Err(DecodeError::Json),
                }
            },
            Frame::ErrorResponse { .. } => Ok(Some(Payload::Nothing)),
            _ => Ok(None),
        }
    }

    /// The message that the frame makes together with what its parameters or its result hold, if
    /// that belongs to its method.
    ///
    /// The parameters of `list_protocols` are not looked at.
    pub open spec fn with_payload(self, payload: Payload) -> Option<LSPSMessage> {
        match self {
            Frame::Request { request_id, method, .. } => match (method, payload) {
                (LSPSMethod::LSPS0ListProtocols, _) => Some(
                    LSPSMessage::LSPS0(
                        LSPS0Message::Request(
                            request_id,
                            LSPS0Request::ListProtocols(ListProtocolsRequest {  }),
                        ),
                    ),
                ),
                (_, Payload::LSPS1Request(request)) => if lsps1_method(request) == method {
                    Some(LSPSMessage::LSPS1(LSPS1Message::Request(request_id, request)))
                } else {
                    None
                },
                (_, Payload::LSPS2Request(request)) => if lsps2_method(request) == method {
                    Some(LSPSMessage::LSPS2(LSPS2Message::Request(request_id, request)))
                } else {
                    None
                },
                _ => None,
            },
            Frame::Response { request_id, method, .. } => match (method, payload) {
                (LSPSMethod::LSPS0ListProtocols, Payload::Protocols(response)) => Some(
                    LSPSMessage::LSPS0(
                        LSPS0Message::Response(request_id, LSPS0Response::ListProtocols(response)),
                    ),
                ),
                (LSPSMethod::LSPS1GetInfo, Payload::Options(response)) => Some(
                    LSPSMessage::LSPS1(
                        LSPS1Message::Response(request_id, LSPS1Response::GetInfo(response)),
                    ),
                ),
                (LSPSMethod::LSPS1CreateOrder, Payload::Order(response)) => Some(
                    LSPSMessage::LSPS1(
                        LSPS1Message::Response(request_id, LSPS1Response::CreateOrder(response)),
                    ),
                ),
                (LSPSMethod::LSPS1GetOrder, Payload::Order(response)) => Some(
                    LSPSMessage::LSPS1(
                        LSPS1Message::Response(request_id, LSPS1Response::GetOrder(response)),
                    ),
                ),
                (LSPSMethod::LSPS2GetInfo, Payload::FeeMenu(response)) => Some(
                    LSPSMessage::LSPS2(
                        LSPS2Message::Response(request_id, LSPS2Response::GetInfo(response)),
                    ),
                ),
                (LSPSMethod::LSPS2Buy, Payload::Purchase(response)) => Some(
                    LSPSMessage::LSPS2(
                        LSPS2Message::Response(request_id, LSPS2Response::Buy(response)),
                    ),
                ),
                _ => None,
            },
            Frame::ErrorResponse { request_id, method, error } => match method {
                LSPSMethod::LSPS0ListProtocols => Some(
                    LSPSMessage::LSPS0(
                        LSPS0Message::Response(
                            request_id,
                            LSPS0Response::ListProtocolsError(error),
                        ),
                    ),
                ),
                LSPSMethod::LSPS1CreateOrder => Some(
                    LSPSMessage::LSPS1(
                        LSPS1Message::Response(request_id, LSPS1Response::CreateOrderError(error)),
                    ),
                ),
                LSPSMethod::LSPS1GetOrder => Some(
                    LSPSMessage::LSPS1(
                        LSPS1Message::Response(request_id, LSPS1Response::GetOrderError(error)),
                    ),
                ),
                LSPSMethod::LSPS2GetInfo => Some(
                    LSPSMessage::LSPS2(
                        LSPS2Message::Response(request_id, LSPS2Response::GetInfoError(error)),
                    ),
                ),
                LSPSMethod::LSPS2Buy => Some(
                    LSPSMessage::LSPS2(
                        LSPS2Message::Response(request_id, LSPS2Response::BuyError(error)),
                    ),
                ),
                LSPSMethod::LSPS1GetInfo => None,
            },
        }
    }

    /// Makes the message, given what the parameters or the result hold.
    pub fn into_message(self, payload: Payload) -> (message: Option<LSPSMessage>)
        ensures
            message == self.with_payload(payload),
    {
        match self {
            Frame::Request { request_id, method, .. } => match method {
                LSPSMethod::LSPS0ListProtocols => Some(
                    LSPSMessage::LSPS0(
                        LSPS0Message::Request(
                            request_id,
                            LSPS0Request::ListProtocols(ListProtocolsRequest {  }),
                        ),
                    ),
                ),
                _ => into_request(request_id, method, payload),
            },
            Frame::Response { request_id, method, .. } => match (method, payload) {
                (LSPSMethod::LSPS0ListProtocols, Payload::Protocols(response)) => Some(
                    LSPSMessage::LSPS0(
                        LSPS0Message::Response(request_id, LSPS0Response::ListProtocols(response)),
                    ),
                ),
                (LSPSMethod::LSPS1GetInfo, Payload::Options(response)) => Some(
                    LSPSMessage::LSPS1(
                        LSPS1Message::Response(request_id, LSPS1Response::GetInfo(response)),
                    ),
                ),
                (LSPSMethod::LSPS1CreateOrder, Payload::Order(response)) => Some(
                    LSPSMessage::LSPS1(
                        LSPS1Message::Response(request_id, LSPS1Response::CreateOrder(response)),
                    ),
                ),
                (LSPSMethod::LSPS1GetOrder, Payload::Order(response)) => Some(
                    LSPSMessage::LSPS1(
                        LSPS1Message::Response(request_id, LSPS1Response::GetOrder(response)),
                    ),
                ),
                (LSPSMethod::LSPS2GetInfo, Payload::FeeMenu(response)) => Some(
                    LSPSMessage::LSPS2(
                        LSPS2Message::Response(request_id, LSPS2Response::GetInfo(response)),
                    ),
                ),
                (LSPSMethod::LSPS2Buy, Payload::Purchase(response)) => Some(
                    LSPSMessage::LSPS2(
                        LSPS2Message::Response(request_id, LSPS2Response::Buy(response)),
                    ),
                ),
                _ => None,
            },
            Frame::ErrorResponse { request_id, method, error } => match method {
                LSPSMethod::LSPS0ListProtocols => Some(
                    LSPSMessage::LSPS0(
                        LSPS0Message::Response(
                            request_id,
                            LSPS0Response::ListProtocolsError(error),
                        ),
                    ),
                ),
                LSPSMethod::LSPS1CreateOrder => Some(
                    LSPSMessage::LSPS1(
                        LSPS1Message::Response(request_id, LSPS1Response::CreateOrderError(error)),
                    ),
                ),
                LSPSMethod::LSPS1GetOrder => Some(
                    LSPSMessage::LSPS1(
                        LSPS1Message::Response(request_id, LSPS1Response::GetOrderError(error)),
                    ),
                ),
                LSPSMethod::LSPS2GetInfo => Some(
                    LSPSMessage::LSPS2(
                        LSPS2Message::Response(request_id, LSPS2Response::GetInfoError(error)),
                    ),
                ),
                LSPSMethod::LSPS2Buy => Some(
                    LSPSMessage::LSPS2(
                        LSPS2Message::Response(request_id, LSPS2Response::BuyError(error)),
                    ),
                ),
                LSPSMethod::LSPS1GetInfo => None,
            },
        }
    }
}

/// Makes an LSPS1 or LSPS2 request of the given method.
fn into_request(request_id: RequestId, method: LSPSMethod, payload: Payload) -> (message: Option<
    LSPSMessage,
>)
    ensures
        message == (match payload {
            Payload::LSPS1Request(request) => if lsps1_method(request) == method {
                Some(LSPSMessage::LSPS1(LSPS1Message::Request(request_id, request)))
            } else {
                None
            },
            Payload::LSPS2Request(request) => if lsps2_method(request) == method {
                Some(LSPSMessage::LSPS2(LSPS2Message::Request(request_id, request)))
            } else {
                None
            },
            _ => None,
        }),
{
    match payload {
        Payload::LSPS1Request(request) => match (&request, method) {
            (LSPS1Request::GetInfo(_), LSPSMethod::LSPS1GetInfo)
            | (LSPS1Request::CreateOrder(_), LSPSMethod::LSPS1CreateOrder)
            | (LSPS1Request::GetOrder(_), LSPSMethod::LSPS1GetOrder) => Some(
                LSPSMessage::LSPS1(LSPS1Message::Request(request_id, request)),
            ),
            _ => None,
        },
        Payload::LSPS2Request(request) => match (&request, method) {
            (LSPS2Request::GetInfo(_), LSPSMethod::LSPS2GetInfo)
            | (LSPS2Request::Buy(_), LSPSMethod::LSPS2Buy) => Some(
                LSPSMessage::LSPS2(LSPS2Message::Request(request_id, request)),
            ),
            _ => None,
        },
        _ => None,
    }
}

/// The JSON text of an optional string.
pub open spec fn optional_json(text: Option<Seq<char>>) -> Seq<char> {
    match text {
        Some(text) => json_quoted(text),
        None => "null"@,
    }
}

impl ResponseErrorView {
    /// The JSON text of the error.
    pub open spec fn json_text(self) -> Seq<char> {
        object_text(self.members())
    }
}

impl ResponseError {
    /// Writes the error as JSON.
    pub fn to_json(&self) -> (json: String)
        ensures
            json@ == self@.json_text(),
    {
        let mut members: Vec<(String, String)> = Vec::new();
        members.push(("code".to_owned(), i32_to_string(self.code)));
        members.push(("message".to_owned(), quote(self.message.as_str())));
        let data = match &self.data {
            Some(data) => quote(data.as_str()),
            None => "null".to_owned(),
        };
        members.push(("data".to_owned(), data));
        assert(member_views(members@) =~= self@.members());
        write_object(&members)
    }
}

impl ResponseErrorView {
    /// The error that a JSON text denotes: an object with a code, a message and data, or an array of
    /// the three.
    pub open spec fn of_json(text: Seq<char>) -> Option<Self> {
        match (object_members(Names::Escaped, text), json_array(text)) {
            (Some(members), _) => ResponseErrorView::of_members(members),
            (None, Some(elements)) => if elements.len() == 3 {
                match (
                    json_i32(elements[0]),
                    json_string(elements[1]),
                    json_optional_string(elements[2]),
                ) {
                    (Some(code), Some(message), Some(data)) => Some(
                        ResponseErrorView { code, message, data },
                    ),
                    _ => None,
                }
            } else {
                None
            },
            (None, None) => None,
        }
    }

    /// The members that the error is written with.
    pub open spec fn members(self) -> Seq<(Seq<char>, Seq<char>)> {
        seq![
            ("code"@, signed_digits(self.code as int)),
            ("message"@, json_quoted(self.message)),
            ("data"@, optional_json(self.data)),
        ]
    }

    /// The error that the members of an object denote. There is one code, one message and at most
    /// one text of data, and there may be other members.
    pub open spec fn of_members(members: Seq<(Seq<char>, Seq<char>)>) -> Option<Self> {
        if member_count(members, "code"@) == 1 && member_count(members, "message"@) == 1
            && member_count(members, "data"@) <= 1 {
            match (
                json_i32(last_member(members, "code"@)->0),
                json_string(last_member(members, "message"@)->0),
                match last_member(members, "data"@) {
                    Some(data) => json_optional_string(data),
                    None => Some(None),
                },
            ) {
                (Some(code), Some(message), Some(data)) => Some(
                    ResponseErrorView { code, message, data },
                ),
                _ => None,
            }
        } else {
            None
        }
    }
}

/// The names of the members of an error are told apart, and need no escapes.
proof fn lemma_error_member_names()
    ensures
        needs_no_escape("code"@),
        needs_no_escape("message"@),
        needs_no_escape("data"@),
        "code"@.len() == 4 && "code"@[0] == 'c',
        "message"@.len() == 7,
        "data"@.len() == 4 && "data"@[0] == 'd',
{
    reveal_strlit("code");
    reveal_strlit("message");
    reveal_strlit("data");
}

/// An error is written without white space, with words for names.
pub proof fn lemma_error_is_compact(error: ResponseErrorView)
    ensures
        is_compact(error.json_text(), 1),
        are_closed(error.members()),
{
    reveal_strlit("code");
    reveal_strlit("message");
    reveal_strlit("data");
    let members = error.members();
    assert(members[0].1 == signed_digits(error.code as int));
    assert(members[1].1 == json_quoted(error.message));
    if let Some(data) = error.data {
        assert(members[2].1 == json_quoted(data));
    }
    assert forall|i: int| 0 <= i < members.len() implies is_word((#[trigger] members[i]).0)
        && is_compact(members[i].1, 0) && is_compact(members[i].1, max_depth()) by {}
    assert(error.json_text() == object_text(members));
}

impl ResponseError {
    /// Reads an error from its JSON text.
    ///
    /// What [`ResponseError::to_json`] has written is read back.
    pub fn from_json(json: &str) -> (error: Option<ResponseError>)
        ensures
            match error {
                Some(error) => ResponseErrorView::of_json(json@) == Some(error@),
                None => ResponseErrorView::of_json(json@) is None,
            },
            forall|written: ResponseErrorView|
                json@ == #[trigger] written.json_text() ==> ResponseErrorView::of_json(json@)
                    == Some(written),
    {
        let read = read_object(Names::Escaped, json);
        proof {
            assert forall|written: ResponseErrorView|
                json@ == #[trigger] written.json_text() implies object_members(
                Names::Escaped,
                json@,
            ) == Some(written.members()) by {
                lemma_error_is_compact(written);
                assert(json@ == object_text(written.members()));
            }
        }
        match read {
            Some(members) => {
                let error = ResponseError::from_members(&members);
                proof {
                    assert forall|written: ResponseErrorView|
                        json@ == #[trigger] written.json_text() implies ResponseErrorView::of_json(
                        json@,
                    ) == Some(written) by {
                        assert(member_views(members@) == written.members());
                    }
                }
                error
            },
            None => match read_array(json) {
                Some(elements) => {
                    if elements.len() != 3 {
                        return None;
                    }
                    let code = read_i32(elements[0].as_str());
                    let message = read_string(elements[1].as_str());
                    let data = read_optional_string(elements[2].as_str());
                    match (code, message, data) {
                        (Some(code), Some(message), Some(data)) => Some(
                            ResponseError { code, message, data },
                        ),
                        _ => None,
                    }
                },
                None => None,
            },
        }
    }

    /// Reads an error from the members of a JSON object.
    fn from_members(members: &Vec<(String, String)>) -> (error: Option<ResponseError>)
        ensures
            match error {
                Some(error) => ResponseErrorView::of_members(member_views(members@)) == Some(error@),
                None => ResponseErrorView::of_members(member_views(members@)) is None,
            },
            forall|written: ResponseErrorView|
                member_views(members@) == #[trigger] written.members() ==> error is Some
                    && error->0@ == written,
    {
        let ghost views = member_views(members@);
        proof {
            assert forall|written: ResponseErrorView|
                views == #[trigger] written.members() implies member_count(views, "code"@) == 1
                && member_count(views, "message"@) == 1 && member_count(views, "data"@) == 1
                && last_member(views, "code"@) == Some(signed_digits(written.code as int))
                && last_member(views, "message"@) == Some(json_quoted(written.message))
                && last_member(views, "data"@) == Some(optional_json(written.data)) by {
                lemma_error_members(written);
            }
        }
        if count_members(members, "code") != 1 || count_members(members, "message") != 1
            || count_members(members, "data") > 1 {
            return None;
        }
        proof {
            lemma_member_count(views, "code"@);
            lemma_member_count(views, "message"@);
        }
        let code = match find_last_member(members, "code") {
            Some(code) => read_i32(code.as_str()),
            None => vstd::pervasive::unreached(),
        };
        let message = match find_last_member(members, "message") {
            Some(message) => read_string(message.as_str()),
            None => vstd::pervasive::unreached(),
        };
        let data = match find_last_member(members, "data") {
            Some(data) => read_optional_string(data.as_str()),
            None => Some(None),
        };
        match (code, message, data) {
            (Some(code), Some(message), Some(data)) => Some(ResponseError { code, message, data }),
            _ => None,
        }
    }
}

/// The members of an error that is written.
proof fn lemma_error_members(error: ResponseErrorView)
    ensures
        member_count(error.members(), "code"@) == 1,
        member_count(error.members(), "message"@) == 1,
        member_count(error.members(), "data"@) == 1,
        last_member(error.members(), "code"@) == Some(signed_digits(error.code as int)),
        last_member(error.members(), "message"@) == Some(json_quoted(error.message)),
        last_member(error.members(), "data"@) == Some(optional_json(error.data)),
{
    lemma_error_member_names();
    reveal_with_fuel(member_count, 4);
    reveal_with_fuel(last_member, 4);
    let members = error.members();
    assert(members.drop_last() =~= members.take(2));
    assert(members.drop_last().drop_last() =~= members.take(1));
    assert(members.drop_last().drop_last().drop_last() =~= Seq::empty());
}

/// The JSON text of a `list_protocols` result.
pub open spec fn protocols_json(protocols: Seq<u16>) -> Seq<char> {
    object_text(seq![("protocols"@, in_brackets(numbers_text(protocols)))])
}

/// The protocols that the JSON text of a `list_protocols` result denotes: those of an object, or of
/// an array that holds nothing else.
pub open spec fn protocols_of_json(text: Seq<char>) -> Option<Seq<u16>> {
    match (object_members(Names::Escaped, text), json_array(text)) {
        (Some(members), _) => match last_member(members, "protocols"@) {
            Some(value) => json_u16_list(value),
            None => None,
        },
        (None, Some(elements)) => if elements.len() == 1 {
            json_u16_list(elements[0])
        } else {
            None
        },
        (None, None) => None,
    }
}

/// Whether a JSON text denotes the parameters of a `list_protocols` request, which may be any object
/// or an empty array.
pub open spec fn is_protocols_request(text: Seq<char>) -> bool {
    object_members(Names::Escaped, text) is Some || json_array(text) == Some(Seq::<Seq<char>>::empty())
}

impl ListProtocolsRequest {
    /// Reads the parameters from their JSON text.
    pub fn from_json(json: &str) -> (request: Option<ListProtocolsRequest>)
        ensures
            request is Some == is_protocols_request(json@),
            json@ == "{}"@ ==> request is Some,
    {
        proof {
            if json@ == "{}"@ {
                reveal_strlit("{}");
                let none = Seq::<(Seq<char>, Seq<char>)>::empty();
                assert(json@ =~= object_text(none));
                assert(are_closed(none));
            }
        }
        if read_object(Names::Escaped, json).is_some() {
            return Some(ListProtocolsRequest {  });
        }
        match read_array(json) {
            Some(elements) => if elements.len() == 0 {
                assert(text_views(elements@) =~= Seq::<Seq<char>>::empty());
                Some(ListProtocolsRequest {  })
            } else {
                assert(text_views(elements@).len() > 0);
                None
            },
            None => None,
        }
    }
}

impl ListProtocolsResponse {
    /// Reads the result from its JSON text.
    ///
    /// What [`ListProtocolsResponse::to_json`] has written is read back.
    pub fn from_json(json: &str) -> (response: Option<ListProtocolsResponse>)
        ensures
            match response {
                Some(response) => protocols_of_json(json@) == Some(response.protocols@),
                None => protocols_of_json(json@) is None,
            },
            forall|protocols: Seq<u16>|
                json@ == #[trigger] protocols_json(protocols) ==> protocols_of_json(json@) == Some(
                    protocols,
                ),
    {
        let read = read_object(Names::Escaped, json);
        proof {
            assert forall|protocols: Seq<u16>|
                json@ == #[trigger] protocols_json(protocols) implies read is Some && last_member(
                member_views(read->0@),
                "protocols"@,
            ) == Some(in_brackets(numbers_text(protocols))) by {
                reveal_strlit("protocols");
                let list = in_brackets(numbers_text(protocols));
                let written = seq![("protocols"@, list)];
                assert(is_closed(written[0].1));
                assert(are_closed(written));
                assert(json@ == object_text(written));
                assert(written.last() == ("protocols"@, list));
            }
        }
        let list = match read {
            Some(members) => match find_last_member(&members, "protocols") {
                Some(list) => list,
                None => return None,
            },
            None => match read_array(json) {
                Some(elements) => if elements.len() == 1 {
                    elements[0].clone()
                } else {
                    return None;
                },
                None => return None,
            },
        };
        match read_u16_list(list.as_str()) {
            Some(protocols) => Some(ListProtocolsResponse { protocols }),
            None => None,
        }
    }

    /// Writes the result as JSON.
    pub fn to_json(&self) -> (json: String)
        ensures
            json@ == protocols_json(self.protocols@),
    {
        let mut text = String::new();
        text.push('[');
        let ghost numbers = self.protocols@;
        let mut i: usize = 0;
        assert(text@ =~= seq!['['] + numbers_text(numbers.take(0)));
        while i < self.protocols.len()
            invariant
                i <= self.protocols@.len(),
                numbers == self.protocols@,
                text@ == seq!['['] + numbers_text(numbers.take(i as int)),
            decreases self.protocols@.len() - i,
        {
            let ghost next = numbers.take(i + 1);
            assert(next.drop_last() =~= numbers.take(i as int));
            if i > 0 {
                text.push(',');
            }
            text.append(u64_to_string(self.protocols[i] as u64).as_str());
            assert(text@ =~= seq!['['] + numbers_text(next));
            i += 1;
        }
        assert(numbers.take(i as int) =~= numbers);
        text.push(']');
        assert(text@ =~= in_brackets(numbers_text(numbers)));
        let mut members: Vec<(String, String)> = Vec::new();
        members.push(("protocols".to_owned(), text));
        assert(member_views(members@) =~= seq![
            ("protocols"@, in_brackets(numbers_text(numbers))),
        ]);
        write_object(&members)
    }
}

impl LSPSMessage {
    /// What the parameters or the result of the message hold.
    pub open spec fn payload(self) -> Payload {
        match self {
            LSPSMessage::LSPS0(
                LSPS0Message::Response(_, LSPS0Response::ListProtocols(response)),
            ) => Payload::Protocols(response),
            LSPSMessage::LSPS1(LSPS1Message::Request(_, request)) => Payload::LSPS1Request(request),
            LSPSMessage::LSPS1(
                LSPS1Message::Response(_, LSPS1Response::GetInfo(response)),
            ) => Payload::Options(response),
            LSPSMessage::LSPS1(
                LSPS1Message::Response(_, LSPS1Response::CreateOrder(response)),
            ) => Payload::Order(response),
            LSPSMessage::LSPS1(
                LSPS1Message::Response(_, LSPS1Response::GetOrder(response)),
            ) => Payload::Order(response),
            LSPSMessage::LSPS2(LSPS2Message::Request(_, request)) => Payload::LSPS2Request(request),
            LSPSMessage::LSPS2(
                LSPS2Message::Response(_, LSPS2Response::GetInfo(response)),
            ) => Payload::FeeMenu(response),
            LSPSMessage::LSPS2(
                LSPS2Message::Response(_, LSPS2Response::Buy(response)),
            ) => Payload::Purchase(response),
            _ => Payload::Nothing,
        }
    }

    /// The error that the message holds.
    pub open spec fn error(self) -> Option<ResponseErrorView> {
        match self {
            LSPSMessage::LSPS0(
                LSPS0Message::Response(_, LSPS0Response::ListProtocolsError(error)),
            ) => Some(error@),
            LSPSMessage::LSPS1(
                LSPS1Message::Response(_, LSPS1Response::CreateOrderError(error)),
            ) => Some(error@),
            LSPSMessage::LSPS1(
                LSPS1Message::Response(_, LSPS1Response::GetOrderError(error)),
            ) => Some(error@),
            LSPSMessage::LSPS2(
                LSPS2Message::Response(_, LSPS2Response::GetInfoError(error)),
            ) => Some(error@),
            LSPSMessage::LSPS2(
                LSPS2Message::Response(_, LSPS2Response::BuyError(error)),
            ) => Some(error@),
            _ => None,
        }
    }
}

impl LSPSMessage {
    /// Whether another message says the same: it has the same id and method, and the same parameters,
    /// result or error.
    pub open spec fn says_the_same(self, other: LSPSMessage) -> bool {
        &&& self.request_id_and_method() == other.request_id_and_method()
        &&& self.response_id_and_method() == other.response_id_and_method()
        &&& self.error() == other.error()
        &&& self.payload().says_the_same(other.payload())
    }
}

/// A message that is read back is the message that was written: the frame that it is read back as,
/// together with what its parameters or its result hold, makes a message that says the same.
pub proof fn lemma_message_from_frame(
    message: LSPSMessage,
    text: Seq<char>,
    frame: Frame,
    payload: Payload,
)
    requires
        message !is Invalid,
        frame@ == message.frame(text),
        payload.says_the_same(message.payload()),
    ensures
        frame.with_payload(payload) is Some,
        frame.with_payload(payload)->0.says_the_same(message),
{
}

/// How a message is read, by what it holds. With an id and a method it is a request, if the method is
/// known. With an id alone it is the response to the request of that id, which it ends: an error where
/// there is one, or else a result. Without an id it is no message.
pub proof fn lemma_how_messages_are_read(
    envelope: EnvelopeView,
    methods: Map<Seq<char>, Seq<char>>,
    method: LSPSMethod,
)
    ensures
        ({
            let (after, outcome) = frame_of(envelope, methods);
            let id = envelope.id->0;
            let asked = envelope.id is Some && envelope.method is None && methods.contains_key(id);
            &&& envelope.id is None && envelope.method is Some ==> outcome == Err::<
                FrameView,
                DecodeError,
            >(DecodeError::UnknownNotification)
            &&& envelope.id is None && envelope.method is None ==> outcome == Err::<
                FrameView,
                DecodeError,
            >(DecodeError::NoIdAndNoMethod)
            &&& envelope.id is Some && envelope.method == Some(method.name()) ==> {
                &&& outcome is Ok
                &&& outcome->Ok_0 is Request
                &&& outcome->Ok_0->Request_request_id == id
                &&& outcome->Ok_0->Request_method == method
                &&& envelope.params is Some ==> outcome->Ok_0->params == envelope.params->0
                &&& envelope.params is None ==> outcome->Ok_0->params == "{}"@
            }
            &&& envelope.id is Some && envelope.method is Some && outcome is Err
                ==> outcome->Err_0 is UnknownMethod
            &&& envelope.id is Some && envelope.method is Some && outcome is Ok ==> {
                &&& outcome->Ok_0 is Request
                &&& envelope.method->0 == outcome->Ok_0->Request_method.name()
            }
            &&& envelope.id is Some && envelope.method is None && !asked ==> outcome == Err::<
                FrameView,
                DecodeError,
            >(DecodeError::UnknownRequestId)
            &&& asked ==> after == methods.remove(id)
            &&& !asked ==> after == methods
            &&& asked && methods[id] == method.name() ==> {
                &&& envelope.error is Some && !(method is LSPS1GetInfo) ==> {
                    &&& outcome is Ok
                    &&& outcome->Ok_0 is ErrorResponse
                    &&& outcome->Ok_0->ErrorResponse_request_id == id
                    &&& outcome->Ok_0->ErrorResponse_method == method
                    &&& outcome->Ok_0->error == envelope.error->0
                }
                &&& envelope.error is Some && method is LSPS1GetInfo ==> outcome == Err::<
                    FrameView,
                    DecodeError,
                >(DecodeError::UnknownRequestMethod)
                &&& envelope.error is None && envelope.result is Some ==> {
                    &&& outcome is Ok
                    &&& outcome->Ok_0 is Response
                    &&& outcome->Ok_0->Response_request_id == id
                    &&& outcome->Ok_0->Response_method == method
                    &&& outcome->Ok_0->result == envelope.result->0
                }
                &&& envelope.error is None && envelope.result is None ==> outcome == Err::<
                    FrameView,
                    DecodeError,
                >(DecodeError::NoResultAndNoError)
            }
            &&& asked && outcome is Ok ==> {
                &&& !(outcome->Ok_0 is Request)
                &&& outcome->Ok_0 is Response ==> methods[id]
                    == outcome->Ok_0->Response_method.name()
                &&& outcome->Ok_0 is ErrorResponse ==> methods[id]
                    == outcome->Ok_0->ErrorResponse_method.name()
            }
        }),
{
    lemma_method_names(method, method.name());
    if envelope.method is Some {
        if let Some(read) = LSPSMethod::named(envelope.method->0) {
            lemma_method_names(read, envelope.method->0);
        }
    }
    if envelope.id is Some && methods.contains_key(envelope.id->0) {
        if let Some(read) = LSPSMethod::named(methods[envelope.id->0]) {
            lemma_method_names(read, methods[envelope.id->0]);
        }
    }
}

/// The message that a frame and what it holds make is of the kind, the id and the method of the frame,
/// and says what the frame and its payload say.
pub proof fn lemma_messages_say_what_was_read(frame: Frame, payload: Payload)
    ensures
        frame.with_payload(payload) is Some ==> {
            let message = frame.with_payload(payload)->0;
            match frame@ {
                FrameView::Request { request_id, method, .. } => {
                    &&& message.request_id_and_method() == Some((request_id, method))
                    &&& message.response_id_and_method() is None
                    &&& !(method is LSPS0ListProtocols) ==> message.payload() == payload
                },
                FrameView::Response { request_id, method, .. } => {
                    &&& message.request_id_and_method() is None
                    &&& message.response_id_and_method() == Some((request_id, method, false))
                    &&& message.error() is None
                    &&& message.payload() == payload
                },
                FrameView::ErrorResponse { request_id, method, error } => {
                    &&& message.request_id_and_method() is None
                    &&& message.response_id_and_method() == Some((request_id, method, true))
                    &&& message.error() == Some(error)
                },
            }
        },
{
}

/// A request is remembered by its id and its method, and nothing else is. A response tells the method
/// that it answers and whether it is an error.
pub proof fn lemma_ids_and_methods(message: LSPSMessage)
    ensures
        match message {
            LSPSMessage::LSPS0(LSPS0Message::Request(id, _)) => message.request_id_and_method()
                == Some((id.0@, LSPSMethod::LSPS0ListProtocols)),
            LSPSMessage::LSPS1(LSPS1Message::Request(id, request)) => {
                &&& message.request_id_and_method() is Some
                &&& (message.request_id_and_method()->0).0 == id.0@
                &&& (message.request_id_and_method()->0).1 is LSPS1GetInfo <==> request is GetInfo
                &&& (message.request_id_and_method()->0).1 is LSPS1CreateOrder <==> request
                    is CreateOrder
                &&& (message.request_id_and_method()->0).1 is LSPS1GetOrder <==> request is GetOrder
            },
            LSPSMessage::LSPS2(LSPS2Message::Request(id, request)) => {
                &&& message.request_id_and_method() is Some
                &&& (message.request_id_and_method()->0).0 == id.0@
                &&& (message.request_id_and_method()->0).1 is LSPS2GetInfo <==> request is GetInfo
                &&& (message.request_id_and_method()->0).1 is LSPS2Buy <==> request is Buy
            },
            _ => message.request_id_and_method() is None,
        },
        match message {
            LSPSMessage::LSPS0(LSPS0Message::Response(id, response)) => {
                &&& message.response_id_and_method() is Some
                &&& (message.response_id_and_method()->0).0 == id.0@
                &&& (message.response_id_and_method()->0).1 is LSPS0ListProtocols
                &&& (message.response_id_and_method()->0).2 <==> response is ListProtocolsError
            },
            LSPSMessage::LSPS1(LSPS1Message::Response(id, response)) => {
                &&& message.response_id_and_method() is Some
                &&& (message.response_id_and_method()->0).0 == id.0@
                &&& (message.response_id_and_method()->0).1 is LSPS1GetInfo <==> response is GetInfo
                &&& (message.response_id_and_method()->0).1 is LSPS1CreateOrder <==> response
                    is CreateOrder || response is CreateOrderError
                &&& (message.response_id_and_method()->0).1 is LSPS1GetOrder <==> response is GetOrder
                    || response is GetOrderError
                &&& (message.response_id_and_method()->0).2 <==> response is CreateOrderError
                    || response is GetOrderError
            },
            LSPSMessage::LSPS2(LSPS2Message::Response(id, response)) => {
                &&& message.response_id_and_method() is Some
                &&& (message.response_id_and_method()->0).0 == id.0@
                &&& (message.response_id_and_method()->0).1 is LSPS2GetInfo <==> response is GetInfo
                    || response is GetInfoError
                &&& (message.response_id_and_method()->0).1 is LSPS2Buy <==> response is Buy
                    || response is BuyError
                &&& (message.response_id_and_method()->0).2 <==> response is GetInfoError || response
                    is BuyError
            },
            _ => message.response_id_and_method() is None,
        },
        message.error() is Some <==> message.response_id_and_method() is Some
            && (message.response_id_and_method()->0).2,
{
}

/// Every message that is written names the version of the format first. One that was not understood is
/// told so with the code of a parse error and without an id.
pub proof fn lemma_written_messages_name_the_format(message: LSPSMessage, payload: Seq<char>)
    ensures
        message.fields(payload).len() > 0,
        message.fields(payload)[0] is Version,
        Field::Version.member() == ("jsonrpc"@, in_quotes("2.0"@)),
        message is Invalid ==> {
            let fields = message.fields(payload);
            &&& fields.len() == 3
            &&& fields[1] is NoId
            &&& fields[2] matches Field::Failure(error) && error.code == -32700 && error.message
                == "parse error"@ && error.data is None
        },
{
}

/// An error is read exactly where it holds one code, one message and at most one additional text, and
/// each of them can be read. What is left out is no additional text.
pub proof fn lemma_how_errors_are_read(members: Seq<(Seq<char>, Seq<char>)>)
    ensures
        ({
            let error = ResponseErrorView::of_members(members);
            let code = json_i32(last_member(members, "code"@)->0);
            let message = json_string(last_member(members, "message"@)->0);
            let data = json_optional_string(last_member(members, "data"@)->0);
            let told_once = member_count(members, "code"@) == 1 && member_count(members, "message"@)
                == 1 && member_count(members, "data"@) <= 1;
            let readable = code is Some && message is Some && (member_count(members, "data"@) == 1
                ==> data is Some);
            &&& error is Some <==> told_once && readable
            &&& error is Some ==> {
                &&& error->0.code == code->0
                &&& error->0.message == message->0
                &&& member_count(members, "data"@) == 0 ==> error->0.data is None
                &&& member_count(members, "data"@) == 1 ==> error->0.data == data->0
            }
        }),
{
    lemma_member_count(members, "data"@);
}

/// A message that is written and read is the message that was written: a request with its id, its method
/// and its parameters, and a response to a request of ours with its result or its error. Reading a
/// response ends its request.
pub proof fn lemma_messages_are_written_and_read(
    message: LSPSMessage,
    payload: &str,
    written: String,
    text: &str,
    methods: &mut KeyedMap<String, String>,
    frame: Result<Frame, DecodeError>,
    held: Payload,
    read: Option<LSPSMessage>,
)
    requires
        call_ensures(LSPSMessage::to_json, (&message, payload), written),
        text@ == written@,
        call_ensures(LSPSMessage::from_str_with_id_map, (text, methods), frame),
        message !is Invalid,
        message.takes_payload() ==> is_readable_value(payload@),
        message.response_id_and_method() is Some ==> {
            let (request_id, method, _) = message.response_id_and_method()->0;
            old(methods)@.contains_key(request_id) && old(methods)@[request_id] == method.name()
        },
        held.says_the_same(message.payload()),
        frame is Ok ==> call_ensures(Frame::into_message, (frame->Ok_0, held), read),
    ensures
        frame is Ok,
        read is Some,
        read->0.request_id_and_method() == message.request_id_and_method(),
        read->0.response_id_and_method() == message.response_id_and_method(),
        read->0.error() == message.error(),
        read->0.payload().says_the_same(message.payload()),
        message.response_id_and_method() is None ==> final(methods)@ == old(methods)@,
        message.response_id_and_method() is Some ==> final(methods)@ == old(methods)@.remove(
            (message.response_id_and_method()->0).0,
        ),
{
    let fields = message.fields(payload@);
    assert(text@ == message.json_text(payload@));
    lemma_message_from_frame(message, payload@, frame->Ok_0, held);
}

/// An error that is written and read is the error that was written, and so is a list of protocols.
pub proof fn lemma_results_are_written_and_read(
    error: ResponseError,
    written_error: String,
    error_text: &str,
    read_error: Option<ResponseError>,
    listed: ListProtocolsResponse,
    written_list: String,
    list_text: &str,
    read_list: Option<ListProtocolsResponse>,
)
    requires
        call_ensures(ResponseError::to_json, (&error, ), written_error),
        error_text@ == written_error@,
        call_ensures(ResponseError::from_json, (error_text, ), read_error),
        call_ensures(ListProtocolsResponse::to_json, (&listed, ), written_list),
        list_text@ == written_list@,
        call_ensures(ListProtocolsResponse::from_json, (list_text, ), read_list),
    ensures
        read_error is Some,
        read_error->0.code == error.code,
        read_error->0.message@ == error.message@,
        read_error->0.data is Some <==> error.data is Some,
        error.data is Some ==> read_error->0.data->0@ == error.data->0@,
        read_list is Some,
        read_list->0.protocols@ == listed.protocols@,
{
    assert(error_text@ == error@.json_text());
    assert(list_text@ == protocols_json(listed.protocols@));
    assert(read_error->0@ == error@);
}

/// The names that an error and a list of protocols are written under, and the type of the Lightning
/// message that carries them.
pub proof fn lemma_how_results_are_written(
    error: ResponseErrorView,
    protocols: Seq<u16>,
    message: RawLSPSMessage,
    id: u16,
)
    requires
        call_ensures(RawLSPSMessage::type_id, (&message, ), id),
    ensures
        error.json_text() == object_text(
            seq![
                ("code"@, signed_digits(error.code as int)),
                ("message"@, json_quoted(error.message)),
                (
                    "data"@,
                    if error.data is Some {
                        json_quoted(error.data->0)
                    } else {
                        "null"@
                    },
                ),
            ],
        ),
        protocols_json(protocols) == object_text(
            seq![("protocols"@, seq!['['] + numbers_text(protocols) + seq![']'])],
        ),
        id == 37913,
{
}

} // verus!
