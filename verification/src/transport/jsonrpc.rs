//! Types and primitives for JSON-RPC 2.0.

use vstd::prelude::*;
use vstd::string::StringExecFns;

use crate::collections::{lists, KeyedMap};
use crate::json::{
    check_member_value, check_whole, count_members, find_last_member, is_member_value, is_scalar,
    is_value, is_whole, joined, json_array, json_i32, json_is_value, json_quoted, json_string,
    json_value, last_member, lemma_member_count, member_count, member_views, object_members,
    object_text, quote, read_array, read_i32, read_object, read_string, read_value, write_object,
    Names,
};
use crate::lsps0::envelope::text_view;
use crate::text::{
    fields_between, i32_to_string, lemma_fields_end_at_separators, lemma_fields_extend, same_text,
    signed_digits, split_at_char, text_from,
};

verus! {

pub const VERSION: &'static str = "2.0";

pub const INVALID_REQUEST_ERROR_CODE: i32 = -32600;

/// The protocol that a method belongs to.
#[derive(Clone, Copy, Debug, PartialEq, Eq, Hash, Structural)]
pub enum Prefix {
    LSPS0,
    LSPS1,
    LSPS2,
}

/// A text is not the name of a method.
#[derive(Clone, Copy, Debug, PartialEq, Eq)]
pub struct ParseMethodError;

impl ParseMethodError {
    /// Returns the description of the error.
    pub fn message(&self) -> (text: &'static str)
        ensures
            text@ == "invalid method format"@,
    {
        "invalid method format"
    }
}

impl Prefix {
    /// The protocol that a text names. LSPS0 goes by two names.
    pub open spec fn named(text: Seq<char>) -> Option<Prefix> {
        if text == "prefix"@ || text == "lsp0"@ {
            Some(Prefix::LSPS0)
        } else if text == "lsp1"@ {
            Some(Prefix::LSPS1)
        } else if text == "lsp2"@ {
            Some(Prefix::LSPS2)
        } else {
            None
        }
    }

    /// The text that a protocol is written as.
    pub open spec fn text(self) -> Seq<char> {
        match self {
            Prefix::LSPS0 => "prefix"@,
            Prefix::LSPS1 => "lsps1"@,
            Prefix::LSPS2 => "lsps2"@,
        }
    }

    /// Finds the protocol that a text names.
    pub fn from_str(s: &str) -> (prefix: Result<Self, ParseMethodError>)
        ensures
            prefix == (match Prefix::named(s@) {
                Some(prefix) => Ok(prefix),
                None => Err(ParseMethodError),
            }),
    {
        if same_text(s, "prefix") || same_text(s, "lsp0") {
            Ok(Prefix::LSPS0)
        } else if same_text(s, "lsp1") {
            Ok(Prefix::LSPS1)
        } else if same_text(s, "lsp2") {
            Ok(Prefix::LSPS2)
        } else {
            Err(ParseMethodError)
        }
    }

    /// Returns the text that the protocol is written as.
    pub fn as_str(&self) -> (text: &'static str)
        ensures
            text@ == self.text(),
    {
        match self {
            Prefix::LSPS0 => "prefix",
            Prefix::LSPS1 => "lsps1",
            Prefix::LSPS2 => "lsps2",
        }
    }
}

/// The name of an RPC call, within its protocol.
#[derive(Clone, Debug, PartialEq, Eq)]
pub struct Method {
    pub prefix: Prefix,
    pub name: String,
}

impl Method {
    /// The protocol and the name of the method that a text denotes: what stands before the first
    /// point, and what stands between it and the next one.
    pub open spec fn parsed(text: Seq<char>) -> Option<(Prefix, Seq<char>)> {
        let fields = fields_between(text, '.');
        match Prefix::named(fields[0]) {
            Some(prefix) => if fields.len() > 1 {
                Some((prefix, fields[1]))
            } else {
                None
            },
            None => None,
        }
    }

    /// Reads a method.
    pub fn from_str(s: &str) -> (method: Result<Self, ParseMethodError>)
        ensures
            match (method, Method::parsed(s@)) {
                (Ok(method), Some((prefix, name))) => method.prefix == prefix && method.name@
                    == name,
                (Err(_), None) => true,
                _ => false,
            },
    {
        let fields = split_at_char(s, '.');
        let first = text_from(&fields[0], 0);
        assert(first@ =~= fields@[0]@);
        let prefix = match Prefix::from_str(first.as_str()) {
            Ok(prefix) => prefix,
            Err(_) => return Err(ParseMethodError),
        };
        if fields.len() > 1 {
            let name = text_from(&fields[1], 0);
            assert(name@ =~= fields@[1]@);
            Ok(Method { prefix, name })
        } else {
            Err(ParseMethodError)
        }
    }

    /// Writes the method.
    pub fn to_text(&self) -> (text: String)
        ensures
            text@ == method_text(self.prefix, self.name@),
    {
        let mut text = String::new();
        text.append(self.prefix.as_str());
        text.push('.');
        text.append(self.name.as_str());
        assert(text@ =~= method_text(self.prefix, self.name@));
        text
    }
}

/// The text that a method is written as.
pub open spec fn method_text(prefix: Prefix, name: Seq<char>) -> Seq<char> {
    prefix.text() + seq!['.'] + name
}

/// A method of LSPS0 that was written is read back, where its name holds no point.
pub proof fn lemma_method_round_trip(name: Seq<char>)
    requires
        forall|i: int| 0 <= i < name.len() ==> #[trigger] name[i] != '.',
    ensures
        Method::parsed(method_text(Prefix::LSPS0, name)) == Some((Prefix::LSPS0, name)),
{
    reveal_strlit("prefix");
    let prefix = "prefix"@;
    let empty = Seq::<char>::empty();
    lemma_fields_extend(empty, prefix, '.');
    assert(empty + prefix == prefix);
    assert(fields_between(prefix, '.') =~= seq![prefix]);
    let first = prefix.push('.');
    assert(first.drop_last() == prefix);
    assert(fields_between(first, '.') =~= seq![prefix, empty]);
    lemma_fields_extend(first, name, '.');
    assert(empty + name == name);
    assert(method_text(Prefix::LSPS0, name) =~= first + name);
    assert(fields_between(first + name, '.') =~= seq![prefix, name]);
}

/// A JSON value, as the text that it is written as.
///
/// Values are the same where they are written in the same way: there is no white space in it, and the
/// members of objects are told once, in the order of their names.
#[derive(Debug, Clone, PartialEq, Eq)]
pub struct Value {
    text: String,
}

impl View for Value {
    type V = Seq<char>;

    closed spec fn view(&self) -> Seq<char> {
        self.text@
    }
}

impl Value {
    /// Reads a value from its JSON text.
    ///
    /// `null`, truth values, whole numbers and strings are read back.
    pub fn from_json(json: &str) -> (value: Option<Value>)
        ensures
            match value {
                Some(value) => json_value(json@) == Some(value@),
                None => json_value(json@) is None,
            },
            is_scalar(json@) ==> value is Some && value->0@ == json@,
            forall|s: Seq<char>|
                json@ == #[trigger] json_quoted(s) ==> value is Some && value->0@ == json@,
    {
        match read_value(json) {
            Some(text) => Some(Value { text }),
            None => None,
        }
    }

    /// Returns the JSON text of the value.
    pub fn as_json(&self) -> (json: &str)
        ensures
            json@ == self@,
    {
        self.text.as_str()
    }

    /// Copies the value.
    fn copy(&self) -> (value: Value)
        ensures
            value@ == self@,
    {
        Value { text: self.text.clone() }
    }
}

/// An error of an RPC call.
#[derive(Debug, Clone, PartialEq, Eq)]
pub struct Error {
    /// A number indicating the error type that occurred.
    pub code: i32,
    /// A string providing a short description of the error.
    pub message: String,
    /// A primitive or structured value that contains additional information about the error.
    pub data: Option<Value>,
}

/// A JSON-RPC request object.
#[derive(Debug)]
pub struct Request {
    /// The name of the RPC call.
    pub method: Method,
    /// Parameters to the RPC call.
    /// Note: Only by-name parameters are allowed.
    pub params: KeyedMap<String, Value>,
    /// Identifier for this Request, which should appear in the response.
    pub id: Value,
    /// jsonrpc field, MUST be "2.0".
    pub jsonrpc: String,
}

/// A JSON-RPC notification object.
#[derive(Debug)]
pub struct Notification {
    /// The name of the RPC call.
    pub method: Method,
    /// Parameters to the RPC call.
    pub params: KeyedMap<String, Value>,
    /// jsonrpc field, MUST be "2.0".
    pub jsonrpc: String,
}

/// A JSON-RPC 2.0 response object.
#[derive(Debug, Clone, PartialEq, Eq)]
pub enum Response {
    /// A successful response.
    Success(SuccessResponse),
    /// An error response.
    Error(ErrorResponse),
}

impl Response {
    /// Returns the identifier of the request.
    pub fn get_id(&self) -> (id: &Value)
        ensures
            *id == (match self {
                Response::Success(success) => success.id,
                Response::Error(error) => error.id,
            }),
    {
        match self {
            Response::Success(success) => &success.id,
            Response::Error(error) => &error.id,
        }
    }
}

/// A JSON-RPC 2.0 error response object.
#[derive(Debug, Clone, PartialEq, Eq)]
pub struct ErrorResponse {
    /// The error.
    pub error: Error,
    /// Identifier for this Request, which should match that of the request.
    pub id: Value,
    /// jsonrpc field, MUST be "2.0".
    pub jsonrpc: String,
}

/// A JSON-RPC 2.0 successful response object.
#[derive(Debug, Clone, PartialEq, Eq)]
pub struct SuccessResponse {
    /// The result.
    pub result: Value,
    /// Identifier for this Request, which should match that of the request.
    pub id: Value,
    /// jsonrpc field, MUST be "2.0".
    pub jsonrpc: String,
}

/// The contents of an [`Error`].
#[verifier::ext_equal]
pub struct ErrorView {
    pub code: i32,
    pub message: Seq<char>,
    pub data: Option<Seq<char>>,
}

impl View for Error {
    type V = ErrorView;

    open spec fn view(&self) -> ErrorView {
        ErrorView {
            code: self.code,
            message: self.message@,
            data: match self.data {
                Some(data) => Some(data@),
                None => None,
            },
        }
    }
}

/// The contents of a [`Response`].
#[verifier::ext_equal]
pub enum ResponseView {
    Success { result: Seq<char>, id: Seq<char>, jsonrpc: Seq<char> },
    Error { error: ErrorView, id: Seq<char>, jsonrpc: Seq<char> },
}

impl View for Response {
    type V = ResponseView;

    open spec fn view(&self) -> ResponseView {
        match self {
            Response::Success(success) => ResponseView::Success {
                result: success.result@,
                id: success.id@,
                jsonrpc: success.jsonrpc@,
            },
            Response::Error(error) => ResponseView::Error {
                error: error.error@,
                id: error.id@,
                jsonrpc: error.jsonrpc@,
            },
        }
    }
}

/// The JSON text of a value that may be missing.
pub open spec fn optional_value(data: Option<Seq<char>>) -> Seq<char> {
    match data {
        Some(data) => data,
        None => "null"@,
    }
}

/// The value of a member that a JSON text denotes, where `null` stands for none.
pub open spec fn value_unless_null(text: Seq<char>) -> Option<Option<Seq<char>>> {
    match json_value(text) {
        Some(value) => if !is_member_value(text) {
            None
        } else if value == "null"@ {
            Some(None)
        } else {
            Some(Some(value))
        },
        None => None,
    }
}

impl ErrorView {
    /// The error that a JSON text denotes: an object with one code, one message and at most one
    /// value of data, or an array of the three.
    pub open spec fn of_json(text: Seq<char>) -> Option<Self> {
        match (object_members(Names::Escaped, text), json_array(text)) {
            (Some(members), _) => if is_whole(text) && member_count(members, "code"@) == 1
                && member_count(members, "message"@) == 1 && member_count(members, "data"@) <= 1 {
                ErrorView::of_texts(
                    last_member(members, "code"@)->0,
                    last_member(members, "message"@)->0,
                    last_member(members, "data"@),
                )
            } else {
                None
            },
            (None, Some(elements)) => if elements.len() == 3 {
                ErrorView::of_texts(elements[0], elements[1], Some(elements[2]))
            } else {
                None
            },
            (None, None) => None,
        }
    }

    /// The error of a code, a message and data, given as JSON texts.
    pub open spec fn of_texts(
        code: Seq<char>,
        message: Seq<char>,
        data: Option<Seq<char>>,
    ) -> Option<Self> {
        match (
            json_i32(code),
            json_string(message),
            match data {
                Some(data) => value_unless_null(data),
                None => Some(None),
            },
        ) {
            (Some(code), Some(message), Some(data)) => Some(ErrorView { code, message, data }),
            _ => None,
        }
    }

    /// The JSON text of the error.
    pub open spec fn json_text(self) -> Seq<char> {
        object_text(
            seq![
                ("code"@, signed_digits(self.code as int)),
                ("message"@, json_quoted(self.message)),
                ("data"@, optional_value(self.data)),
            ],
        )
    }
}

/// Whether an object has exactly the given three members, in any order.
pub open spec fn has_exactly(
    members: Seq<(Seq<char>, Seq<char>)>,
    first: Seq<char>,
    second: Seq<char>,
    third: Seq<char>,
) -> bool {
    &&& members.len() == 3
    &&& member_count(members, first) == 1
    &&& member_count(members, second) == 1
    &&& member_count(members, third) == 1
}

impl ResponseView {
    /// The response that a JSON text denotes. A success has a result, an id and a version, in an
    /// object or in an array; otherwise a failure has an error, an id and a version. Nothing else
    /// may be there.
    pub open spec fn of_json(text: Seq<char>) -> Option<Self> {
        if !json_is_value(text) {
            None
        } else {
            match (object_members(Names::Escaped, text), json_array(text)) {
                (Some(members), _) => if has_exactly(members, "result"@, "id"@, "jsonrpc"@) {
                    ResponseView::success_of(
                        last_member(members, "result"@)->0,
                        last_member(members, "id"@)->0,
                        last_member(members, "jsonrpc"@)->0,
                    )
                } else if has_exactly(members, "error"@, "id"@, "jsonrpc"@) {
                    ResponseView::failure_of(
                        last_member(members, "error"@)->0,
                        last_member(members, "id"@)->0,
                        last_member(members, "jsonrpc"@)->0,
                    )
                } else {
                    None
                },
                (None, Some(elements)) => if elements.len() == 3 {
                    ResponseView::success_of(elements[0], elements[1], elements[2])
                } else {
                    None
                },
                (None, None) => None,
            }
        }
    }

    /// The success of a result, an id and a version, given as JSON texts.
    pub open spec fn success_of(
        result: Seq<char>,
        id: Seq<char>,
        jsonrpc: Seq<char>,
    ) -> Option<Self> {
        match (json_value(result), json_value(id), json_string(jsonrpc)) {
            (Some(result), Some(id), Some(jsonrpc)) => Some(
                ResponseView::Success { result, id, jsonrpc },
            ),
            _ => None,
        }
    }

    /// The failure of an error, an id and a version, given as JSON texts.
    pub open spec fn failure_of(
        error: Seq<char>,
        id: Seq<char>,
        jsonrpc: Seq<char>,
    ) -> Option<Self> {
        match (ErrorView::of_json(error), json_value(id), json_string(jsonrpc)) {
            (Some(error), Some(id), Some(jsonrpc)) => Some(
                ResponseView::Error { error, id, jsonrpc },
            ),
            _ => None,
        }
    }

    /// The JSON text of the response.
    pub open spec fn json_text(self) -> Seq<char> {
        object_text(
            match self {
                ResponseView::Success { result, id, jsonrpc } => seq![
                    ("result"@, result),
                    ("id"@, id),
                    ("jsonrpc"@, json_quoted(jsonrpc)),
                ],
                ResponseView::Error { error, id, jsonrpc } => seq![
                    ("error"@, error.json_text()),
                    ("id"@, id),
                    ("jsonrpc"@, json_quoted(jsonrpc)),
                ],
            },
        )
    }
}

impl Error {
    /// Makes an error of a code, a message and data, given as JSON texts.
    fn from_texts(code: &str, message: &str, data: Option<String>) -> (error: Option<Error>)
        ensures
            match error {
                Some(error) => ErrorView::of_texts(code@, message@, text_view(data)) == Some(error@),
                None => ErrorView::of_texts(code@, message@, text_view(data)) is None,
            },
    {
        let code = match read_i32(code) {
            Some(code) => code,
            None => return None,
        };
        let message = match read_string(message) {
            Some(message) => message,
            None => return None,
        };
        let data = match data {
            Some(data) => if check_member_value(data.as_str()) {
                match Value::from_json(data.as_str()) {
                    Some(value) => if same_text(value.as_json(), "null") {
                        None
                    } else {
                        Some(value)
                    },
                    None => return None,
                }
            } else {
                return None;
            },
            None => None,
        };
        Some(Error { code, message, data })
    }

    /// Reads an error from its JSON text.
    pub fn from_json(json: &str) -> (error: Option<Error>)
        ensures
            match error {
                Some(error) => ErrorView::of_json(json@) == Some(error@),
                None => ErrorView::of_json(json@) is None,
            },
    {
        match read_object(Names::Escaped, json) {
            Some(members) => {
                proof {
                    lemma_member_count(member_views(members@), "code"@);
                    lemma_member_count(member_views(members@), "message"@);
                }
                if !check_whole(json) || count_members(&members, "code") != 1 || count_members(
                    &members,
                    "message",
                ) != 1 || count_members(&members, "data") > 1 {
                    return None;
                }
                let data = find_last_member(&members, "data");
                match (find_last_member(&members, "code"), find_last_member(&members, "message")) {
                    (Some(code), Some(message)) => Error::from_texts(
                        code.as_str(),
                        message.as_str(),
                        data,
                    ),
                    _ => None,
                }
            },
            None => match read_array(json) {
                Some(elements) => if elements.len() == 3 {
                    Error::from_texts(
                        elements[0].as_str(),
                        elements[1].as_str(),
                        Some(elements[2].clone()),
                    )
                } else {
                    None
                },
                None => None,
            },
        }
    }

    /// Writes the error as JSON.
    pub fn to_json(&self) -> (json: String)
        ensures
            json@ == self@.json_text(),
    {
        let mut members: Vec<(String, String)> = Vec::new();
        members.push(("code".to_owned(), i32_to_string(self.code)));
        members.push(("message".to_owned(), quote(self.message.as_str())));
        let data = match &self.data {
            Some(data) => data.as_json().to_owned(),
            None => "null".to_owned(),
        };
        members.push(("data".to_owned(), data));
        assert(member_views(members@) =~= seq![
            ("code"@, signed_digits(self@.code as int)),
            ("message"@, json_quoted(self@.message)),
            ("data"@, optional_value(self@.data)),
        ]);
        write_object(&members)
    }
}

impl Response {
    /// Makes a success of a result, an id and a version, given as JSON texts.
    fn success_from(result: &str, id: &str, jsonrpc: &str) -> (response: Option<Response>)
        ensures
            match response {
                Some(response) => ResponseView::success_of(result@, id@, jsonrpc@) == Some(
                    response@,
                ),
                None => ResponseView::success_of(result@, id@, jsonrpc@) is None,
            },
    {
        match (Value::from_json(result), Value::from_json(id), read_string(jsonrpc)) {
            (Some(result), Some(id), Some(jsonrpc)) => Some(
                Response::Success(SuccessResponse { result, id, jsonrpc }),
            ),
            _ => None,
        }
    }

    /// Makes a failure of an error, an id and a version, given as JSON texts.
    fn failure_from(error: &str, id: &str, jsonrpc: &str) -> (response: Option<Response>)
        ensures
            match response {
                Some(response) => ResponseView::failure_of(error@, id@, jsonrpc@) == Some(
                    response@,
                ),
                None => ResponseView::failure_of(error@, id@, jsonrpc@) is None,
            },
    {
        match (Error::from_json(error), Value::from_json(id), read_string(jsonrpc)) {
            (Some(error), Some(id), Some(jsonrpc)) => Some(
                Response::Error(ErrorResponse { error, id, jsonrpc }),
            ),
            _ => None,
        }
    }

    /// Reads a response from its JSON text.
    pub fn from_json(json: &str) -> (response: Option<Response>)
        ensures
            match response {
                Some(response) => ResponseView::of_json(json@) == Some(response@),
                None => ResponseView::of_json(json@) is None,
            },
    {
        if !is_value(json) {
            return None;
        }
        match read_object(Names::Escaped, json) {
            Some(members) => {
                proof {
                    lemma_member_count(member_views(members@), "result"@);
                    lemma_member_count(member_views(members@), "error"@);
                    lemma_member_count(member_views(members@), "id"@);
                    lemma_member_count(member_views(members@), "jsonrpc"@);
                }
                if members.len() != 3 || count_members(&members, "id") != 1 || count_members(
                    &members,
                    "jsonrpc",
                ) != 1 {
                    return None;
                }
                let id = find_last_member(&members, "id");
                let jsonrpc = find_last_member(&members, "jsonrpc");
                let (id, jsonrpc) = match (id, jsonrpc) {
                    (Some(id), Some(jsonrpc)) => (id, jsonrpc),
                    _ => return None,
                };
                if count_members(&members, "result") == 1 {
                    match find_last_member(&members, "result") {
                        Some(result) => Response::success_from(
                            result.as_str(),
                            id.as_str(),
                            jsonrpc.as_str(),
                        ),
                        None => None,
                    }
                } else if count_members(&members, "error") == 1 {
                    match find_last_member(&members, "error") {
                        Some(error) => Response::failure_from(
                            error.as_str(),
                            id.as_str(),
                            jsonrpc.as_str(),
                        ),
                        None => None,
                    }
                } else {
                    None
                }
            },
            None => match read_array(json) {
                Some(elements) => if elements.len() == 3 {
                    Response::success_from(
                        elements[0].as_str(),
                        elements[1].as_str(),
                        elements[2].as_str(),
                    )
                } else {
                    None
                },
                None => None,
            },
        }
    }

    /// Writes the response as JSON.
    pub fn to_json(&self) -> (json: String)
        ensures
            json@ == self@.json_text(),
    {
        let mut members: Vec<(String, String)> = Vec::new();
        match self {
            Response::Success(success) => {
                members.push(("result".to_owned(), success.result.as_json().to_owned()));
                members.push(("id".to_owned(), success.id.as_json().to_owned()));
                members.push(("jsonrpc".to_owned(), quote(success.jsonrpc.as_str())));
                assert(member_views(members@) =~= seq![
                    ("result"@, success.result@),
                    ("id"@, success.id@),
                    ("jsonrpc"@, json_quoted(success.jsonrpc@)),
                ]);
            },
            Response::Error(error) => {
                members.push(("error".to_owned(), error.error.to_json()));
                members.push(("id".to_owned(), error.id.as_json().to_owned()));
                members.push(("jsonrpc".to_owned(), quote(error.jsonrpc.as_str())));
                assert(member_views(members@) =~= seq![
                    ("error"@, error.error@.json_text()),
                    ("id"@, error.id@),
                    ("jsonrpc"@, json_quoted(error.jsonrpc@)),
                ]);
            },
        }
        write_object(&members)
    }
}

/// The contents of a [`Request`].
#[verifier::ext_equal]
pub struct RequestView {
    pub prefix: Prefix,
    pub name: Seq<char>,
    pub params: Map<Seq<char>, Seq<char>>,
    pub id: Seq<char>,
    pub jsonrpc: Seq<char>,
}

impl View for Request {
    type V = RequestView;

    open spec fn view(&self) -> RequestView {
        RequestView {
            prefix: self.method.prefix,
            name: self.method.name@,
            params: self.params@,
            id: self.id@,
            jsonrpc: self.jsonrpc@,
        }
    }
}

/// The contents of a [`Notification`].
#[verifier::ext_equal]
pub struct NotificationView {
    pub prefix: Prefix,
    pub name: Seq<char>,
    pub params: Map<Seq<char>, Seq<char>>,
    pub jsonrpc: Seq<char>,
}

impl View for Notification {
    type V = NotificationView;

    open spec fn view(&self) -> NotificationView {
        NotificationView {
            prefix: self.method.prefix,
            name: self.method.name@,
            params: self.params@,
            jsonrpc: self.jsonrpc@,
        }
    }
}

/// The parameters that the members of an object denote; of members with one name, the last one counts.
pub open spec fn params_of_members(members: Seq<(Seq<char>, Seq<char>)>) -> Option<
    Map<Seq<char>, Seq<char>>,
>
    decreases members.len(),
{
    if members.len() == 0 {
        Some(Map::empty())
    } else {
        match (params_of_members(members.drop_last()), json_value(members.last().1)) {
            (Some(params), Some(value)) => Some(params.insert(members.last().0, value)),
            _ => None,
        }
    }
}

/// Members denote no parameters where the first of them do not.
proof fn lemma_params_fail(members: Seq<(Seq<char>, Seq<char>)>, n: int)
    requires
        0 <= n <= members.len(),
        params_of_members(members.take(n)) is None,
    ensures
        params_of_members(members) is None,
    decreases members.len() - n,
{
    if n < members.len() {
        assert(members.take(n + 1).drop_last() =~= members.take(n));
        lemma_params_fail(members, n + 1);
    } else {
        assert(members.take(n) =~= members);
    }
}

/// The parameters that a JSON text denotes, which need to be given by name.
pub open spec fn params_of_json(text: Seq<char>) -> Option<Map<Seq<char>, Seq<char>>> {
    if is_member_value(text) {
        match object_members(Names::Escaped, text) {
            Some(members) => params_of_members(members),
            None => None,
        }
    } else {
        None
    }
}

/// The method that a JSON text denotes.
pub open spec fn method_of_json(text: Seq<char>) -> Option<(Prefix, Seq<char>)> {
    match json_string(text) {
        Some(text) => Method::parsed(text),
        None => None,
    }
}

/// How parameters are written, as members of an object.
pub open spec fn param_texts(params: Seq<(Seq<char>, Seq<char>)>) -> Seq<Seq<char>> {
    Seq::new(params.len(), |i: int| json_quoted(params[i].0) + seq![':'] + params[i].1)
}

/// The JSON text of parameters.
pub open spec fn params_text(params: Seq<(Seq<char>, Seq<char>)>) -> Seq<char> {
    seq!['{'] + joined(param_texts(params)) + seq!['}']
}

impl RequestView {
    /// The request that a JSON text denotes: an object with one method, parameters, an id and a
    /// version, and possibly other members, or an array of the four.
    pub open spec fn of_json(text: Seq<char>) -> Option<Self> {
        match (object_members(Names::Escaped, text), json_array(text)) {
            (Some(members), _) => if is_whole(text) && member_count(members, "method"@) == 1
                && member_count(members, "params"@) == 1 && member_count(members, "id"@) == 1
                && member_count(members, "jsonrpc"@) == 1 {
                RequestView::of_texts(
                    last_member(members, "method"@)->0,
                    last_member(members, "params"@)->0,
                    last_member(members, "id"@)->0,
                    last_member(members, "jsonrpc"@)->0,
                )
            } else {
                None
            },
            (None, Some(elements)) => if elements.len() == 4 {
                RequestView::of_texts(elements[0], elements[1], elements[2], elements[3])
            } else {
                None
            },
            (None, None) => None,
        }
    }

    /// The request of a method, parameters, an id and a version, given as JSON texts.
    pub open spec fn of_texts(
        method: Seq<char>,
        params: Seq<char>,
        id: Seq<char>,
        jsonrpc: Seq<char>,
    ) -> Option<Self> {
        match (method_of_json(method), params_of_json(params), json_string(jsonrpc)) {
            (Some((prefix, name)), Some(params), Some(jsonrpc)) => match json_value(id) {
                Some(value) => if is_member_value(id) {
                    Some(RequestView { prefix, name, params, id: value, jsonrpc })
                } else {
                    None
                },
                None => None,
            },
            _ => None,
        }
    }

    /// The JSON text of the request, with its parameters in the given order.
    pub open spec fn json_text(self, params: Seq<(Seq<char>, Seq<char>)>) -> Seq<char> {
        object_text(
            seq![
                ("method"@, json_quoted(method_text(self.prefix, self.name))),
                ("params"@, params_text(params)),
                ("id"@, self.id),
                ("jsonrpc"@, json_quoted(self.jsonrpc)),
            ],
        )
    }
}

impl NotificationView {
    /// The notification that a JSON text denotes: an object with one method, parameters and a
    /// version, and possibly other members, or an array of the three.
    pub open spec fn of_json(text: Seq<char>) -> Option<Self> {
        match (object_members(Names::Escaped, text), json_array(text)) {
            (Some(members), _) => if is_whole(text) && member_count(members, "method"@) == 1
                && member_count(members, "params"@) == 1 && member_count(members, "jsonrpc"@) == 1 {
                NotificationView::of_texts(
                    last_member(members, "method"@)->0,
                    last_member(members, "params"@)->0,
                    last_member(members, "jsonrpc"@)->0,
                )
            } else {
                None
            },
            (None, Some(elements)) => if elements.len() == 3 {
                NotificationView::of_texts(elements[0], elements[1], elements[2])
            } else {
                None
            },
            (None, None) => None,
        }
    }

    /// The notification of a method, parameters and a version, given as JSON texts.
    pub open spec fn of_texts(
        method: Seq<char>,
        params: Seq<char>,
        jsonrpc: Seq<char>,
    ) -> Option<Self> {
        match (method_of_json(method), params_of_json(params), json_string(jsonrpc)) {
            (Some((prefix, name)), Some(params), Some(jsonrpc)) => Some(
                NotificationView { prefix, name, params, jsonrpc },
            ),
            _ => None,
        }
    }

    /// The JSON text of the notification, with its parameters in the given order.
    pub open spec fn json_text(self, params: Seq<(Seq<char>, Seq<char>)>) -> Seq<char> {
        object_text(
            seq![
                ("method"@, json_quoted(method_text(self.prefix, self.name))),
                ("params"@, params_text(params)),
                ("jsonrpc"@, json_quoted(self.jsonrpc)),
            ],
        )
    }
}

impl Method {
    /// Reads a method from its JSON text.
    pub fn from_json(json: &str) -> (method: Option<Method>)
        ensures
            match method {
                Some(method) => method_of_json(json@) == Some((method.prefix, method.name@)),
                None => method_of_json(json@) is None,
            },
    {
        match read_string(json) {
            Some(text) => match Method::from_str(text.as_str()) {
                Ok(method) => Some(method),
                Err(_) => None,
            },
            None => None,
        }
    }
}

/// Reads parameters from their JSON text.
fn read_params(json: &str) -> (params: Option<KeyedMap<String, Value>>)
    ensures
        match params {
            Some(params) => params_of_json(json@) == Some(params@),
            None => params_of_json(json@) is None,
        },
{
    if !check_member_value(json) {
        return None;
    }
    let members = match read_object(Names::Escaped, json) {
        Some(members) => members,
        None => return None,
    };
    let ghost views = member_views(members@);
    let mut params: KeyedMap<String, Value> = KeyedMap::new();
    let mut i: usize = 0;
    assert(views.take(0) =~= Seq::empty());
    while i < members.len()
        invariant
            i <= members@.len(),
            views == member_views(members@),
            params_of_json(json@) == params_of_members(views),
            params_of_members(views.take(i as int)) == Some(params@),
        decreases members@.len() - i,
    {
        let ghost at = i as int;
        assert(views.take(at + 1).drop_last() =~= views.take(at));
        assert(views.take(at + 1).last() == views[at]);
        match Value::from_json(members[i].1.as_str()) {
            Some(value) => {
                params.insert(members[i].0.clone(), value);
            },
            None => {
                proof {
                    lemma_params_fail(views, at + 1);
                }
                return None;
            },
        }
        i += 1;
    }
    assert(views.take(i as int) =~= views);
    Some(params)
}

/// Writes parameters as JSON.
fn write_params(params: &KeyedMap<String, Value>) -> (json: String)
    ensures
        lists(params.listed(), params@),
        json@ == params_text(params.listed()),
{
    let ghost texts = param_texts(params.listed());
    let count: usize = params.len();
    let mut json = String::new();
    json.push('{');
    let mut i: usize = 0;
    assert(json@ =~= seq!['{'] + joined(texts.take(0)));
    while i < count
        invariant
            i <= count,
            count == params.listed().len(),
            texts == param_texts(params.listed()),
            json@ == seq!['{'] + joined(texts.take(i as int)),
        decreases count - i,
    {
        let ghost next = texts.take(i + 1);
        assert(next.drop_last() =~= texts.take(i as int));
        if i > 0 {
            json.push(',');
        }
        let (name, value) = params.entry(i);
        json.append(quote(name.as_str()).as_str());
        json.push(':');
        json.append(value.as_json());
        assert(json@ =~= seq!['{'] + joined(next));
        i += 1;
    }
    assert(texts.take(i as int) =~= texts);
    json.push('}');
    json
}

/// Copies parameters.
fn copy_params(params: &KeyedMap<String, Value>) -> (copy: KeyedMap<String, Value>)
    ensures
        copy@ == params@,
{
    let ghost listed = params.listed();
    let count: usize = params.len();
    let mut copy: KeyedMap<String, Value> = KeyedMap::new();
    let mut i: usize = 0;
    while i < count
        invariant
            i <= count,
            count == listed.len(),
            listed == params.listed(),
            lists(listed, params@),
            forall|j: int| 0 <= j < i ==> copy@.contains_key((#[trigger] listed[j]).0),
            forall|k: Seq<char>| #[trigger]
                copy@.contains_key(k) ==> params@.contains_key(k) && copy@[k] == params@[k],
        decreases count - i,
    {
        let (name, value) = params.entry(i);
        copy.insert(name.clone(), value.copy());
        i += 1;
    }
    assert(copy@ =~= params@);
    copy
}

/// Returns whether all parameters are among others, with the same values.
fn are_among(params: &KeyedMap<String, Value>, others: &KeyedMap<String, Value>) -> (among: bool)
    ensures
        among == params@.submap_of(others@),
{
    let ghost listed = params.listed();
    let count: usize = params.len();
    let mut i: usize = 0;
    while i < count
        invariant
            i <= count,
            count == listed.len(),
            listed == params.listed(),
            lists(listed, params@),
            forall|j: int|
                0 <= j < i ==> others@.contains_key((#[trigger] listed[j]).0)
                    && others@[listed[j].0] == listed[j].1,
        decreases count - i,
    {
        let (name, value) = params.entry(i);
        let same = match others.get(name) {
            Some(other) => same_text(value.as_json(), other.as_json()),
            None => false,
        };
        if !same {
            assert(params@.dom().contains(listed[i as int].0));
            return false;
        }
        i += 1;
    }
    true
}

/// Returns whether parameters are the same.
fn same_params(params: &KeyedMap<String, Value>, others: &KeyedMap<String, Value>) -> (same: bool)
    ensures
        same == (params@ == others@),
{
    let same = are_among(params, others) && are_among(others, params);
    proof {
        if same {
            assert forall|k: Seq<char>| params@.dom().contains(k) == others@.dom().contains(k) by {}
            assert(params@ =~= others@);
        }
    }
    same
}

impl PartialEq for Request {
    fn eq(&self, other: &Self) -> (same: bool) {
        let same = self.method.prefix == other.method.prefix && self.method.name
            == other.method.name && same_params(&self.params, &other.params) && same_text(
            self.id.as_json(),
            other.id.as_json(),
        ) && self.jsonrpc == other.jsonrpc;
        assert(same ==> self@ =~= other@);
        same
    }
}

impl vstd::std_specs::cmp::PartialEqSpecImpl for Request {
    open spec fn obeys_eq_spec() -> bool {
        true
    }

    open spec fn eq_spec(&self, other: &Self) -> bool {
        self@ == other@
    }
}

impl Eq for Request {

}

impl Clone for Request {
    fn clone(&self) -> (copy: Self)
        ensures
            copy@ == self@,
    {
        Request {
            method: Method { prefix: self.method.prefix, name: self.method.name.clone() },
            params: copy_params(&self.params),
            id: self.id.copy(),
            jsonrpc: self.jsonrpc.clone(),
        }
    }
}

impl PartialEq for Notification {
    fn eq(&self, other: &Self) -> (same: bool) {
        let same = self.method.prefix == other.method.prefix && self.method.name
            == other.method.name && same_params(&self.params, &other.params) && self.jsonrpc
            == other.jsonrpc;
        assert(same ==> self@ =~= other@);
        same
    }
}

impl vstd::std_specs::cmp::PartialEqSpecImpl for Notification {
    open spec fn obeys_eq_spec() -> bool {
        true
    }

    open spec fn eq_spec(&self, other: &Self) -> bool {
        self@ == other@
    }
}

impl Eq for Notification {

}

impl Clone for Notification {
    fn clone(&self) -> (copy: Self)
        ensures
            copy@ == self@,
    {
        Notification {
            method: Method { prefix: self.method.prefix, name: self.method.name.clone() },
            params: copy_params(&self.params),
            jsonrpc: self.jsonrpc.clone(),
        }
    }
}

impl Request {
    /// Makes a request of a method, parameters, an id and a version, given as JSON texts.
    fn from_texts(method: &str, params: &str, id: &str, jsonrpc: &str) -> (request: Option<Request>)
        ensures
            match request {
                Some(request) => RequestView::of_texts(method@, params@, id@, jsonrpc@) == Some(
                    request@,
                ),
                None => RequestView::of_texts(method@, params@, id@, jsonrpc@) is None,
            },
    {
        if !check_member_value(id) {
            return None;
        }
        match (
            Method::from_json(method),
            read_params(params),
            Value::from_json(id),
            read_string(jsonrpc),
        ) {
            (Some(method), Some(params), Some(id), Some(jsonrpc)) => Some(
                Request { method, params, id, jsonrpc },
            ),
            _ => None,
        }
    }

    /// Reads a request from its JSON text.
    pub fn from_json(json: &str) -> (request: Option<Request>)
        ensures
            match request {
                Some(request) => RequestView::of_json(json@) == Some(request@),
                None => RequestView::of_json(json@) is None,
            },
    {
        match read_object(Names::Escaped, json) {
            Some(members) => {
                proof {
                    lemma_member_count(member_views(members@), "method"@);
                    lemma_member_count(member_views(members@), "params"@);
                    lemma_member_count(member_views(members@), "id"@);
                    lemma_member_count(member_views(members@), "jsonrpc"@);
                }
                if !check_whole(json) || count_members(&members, "method") != 1 || count_members(
                    &members,
                    "params",
                ) != 1 || count_members(&members, "id") != 1 || count_members(&members, "jsonrpc")
                    != 1 {
                    return None;
                }
                match (
                    find_last_member(&members, "method"),
                    find_last_member(&members, "params"),
                    find_last_member(&members, "id"),
                    find_last_member(&members, "jsonrpc"),
                ) {
                    (Some(method), Some(params), Some(id), Some(jsonrpc)) => Request::from_texts(
                        method.as_str(),
                        params.as_str(),
                        id.as_str(),
                        jsonrpc.as_str(),
                    ),
                    _ => None,
                }
            },
            None => match read_array(json) {
                Some(elements) => if elements.len() == 4 {
                    Request::from_texts(
                        elements[0].as_str(),
                        elements[1].as_str(),
                        elements[2].as_str(),
                        elements[3].as_str(),
                    )
                } else {
                    None
                },
                None => None,
            },
        }
    }

    /// Writes the request as JSON.
    pub fn to_json(&self) -> (json: String)
        ensures
            lists(self.params.listed(), self@.params),
            json@ == self@.json_text(self.params.listed()),
    {
        let mut members: Vec<(String, String)> = Vec::new();
        members.push(("method".to_owned(), quote(self.method.to_text().as_str())));
        members.push(("params".to_owned(), write_params(&self.params)));
        members.push(("id".to_owned(), self.id.as_json().to_owned()));
        members.push(("jsonrpc".to_owned(), quote(self.jsonrpc.as_str())));
        assert(member_views(members@) =~= seq![
            ("method"@, json_quoted(method_text(self@.prefix, self@.name))),
            ("params"@, params_text(self.params.listed())),
            ("id"@, self@.id),
            ("jsonrpc"@, json_quoted(self@.jsonrpc)),
        ]);
        write_object(&members)
    }
}

impl Notification {
    /// Makes a notification of a method, parameters and a version, given as JSON texts.
    fn from_texts(method: &str, params: &str, jsonrpc: &str) -> (notification: Option<Notification>)
        ensures
            match notification {
                Some(notification) => NotificationView::of_texts(method@, params@, jsonrpc@)
                    == Some(notification@),
                None => NotificationView::of_texts(method@, params@, jsonrpc@) is None,
            },
    {
        match (Method::from_json(method), read_params(params), read_string(jsonrpc)) {
            (Some(method), Some(params), Some(jsonrpc)) => Some(
                Notification { method, params, jsonrpc },
            ),
            _ => None,
        }
    }

    /// Reads a notification from its JSON text.
    pub fn from_json(json: &str) -> (notification: Option<Notification>)
        ensures
            match notification {
                Some(notification) => NotificationView::of_json(json@) == Some(notification@),
                None => NotificationView::of_json(json@) is None,
            },
    {
        match read_object(Names::Escaped, json) {
            Some(members) => {
                proof {
                    lemma_member_count(member_views(members@), "method"@);
                    lemma_member_count(member_views(members@), "params"@);
                    lemma_member_count(member_views(members@), "jsonrpc"@);
                }
                if !check_whole(json) || count_members(&members, "method") != 1 || count_members(
                    &members,
                    "params",
                ) != 1 || count_members(&members, "jsonrpc") != 1 {
                    return None;
                }
                match (
                    find_last_member(&members, "method"),
                    find_last_member(&members, "params"),
                    find_last_member(&members, "jsonrpc"),
                ) {
                    (Some(method), Some(params), Some(jsonrpc)) => Notification::from_texts(
                        method.as_str(),
                        params.as_str(),
                        jsonrpc.as_str(),
                    ),
                    _ => None,
                }
            },
            None => match read_array(json) {
                Some(elements) => if elements.len() == 3 {
                    Notification::from_texts(
                        elements[0].as_str(),
                        elements[1].as_str(),
                        elements[2].as_str(),
                    )
                } else {
                    None
                },
                None => None,
            },
        }
    }

    /// Writes the notification as JSON.
    pub fn to_json(&self) -> (json: String)
        ensures
            lists(self.params.listed(), self@.params),
            json@ == self@.json_text(self.params.listed()),
    {
        let mut members: Vec<(String, String)> = Vec::new();
        members.push(("method".to_owned(), quote(self.method.to_text().as_str())));
        members.push(("params".to_owned(), write_params(&self.params)));
        members.push(("jsonrpc".to_owned(), quote(self.jsonrpc.as_str())));
        assert(member_views(members@) =~= seq![
            ("method"@, json_quoted(method_text(self@.prefix, self@.name))),
            ("params"@, params_text(self.params.listed())),
            ("jsonrpc"@, json_quoted(self@.jsonrpc)),
        ]);
        write_object(&members)
    }
}

/// The prefixes by the texts that they are read from and written as.
pub proof fn lemma_prefixes(text: Seq<char>)
    ensures
        text == "prefix"@ || text == "lsp0"@ ==> Prefix::named(text) == Some(Prefix::LSPS0),
        Prefix::named(text) == Some(Prefix::LSPS0) ==> text == "prefix"@ || text == "lsp0"@,
        text == "lsp1"@ <==> Prefix::named(text) == Some(Prefix::LSPS1),
        text == "lsp2"@ <==> Prefix::named(text) == Some(Prefix::LSPS2),
        Prefix::LSPS0.text() == "prefix"@,
        Prefix::LSPS1.text() == "lsps1"@,
        Prefix::LSPS2.text() == "lsps2"@,
{
    reveal_strlit("prefix");
    reveal_strlit("lsp0");
    reveal_strlit("lsp1");
    reveal_strlit("lsp2");
    assert("lsp0"@[3] == '0' && "lsp1"@[3] == '1' && "lsp2"@[3] == '2');
    assert("prefix"@.len() == 6 && "lsp1"@.len() == 4 && "lsp2"@.len() == 4);
}

/// A method is read as a prefix and the name behind the first point, up to the next point if there is
/// one. A text without a point, or with an unknown prefix, is no method.
pub proof fn lemma_methods_have_two_parts(prefix: Seq<char>, name: Seq<char>, rest: Seq<char>)
    requires
        forall|i: int| 0 <= i < prefix.len() ==> #[trigger] prefix[i] != '.',
        forall|i: int| 0 <= i < name.len() ==> #[trigger] name[i] != '.',
    ensures
        Method::parsed(prefix) is None,
        Prefix::named(prefix) is None ==> Method::parsed(prefix.push('.') + name) is None,
        Prefix::named(prefix) is Some ==> Method::parsed(prefix.push('.') + name) == Some(
            (Prefix::named(prefix)->0, name),
        ),
        Method::parsed(prefix.push('.') + (name.push('.') + rest)) == Method::parsed(
            prefix.push('.') + name,
        ),
{
    lemma_fields_end_at_separators(name, rest, '.');
    lemma_fields_end_at_separators(prefix, name, '.');
    lemma_fields_end_at_separators(prefix, name.push('.') + rest, '.');
}

/// An error is read exactly where its code, its message and its data, if there is any, can be read; data
/// that is null is none.
pub proof fn lemma_how_errors_are_read(
    code: Seq<char>,
    message: Seq<char>,
    data: Option<Seq<char>>,
)
    ensures
        ({
            let error = ErrorView::of_texts(code, message, data);
            let readable = data is Some ==> json_value(data->0) is Some && is_member_value(data->0);
            &&& error is Some <==> json_i32(code) is Some && json_string(message) is Some
                && readable
            &&& error is Some ==> {
                &&& error->0.code == json_i32(code)->0
                &&& error->0.message == json_string(message)->0
                &&& data is None ==> error->0.data is None
                &&& data is Some && json_value(data->0)->0 == "null"@ ==> error->0.data is None
                &&& data is Some && json_value(data->0)->0 != "null"@ ==> error->0.data
                    == json_value(data->0)
            }
        }),
{
}

/// A response is read exactly where each of its parts can be read, and holds what they denote.
pub proof fn lemma_how_responses_are_read(
    outcome: Seq<char>,
    id: Seq<char>,
    jsonrpc: Seq<char>,
)
    ensures
        ({
            let success = ResponseView::success_of(outcome, id, jsonrpc);
            let failure = ResponseView::failure_of(outcome, id, jsonrpc);
            let framed = json_value(id) is Some && json_string(jsonrpc) is Some;
            &&& success is Some <==> framed && json_value(outcome) is Some
            &&& success is Some ==> success->0 == (ResponseView::Success {
                result: json_value(outcome)->0,
                id: json_value(id)->0,
                jsonrpc: json_string(jsonrpc)->0,
            })
            &&& failure is Some <==> framed && ErrorView::of_json(outcome) is Some
            &&& failure is Some ==> failure->0 == (ResponseView::Error {
                error: ErrorView::of_json(outcome)->0,
                id: json_value(id)->0,
                jsonrpc: json_string(jsonrpc)->0,
            })
        }),
{
}

/// A request or a notification is read exactly where each of its parts can be read, and holds what they
/// denote.
pub proof fn lemma_how_calls_are_read(
    method: Seq<char>,
    params: Seq<char>,
    id: Seq<char>,
    jsonrpc: Seq<char>,
)
    ensures
        ({
            let request = RequestView::of_texts(method, params, id, jsonrpc);
            let notification = NotificationView::of_texts(method, params, jsonrpc);
            let called = json_string(method) is Some && Method::parsed(json_string(method)->0)
                is Some && params_of_json(params) is Some && json_string(jsonrpc) is Some;
            let (prefix, name) = Method::parsed(json_string(method)->0)->0;
            &&& notification is Some <==> called
            &&& request is Some <==> called && json_value(id) is Some && is_member_value(id)
            &&& notification is Some ==> notification->0 == (NotificationView {
                prefix,
                name,
                params: params_of_json(params)->0,
                jsonrpc: json_string(jsonrpc)->0,
            })
            &&& request is Some ==> request->0 == (RequestView {
                prefix,
                name,
                params: params_of_json(params)->0,
                id: json_value(id)->0,
                jsonrpc: json_string(jsonrpc)->0,
            })
        }),
{
}

/// Parameters are read from the members one after the other, each by its name: a later member replaces
/// an earlier one of its name, and where one cannot be read, none are.
pub proof fn lemma_params_are_read_in_turn(
    members: Seq<(Seq<char>, Seq<char>)>,
    more: (Seq<char>, Seq<char>),
)
    ensures
        params_of_members(Seq::empty()) == Some(Map::<Seq<char>, Seq<char>>::empty()),
        params_of_members(members) is None || json_value(more.1) is None ==> params_of_members(
            members.push(more),
        ) is None,
        params_of_members(members) is Some && json_value(more.1) is Some ==> params_of_members(
            members.push(more),
        ) == Some(params_of_members(members)->0.insert(more.0, json_value(more.1)->0)),
{
    assert(members.push(more).drop_last() =~= members);
}

/// What errors, responses, requests and notifications are written with: the members that they are read
/// from, each under its name.
pub proof fn lemma_how_calls_are_written(
    error: ErrorView,
    response: ResponseView,
    request: RequestView,
    notification: NotificationView,
    params: Seq<(Seq<char>, Seq<char>)>,
)
    ensures
        error.json_text() == object_text(
            seq![
                ("code"@, signed_digits(error.code as int)),
                ("message"@, json_quoted(error.message)),
                (
                    "data"@,
                    if error.data is Some {
                        error.data->0
                    } else {
                        "null"@
                    },
                ),
            ],
        ),
        match response {
            ResponseView::Success { result, id, jsonrpc } => response.json_text() == object_text(
                seq![("result"@, result), ("id"@, id), ("jsonrpc"@, json_quoted(jsonrpc))],
            ),
            ResponseView::Error { error, id, jsonrpc } => response.json_text() == object_text(
                seq![
                    ("error"@, error.json_text()),
                    ("id"@, id),
                    ("jsonrpc"@, json_quoted(jsonrpc)),
                ],
            ),
        },
        request.json_text(params) == object_text(
            seq![
                (
                    "method"@,
                    json_quoted(request.prefix.text() + seq!['.'] + request.name),
                ),
                ("params"@, params_text(params)),
                ("id"@, request.id),
                ("jsonrpc"@, json_quoted(request.jsonrpc)),
            ],
        ),
        notification.json_text(params) == object_text(
            seq![
                (
                    "method"@,
                    json_quoted(notification.prefix.text() + seq!['.'] + notification.name),
                ),
                ("params"@, params_text(params)),
                ("jsonrpc"@, json_quoted(notification.jsonrpc)),
            ],
        ),
{
}

/// An object is read as an error, a response, a request or a notification by the members of the names
/// that these have, each of which is told once. A list is read by its elements in their order.
pub proof fn lemma_where_calls_are_read_from(
    text: Seq<char>,
    members: Seq<(Seq<char>, Seq<char>)>,
    elements: Seq<Seq<char>>,
)
    requires
        object_members(Names::Escaped, text) == Some(members) || (object_members(
            Names::Escaped,
            text,
        ) is None && json_array(text) == Some(elements)),
    ensures
        object_members(Names::Escaped, text) is Some ==> {
            let once = |name: Seq<char>| member_count(members, name) == 1;
            let value = |name: Seq<char>| last_member(members, name)->0;
            &&& ErrorView::of_json(text) == (if is_whole(text) && once("code"@) && once("message"@)
                && member_count(members, "data"@) <= 1 {
                ErrorView::of_texts(
                    value("code"@),
                    value("message"@),
                    last_member(members, "data"@),
                )
            } else {
                None
            })
            &&& RequestView::of_json(text) == (if is_whole(text) && once("method"@) && once(
                "params"@,
            ) && once("id"@) && once("jsonrpc"@) {
                RequestView::of_texts(
                    value("method"@),
                    value("params"@),
                    value("id"@),
                    value("jsonrpc"@),
                )
            } else {
                None
            })
            &&& NotificationView::of_json(text) == (if is_whole(text) && once("method"@) && once(
                "params"@,
            ) && once("jsonrpc"@) {
                NotificationView::of_texts(value("method"@), value("params"@), value("jsonrpc"@))
            } else {
                None
            })
            &&& ResponseView::of_json(text) is Some ==> json_is_value(text) && members.len() == 3
                && once("id"@) && once("jsonrpc"@) && (once("result"@) || once("error"@))
            &&& json_is_value(text) && members.len() == 3 && once("result"@) && once("id"@)
                && once("jsonrpc"@) ==> ResponseView::of_json(text) == ResponseView::success_of(
                value("result"@),
                value("id"@),
                value("jsonrpc"@),
            )
            &&& json_is_value(text) && members.len() == 3 && !once("result"@) && once("error"@)
                && once("id"@) && once("jsonrpc"@) ==> ResponseView::of_json(text)
                == ResponseView::failure_of(value("error"@), value("id"@), value("jsonrpc"@))
        },
        object_members(Names::Escaped, text) is None ==> {
            &&& ErrorView::of_json(text) == (if elements.len() == 3 {
                ErrorView::of_texts(elements[0], elements[1], Some(elements[2]))
            } else {
                None
            })
            &&& RequestView::of_json(text) == (if elements.len() == 4 {
                RequestView::of_texts(elements[0], elements[1], elements[2], elements[3])
            } else {
                None
            })
            &&& NotificationView::of_json(text) == (if elements.len() == 3 {
                NotificationView::of_texts(elements[0], elements[1], elements[2])
            } else {
                None
            })
            &&& ResponseView::of_json(text) == (if json_is_value(text) && elements.len() == 3 {
                ResponseView::success_of(elements[0], elements[1], elements[2])
            } else {
                None
            })
        },
{
}

/// The version of the format, and the code of a request that is none.
pub proof fn lemma_format_constants()
    ensures
        VERSION@ == "2.0"@,
        INVALID_REQUEST_ERROR_CODE == -32600,
{
}

} // verus!
