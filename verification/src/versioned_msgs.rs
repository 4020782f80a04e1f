//! LSPS messages in which each request names a protocol version.

use vstd::prelude::*;
use vstd::string::StringExecFns;

use crate::jit_channel::msgs::Message;
use crate::lsps0::msgs::{LSPS0Message, RequestId, ResponseError, ResponseErrorView};
use crate::lsps1::msgs::{
    CreateOrderResponse, GetInfoRequest, GetOrderRequest, OptionsSupported, OrderParams,
};

use crate::text::{decimal_digits, u64_to_string};

verus! {

pub const LSPS1_CREATE_ORDER_REQUEST_INVALID_VERSION_ERROR_CODE: i32 = 1;

/// The protocol versions that this library supports.
pub open spec fn supports_version(version: u16) -> bool {
    version == 1
}

/// Returns whether this library supports a protocol version.
pub fn is_supported_version(version: u16) -> (supported: bool)
    ensures
        supported == supports_version(version),
{
    version == 1
}

/// Lists the protocol versions that this library supports.
pub fn supported_versions() -> (versions: Vec<u16>)
    ensures
        versions@ == seq![1u16],
        forall|version: u16| versions@.contains(version) <==> supports_version(version),
{
    let mut versions: Vec<u16> = Vec::new();
    versions.push(1);
    assert(versions@[0] == 1);
    versions
}

/// The largest version among those offered that this library supports.
pub open spec fn max_shared_version(versions: Seq<u16>) -> Option<u16> {
    if versions.contains(1) {
        Some(1)
    } else {
        None
    }
}

/// The shared version is supported, offered, and no smaller than any other such version.
pub proof fn lemma_max_shared_version(versions: Seq<u16>)
    ensures
        match max_shared_version(versions) {
            Some(version) => supports_version(version) && versions.contains(version)
                && forall|other: u16|
                #![auto]
                supports_version(other) && versions.contains(other) ==> other <= version,
            None => forall|other: u16| #![auto] versions.contains(other) ==> !supports_version(other),
        },
{
}

/// Finds the largest version among those offered that this library supports.
pub fn find_max_shared_version(versions: &Vec<u16>) -> (version: Option<u16>)
    ensures
        version == max_shared_version(versions@),
{
    let mut found: Option<u16> = None;
    let mut i: usize = 0;
    while i < versions.len()
        invariant
            i <= versions@.len(),
            found == max_shared_version(versions@.take(i as int)),
        decreases versions@.len() - i,
    {
        let version: u16 = versions[i];
        let ghost next = versions@.take(i + 1);
        assert(next == versions@.take(i as int).push(version));
        if is_supported_version(version) {
            match found {
                Some(best) => {
                    if best < version {
                        found = Some(version);
                    }
                },
                None => {
                    found = Some(version);
                },
            }
            assert(next[i as int] == 1);
        }
        assert(next.contains(1) ==> version == 1 || versions@.take(i as int).contains(1));
        assert(versions@.take(i as int).contains(1) ==> next.contains(1)) by {
            if versions@.take(i as int).contains(1) {
                let j = choose|j: int|
                    0 <= j < i && #[trigger] versions@.take(i as int)[j] == 1;
                assert(next[j] == 1);
            }
        }
        i += 1;
    }
    assert(versions@.take(i as int) == versions@);
    found
}

/// What a peer is told about a protocol version that this library does not support.
pub open spec fn unsupported_version_text(version: u16) -> Seq<char> {
    "version "@ + decimal_digits(version as nat) + " is not supported"@
}

/// Tells a peer that a protocol version is not supported, and which ones are.
pub fn unsupported_version_error(code: i32, version: u16) -> (error: ResponseError)
    ensures
        error@ == (ResponseErrorView {
            code,
            message: unsupported_version_text(version),
            data: Some("Supported versions are [1]"@),
        }),
{
    let mut message = "version ".to_owned();
    message.append(u64_to_string(version as u64).as_str());
    message.append(" is not supported");
    ResponseError { code, message, data: Some("Supported versions are [1]".to_owned()) }
}

/// A response to a [`GetInfoRequest`].
#[derive(Clone, Debug, PartialEq, Eq)]
pub struct GetInfoResponse {
    /// The protocol versions that the LSP supports.
    pub supported_versions: Vec<u16>,
    /// The website of the LSP.
    pub website: String,
    /// All options supported by the LSP.
    pub options: OptionsSupported,
}

/// A request made to an LSP to create an order.
#[derive(Debug, PartialEq, Eq)]
pub struct CreateOrderRequest {
    /// The order made.
    pub order: OrderParams,
    /// The protocol version.
    pub version: u16,
}

impl Clone for CreateOrderRequest {
    fn clone(&self) -> (copy: Self)
        ensures
            copy == *self,
    {
        CreateOrderRequest { order: self.order.clone(), version: self.version }
    }
}

/// A response to a [`GetOrderRequest`].
#[derive(Clone, Debug, PartialEq, Eq)]
pub struct GetOrderResponse {
    /// The state of the order.
    pub response: CreateOrderResponse,
}

/// An LSPS1 request.
#[derive(Clone, Debug, PartialEq, Eq)]
pub enum LSPS1Request {
    GetInfo(GetInfoRequest),
    CreateOrder(CreateOrderRequest),
    GetOrder(GetOrderRequest),
}

impl View for LSPS1Request {
    type V = LSPS1Request;

    open spec fn view(&self) -> LSPS1Request {
        *self
    }
}

/// An LSPS1 response.
#[derive(Clone, Debug, PartialEq, Eq)]
pub enum LSPS1Response {
    GetInfo(GetInfoResponse),
    CreateOrder(CreateOrderResponse),
    CreateOrderError(ResponseError),
    GetOrder(GetOrderResponse),
    GetOrderError(ResponseError),
}

/// An LSPS1 message.
#[derive(Clone, Debug, PartialEq, Eq)]
pub enum LSPS1Message {
    Request(RequestId, LSPS1Request),
    Response(RequestId, LSPS1Response),
}

/// An LSPS message allowing to be sent over the wire.
#[derive(Clone, Debug, PartialEq, Eq)]
pub enum LSPSMessage {
    /// An invalid variant.
    Invalid,
    /// An LSPS0 message.
    LSPS0(LSPS0Message),
    /// An LSPS1 message.
    LSPS1(LSPS1Message),
    /// An LSPS2 message.
    LSPS2(Message),
}

impl TryFrom<LSPSMessage> for LSPS1Message {
    type Error = ();

    fn try_from(message: LSPSMessage) -> (result: Result<Self, ()>) {
        match message {
            LSPSMessage::LSPS1(message) => Ok(message),
            _ => Err(()),
        }
    }
}

impl vstd::std_specs::convert::TryFromSpecImpl<LSPSMessage> for LSPS1Message {
    open spec fn obeys_try_from_spec() -> bool {
        true
    }

    open spec fn try_from_spec(message: LSPSMessage) -> Result<Self, ()> {
        match message {
            LSPSMessage::LSPS1(message) => Ok(message),
            _ => Err(()),
        }
    }
}

impl From<LSPS1Message> for LSPSMessage {
    fn from(message: LSPS1Message) -> (result: Self) {
        LSPSMessage::LSPS1(message)
    }
}

impl vstd::std_specs::convert::FromSpecImpl<LSPS1Message> for LSPSMessage {
    open spec fn obeys_from_spec() -> bool {
        true
    }

    open spec fn from_spec(message: LSPS1Message) -> Self {
        LSPSMessage::LSPS1(message)
    }
}

impl TryFrom<LSPSMessage> for Message {
    type Error = ();

    fn try_from(message: LSPSMessage) -> (result: Result<Self, ()>) {
        match message {
            LSPSMessage::LSPS2(message) => Ok(message),
            _ => Err(()),
        }
    }
}

impl vstd::std_specs::convert::TryFromSpecImpl<LSPSMessage> for Message {
    open spec fn obeys_try_from_spec() -> bool {
        true
    }

    open spec fn try_from_spec(message: LSPSMessage) -> Result<Self, ()> {
        match message {
            LSPSMessage::LSPS2(message) => Ok(message),
            _ => Err(()),
        }
    }
}

impl From<Message> for LSPSMessage {
    fn from(message: Message) -> (result: Self) {
        LSPSMessage::LSPS2(message)
    }
}

impl vstd::std_specs::convert::FromSpecImpl<Message> for LSPSMessage {
    open spec fn obeys_from_spec() -> bool {
        true
    }

    open spec fn from_spec(message: Message) -> Self {
        LSPSMessage::LSPS2(message)
    }
}

/// A protocol message survives the way into a general message and back.
pub proof fn lemma_message_round_trip(lsps1: LSPS1Message, lsps2: Message)
    ensures
        <LSPS1Message as vstd::std_specs::convert::TryFromSpec<LSPSMessage>>::try_from_spec(
            <LSPSMessage as vstd::std_specs::convert::FromSpec<LSPS1Message>>::from_spec(lsps1),
        ) == Ok::<LSPS1Message, ()>(lsps1),
        <Message as vstd::std_specs::convert::TryFromSpec<LSPSMessage>>::try_from_spec(
            <LSPSMessage as vstd::std_specs::convert::FromSpec<Message>>::from_spec(lsps2),
        ) == Ok::<Message, ()>(lsps2),
{
}

/// The one protocol version that is supported is the first, and it is shared exactly where it is
/// offered.
pub proof fn lemma_first_version_is_supported(version: u16, versions: Seq<u16>)
    ensures
        supports_version(version) <==> version == 1,
        versions.contains(1) ==> max_shared_version(versions) == Some(1u16),
        !versions.contains(1) ==> max_shared_version(versions) is None,
        unsupported_version_text(version) == "version "@ + decimal_digits(version as nat)
            + " is not supported"@,
{
}

/// The version that is agreed on is the first one, exactly where it is offered.
pub proof fn lemma_first_version_is_agreed_on(
    versions: Vec<u16>,
    shared: Option<u16>,
    version: u16,
    supported: bool,
)
    requires
        call_ensures(find_max_shared_version, (&versions,), shared),
        call_ensures(is_supported_version, (version,), supported),
    ensures
        versions@.contains(1) ==> shared == Some(1u16),
        !versions@.contains(1) ==> shared is None,
        supported <==> version == 1,
{
}

} // verus!
