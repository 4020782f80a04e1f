//! Method names and amounts as they are written in messages.

use vstd::prelude::*;

use crate::lsps0::msgs::{LSPS0Request, LSPS0_LISTPROTOCOLS_METHOD_NAME};
use crate::lsps1::msgs::{
    LSPS1Request, LSPS1_CREATE_ORDER_METHOD_NAME, LSPS1_GET_INFO_METHOD_NAME,
    LSPS1_GET_ORDER_METHOD_NAME,
};
use crate::lsps2::msgs::{LSPS2Request, LSPS2_BUY_METHOD_NAME, LSPS2_GET_INFO_METHOD_NAME};
use crate::text::{decimal_digits, parse_u64, parsed_u64, same_text, u64_to_string};

verus! {

/// The methods of the LSPS protocols.
#[derive(Copy, Clone, Debug, PartialEq, Eq)]
pub enum LSPSMethod {
    LSPS0ListProtocols,
    LSPS1GetInfo,
    LSPS1GetOrder,
    LSPS1CreateOrder,
    LSPS2GetInfo,
    LSPS2Buy,
}

/// A name belongs to no method.
#[derive(Copy, Clone, Debug, PartialEq, Eq)]
pub struct UnknownMethod;

impl LSPSMethod {
    /// The name of the method.
    pub open spec fn name(self) -> Seq<char> {
        match self {
            LSPSMethod::LSPS0ListProtocols => "lsps0.list_protocols"@,
            LSPSMethod::LSPS1GetInfo => "lsps1.get_info"@,
            LSPSMethod::LSPS1CreateOrder => "lsps1.create_order"@,
            LSPSMethod::LSPS1GetOrder => "lsps1.get_order"@,
            LSPSMethod::LSPS2GetInfo => "lsps2.get_info"@,
            LSPSMethod::LSPS2Buy => "lsps2.buy"@,
        }
    }

    /// The method that a name belongs to.
    pub open spec fn named(name: Seq<char>) -> Option<LSPSMethod> {
        if name == "lsps0.list_protocols"@ {
            Some(LSPSMethod::LSPS0ListProtocols)
        } else if name == "lsps1.get_info"@ {
            Some(LSPSMethod::LSPS1GetInfo)
        } else if name == "lsps1.create_order"@ {
            Some(LSPSMethod::LSPS1CreateOrder)
        } else if name == "lsps1.get_order"@ {
            Some(LSPSMethod::LSPS1GetOrder)
        } else if name == "lsps2.get_info"@ {
            Some(LSPSMethod::LSPS2GetInfo)
        } else if name == "lsps2.buy"@ {
            Some(LSPSMethod::LSPS2Buy)
        } else {
            None
        }
    }

    /// Finds the method that a name belongs to.
    pub fn from_str(s: &str) -> (method: Result<Self, UnknownMethod>)
        ensures
            method == (match LSPSMethod::named(s@) {
                Some(method) => Ok(method),
                None => Err(UnknownMethod),
            }),
    {
        if same_text(s, LSPS0_LISTPROTOCOLS_METHOD_NAME) {
            Ok(LSPSMethod::LSPS0ListProtocols)
        } else if same_text(s, LSPS1_GET_INFO_METHOD_NAME) {
            Ok(LSPSMethod::LSPS1GetInfo)
        } else if same_text(s, LSPS1_CREATE_ORDER_METHOD_NAME) {
            Ok(LSPSMethod::LSPS1CreateOrder)
        } else if same_text(s, LSPS1_GET_ORDER_METHOD_NAME) {
            Ok(LSPSMethod::LSPS1GetOrder)
        } else if same_text(s, LSPS2_GET_INFO_METHOD_NAME) {
            Ok(LSPSMethod::LSPS2GetInfo)
        } else if same_text(s, LSPS2_BUY_METHOD_NAME) {
            Ok(LSPSMethod::LSPS2Buy)
        } else {
            Err(UnknownMethod)
        }
    }

    /// Returns the name of the method.
    pub fn as_str(&self) -> (name: &'static str)
        ensures
            name@ == self.name(),
    {
        match self {
            LSPSMethod::LSPS0ListProtocols => LSPS0_LISTPROTOCOLS_METHOD_NAME,
            LSPSMethod::LSPS1GetInfo => LSPS1_GET_INFO_METHOD_NAME,
            LSPSMethod::LSPS1CreateOrder => LSPS1_CREATE_ORDER_METHOD_NAME,
            LSPSMethod::LSPS1GetOrder => LSPS1_GET_ORDER_METHOD_NAME,
            LSPSMethod::LSPS2GetInfo => LSPS2_GET_INFO_METHOD_NAME,
            LSPSMethod::LSPS2Buy => LSPS2_BUY_METHOD_NAME,
        }
    }
}

/// The method of an LSPS0 request.
pub open spec fn lsps0_method(request: LSPS0Request) -> LSPSMethod {
    LSPSMethod::LSPS0ListProtocols
}

/// The method of an LSPS1 request.
pub open spec fn lsps1_method(request: LSPS1Request) -> LSPSMethod {
    match request {
        LSPS1Request::GetInfo(_) => LSPSMethod::LSPS1GetInfo,
        LSPS1Request::CreateOrder(_) => LSPSMethod::LSPS1CreateOrder,
        LSPS1Request::GetOrder(_) => LSPSMethod::LSPS1GetOrder,
    }
}

/// The method of an LSPS2 request.
pub open spec fn lsps2_method(request: LSPS2Request) -> LSPSMethod {
    match request {
        LSPS2Request::GetInfo(_) => LSPSMethod::LSPS2GetInfo,
        LSPS2Request::Buy(_) => LSPSMethod::LSPS2Buy,
    }
}

impl From<&LSPS0Request> for LSPSMethod {
    fn from(value: &LSPS0Request) -> (method: Self) {
        match value {
            LSPS0Request::ListProtocols(_) => LSPSMethod::LSPS0ListProtocols,
        }
    }
}

impl vstd::std_specs::convert::FromSpecImpl<&LSPS0Request> for LSPSMethod {
    open spec fn obeys_from_spec() -> bool {
        true
    }

    open spec fn from_spec(value: &LSPS0Request) -> Self {
        lsps0_method(*value)
    }
}

impl From<&LSPS1Request> for LSPSMethod {
    fn from(value: &LSPS1Request) -> (method: Self) {
        match value {
            LSPS1Request::GetInfo(_) => LSPSMethod::LSPS1GetInfo,
            LSPS1Request::CreateOrder(_) => LSPSMethod::LSPS1CreateOrder,
            LSPS1Request::GetOrder(_) => LSPSMethod::LSPS1GetOrder,
        }
    }
}

impl vstd::std_specs::convert::FromSpecImpl<&LSPS1Request> for LSPSMethod {
    open spec fn obeys_from_spec() -> bool {
        true
    }

    open spec fn from_spec(value: &LSPS1Request) -> Self {
        lsps1_method(*value)
    }
}

impl From<&LSPS2Request> for LSPSMethod {
    fn from(value: &LSPS2Request) -> (method: Self) {
        match value {
            LSPS2Request::GetInfo(_) => LSPSMethod::LSPS2GetInfo,
            LSPS2Request::Buy(_) => LSPSMethod::LSPS2Buy,
        }
    }
}

impl vstd::std_specs::convert::FromSpecImpl<&LSPS2Request> for LSPSMethod {
    open spec fn obeys_from_spec() -> bool {
        true
    }

    open spec fn from_spec(value: &LSPS2Request) -> Self {
        lsps2_method(*value)
    }
}

/// The name of a method leads back to the method, and no other name leads to it.
pub proof fn lemma_method_names(method: LSPSMethod, name: Seq<char>)
    ensures
        LSPSMethod::named(method.name()) == Some(method),
        LSPSMethod::named(name) == Some(method) ==> name == method.name(),
{
    reveal_strlit("lsps0.list_protocols");
    reveal_strlit("lsps1.get_info");
    reveal_strlit("lsps1.create_order");
    reveal_strlit("lsps1.get_order");
    reveal_strlit("lsps2.get_info");
    reveal_strlit("lsps2.buy");
    assert("lsps0.list_protocols"@.len() == 20);
    assert("lsps1.get_info"@.len() == 14 && "lsps1.get_info"@[4] == '1');
    assert("lsps1.create_order"@.len() == 18);
    assert("lsps1.get_order"@.len() == 15);
    assert("lsps2.get_info"@.len() == 14 && "lsps2.get_info"@[4] == '2');
    assert("lsps2.buy"@.len() == 9);
}

/// Writes an amount as it is written in messages: in decimal digits, as text.
pub fn amount_to_string(amount: u64) -> (text: String)
    ensures
        text@ == decimal_digits(amount as nat),
{
    u64_to_string(amount)
}

/// Reads an amount as it is written in messages.
pub fn amount_from_str(text: &str) -> (amount: Option<u64>)
    ensures
        amount == parsed_u64(text@),
{
    parse_u64(text)
}

/// What an optional amount is written as.
pub open spec fn optional_amount_text(amount: Option<u64>) -> Option<Seq<char>> {
    match amount {
        Some(amount) => Some(decimal_digits(amount as nat)),
        None => None,
    }
}

/// What an optional text denotes: the inner option is the amount, where one is given.
pub open spec fn optional_parsed_amount(text: Option<Seq<char>>) -> Option<Option<u64>> {
    match text {
        Some(text) => match parsed_u64(text) {
            Some(amount) => Some(Some(amount)),
            None => None,
        },
        None => Some(None),
    }
}

/// Writes an optional amount.
pub fn optional_amount_to_string(amount: Option<u64>) -> (text: Option<String>)
    ensures
        match text {
            Some(text) => optional_amount_text(amount) == Some(text@),
            None => optional_amount_text(amount) is None,
        },
{
    match amount {
        Some(amount) => Some(u64_to_string(amount)),
        None => None,
    }
}

/// Reads an optional amount. A text that is no amount gives an error.
pub fn optional_amount_from_str(text: &Option<String>) -> (amount: Result<Option<u64>, ()>)
    ensures
        amount == (match optional_parsed_amount(
            match text {
                Some(text) => Some(text@),
                None => None,
            },
        ) {
            Some(amount) => Ok(amount),
            None => Err(()),
        }),
{
    match text {
        Some(text) => match parse_u64(text.as_str()) {
            Some(amount) => Ok(Some(amount)),
            None => Err(()),
        },
        None => Ok(None),
    }
}

/// Writing an optional amount and reading it back gives the amount.
pub proof fn lemma_optional_amount_round_trip(amount: Option<u64>)
    ensures
        optional_parsed_amount(optional_amount_text(amount)) == Some(amount),
{
    if let Some(value) = amount {
        crate::text::lemma_amount_round_trip(value);
    }
}

/// The methods by their names, and the method of each request.
pub proof fn lemma_methods_of_requests(
    lsps0: LSPS0Request,
    lsps1: LSPS1Request,
    lsps2: LSPS2Request,
)
    ensures
        LSPSMethod::LSPS0ListProtocols.name() == "lsps0.list_protocols"@,
        LSPSMethod::LSPS1GetInfo.name() == "lsps1.get_info"@,
        LSPSMethod::LSPS1CreateOrder.name() == "lsps1.create_order"@,
        LSPSMethod::LSPS1GetOrder.name() == "lsps1.get_order"@,
        LSPSMethod::LSPS2GetInfo.name() == "lsps2.get_info"@,
        LSPSMethod::LSPS2Buy.name() == "lsps2.buy"@,
        lsps0_method(lsps0) is LSPS0ListProtocols,
        lsps1 is GetInfo <==> lsps1_method(lsps1) is LSPS1GetInfo,
        lsps1 is CreateOrder <==> lsps1_method(lsps1) is LSPS1CreateOrder,
        lsps1 is GetOrder <==> lsps1_method(lsps1) is LSPS1GetOrder,
        lsps2 is GetInfo <==> lsps2_method(lsps2) is LSPS2GetInfo,
        lsps2 is Buy <==> lsps2_method(lsps2) is LSPS2Buy,
{
}

/// An optional amount is read exactly where it is left out or its text denotes an amount.
pub proof fn lemma_optional_amounts(text: Option<Seq<char>>, amount: u64)
    ensures
        optional_parsed_amount(None) == Some(None::<u64>),
        text is Some ==> (optional_parsed_amount(text) is None <==> parsed_u64(text->0) is None),
        text is Some && parsed_u64(text->0) == Some(amount) ==> optional_parsed_amount(text)
            == Some(Some(amount)),
        optional_amount_text(None) is None,
        optional_amount_text(Some(amount)) == Some(decimal_digits(amount as nat)),
{
}

/// A method that is written and read is the method that was written, and so is an amount that may be left
/// out.
pub proof fn lemma_methods_and_amounts_are_written_and_read(
    method: LSPSMethod,
    written: &'static str,
    read: Result<LSPSMethod, UnknownMethod>,
    amount: Option<u64>,
    text: Option<String>,
    read_amount: Result<Option<u64>, ()>,
)
    requires
        call_ensures(LSPSMethod::as_str, (&method, ), written),
        call_ensures(LSPSMethod::from_str, (written, ), read),
        call_ensures(optional_amount_to_string, (amount, ), text),
        call_ensures(optional_amount_from_str, (&text, ), read_amount),
    ensures
        read == Ok::<LSPSMethod, UnknownMethod>(method),
        text is Some <==> amount is Some,
        read_amount == Ok::<Option<u64>, ()>(amount),
{
    lemma_method_names(method, method.name());
    lemma_optional_amount_round_trip(amount);
}

} // verus!
