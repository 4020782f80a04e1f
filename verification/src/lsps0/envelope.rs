//! The members that make a JSON object a JSON-RPC message.

use vstd::prelude::*;

use crate::json::{
    are_closed, check_member_value, in_quotes, is_closed, is_compact, is_member_value,
    json_is_object, json_optional_string, json_plain_string, json_quoted, json_string,
    lemma_compact_is_deeper, max_depth, member_views, needs_no_escape, object_members, object_text,
    read_object, read_optional_string, read_plain_string, read_string, Names,
};
use crate::lsps0::msgs::{lemma_error_is_compact, ResponseError, ResponseErrorView};
use crate::text::same_text;

verus! {

/// How the id and the method of a message are read.
#[derive(Clone, Copy, Debug, PartialEq, Eq)]
pub enum Dialect {
    /// The id is a string or `null`, and the method a string that is written without escapes.
    Lenient,
    /// The id and the method are strings.
    Strict,
}

/// The members of a JSON-RPC message. Parameters and results are kept as JSON texts.
pub struct Envelope {
    pub id: Option<String>,
    pub method: Option<String>,
    pub params: Option<String>,
    pub result: Option<String>,
    pub error: Option<ResponseError>,
}

/// The contents of an [`Envelope`].
#[verifier::ext_equal]
pub struct EnvelopeView {
    pub id: Option<Seq<char>>,
    pub method: Option<Seq<char>>,
    pub params: Option<Seq<char>>,
    pub result: Option<Seq<char>>,
    pub error: Option<ResponseErrorView>,
}

/// The contents of an optional text.
pub open spec fn text_view(text: Option<String>) -> Option<Seq<char>> {
    match text {
        Some(text) => Some(text@),
        None => None,
    }
}

impl View for Envelope {
    type V = EnvelopeView;

    open spec fn view(&self) -> EnvelopeView {
        EnvelopeView {
            id: text_view(self.id),
            method: text_view(self.method),
            params: text_view(self.params),
            result: text_view(self.result),
            error: match self.error {
                Some(error) => Some(error@),
                None => None,
            },
        }
    }
}

impl EnvelopeView {
    /// No member at all.
    pub open spec fn empty() -> Self {
        EnvelopeView { id: None, method: None, params: None, result: None, error: None }
    }

    /// With one more member. A member of any other name needs to be a JSON value.
    pub open spec fn with_member(
        self,
        dialect: Dialect,
        name: Seq<char>,
        value: Seq<char>,
    ) -> Option<Self> {
        if name == "id"@ {
            match dialect {
                Dialect::Lenient => match json_optional_string(value) {
                    Some(id) => Some(EnvelopeView { id, ..self }),
                    None => None,
                },
                Dialect::Strict => match json_string(value) {
                    Some(id) => Some(EnvelopeView { id: Some(id), ..self }),
                    None => None,
                },
            }
        } else if name == "method"@ {
            match (match dialect {
                Dialect::Lenient => json_plain_string(value),
                Dialect::Strict => json_string(value),
            }) {
                Some(method) => Some(EnvelopeView { method: Some(method), ..self }),
                None => None,
            }
        } else if name == "params"@ {
            if is_member_value(value) {
                Some(EnvelopeView { params: Some(value), ..self })
            } else {
                None
            }
        } else if name == "result"@ {
            if is_member_value(value) {
                Some(EnvelopeView { result: Some(value), ..self })
            } else {
                None
            }
        } else if name == "error"@ {
            match ResponseErrorView::of_json(value) {
                Some(error) => Some(EnvelopeView { error: Some(error), ..self }),
                None => None,
            }
        } else if is_member_value(value) {
            Some(self)
        } else {
            None
        }
    }

    /// The envelope of the given members; of members with one name, the last one counts.
    pub open spec fn of_members(dialect: Dialect, members: Seq<(Seq<char>, Seq<char>)>) -> Option<
        Self,
    >
        decreases members.len(),
    {
        if members.len() == 0 {
            Some(EnvelopeView::empty())
        } else {
            match EnvelopeView::of_members(dialect, members.drop_last()) {
                Some(envelope) => envelope.with_member(
                    dialect,
                    members.last().0,
                    members.last().1,
                ),
                None => None,
            }
        }
    }

    /// The envelope of the JSON object that a text starts with.
    pub open spec fn of_text(dialect: Dialect, text: Seq<char>) -> Option<Self> {
        match object_members(Names::Plain, text) {
            Some(members) => EnvelopeView::of_members(dialect, members),
            None => None,
        }
    }
}

/// A member of a message that is to be written.
pub enum Field {
    /// The version of JSON-RPC.
    Version,
    /// The id of a request.
    Id(Seq<char>),
    /// The id of an answer to what could not be read.
    NoId,
    /// The name of a method.
    Method(Seq<char>),
    /// The JSON text of parameters.
    Params(Seq<char>),
    /// The JSON text of a result.
    Success(Seq<char>),
    /// An error.
    Failure(ResponseErrorView),
}

impl Field {
    /// The name and the text of the value of the member.
    pub open spec fn member(self) -> (Seq<char>, Seq<char>) {
        match self {
            Field::Version => ("jsonrpc"@, in_quotes("2.0"@)),
            Field::Id(id) => ("id"@, json_quoted(id)),
            Field::NoId => ("id"@, "null"@),
            Field::Method(name) => ("method"@, in_quotes(name)),
            Field::Params(json) => ("params"@, json),
            Field::Success(json) => ("result"@, json),
            Field::Failure(error) => ("error"@, error.json_text()),
        }
    }

    /// Whether what is written can be read: there is an id, method names need no escapes, and
    /// parameters and results are JSON objects or are written without white space.
    pub open spec fn is_readable(self) -> bool {
        match self {
            Field::Version => true,
            Field::Id(_) => true,
            Field::NoId => false,
            Field::Method(name) => needs_no_escape(name),
            Field::Params(json) => is_readable_value(json),
            Field::Success(json) => is_readable_value(json),
            Field::Failure(_) => true,
        }
    }
}

/// Whether the text of a value is known to be read back.
pub open spec fn is_readable_value(json: Seq<char>) -> bool {
    ||| json_is_object(json) && is_member_value(json)
    ||| is_compact(json, (max_depth() - 1) as nat)
}

/// The members of a message that is to be written.
pub open spec fn field_members(fields: Seq<Field>) -> Seq<(Seq<char>, Seq<char>)> {
    Seq::new(fields.len(), |i: int| fields[i].member())
}

/// Whether all of what is written can be read.
pub open spec fn are_readable(fields: Seq<Field>) -> bool {
    forall|i: int| 0 <= i < fields.len() ==> (#[trigger] fields[i]).is_readable()
}

impl EnvelopeView {
    /// With one more member that was written.
    pub open spec fn with_field(self, field: Field) -> Self {
        match field {
            Field::Version => self,
            Field::Id(id) => EnvelopeView { id: Some(id), ..self },
            Field::NoId => EnvelopeView { id: None, ..self },
            Field::Method(name) => EnvelopeView { method: Some(name), ..self },
            Field::Params(json) => EnvelopeView { params: Some(json), ..self },
            Field::Success(json) => EnvelopeView { result: Some(json), ..self },
            Field::Failure(error) => EnvelopeView { error: Some(error), ..self },
        }
    }

    /// The envelope that was written with the given members.
    pub open spec fn of_fields(fields: Seq<Field>) -> Self
        decreases fields.len(),
    {
        if fields.len() == 0 {
            EnvelopeView::empty()
        } else {
            EnvelopeView::of_fields(fields.drop_last()).with_field(fields.last())
        }
    }
}

/// The names of members are told apart, and need no escapes.
proof fn lemma_member_names()
    ensures
        needs_no_escape("jsonrpc"@),
        needs_no_escape("id"@),
        needs_no_escape("method"@),
        needs_no_escape("params"@),
        needs_no_escape("result"@),
        needs_no_escape("error"@),
        needs_no_escape("2.0"@),
        "jsonrpc"@.len() == 7,
        "id"@.len() == 2,
        "method"@.len() == 6 && "method"@[0] == 'm',
        "params"@.len() == 6 && "params"@[0] == 'p',
        "result"@.len() == 6 && "result"@[0] == 'r',
        "error"@.len() == 5,
{
    reveal_strlit("jsonrpc");
    reveal_strlit("id");
    reveal_strlit("method");
    reveal_strlit("params");
    reveal_strlit("result");
    reveal_strlit("error");
    reveal_strlit("2.0");
}

/// What is written with readable members has members that can be told apart.
proof fn lemma_fields_are_closed(fields: Seq<Field>)
    requires
        are_readable(fields),
    ensures
        are_closed(field_members(fields)),
{
    lemma_member_names();
    let members = field_members(fields);
    assert forall|i: int| 0 <= i < members.len() implies needs_no_escape(
        (#[trigger] members[i]).0,
    ) && is_closed(members[i].1) by {
        let field = fields[i];
        assert(field.is_readable());
        match field {
            Field::Version => {
                assert(members[i].1 == in_quotes("2.0"@));
            },
            Field::Id(id) => {
                assert(members[i].1 == json_quoted(id));
            },
            Field::Method(name) => {
                assert(members[i].1 == in_quotes(name));
            },
            Field::Params(json) | Field::Success(json) => {
                if !json_is_object(json) {
                    lemma_compact_is_deeper(json, (max_depth() - 1) as nat, max_depth());
                }
            },
            Field::Failure(error) => {
                lemma_error_is_compact(error);
                lemma_compact_is_deeper(error.json_text(), 1, max_depth());
            },
            Field::NoId => {},
        }
    }
}

impl Envelope {
    /// Creates an envelope without members.
    fn new() -> (envelope: Self)
        ensures
            envelope@ == EnvelopeView::empty(),
    {
        Envelope { id: None, method: None, params: None, result: None, error: None }
    }

    /// Adds a member, and returns whether it is as it needs to be.
    fn add_member(&mut self, dialect: Dialect, name: &str, value: String) -> (valid: bool)
        ensures
            valid == (old(self)@.with_member(dialect, name@, value@) is Some),
            valid ==> old(self)@.with_member(dialect, name@, value@) == Some(final(self)@),
            forall|field: Field|
                #![trigger old(self)@.with_field(field)]
                field.is_readable() && field.member() == (name@, value@) ==> valid && final(self)@
                    == old(self)@.with_field(field),
    {
        proof {
            lemma_member_names();
        }
        if same_text(name, "id") {
            match dialect {
                Dialect::Lenient => match read_optional_string(value.as_str()) {
                    Some(id) => {
                        self.id = id;
                        true
                    },
                    None => false,
                },
                Dialect::Strict => match read_string(value.as_str()) {
                    Some(id) => {
                        self.id = Some(id);
                        true
                    },
                    None => false,
                },
            }
        } else if same_text(name, "method") {
            let method = match dialect {
                Dialect::Lenient => read_plain_string(value.as_str()),
                Dialect::Strict => read_string(value.as_str()),
            };
            match method {
                Some(method) => {
                    self.method = Some(method);
                    true
                },
                None => false,
            }
        } else if same_text(name, "params") {
            if check_member_value(value.as_str()) {
                self.params = Some(value);
                true
            } else {
                false
            }
        } else if same_text(name, "result") {
            if check_member_value(value.as_str()) {
                self.result = Some(value);
                true
            } else {
                false
            }
        } else if same_text(name, "error") {
            match ResponseError::from_json(value.as_str()) {
                Some(error) => {
                    self.error = Some(error);
                    true
                },
                None => false,
            }
        } else {
            check_member_value(value.as_str())
        }
    }

    /// Reads the envelope of the JSON object that a text starts with.
    ///
    /// What was written with readable members is read back.
    pub fn from_str(dialect: Dialect, json: &str) -> (envelope: Option<Envelope>)
        ensures
            match envelope {
                Some(envelope) => EnvelopeView::of_text(dialect, json@) == Some(envelope@),
                None => EnvelopeView::of_text(dialect, json@) is None,
            },
            forall|fields: Seq<Field>|
                are_readable(fields) && json@ == object_text(#[trigger] field_members(fields))
                    ==> envelope is Some && envelope->0@ == EnvelopeView::of_fields(fields),
    {
        let read = read_object(Names::Plain, json);
        proof {
            assert forall|fields: Seq<Field>|
                are_readable(fields) && json@ == object_text(
                    #[trigger] field_members(fields),
                ) implies object_members(Names::Plain, json@) == Some(field_members(fields)) by {
                lemma_fields_are_closed(fields);
            }
        }
        let members = match read {
            Some(members) => members,
            None => return None,
        };
        let ghost views = member_views(members@);
        let mut envelope = Envelope::new();
        let mut i: usize = 0;
        while i < members.len()
            invariant
                i <= members@.len(),
                views == member_views(members@),
                object_members(Names::Plain, json@) == Some(views),
                EnvelopeView::of_members(dialect, views.take(i as int)) == Some(envelope@),
                forall|fields: Seq<Field>|
                    are_readable(fields) && json@ == object_text(#[trigger] field_members(fields))
                        ==> views == field_members(fields) && envelope@ == EnvelopeView::of_fields(
                        fields.take(i as int),
                    ),
            decreases members@.len() - i,
        {
            let ghost before = envelope@;
            let ghost at = i as int;
            proof {
                assert(views.take(at + 1).drop_last() =~= views.take(at));
                assert(views.take(at + 1).last() == views[at]);
            }
            let valid = envelope.add_member(
                dialect,
                members[i].0.as_str(),
                members[i].1.clone(),
            );
            proof {
                assert forall|fields: Seq<Field>|
                    are_readable(fields) && json@ == object_text(
                        #[trigger] field_members(fields),
                    ) implies valid && envelope@ == EnvelopeView::of_fields(
                    fields.take(at + 1),
                ) by {
                    assert(fields.len() == views.len());
                    assert(fields[at].is_readable());
                    assert(field_members(fields)[at] == fields[at].member());
                    assert(fields.take(at + 1).drop_last() =~= fields.take(at));
                    assert(fields.take(at + 1).last() == fields[at]);
                    let _ = before.with_field(fields[at]);
                }
                if !valid {
                    lemma_members_fail(dialect, views, at + 1);
                }
            }
            if !valid {
                return None;
            }
            i += 1;
        }
        proof {
            assert(views.take(i as int) =~= views);
            assert forall|fields: Seq<Field>|
                are_readable(fields) && json@ == object_text(
                    #[trigger] field_members(fields),
                ) implies envelope@ == EnvelopeView::of_fields(fields) by {
                assert(fields.take(i as int) =~= fields);
            }
        }
        Some(envelope)
    }
}

/// Members fail together with the first of them that fails.
proof fn lemma_members_fail(dialect: Dialect, members: Seq<(Seq<char>, Seq<char>)>, n: int)
    requires
        0 <= n <= members.len(),
        EnvelopeView::of_members(dialect, members.take(n)) is None,
    ensures
        EnvelopeView::of_members(dialect, members) is None,
    decreases members.len() - n,
{
    if n < members.len() {
        assert(members.take(n + 1).drop_last() =~= members.take(n));
        lemma_members_fail(dialect, members, n + 1);
    } else {
        assert(members.take(n) =~= members);
    }
}

/// A member of an envelope sets what its name says and leaves the rest as it was. A member whose value
/// cannot be read makes the envelope unreadable, whatever its name.
pub proof fn lemma_members_set_what_they_name(
    envelope: EnvelopeView,
    dialect: Dialect,
    name: Seq<char>,
    value: Seq<char>,
)
    ensures
        ({
            let after = envelope.with_member(dialect, name, value);
            &&& after is Some && name != "id"@ ==> after->0.id == envelope.id
            &&& after is Some && name != "method"@ ==> after->0.method == envelope.method
            &&& after is Some && name != "params"@ ==> after->0.params == envelope.params
            &&& after is Some && name != "result"@ ==> after->0.result == envelope.result
            &&& after is Some && name != "error"@ ==> after->0.error == envelope.error
            &&& name == "params"@ ==> {
                &&& after is Some <==> is_member_value(value)
                &&& after is Some ==> after->0.params == Some(value)
            }
            &&& name == "result"@ ==> {
                &&& after is Some <==> is_member_value(value)
                &&& after is Some ==> after->0.result == Some(value)
            }
            &&& name == "error"@ ==> {
                &&& after is Some <==> ResponseErrorView::of_json(value) is Some
                &&& after is Some ==> after->0.error == ResponseErrorView::of_json(value)
            }
            &&& name == "id"@ && dialect is Lenient ==> {
                &&& after is Some <==> json_optional_string(value) is Some
                &&& after is Some ==> after->0.id == json_optional_string(value)->0
            }
            &&& name == "id"@ && dialect is Strict ==> {
                &&& after is Some <==> json_string(value) is Some
                &&& after is Some ==> after->0.id == json_string(value)
            }
            &&& name == "method"@ && dialect is Lenient ==> {
                &&& after is Some <==> json_plain_string(value) is Some
                &&& after is Some ==> after->0.method == json_plain_string(value)
            }
            &&& name == "method"@ && dialect is Strict ==> {
                &&& after is Some <==> json_string(value) is Some
                &&& after is Some ==> after->0.method == json_string(value)
            }
            &&& name != "id"@ && name != "method"@ && name != "params"@ && name != "result"@ && name
                != "error"@ ==> (after is Some <==> is_member_value(value))
        }),
{
    lemma_member_names();
}

/// The members of an envelope are read one after the other, from an envelope that holds nothing.
pub proof fn lemma_members_are_read_in_turn(
    dialect: Dialect,
    members: Seq<(Seq<char>, Seq<char>)>,
    more: (Seq<char>, Seq<char>),
)
    ensures
        ({
            let nothing = EnvelopeView::of_members(dialect, Seq::empty());
            let before = EnvelopeView::of_members(dialect, members);
            let after = EnvelopeView::of_members(dialect, members.push(more));
            &&& nothing is Some
            &&& nothing->0.id is None && nothing->0.method is None && nothing->0.params is None
            &&& nothing->0.result is None && nothing->0.error is None
            &&& before is None ==> after is None
            &&& before is Some ==> after == before->0.with_member(dialect, more.0, more.1)
        }),
{
    assert(members.push(more).drop_last() =~= members);
}

} // verus!
