//! The members of a JSON object, as the texts of their values.

use vstd::prelude::*;
use vstd::string::StringExecFns;

use crate::text::{chars_of, numbers_text, same_text, signed_digits, text_from};

verus! {

/// The text of the first JSON value in a text, and the text that follows it.
pub uninterp spec fn json_first_value(text: Seq<char>) -> Option<(Seq<char>, Seq<char>)>;

/// How the JSON value that a text is gets written.
pub uninterp spec fn json_value(text: Seq<char>) -> Option<Seq<char>>;

/// The text that a JSON string denotes, where it is written without escapes.
pub uninterp spec fn json_plain_string(text: Seq<char>) -> Option<Seq<char>>;

/// The text that a JSON string denotes; the inner option is `None` for `null`.
pub uninterp spec fn json_optional_string(text: Seq<char>) -> Option<Option<Seq<char>>>;

/// The text that a JSON string denotes.
pub uninterp spec fn json_string(text: Seq<char>) -> Option<Seq<char>>;

/// The number that a JSON number denotes.
pub uninterp spec fn json_i32(text: Seq<char>) -> Option<i32>;

/// The numbers that a JSON array denotes.
pub uninterp spec fn json_u16_list(text: Seq<char>) -> Option<Seq<u16>>;

/// The texts of the elements of a JSON array.
pub uninterp spec fn json_array(text: Seq<char>) -> Option<Seq<Seq<char>>>;

/// How a text is written as a JSON string.
pub uninterp spec fn json_quoted(text: Seq<char>) -> Seq<char>;

/// Whether a text is one JSON value.
pub open spec fn json_is_value(text: Seq<char>) -> bool {
    json_value(text) is Some
}

/// Whether a text is written as a JSON string without escapes.
pub open spec fn needs_no_escape(text: Seq<char>) -> bool {
    forall|i: int|
        0 <= i < text.len() ==> ' ' <= #[trigger] text[i] <= '~' && text[i] != '"' && text[i]
            != '\\'
}

/// A text in double quotes.
pub open spec fn in_quotes(text: Seq<char>) -> Seq<char> {
    seq!['"'] + text + seq!['"']
}

/// A text in brackets.
pub open spec fn in_brackets(text: Seq<char>) -> Seq<char> {
    seq!['['] + text + seq![']']
}

/// Whether a text is written as a JSON object, with nothing around it.
pub open spec fn json_is_object(text: Seq<char>) -> bool {
    text.len() > 0 && text[0] == '{' && text.last() == '}' && json_is_value(text)
}

/// Whether a text is written as `null`, as a truth value or as a whole number.
pub open spec fn is_scalar(text: Seq<char>) -> bool {
    ||| text == "null"@
    ||| text == "true"@
    ||| text == "false"@
    ||| exists|n: int| i32::MIN <= n <= u64::MAX && text == #[trigger] signed_digits(n)
}

/// Whether a text is a name of lower case letters and underscores.
pub open spec fn is_word(text: Seq<char>) -> bool {
    forall|i: int|
        0 <= i < text.len() ==> 'a' <= #[trigger] text[i] <= 'z' || text[i] == '_'
}

/// Texts with a comma between each two.
pub open spec fn joined(texts: Seq<Seq<char>>) -> Seq<char>
    decreases texts.len(),
{
    if texts.len() == 0 {
        Seq::empty()
    } else if texts.len() == 1 {
        texts[0]
    } else {
        joined(texts.drop_last()) + seq![','] + texts.last()
    }
}

/// How an array is written.
pub open spec fn array_text(elements: Seq<Seq<char>>) -> Seq<char> {
    in_brackets(joined(elements))
}

/// Whether a text is a JSON value that is written without white space: a string, a list of numbers,
/// `null`, a truth value or a whole number, or an object or an array of such values up to the given
/// depth, where the names in objects are words.
pub open spec fn is_compact(text: Seq<char>, depth: nat) -> bool
    decreases depth,
{
    ||| is_scalar(text)
    ||| exists|s: Seq<char>| text == #[trigger] json_quoted(s)
    ||| exists|s: Seq<char>| text == #[trigger] in_quotes(s) && needs_no_escape(s)
    ||| exists|numbers: Seq<u16>| text == in_brackets(#[trigger] numbers_text(numbers))
    ||| depth > 0 && exists|members: Seq<(Seq<char>, Seq<char>)>|
        text == #[trigger] object_text(members) && forall|i: int|
            0 <= i < members.len() ==> is_word((#[trigger] members[i]).0) && is_compact(
                members[i].1,
                (depth - 1) as nat,
            )
    ||| depth > 0 && exists|elements: Seq<Seq<char>>|
        text == #[trigger] array_text(elements) && forall|i: int|
            0 <= i < elements.len() ==> is_compact(#[trigger] elements[i], (depth - 1) as nat)
}

/// The depth up to which values that are written without white space are known to be read.
pub open spec fn max_depth() -> nat {
    16
}

/// Whether what follows a member of an object starts as it does there.
pub open spec fn follows_member(text: Seq<char>) -> bool {
    text.len() > 0 && (text[0] == ',' || text[0] == '}')
}

/// `serde_json::StreamDeserializer::next`, of `Box<serde_json::value::RawValue>`, reads the first
/// value of a text, and `byte_offset` tells where it ends.
///
/// What follows is shorter than the text, since a value has at least one character. A JSON object
/// ends where it is closed, whatever follows, and so does a text that needs no escapes, in double
/// quotes. Any value that is written without white space ends before a comma or a brace.
#[verifier::external_body]
fn read_first_value(text: &str) -> (first: Option<(String, String)>)
    ensures
        match first {
            Some((value, rest)) => json_first_value(text@) == Some((value@, rest@)) && rest@.len()
                < text@.len(),
            None => json_first_value(text@) is None,
        },
        forall|s: Seq<char>, tail: Seq<char>|
            text@ == #[trigger] (in_quotes(s) + tail) && needs_no_escape(s) ==> first is Some && (
            first->0).0@ == in_quotes(s) && (first->0).1@ == tail,
        forall|object: Seq<char>, tail: Seq<char>|
            text@ == #[trigger] (object + tail) && json_is_object(object) ==> first is Some
                && (first->0).0@ == object && (first->0).1@ == tail,
        forall|value: Seq<char>, tail: Seq<char>|
            text@ == #[trigger] (value + tail) && is_compact(value, max_depth()) && follows_member(
                tail,
            ) ==> first is Some && (first->0).0@ == value && (first->0).1@ == tail,
{
    let mut values = serde_json::Deserializer::from_str(text)
        .into_iter::<Box<serde_json::value::RawValue>>();
    match values.next() {
        Some(Ok(value)) => Some(
            (value.get().to_owned(), text[values.byte_offset()..].to_owned()),
        ),
        _ => None,
    }
}

/// `serde_json::from_str` of a `serde_json::Value` reads a text that is one JSON value, which is
/// handed on as the text that its `Display` writes.
///
/// It reads values that are written without white space. What is written as `null`, as a truth value,
/// as a whole number or as a JSON string is written so again.
#[verifier::external_body]
pub(crate) fn read_value(text: &str) -> (value: Option<String>)
    ensures
        match value {
            Some(value) => json_value(text@) == Some(value@),
            None => json_value(text@) is None,
        },
        is_compact(text@, max_depth()) ==> value is Some,
        is_scalar(text@) ==> value is Some && value->0@ == text@,
        forall|s: Seq<char>|
            text@ == #[trigger] json_quoted(s) ==> value is Some && value->0@ == text@,
{
    match serde_json::from_str::<serde_json::Value>(text) {
        Ok(value) => Some(value.to_string()),
        Err(_) => None,
    }
}

/// Returns whether a text is one JSON value.
pub(crate) fn is_value(text: &str) -> (valid: bool)
    ensures
        valid == json_is_value(text@),
        is_compact(text@, max_depth()) ==> valid,
{
    read_value(text).is_some()
}

/// `serde_json::from_str` of a `&str` reads a JSON string that is written without escapes.
///
/// A text that needs no escapes is written without any.
#[verifier::external_body]
pub(crate) fn read_plain_string(text: &str) -> (string: Option<String>)
    ensures
        match string {
            Some(string) => json_plain_string(text@) == Some(string@),
            None => json_plain_string(text@) is None,
        },
        forall|s: Seq<char>|
            text@ == #[trigger] in_quotes(s) && needs_no_escape(s) ==> string is Some && string->0@
                == s,
{
    match serde_json::from_str::<&str>(text) {
        Ok(string) => Some(string.to_owned()),
        Err(_) => None,
    }
}

/// `serde_json::from_str` of an `Option<String>` reads a JSON string or `null`.
///
/// It reads back what is written as a JSON string, and `null` as no string.
#[verifier::external_body]
pub(crate) fn read_optional_string(text: &str) -> (string: Option<Option<String>>)
    ensures
        match string {
            Some(Some(string)) => json_optional_string(text@) == Some(Some(string@)),
            Some(None) => json_optional_string(text@) == Some(None::<Seq<char>>),
            None => json_optional_string(text@) is None,
        },
        forall|s: Seq<char>|
            text@ == #[trigger] json_quoted(s) ==> string is Some && string->0 is Some
                && string->0->0@ == s,
        text@ == "null"@ ==> string == Some(None::<String>),
{
    serde_json::from_str::<Option<String>>(text).ok()
}

/// `serde_json::from_str` of a `String` reads a JSON string.
///
/// It reads back what is written as a JSON string, and a text that needs no escapes in double quotes.
#[verifier::external_body]
pub(crate) fn read_string(text: &str) -> (string: Option<String>)
    ensures
        match string {
            Some(string) => json_string(text@) == Some(string@),
            None => json_string(text@) is None,
        },
        forall|s: Seq<char>|
            text@ == #[trigger] in_quotes(s) && needs_no_escape(s) ==> string is Some && string->0@
                == s,
        forall|s: Seq<char>|
            text@ == #[trigger] json_quoted(s) ==> string is Some && string->0@ == s,
{
    serde_json::from_str::<String>(text).ok()
}

/// `serde_json::from_str` of an `i32` reads a JSON number.
///
/// It reads back the decimal digits of a number, with their sign.
#[verifier::external_body]
pub(crate) fn read_i32(text: &str) -> (number: Option<i32>)
    ensures
        number == json_i32(text@),
        forall|n: i32| text@ == #[trigger] signed_digits(n as int) ==> number == Some(n),
{
    serde_json::from_str::<i32>(text).ok()
}

/// `serde_json::from_str` of a `Vec<u16>` reads a JSON array of numbers.
///
/// It reads back the decimal digits of numbers, in brackets and with a comma between each two.
#[verifier::external_body]
pub(crate) fn read_u16_list(text: &str) -> (list: Option<Vec<u16>>)
    ensures
        match list {
            Some(list) => json_u16_list(text@) == Some(list@),
            None => json_u16_list(text@) is None,
        },
        forall|numbers: Seq<u16>|
            text@ == in_brackets(#[trigger] numbers_text(numbers)) ==> list is Some && list->0@
                == numbers,
{
    serde_json::from_str::<Vec<u16>>(text).ok()
}

/// `serde_json::from_str` of a `Vec<Box<serde_json::value::RawValue>>` reads the texts of the
/// elements of a JSON array.
///
/// It reads back values that are written without white space, in brackets and with a comma between
/// each two.
#[verifier::external_body]
pub(crate) fn read_array(text: &str) -> (elements: Option<Vec<String>>)
    ensures
        match elements {
            Some(elements) => json_array(text@) == Some(text_views(elements@)),
            None => json_array(text@) is None,
        },
        forall|written: Seq<Seq<char>>|
            text@ == #[trigger] array_text(written) && are_compact(written, max_depth())
                ==> elements is Some && text_views(elements->0@) == written,
{
    match serde_json::from_str::<Vec<Box<serde_json::value::RawValue>>>(text) {
        Ok(elements) => Some(elements.iter().map(|element| element.get().to_owned()).collect()),
        Err(_) => None,
    }
}

/// Whether texts are JSON values that are written without white space.
pub open spec fn are_compact(texts: Seq<Seq<char>>, depth: nat) -> bool {
    forall|i: int| 0 <= i < texts.len() ==> is_compact(#[trigger] texts[i], depth)
}

/// The contents of a list of texts.
pub open spec fn text_views(texts: Seq<String>) -> Seq<Seq<char>> {
    Seq::new(texts.len(), |i: int| texts[i]@)
}

/// `serde_json::to_string` of a `str` writes a text as a JSON string. A text that needs no escapes is
/// written in double quotes.
#[verifier::external_body]
pub(crate) fn quote(text: &str) -> (quoted: String)
    ensures
        quoted@ == json_quoted(text@),
        needs_no_escape(text@) ==> quoted@ == in_quotes(text@),
{
    serde_json::to_string(text).expect("a string to be serializable")
}

/// Whether a character is white space in JSON.
pub open spec fn is_json_space(c: char) -> bool {
    c == ' ' || c == '\n' || c == '\t' || c == '\r'
}

/// A text without the white space that it starts with.
pub open spec fn after_space(text: Seq<char>) -> Seq<char>
    decreases text.len(),
{
    if text.len() > 0 && is_json_space(text[0]) {
        after_space(text.skip(1))
    } else {
        text
    }
}

/// How the names of members may be written.
#[derive(Clone, Copy, Debug, PartialEq, Eq)]
pub enum Names {
    /// Without escapes.
    Plain,
    /// As any JSON string.
    Escaped,
}

/// The text that the name of a member denotes.
pub open spec fn json_name(names: Names, text: Seq<char>) -> Option<Seq<char>> {
    match names {
        Names::Plain => json_plain_string(text),
        Names::Escaped => json_string(text),
    }
}

/// The members of an object, read from behind its opening brace or behind a member of it.
pub open spec fn members_from(names: Names, text: Seq<char>, first: bool) -> Option<
    Seq<(Seq<char>, Seq<char>)>,
>
    decreases text.len(), 1int,
{
    let here = after_space(text);
    proof {
        lemma_after_space(text);
    }
    if here.len() == 0 {
        None
    } else if here[0] == '}' {
        Some(Seq::empty())
    } else if first {
        member_then(names, here)
    } else if here[0] == ',' {
        proof {
            lemma_after_space(here.skip(1));
        }
        member_then(names, after_space(here.skip(1)))
    } else {
        None
    }
}

/// A member at the start of a text, and the members that follow it.
///
/// A member is a name in double quotes, a colon and a value.
pub open spec fn member_then(names: Names, text: Seq<char>) -> Option<Seq<(Seq<char>, Seq<char>)>>
    decreases text.len(), 0int,
{
    match first_member(names, text) {
        Some((name, value, rest)) => if rest.len() < text.len() {
            match members_from(names, rest, false) {
                Some(members) => Some(seq![(name, value)] + members),
                None => None,
            }
        } else {
            None
        },
        None => None,
    }
}

/// The member at the start of a text, and the text that follows it.
pub open spec fn first_member(names: Names, text: Seq<char>) -> Option<
    (Seq<char>, Seq<char>, Seq<char>),
> {
    if text.len() == 0 || text[0] != '"' {
        None
    } else {
        match json_first_value(text) {
            Some((name, rest)) => match json_name(names, name) {
                Some(name) => {
                    let colon = after_space(rest);
                    if colon.len() > 0 && colon[0] == ':' {
                        match json_first_value(colon.skip(1)) {
                            Some((value, rest)) => Some((name, value, rest)),
                            None => None,
                        }
                    } else {
                        None
                    }
                },
                None => None,
            },
            None => None,
        }
    }
}

/// The members of the JSON object that a text starts with, in order, with the texts of their
/// values.
pub open spec fn object_members(names: Names, text: Seq<char>) -> Option<
    Seq<(Seq<char>, Seq<char>)>,
> {
    let here = after_space(text);
    if here.len() > 0 && here[0] == '{' {
        members_from(names, here.skip(1), true)
    } else {
        None
    }
}

/// Skipping white space leaves no more than there was.
pub proof fn lemma_after_space(text: Seq<char>)
    ensures
        after_space(text).len() <= text.len(),
    decreases text.len(),
{
    if text.len() > 0 && is_json_space(text[0]) {
        lemma_after_space(text.skip(1));
    }
}

/// Splits off the first character behind white space.
fn next_char(text: &str) -> (next: Option<(char, String)>)
    ensures
        match next {
            Some((c, rest)) => after_space(text@).len() > 0 && after_space(text@)[0] == c && rest@
                == after_space(text@).skip(1),
            None => after_space(text@).len() == 0,
        },
{
    let chars = chars_of(text);
    let mut i: usize = 0;
    assert(text@.skip(0) =~= text@);
    while i < chars.len() && (chars[i] == ' ' || chars[i] == '\n' || chars[i] == '\t' || chars[i]
        == '\r')
        invariant
            i <= chars@.len(),
            chars@ == text@,
            after_space(text@) == after_space(text@.skip(i as int)),
        decreases chars@.len() - i,
    {
        assert(text@.skip(i as int).skip(1) =~= text@.skip(i + 1));
        i += 1;
    }
    assert(after_space(text@) == text@.skip(i as int));
    if i == chars.len() {
        None
    } else {
        let rest = text_from(&chars, i + 1);
        assert(text@.skip(i as int).skip(1) =~= text@.skip(i + 1));
        Some((chars[i], rest))
    }
}

/// Whether nothing but white space follows the JSON value that a text starts with.
pub open spec fn is_whole(text: Seq<char>) -> bool {
    match json_first_value(text) {
        Some((_, rest)) => after_space(rest).len() == 0,
        None => false,
    }
}

/// Returns whether nothing but white space follows the JSON value that a text starts with.
pub fn check_whole(text: &str) -> (whole: bool)
    ensures
        whole == is_whole(text@),
{
    match read_first_value(text) {
        Some((_, rest)) => next_char(rest.as_str()).is_none(),
        None => false,
    }
}

/// Whether the text of a value is known to end before the next member: it is a JSON object, or it is
/// written without white space.
pub open spec fn is_closed(value: Seq<char>) -> bool {
    json_is_object(value) || is_compact(value, max_depth())
}

/// What is written without white space up to some depth is so up to any larger depth.
pub proof fn lemma_compact_is_deeper(text: Seq<char>, depth: nat, larger: nat)
    requires
        is_compact(text, depth),
        depth <= larger,
    ensures
        is_compact(text, larger),
    decreases depth,
{
    if depth > 0 {
        let below = (depth - 1) as nat;
        let larger_below = (larger - 1) as nat;
        if exists|members: Seq<(Seq<char>, Seq<char>)>|
            text == #[trigger] object_text(members) && forall|i: int|
                0 <= i < members.len() ==> is_word((#[trigger] members[i]).0) && is_compact(
                    members[i].1,
                    below,
                ) {
            let members = choose|members: Seq<(Seq<char>, Seq<char>)>|
                text == #[trigger] object_text(members) && forall|i: int|
                    0 <= i < members.len() ==> is_word((#[trigger] members[i]).0) && is_compact(
                        members[i].1,
                        below,
                    );
            assert forall|i: int| 0 <= i < members.len() implies is_word(
                (#[trigger] members[i]).0,
            ) && is_compact(members[i].1, larger_below) by {
                lemma_compact_is_deeper(members[i].1, below, larger_below);
            }
        }
        if exists|elements: Seq<Seq<char>>|
            text == #[trigger] array_text(elements) && forall|i: int|
                0 <= i < elements.len() ==> is_compact(#[trigger] elements[i], below) {
            let elements = choose|elements: Seq<Seq<char>>|
                text == #[trigger] array_text(elements) && forall|i: int|
                    0 <= i < elements.len() ==> is_compact(#[trigger] elements[i], below);
            assert forall|i: int| 0 <= i < elements.len() implies is_compact(
                #[trigger] elements[i],
                larger_below,
            ) by {
                lemma_compact_is_deeper(elements[i], below, larger_below);
            }
        }
    }
}

/// How a member is written.
pub open spec fn member_text(name: Seq<char>, value: Seq<char>) -> Seq<char> {
    in_quotes(name) + seq![':'] + value
}

/// How the members of an object, and the brace that closes it, are written.
pub open spec fn members_text(members: Seq<(Seq<char>, Seq<char>)>, first: bool) -> Seq<char>
    decreases members.len(),
{
    if members.len() == 0 {
        seq!['}']
    } else {
        (if first {
            Seq::empty()
        } else {
            seq![',']
        }) + (member_text(members[0].0, members[0].1) + members_text(members.skip(1), false))
    }
}

/// How an object is written.
pub open spec fn object_text(members: Seq<(Seq<char>, Seq<char>)>) -> Seq<char> {
    seq!['{'] + members_text(members, true)
}

/// Whether the members of an object can be told apart: their names need no escapes, and their
/// values end where they are closed.
pub open spec fn are_closed(members: Seq<(Seq<char>, Seq<char>)>) -> bool {
    forall|i: int|
        0 <= i < members.len() ==> needs_no_escape((#[trigger] members[i]).0) && is_closed(
            members[i].1,
        )
}

/// The contents of a list of members.
pub open spec fn member_views(members: Seq<(String, String)>) -> Seq<(Seq<char>, Seq<char>)> {
    Seq::new(members.len(), |i: int| (members[i].0@, members[i].1@))
}

/// Reads the member at the start of a text.
fn read_member(names: Names, text: &str) -> (member: Option<(String, String, String)>)
    ensures
        match member {
            Some((name, value, rest)) => first_member(names, text@) == Some((name@, value@, rest@))
                && rest@.len() < text@.len(),
            None => first_member(names, text@) is None,
        },
        forall|name: Seq<char>, value: Seq<char>, tail: Seq<char>|
            needs_no_escape(name) && is_closed(value) && follows_member(tail) && text@
                == #[trigger] (member_text(name, value) + tail) ==> first_member(names, text@)
                == Some((name, value, tail)),
{
    let chars = chars_of(text);
    if chars.len() == 0 || chars[0] != '"' {
        assert forall|name: Seq<char>, value: Seq<char>, tail: Seq<char>|
            text@ != #[trigger] (member_text(name, value) + tail) by {
            assert((member_text(name, value) + tail)[0] == '"');
        }
        return None;
    }
    let first = read_first_value(text);
    proof {
        assert forall|name: Seq<char>, value: Seq<char>, tail: Seq<char>|
            needs_no_escape(name) && text@ == #[trigger] (member_text(name, value)
                + tail) implies first is Some && (first->0).0@ == in_quotes(name) && (first->0).1@
            == seq![':'] + value + tail by {
            let rest = seq![':'] + value + tail;
            assert(member_text(name, value) + tail =~= in_quotes(name) + rest);
        }
    }
    let (quoted_name, rest) = match first {
        Some(split) => split,
        None => return None,
    };
    let read_name = match names {
        Names::Plain => read_plain_string(quoted_name.as_str()),
        Names::Escaped => read_string(quoted_name.as_str()),
    };
    let name = match read_name {
        Some(name) => name,
        None => return None,
    };
    proof {
        lemma_after_space(rest@);
        assert forall|name: Seq<char>, value: Seq<char>, tail: Seq<char>|
            needs_no_escape(name) && text@ == #[trigger] (member_text(name, value)
                + tail) implies after_space(rest@)[0] == ':' && after_space(rest@).len() > 0
            && after_space(rest@).skip(1) == value + tail by {
            assert(rest@ == seq![':'] + value + tail);
            assert(rest@[0] == ':');
            assert(rest@.skip(1) =~= value + tail);
        }
    }
    let value_text = match next_char(rest.as_str()) {
        Some((c, value_text)) => if c == ':' {
            value_text
        } else {
            return None;
        },
        None => return None,
    };
    let second = read_first_value(value_text.as_str());
    match second {
        Some((value, rest)) => Some((name, value, rest)),
        None => None,
    }
}

/// Reads the members of an object from behind its opening brace.
fn read_members(names: Names, start: &str) -> (members: Option<Vec<(String, String)>>)
    ensures
        match members {
            Some(members) => members_from(names, start@, true) == Some(member_views(members@)),
            None => members_from(names, start@, true) is None,
        },
        forall|written: Seq<(Seq<char>, Seq<char>)>|
            are_closed(written) && start@ == #[trigger] members_text(written, true)
                ==> members_from(names, start@, true) == Some(written),
{
    let mut members: Vec<(String, String)> = Vec::new();
    let mut text = start.to_owned();
    let ghost all = members_from(names, start@, true);
    proof {
        assert(member_views(members@) =~= Seq::empty());
        if let Some(rest) = all {
            assert(member_views(members@) + rest =~= rest);
        }
        assert forall|written: Seq<(Seq<char>, Seq<char>)>|
            start@ == #[trigger] members_text(written, true) implies text@ == members_text(
            written.skip(0),
            true,
        ) && member_views(members@) == written.take(0) by {
            assert(written.skip(0) =~= written);
            assert(written.take(0) =~= Seq::empty());
        }
    }
    loop
        invariant
            all == members_from(names, start@, true),
            all == (match members_from(names, text@, members@.len() == 0) {
                Some(rest) => Some(member_views(members@) + rest),
                None => None,
            }),
            forall|written: Seq<(Seq<char>, Seq<char>)>|
                are_closed(written) && start@ == #[trigger] members_text(written, true)
                    ==> members@.len() <= written.len() && text@ == members_text(
                    written.skip(members@.len() as int),
                    members@.len() == 0,
                ) && member_views(members@) == written.take(members@.len() as int),
        decreases text@.len(),
    {
        let ghost before = text@;
        let ghost count = members@.len() as int;
        proof {
            lemma_after_space(before);
        }
        let (c, rest) = match next_char(text.as_str()) {
            Some(next) => next,
            None => {
                assert forall|written: Seq<(Seq<char>, Seq<char>)>|
                    are_closed(written) && start@ == #[trigger] members_text(
                        written,
                        true,
                    ) implies false by {
                    lemma_members_start(written.skip(count), count == 0);
                }
                return None;
            },
        };
        if c == '}' {
            proof {
                assert(member_views(members@) + Seq::empty() =~= member_views(members@));
                assert forall|written: Seq<(Seq<char>, Seq<char>)>|
                    are_closed(written) && start@ == #[trigger] members_text(
                        written,
                        true,
                    ) implies member_views(members@) == written by {
                    lemma_members_start(written.skip(count), count == 0);
                    assert(written.skip(count).len() == 0);
                    assert(written.take(count) =~= written);
                }
            }
            return Some(members);
        }
        let here = if members.len() == 0 {
            let mut here = String::new();
            here.push(c);
            here.append(rest.as_str());
            assert(here@ =~= after_space(before));
            here
        } else if c == ',' {
            proof {
                lemma_after_space(rest@);
            }
            match next_char(rest.as_str()) {
                Some((c, rest)) => {
                    let mut here = String::new();
                    here.push(c);
                    here.append(rest.as_str());
                    assert(here@ =~= after_space(after_space(before).skip(1)));
                    here
                },
                None => {
                    assert forall|written: Seq<(Seq<char>, Seq<char>)>|
                        are_closed(written) && start@ == #[trigger] members_text(
                            written,
                            true,
                        ) implies false by {
                        lemma_members_start(written.skip(count), count == 0);
                    }
                    return None;
                },
            }
        } else {
            assert forall|written: Seq<(Seq<char>, Seq<char>)>|
                are_closed(written) && start@ == #[trigger] members_text(
                    written,
                    true,
                ) implies false by {
                lemma_members_start(written.skip(count), count == 0);
            }
            return None;
        };
        let member = read_member(names, here.as_str());
        proof {
            assert forall|written: Seq<(Seq<char>, Seq<char>)>|
                are_closed(written) && start@ == #[trigger] members_text(
                    written,
                    true,
                ) implies count < written.len() && first_member(names, here@) == Some(
                (
                    written[count].0,
                    written[count].1,
                    members_text(written.skip(count + 1), false),
                ),
            ) by {
                let remaining = written.skip(count);
                lemma_members_start(remaining, count == 0);
                lemma_members_start(written.skip(count + 1), false);
                assert(remaining.len() > 0);
                assert(remaining[0] == written[count]);
                assert(remaining.skip(1) =~= written.skip(count + 1));
                assert(here@ == member_text(written[count].0, written[count].1) + members_text(
                    written.skip(count + 1),
                    false,
                ));
            }
        }
        match member {
            Some((name, value, rest)) => {
                let ghost views = member_views(members@);
                members.push((name, value));
                text = rest;
                proof {
                    assert(member_views(members@) =~= views.push((name@, value@)));
                    if let Some(more) = members_from(names, text@, false) {
                        assert(views + (seq![(name@, value@)] + more) =~= member_views(members@)
                            + more);
                    }
                    assert forall|written: Seq<(Seq<char>, Seq<char>)>|
                        are_closed(written) && start@ == #[trigger] members_text(
                            written,
                            true,
                        ) implies count + 1 <= written.len() && text@ == members_text(
                        written.skip(count + 1),
                        false,
                    ) && member_views(members@) == written.take(count + 1) by {
                        assert(views.push(written[count]) =~= written.take(count + 1));
                    }
                }
            },
            None => {
                return None;
            },
        }
    }
}

/// How written members start: with the closing brace, with a double quote or with a comma, and what
/// follows.
proof fn lemma_members_start(members: Seq<(Seq<char>, Seq<char>)>, first: bool)
    ensures
        ({
            let text = members_text(members, first);
            let member = member_text(members[0].0, members[0].1) + members_text(
                members.skip(1),
                false,
            );
            &&& text.len() > 0
            &&& after_space(text) == text
            &&& members.len() == 0 <==> text[0] == '}'
            &&& members.len() > 0 && first ==> text == member && text[0] == '"'
            &&& members.len() > 0 && !first ==> text[0] == ',' && text.skip(1) == member
                && after_space(member) == member && member.len() > 0
        }),
{
    let text = members_text(members, first);
    if members.len() > 0 {
        let member = member_text(members[0].0, members[0].1) + members_text(
            members.skip(1),
            false,
        );
        assert(member[0] == '"');
        if first {
            assert(text =~= member);
        } else {
            assert(text[0] == ',');
            assert(text.skip(1) =~= member);
        }
    }
}

/// Reads the members of the JSON object that a text starts with.
pub fn read_object(names: Names, text: &str) -> (members: Option<Vec<(String, String)>>)
    ensures
        match members {
            Some(members) => object_members(names, text@) == Some(member_views(members@)),
            None => object_members(names, text@) is None,
        },
        forall|written: Seq<(Seq<char>, Seq<char>)>|
            are_closed(written) && text@ == #[trigger] object_text(written) ==> object_members(
                names,
                text@,
            ) == Some(written),
{
    proof {
        assert forall|written: Seq<(Seq<char>, Seq<char>)>|
            text@ == #[trigger] object_text(written) implies after_space(text@).len() > 0
            && after_space(text@)[0] == '{' && after_space(text@).skip(1) == members_text(
            written,
            true,
        ) by {
            assert(text@[0] == '{');
            assert(text@.skip(1) =~= members_text(written, true));
        }
    }
    match next_char(text) {
        Some((c, rest)) => if c == '{' {
            read_members(names, rest.as_str())
        } else {
            None
        },
        None => None,
    }
}

/// Whether a text is a JSON value at the depth of an object's member.
pub open spec fn is_member_value(text: Seq<char>) -> bool {
    json_is_value(in_brackets(text))
}

/// Returns whether a text is a JSON value at the depth of an object's member.
///
/// An array around the text is as deep as the object that the member belongs to.
pub fn check_member_value(text: &str) -> (valid: bool)
    ensures
        valid == is_member_value(text@),
        is_compact(text@, (max_depth() - 1) as nat) ==> valid,
{
    let mut array = String::new();
    array.push('[');
    array.append(text);
    array.push(']');
    proof {
        assert(array@ =~= in_brackets(text@));
        let elements = seq![text@];
        assert(array@ == array_text(elements));
    }
    is_value(array.as_str())
}

/// Writes a JSON object with the given members, whose names need no escapes and whose values are
/// JSON texts.
pub fn write_object(members: &Vec<(String, String)>) -> (text: String)
    ensures
        text@ == object_text(member_views(members@)),
{
    let ghost views = member_views(members@);
    let mut text = String::new();
    text.push('{');
    let mut i: usize = 0;
    assert(views.skip(0) =~= views);
    assert(text@ =~= seq!['{']);
    while i < members.len()
        invariant
            i <= members@.len(),
            views == member_views(members@),
            text@ + members_text(views.skip(i as int), i == 0) == object_text(views),
        decreases members@.len() - i,
    {
        let ghost before = text@;
        let ghost remaining = views.skip(i as int);
        assert(remaining[0] == views[i as int]);
        assert(remaining.skip(1) =~= views.skip(i + 1));
        if i > 0 {
            text.push(',');
        }
        text.push('"');
        text.append(members[i].0.as_str());
        text.push('"');
        text.push(':');
        text.append(members[i].1.as_str());
        assert(text@ + members_text(views.skip(i + 1), false) =~= before + members_text(
            remaining,
            i == 0,
        ));
        i += 1;
    }
    assert(views.skip(i as int).len() == 0);
    text.push('}');
    assert(text@ =~= object_text(views));
    text
}

/// The value of the last member of the given name.
pub open spec fn last_member(members: Seq<(Seq<char>, Seq<char>)>, name: Seq<char>) -> Option<
    Seq<char>,
>
    decreases members.len(),
{
    if members.len() == 0 {
        None
    } else if members.last().0 == name {
        Some(members.last().1)
    } else {
        last_member(members.drop_last(), name)
    }
}

/// How many members have the given name.
pub open spec fn member_count(members: Seq<(Seq<char>, Seq<char>)>, name: Seq<char>) -> nat
    decreases members.len(),
{
    if members.len() == 0 {
        0
    } else {
        member_count(members.drop_last(), name) + if members.last().0 == name {
            1nat
        } else {
            0
        }
    }
}

/// There is a last member of a name where there is a member of it.
pub proof fn lemma_member_count(members: Seq<(Seq<char>, Seq<char>)>, name: Seq<char>)
    ensures
        member_count(members, name) <= members.len(),
        member_count(members, name) > 0 <==> last_member(members, name) is Some,
    decreases members.len(),
{
    if members.len() > 0 {
        lemma_member_count(members.drop_last(), name);
    }
}

/// Counts the members of the given name.
pub fn count_members(members: &Vec<(String, String)>, name: &str) -> (count: usize)
    ensures
        count == member_count(member_views(members@), name@),
{
    let ghost views = member_views(members@);
    let mut count: usize = 0;
    let mut i: usize = 0;
    assert(views.take(0) =~= Seq::empty());
    while i < members.len()
        invariant
            i <= members@.len(),
            views == member_views(members@),
            count <= i,
            count == member_count(views.take(i as int), name@),
        decreases members@.len() - i,
    {
        assert(views.take(i + 1).drop_last() =~= views.take(i as int));
        if same_text(members[i].0.as_str(), name) {
            count += 1;
        }
        i += 1;
    }
    assert(views.take(i as int) =~= views);
    count
}

/// Finds the last member of the given name.
pub fn find_last_member(members: &Vec<(String, String)>, name: &str) -> (value: Option<String>)
    ensures
        match value {
            Some(value) => last_member(member_views(members@), name@) == Some(value@),
            None => last_member(member_views(members@), name@) is None,
        },
{
    let ghost views = member_views(members@);
    let mut i: usize = members.len();
    assert(views.take(i as int) =~= views);
    while i > 0
        invariant
            i <= members@.len(),
            views == member_views(members@),
            last_member(views, name@) == last_member(views.take(i as int), name@),
        decreases i,
    {
        assert(views.take(i as int).drop_last() =~= views.take(i - 1));
        if same_text(members[i - 1].0.as_str(), name) {
            return Some(members[i - 1].1.clone());
        }
        i -= 1;
    }
    None
}

/// The last member of a name is the one behind which no other has that name, and the members of a name
/// are counted one by one.
pub proof fn lemma_last_members(
    members: Seq<(Seq<char>, Seq<char>)>,
    more: (Seq<char>, Seq<char>),
    name: Seq<char>,
)
    ensures
        last_member(Seq::empty(), name) is None,
        more.0 == name ==> last_member(members.push(more), name) == Some(more.1),
        more.0 != name ==> last_member(members.push(more), name) == last_member(members, name),
        member_count(Seq::empty(), name) == 0,
        more.0 == name ==> member_count(members.push(more), name) == member_count(members, name)
            + 1,
        more.0 != name ==> member_count(members.push(more), name) == member_count(members, name),
{
    assert(members.push(more).drop_last() =~= members);
}

/// White space is blanks, tabs and ends of lines, and all of it that leads a text is skipped.
pub proof fn lemma_space_is_skipped(text: Seq<char>, c: char)
    ensures
        is_json_space(c) <==> c == ' ' || c == '\n' || c == '\t' || c == '\r',
        is_json_space(c) ==> after_space(seq![c] + text) == after_space(text),
        !is_json_space(c) ==> after_space(seq![c] + text) == seq![c] + text,
        after_space(Seq::empty()) == Seq::<char>::empty(),
{
    assert((seq![c] + text).skip(1) =~= text);
}

/// Texts are joined one after the other, with a comma between two of them, and a list is written in
/// brackets.
pub proof fn lemma_texts_are_joined(texts: Seq<Seq<char>>, more: Seq<char>)
    ensures
        joined(Seq::empty()) == Seq::<char>::empty(),
        joined(seq![more]) == more,
        texts.len() > 0 ==> joined(texts.push(more)) == joined(texts).push(',') + more,
        array_text(texts) == seq!['['] + joined(texts) + seq![']'],
{
    assert(texts.push(more).drop_last() =~= texts);
    if texts.len() > 0 {
        assert(joined(texts) + seq![','] =~= joined(texts).push(','));
    }
}

/// An object is written in braces, with its members one after the other, a comma between two of them,
/// and each with its name in quotes and a colon in front of its value.
pub proof fn lemma_objects_are_written(
    name: Seq<char>,
    value: Seq<char>,
    members: Seq<(Seq<char>, Seq<char>)>,
)
    ensures
        object_text(Seq::empty()) == seq!['{', '}'],
        object_text(seq![(name, value)]) == seq!['{', '"'] + name + seq!['"', ':'] + value + seq![
            '}',
        ],
        members.len() > 0 ==> object_text(seq![(name, value)] + members) == seq!['{', '"'] + name
            + seq!['"', ':'] + value + seq![','] + object_text(members).skip(1),
{
    let one = seq![(name, value)];
    let open = seq!['{', '"'] + name + seq!['"', ':'] + value;
    assert(object_text(Seq::empty()) =~= seq!['{', '}']);
    assert(one.skip(1) =~= Seq::<(Seq<char>, Seq<char>)>::empty());
    assert(members_text(one.skip(1), false) == seq!['}']);
    assert(seq!['{'] + member_text(name, value) =~= open);
    assert(object_text(one) =~= open + seq!['}']);
    if members.len() > 0 {
        let all = one + members;
        assert(all.skip(1) =~= members);
        assert(members_text(members, false) =~= seq![','] + members_text(members, true));
        assert(object_text(members).skip(1) =~= members_text(members, true));
        assert(all[0] == (name, value));
        assert(object_text(all) =~= open + seq![','] + object_text(members).skip(1));
    }
}

} // verus!
