//! Text primitives: comparison, decimal numbers and fields between separators.

use vstd::arithmetic::power::{lemma_pow0, pow};
use vstd::prelude::*;
use vstd::string::StringExecFns;

verus! {

/// `String::push` appends one character to the end of the string.
pub assume_specification[ String::push ](text: &mut String, c: char)
    ensures
        final(text)@ == old(text)@.push(c),
;

/// Returns the characters of a text.
pub fn chars_of(text: &str) -> (chars: Vec<char>)
    ensures
        chars@ == text@,
{
    let mut chars: Vec<char> = Vec::new();
    for c in it: text.chars()
        invariant
            it.seq() == text@,
            chars@ == text@.take(it.index()),
    {
        chars.push(c);
    }
    chars
}

/// Makes a text of characters, from an index on.
pub fn text_from(chars: &Vec<char>, from: usize) -> (text: String)
    requires
        from <= chars@.len(),
    ensures
        text@ == chars@.skip(from as int),
{
    let mut text = String::new();
    let mut i: usize = from;
    while i < chars.len()
        invariant
            from <= i <= chars@.len(),
            text@ == chars@.subrange(from as int, i as int),
        decreases chars@.len() - i,
    {
        text.push(chars[i]);
        assert(text@ =~= chars@.subrange(from as int, i + 1));
        i += 1;
    }
    assert(chars@.subrange(from as int, i as int) =~= chars@.skip(from as int));
    text
}

/// Returns whether two texts hold the same characters.
pub fn same_text(a: &str, b: &str) -> (same: bool)
    ensures
        same == (a@ == b@),
{
    a.to_owned() == b.to_owned()
}

/// The value of a decimal digit.
pub open spec fn digit_value(c: char) -> nat {
    (c as int - '0' as int) as nat
}

/// Whether a character is one of the digits `0` to `9`.
pub open spec fn is_digit(c: char) -> bool {
    '0' <= c <= '9'
}

/// The number that a sequence of decimal digits denotes.
pub open spec fn decimal_value(digits: Seq<char>) -> nat
    decreases digits.len(),
{
    if digits.len() == 0 {
        0
    } else {
        10 * decimal_value(digits.drop_last()) + digit_value(digits.last())
    }
}

/// The decimal digits of a number, without leading zeros.
pub open spec fn decimal_digits(n: nat) -> Seq<char>
    decreases n,
{
    if n < 10 {
        seq![('0' as int + n) as char]
    } else {
        decimal_digits(n / 10).push(('0' as int + n % 10) as char)
    }
}

/// Whether every character is a decimal digit.
pub open spec fn all_digits(chars: Seq<char>) -> bool {
    forall|i: int| 0 <= i < chars.len() ==> is_digit(#[trigger] chars[i])
}

/// The text after an optional plus sign.
pub open spec fn without_plus(text: Seq<char>) -> Seq<char> {
    if text.len() > 0 && text[0] == '+' {
        text.skip(1)
    } else {
        text
    }
}

/// The `u64` that a text denotes: an optional plus sign, then one digit or more.
pub open spec fn parsed_u64(text: Seq<char>) -> Option<u64> {
    let digits = without_plus(text);
    if digits.len() > 0 && all_digits(digits) && decimal_value(digits) <= u64::MAX {
        Some(decimal_value(digits) as u64)
    } else {
        None
    }
}

/// Prefixes of a digit sequence denote numbers that are no larger.
proof fn lemma_decimal_value_grows(digits: Seq<char>, n: int)
    requires
        0 <= n <= digits.len(),
    ensures
        decimal_value(digits.take(n)) <= decimal_value(digits),
    decreases digits.len() - n,
{
    if n < digits.len() {
        lemma_decimal_value_grows(digits, n + 1);
        assert(digits.take(n + 1).drop_last() == digits.take(n));
    } else {
        assert(digits.take(n) == digits);
    }
}

/// The digits of a number are digits, and denote that number.
pub proof fn lemma_decimal_digits(n: nat)
    ensures
        decimal_digits(n).len() > 0,
        all_digits(decimal_digits(n)),
        decimal_value(decimal_digits(n)) == n,
    decreases n,
{
    if n < 10 {
        assert(decimal_digits(n).drop_last() == Seq::<char>::empty());
        assert(decimal_value(Seq::<char>::empty()) == 0);
    } else {
        lemma_decimal_digits(n / 10);
        assert(decimal_digits(n).drop_last() == decimal_digits(n / 10));
    }
}

/// Writing an amount as text and reading it back gives the amount.
pub proof fn lemma_amount_round_trip(amount: u64)
    ensures
        parsed_u64(decimal_digits(amount as nat)) == Some(amount),
{
    lemma_decimal_digits(amount as nat);
    assert(is_digit(decimal_digits(amount as nat)[0]));
}

/// Reads a decimal `u64` from characters.
pub fn parse_u64_chars(chars: &Vec<char>) -> (value: Option<u64>)
    ensures
        value == parsed_u64(chars@),
{
    let start: usize = if chars.len() > 0 && chars[0] == '+' {
        1
    } else {
        0
    };
    let ghost digits = chars@.skip(start as int);
    assert(digits == without_plus(chars@));
    if start == chars.len() {
        return None;
    }
    let mut value: u64 = 0;
    let mut i: usize = start;
    while i < chars.len()
        invariant
            start <= i <= chars@.len(),
            start == 0 || start == 1,
            digits == chars@.skip(start as int),
            digits == without_plus(chars@),
            digits.len() > 0,
            forall|j: int| 0 <= j < i - start ==> is_digit(#[trigger] digits[j]),
            value == decimal_value(digits.take(i - start)),
        decreases chars@.len() - i,
    {
        let c = chars[i];
        let ghost at = i - start;
        assert(digits[at] == c);
        if c < '0' || '9' < c {
            assert(!is_digit(digits[at]));
            return None;
        }
        let d: u64 = (c as u32 - '0' as u32) as u64;
        proof {
            lemma_decimal_value_grows(digits, at + 1);
            assert(digits.take(at + 1).drop_last() == digits.take(at));
        }
        match value.checked_mul(10) {
            Some(shifted) => match shifted.checked_add(d) {
                Some(next) => {
                    value = next;
                },
                None => {
                    return None;
                },
            },
            None => {
                return None;
            },
        }
        i += 1;
    }
    assert(digits.take(i - start) == digits);
    Some(value)
}

/// Reads a decimal `u64` from a text.
pub fn parse_u64(text: &str) -> (value: Option<u64>)
    ensures
        value == parsed_u64(text@),
{
    let chars = chars_of(text);
    parse_u64_chars(&chars)
}

/// Writes a decimal number as text.
pub fn u64_to_string(value: u64) -> (text: String)
    ensures
        text@ == decimal_digits(value as nat),
    decreases value,
{
    let digit: u8 = (value % 10) as u8;
    let mut text = if value < 10 {
        String::new()
    } else {
        u64_to_string(value / 10)
    };
    assert((48 + digit) as char == ('0' as int + value % 10) as char);
    text.push((48 + digit) as char);
    assert(text@ == decimal_digits(value as nat));
    text
}

/// The decimal digits of a number, after a minus sign where it is negative.
pub open spec fn signed_digits(n: int) -> Seq<char> {
    if n < 0 {
        seq!['-'] + decimal_digits((-n) as nat)
    } else {
        decimal_digits(n as nat)
    }
}

/// Writes a number in decimal digits.
pub fn i32_to_string(value: i32) -> (text: String)
    ensures
        text@ == signed_digits(value as int),
{
    if value < 0 {
        let magnitude: u64 = (-(value as i64)) as u64;
        let digits = u64_to_string(magnitude);
        let mut text = String::new();
        text.push('-');
        text.append(digits.as_str());
        assert(text@ =~= signed_digits(value as int));
        text
    } else {
        u64_to_string(value as u64)
    }
}

/// The decimal digits of numbers, with a comma between each two.
pub open spec fn numbers_text(numbers: Seq<u16>) -> Seq<char>
    decreases numbers.len(),
{
    if numbers.len() == 0 {
        Seq::empty()
    } else if numbers.len() == 1 {
        decimal_digits(numbers[0] as nat)
    } else {
        numbers_text(numbers.drop_last()) + seq![','] + decimal_digits(numbers.last() as nat)
    }
}

/// The fields of a text between occurrences of a separator.
pub open spec fn fields_between(text: Seq<char>, separator: char) -> Seq<Seq<char>>
    decreases text.len(),
{
    if text.len() == 0 {
        seq![Seq::empty()]
    } else {
        let before = fields_between(text.drop_last(), separator);
        if text.last() == separator {
            before.push(Seq::empty())
        } else {
            before.update(before.len() - 1, before.last().push(text.last()))
        }
    }
}

/// There is at least one field in every text.
pub proof fn lemma_fields_nonempty(text: Seq<char>, separator: char)
    ensures
        fields_between(text, separator).len() > 0,
    decreases text.len(),
{
    if text.len() > 0 {
        lemma_fields_nonempty(text.drop_last(), separator);
    }
}

/// Appending characters other than the separator extends the last field.
pub proof fn lemma_fields_extend(text: Seq<char>, more: Seq<char>, separator: char)
    requires
        forall|i: int| 0 <= i < more.len() ==> #[trigger] more[i] != separator,
    ensures
        ({
            let before = fields_between(text, separator);
            fields_between(text + more, separator) == before.update(
                before.len() - 1,
                before.last() + more,
            )
        }),
    decreases more.len(),
{
    let before = fields_between(text, separator);
    lemma_fields_nonempty(text, separator);
    if more.len() == 0 {
        assert(text + more == text);
        assert(before.last() + more == before.last());
        assert(before.update(before.len() - 1, before.last()) =~= before);
    } else {
        lemma_fields_extend(text, more.drop_last(), separator);
        assert((text + more).drop_last() == text + more.drop_last());
        assert((before.last() + more.drop_last()).push(more.last()) =~= before.last() + more);
        assert(fields_between(text + more, separator) =~= before.update(
            before.len() - 1,
            before.last() + more,
        ));
    }
}

/// Splits a text at a separator.
pub fn split_at_char(text: &str, separator: char) -> (fields: Vec<Vec<char>>)
    ensures
        fields@.len() == fields_between(text@, separator).len(),
        fields@.len() > 0,
        forall|i: int|
            0 <= i < fields@.len() ==> (#[trigger] fields@[i])@ == fields_between(
                text@,
                separator,
            )[i],
{
    let chars = chars_of(text);
    let mut done: Vec<Vec<char>> = Vec::new();
    let mut current: Vec<char> = Vec::new();
    let mut i: usize = 0;
    while i < chars.len()
        invariant
            i <= chars@.len(),
            chars@ == text@,
            done@.len() + 1 == fields_between(text@.take(i as int), separator).len(),
            forall|k: int|
                0 <= k < done@.len() ==> (#[trigger] done@[k])@ == fields_between(
                    text@.take(i as int),
                    separator,
                )[k],
            current@ == fields_between(text@.take(i as int), separator).last(),
        decreases chars@.len() - i,
    {
        let c = chars[i];
        assert(text@.take(i + 1).drop_last() == text@.take(i as int));
        if c == separator {
            done.push(current);
            current = Vec::new();
            assert(current@ == Seq::<char>::empty());
        } else {
            current.push(c);
        }
        i += 1;
    }
    assert(text@.take(i as int) == text@);
    done.push(current);
    done
}

/// The digits are those from zero to nine, and each denotes its place among them.
pub proof fn lemma_digits(c: char)
    ensures
        is_digit(c) <==> '0' <= c <= '9',
        is_digit(c) ==> digit_value(c) <= 9 && '0' as int + digit_value(c) == c as int,
{
}

/// Digits denote a number in base ten, with the first of them weighing most: those in front of others
/// weigh ten times as much for each digit that follows.
pub proof fn lemma_digits_are_positional(front: Seq<char>, back: Seq<char>, c: char)
    ensures
        decimal_value(Seq::<char>::empty()) == 0,
        decimal_value(seq![c]) == digit_value(c),
        decimal_value(front + back) == decimal_value(front) * pow(10, back.len())
            + decimal_value(back),
    decreases back.len(),
{
    lemma_pow0(10);
    assert(seq![c].drop_last() =~= Seq::<char>::empty());
    if back.len() == 0 {
        assert(front + back =~= front);
        assert(decimal_value(front) * 1 == decimal_value(front));
    } else {
        let less = (back.len() - 1) as nat;
        lemma_digits_are_positional(front, back.drop_last(), c);
        assert((front + back).drop_last() =~= front + back.drop_last());
        assert(pow(10, back.len()) == 10 * pow(10, less)) by {
            reveal(pow);
        }
        assert(10 * (decimal_value(front) * pow(10, less)) == decimal_value(front) * (10 * pow(
            10,
            less,
        ))) by (nonlinear_arith);
    }
}

/// A text is read as an amount exactly where it is one or more digits that denote the amount. A plus
/// sign in front of it changes nothing.
pub proof fn lemma_amounts_are_digits(text: Seq<char>, amount: u64)
    requires
        text.len() > 0 ==> text[0] != '+',
    ensures
        parsed_u64(text) == Some(amount) <==> {
            &&& text.len() > 0
            &&& forall|i: int| 0 <= i < text.len() ==> '0' <= #[trigger] text[i] <= '9'
            &&& decimal_value(text) == amount
        },
        parsed_u64(seq!['+'] + text) == parsed_u64(text),
{
    assert((seq!['+'] + text).skip(1) =~= text);
}

/// An amount is written without zeros in front.
pub proof fn lemma_no_leading_zeros(n: nat)
    ensures
        decimal_digits(n).len() > 0,
        n > 0 ==> decimal_digits(n)[0] != '0',
        n < 10 ==> decimal_digits(n).len() == 1,
    decreases n,
{
    if n >= 10 {
        lemma_no_leading_zeros(n / 10);
    }
}

/// A negative number is written as its size behind a minus sign, and any other as its digits.
pub proof fn lemma_signs(n: int)
    ensures
        n >= 0 ==> signed_digits(n) == decimal_digits(n as nat),
        n < 0 ==> signed_digits(n)[0] == '-' && signed_digits(n).skip(1) == decimal_digits(
            (-n) as nat,
        ),
{
    if n < 0 {
        assert(signed_digits(n).skip(1) =~= decimal_digits((-n) as nat));
    }
}

/// Numbers are written one after the other, with a comma between two of them.
pub proof fn lemma_numbers_are_listed(numbers: Seq<u16>, number: u16)
    ensures
        numbers_text(Seq::<u16>::empty()) == Seq::<char>::empty(),
        numbers_text(seq![number]) == decimal_digits(number as nat),
        numbers.len() > 0 ==> numbers_text(numbers.push(number)) == numbers_text(numbers).push(',')
            + decimal_digits(number as nat),
{
    assert(numbers.push(number).drop_last() =~= numbers);
    if numbers.len() > 0 {
        assert(numbers_text(numbers) + seq![','] =~= numbers_text(numbers).push(','));
    }
}

/// The first field of a text ends at the first separator, and the others are the fields of what
/// follows it.
pub proof fn lemma_fields_end_at_separators(first: Seq<char>, rest: Seq<char>, separator: char)
    requires
        forall|i: int| 0 <= i < first.len() ==> #[trigger] first[i] != separator,
    ensures
        fields_between(first, separator) == seq![first],
        fields_between(first.push(separator) + rest, separator) == seq![first] + fields_between(
            rest,
            separator,
        ),
    decreases rest.len(),
{
    let empty = Seq::<char>::empty();
    let text = first.push(separator) + rest;
    lemma_fields_extend(empty, first, separator);
    assert(empty + first =~= first);
    assert(fields_between(first, separator) =~= seq![first]);
    lemma_fields_nonempty(rest, separator);
    if rest.len() == 0 {
        assert(text =~= first.push(separator));
        assert(text.drop_last() =~= first);
        assert(fields_between(text, separator) =~= seq![first] + fields_between(rest, separator));
    } else {
        lemma_fields_end_at_separators(first, rest.drop_last(), separator);
        lemma_fields_nonempty(rest.drop_last(), separator);
        assert(text.drop_last() =~= first.push(separator) + rest.drop_last());
        assert(text.last() == rest.last());
        assert(fields_between(text, separator) =~= seq![first] + fields_between(rest, separator));
    }
}

/// Writing an amount and reading it back gives the amount, and different amounts are written
/// differently.
pub proof fn lemma_amounts_are_written_and_read(
    amount: u64,
    written: String,
    text: &str,
    read: Option<u64>,
    other: u64,
    other_written: String,
)
    requires
        call_ensures(u64_to_string, (amount,), written),
        text@ == written@,
        call_ensures(parse_u64, (text,), read),
        call_ensures(u64_to_string, (other,), other_written),
    ensures
        read == Some(amount),
        written@ == other_written@ <==> amount == other,
{
    lemma_amount_round_trip(amount);
    lemma_amount_round_trip(other);
}

} // verus!
