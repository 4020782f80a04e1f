//! Short channel ids, hexadecimal text, public keys and request ids.

use vstd::prelude::*;
use vstd::string::StringExecFns;

use crate::lsps0::msgs::RequestId;
use crate::text::{
    chars_of, decimal_digits, fields_between, lemma_amount_round_trip, lemma_decimal_digits,
    lemma_fields_end_at_separators, lemma_fields_extend, parse_u64_chars, parsed_u64, split_at_char, u64_to_string,
};
use crate::types::PublicKey;

verus! {

/// Maximum transaction index that can be used in a `short_channel_id`.
/// This value is based on the 3-bytes available for tx index.
pub const MAX_SCID_TX_INDEX: u64 = 0x00ffffff;

/// Maximum vout index that can be used in a `short_channel_id`. This
/// value is based on the 2-bytes available for the vout index.
pub const MAX_SCID_VOUT_INDEX: u64 = 0xffff;

/// Extracts the block height (most significant 3-bytes) from the `short_channel_id`.
pub fn block_from_scid(short_channel_id: &u64) -> (block: u32)
    ensures
        block == *short_channel_id / 0x100_0000_0000,
{
    let scid: u64 = *short_channel_id;
    assert(scid >> 40 == scid / 0x100_0000_0000 && scid >> 40 <= 0xffffff) by (bit_vector);
    (scid >> 40) as u32
}

/// Extracts the tx index (bytes [2..4]) from the `short_channel_id`.
pub fn tx_index_from_scid(short_channel_id: &u64) -> (tx_index: u32)
    ensures
        tx_index == *short_channel_id / 0x1_0000 % 0x100_0000,
{
    let scid: u64 = *short_channel_id;
    assert((scid >> 16) & 0x00ffffff == scid / 0x1_0000 % 0x100_0000 && (scid >> 16) & 0x00ffffff
        <= 0xffffff) by (bit_vector);
    ((scid >> 16) & MAX_SCID_TX_INDEX) as u32
}

/// Extracts the vout (bytes [0..2]) from the `short_channel_id`.
pub fn vout_from_scid(short_channel_id: &u64) -> (vout: u16)
    ensures
        vout == *short_channel_id % 0x1_0000,
{
    let scid: u64 = *short_channel_id;
    assert(scid & 0xffff == scid % 0x1_0000 && scid & 0xffff <= 0xffff) by (bit_vector);
    (scid & MAX_SCID_VOUT_INDEX) as u16
}

/// The `short_channel_id` that packs a block height, a tx index and a vout.
pub open spec fn packed_scid(block: u64, tx_index: u64, vout: u64) -> u64 {
    (block << 40) | (tx_index << 16) | vout
}

/// The `short_channel_id` that a text of the form `block`x`tx index`x`vout` denotes.
///
/// What follows a third `x` is ignored.
pub open spec fn parsed_scid(text: Seq<char>) -> Option<u64> {
    let fields = fields_between(text, 'x');
    if fields.len() < 3 {
        None
    } else {
        match (parsed_u64(fields[0]), parsed_u64(fields[1]), parsed_u64(fields[2])) {
            (Some(block), Some(tx_index), Some(vout)) => Some(packed_scid(block, tx_index, vout)),
            _ => None,
        }
    }
}

/// Parts that fit their bytes come back out of the `short_channel_id` that packs them.
pub proof fn lemma_packed_scid_parts(block: u64, tx_index: u64, vout: u64)
    requires
        block <= 0xffffff,
        tx_index <= MAX_SCID_TX_INDEX,
        vout <= MAX_SCID_VOUT_INDEX,
    ensures
        packed_scid(block, tx_index, vout) / 0x100_0000_0000 == block,
        packed_scid(block, tx_index, vout) / 0x1_0000 % 0x100_0000 == tx_index,
        packed_scid(block, tx_index, vout) % 0x1_0000 == vout,
{
    let scid = packed_scid(block, tx_index, vout);
    assert(scid / 0x100_0000_0000 == block && scid / 0x1_0000 % 0x100_0000 == tx_index && scid
        % 0x1_0000 == vout) by (bit_vector)
        requires
            scid == (block << 40) | (tx_index << 16) | vout,
            block <= 0xffffff,
            tx_index <= 0xffffff,
            vout <= 0xffff,
    ;
}

/// Parses a `short_channel_id` from its human readable form.
pub fn scid_from_human_readable_string(human_readable_scid: &str) -> (scid: Result<u64, ()>)
    ensures
        scid == (match parsed_scid(human_readable_scid@) {
            Some(value) => Ok(value),
            None => Err(()),
        }),
{
    let parts = split_at_char(human_readable_scid, 'x');
    if parts.len() < 3 {
        return Err(());
    }
    let block = parse_u64_chars(&parts[0]);
    let tx_index = parse_u64_chars(&parts[1]);
    let vout_index = parse_u64_chars(&parts[2]);
    match (block, tx_index, vout_index) {
        (Some(block), Some(tx_index), Some(vout_index)) => Ok(
            (block << 40) | (tx_index << 16) | vout_index,
        ),
        _ => Err(()),
    }
}

/// The human readable form of a `short_channel_id`.
pub open spec fn scid_text(scid: u64) -> Seq<char> {
    decimal_digits((scid / 0x100_0000_0000) as nat).push('x') + decimal_digits(
        (scid / 0x1_0000 % 0x100_0000) as nat,
    ).push('x') + decimal_digits((scid % 0x1_0000) as nat)
}

/// Reading the human readable form of a `short_channel_id` gives the `short_channel_id`.
pub proof fn lemma_scid_round_trip(scid: u64)
    ensures
        parsed_scid(scid_text(scid)) == Some(scid),
{
    let block = scid / 0x100_0000_0000;
    let tx_index = scid / 0x1_0000 % 0x100_0000;
    let vout = scid % 0x1_0000;
    let a = decimal_digits(block as nat);
    let b = decimal_digits(tx_index as nat);
    let c = decimal_digits(vout as nat);
    lemma_decimal_digits(block as nat);
    lemma_decimal_digits(tx_index as nat);
    lemma_decimal_digits(vout as nat);
    lemma_amount_round_trip(block);
    lemma_amount_round_trip(tx_index);
    lemma_amount_round_trip(vout);
    let empty = Seq::<char>::empty();
    lemma_fields_extend(empty, a, 'x');
    assert(empty + a == a);
    assert(fields_between(a, 'x') =~= seq![a]);
    let first = a.push('x');
    assert(first.drop_last() == a);
    assert(fields_between(first, 'x') =~= seq![a, empty]);
    lemma_fields_extend(first, b, 'x');
    assert(empty + b == b);
    assert(fields_between(first + b, 'x') =~= seq![a, b]);
    let second = first + b.push('x');
    assert(second.drop_last() == first + b);
    assert(fields_between(second, 'x') =~= seq![a, b, empty]);
    lemma_fields_extend(second, c, 'x');
    assert(empty + c == c);
    assert(fields_between(scid_text(scid), 'x') =~= seq![a, b, c]);
    assert((block << 40) | (tx_index << 16) | vout == scid) by (bit_vector)
        requires
            block == scid / 0x100_0000_0000,
            tx_index == scid / 0x1_0000 % 0x100_0000,
            vout == scid % 0x1_0000,
    ;
}

/// Writes a `short_channel_id` in its human readable form.
pub fn scid_to_string(scid: u64) -> (text: String)
    ensures
        text@ == scid_text(scid),
{
    let mut text = u64_to_string(block_from_scid(&scid) as u64);
    text.push('x');
    text.append(u64_to_string(tx_index_from_scid(&scid) as u64).as_str());
    text.push('x');
    text.append(u64_to_string(vout_from_scid(&scid) as u64).as_str());
    assert(text@ =~= scid_text(scid));
    text
}

/// The lower-case hexadecimal digit of a number below 16.
pub open spec fn hex_digit(value: u8) -> char {
    if value < 10 {
        ('0' as int + value) as char
    } else {
        ('a' as int + value - 10) as char
    }
}

/// The value of a hexadecimal digit of either case.
pub open spec fn hex_digit_value(c: char) -> Option<u8> {
    if 'A' <= c <= 'F' {
        Some((c as int - 'A' as int + 10) as u8)
    } else if 'a' <= c <= 'f' {
        Some((c as int - 'a' as int + 10) as u8)
    } else if '0' <= c <= '9' {
        Some((c as int - '0' as int) as u8)
    } else {
        None
    }
}

/// The hexadecimal text of bytes, two digits for each byte.
pub open spec fn hex_text(bytes: Seq<u8>) -> Seq<char> {
    Seq::new(
        2 * bytes.len(),
        |i: int|
            hex_digit(
                if i % 2 == 0 {
                    bytes[i / 2] / 16
                } else {
                    bytes[i / 2] % 16
                },
            ),
    )
}

/// The bytes that hexadecimal text denotes; a last digit without a partner is dropped.
pub open spec fn hex_bytes(text: Seq<char>) -> Option<Seq<u8>> {
    if forall|i: int| 0 <= i < text.len() ==> hex_digit_value(#[trigger] text[i]) is Some {
        Some(
            Seq::new(
                text.len() / 2,
                |i: int|
                    (16 * hex_digit_value(text[2 * i])->0 + hex_digit_value(text[2 * i + 1])->0)
                        as u8,
            ),
        )
    } else {
        None
    }
}

/// Reading the hexadecimal text of bytes gives the bytes.
pub proof fn lemma_hex_round_trip(bytes: Seq<u8>)
    ensures
        hex_bytes(hex_text(bytes)) == Some(bytes),
{
    let text = hex_text(bytes);
    assert(hex_bytes(text)->0 =~= bytes);
}

fn hex_char(value: u8) -> (c: char)
    requires
        value < 16,
    ensures
        c == hex_digit(value),
{
    if value < 10 {
        (48 + value) as char
    } else {
        (87 + value) as char
    }
}

/// Writes bytes as lower-case hexadecimal text.
pub fn hex_str(value: &[u8]) -> (text: String)
    ensures
        text@ == hex_text(value@),
{
    let mut res = String::new();
    let mut i: usize = 0;
    while i < value.len()
        invariant
            i <= value@.len(),
            res@ == hex_text(value@.take(i as int)),
        decreases value@.len() - i,
    {
        let ghost before = res@;
        res.push(hex_char(value[i] / 16));
        res.push(hex_char(value[i] % 16));
        proof {
            let next = value@.take(i + 1);
            assert(res@ =~= hex_text(next));
        }
        i += 1;
    }
    assert(value@.take(i as int) == value@);
    res
}

/// Reads bytes from hexadecimal text.
pub fn to_vec(hex: &str) -> (bytes: Option<Vec<u8>>)
    ensures
        match bytes {
            Some(bytes) => hex_bytes(hex@) == Some(bytes@),
            None => hex_bytes(hex@) is None,
        },
{
    let chars = chars_of(hex);
    let mut out: Vec<u8> = Vec::new();
    let mut b: u8 = 0;
    let mut i: usize = 0;
    while i < chars.len()
        invariant
            i <= chars@.len(),
            chars@ == hex@,
            forall|j: int| 0 <= j < i ==> hex_digit_value(#[trigger] hex@[j]) is Some,
            out@.len() == i / 2,
            forall|j: int|
                0 <= j < out@.len() ==> #[trigger] out@[j] == (16 * hex_digit_value(
                    hex@[2 * j],
                )->0 + hex_digit_value(hex@[2 * j + 1])->0) as u8,
            i % 2 == 0 ==> b == 0,
            i % 2 == 1 ==> b == hex_digit_value(hex@[i - 1])->0,
            b < 16,
        decreases chars@.len() - i,
    {
        let c = chars[i];
        let digit: u8 = if 'A' <= c && c <= 'F' {
            (c as u32 - 65 + 10) as u8
        } else if 'a' <= c && c <= 'f' {
            (c as u32 - 97 + 10) as u8
        } else if '0' <= c && c <= '9' {
            (c as u32 - 48) as u8
        } else {
            assert(hex_digit_value(hex@[i as int]) is None);
            return None;
        };
        assert(hex_digit_value(hex@[i as int]) == Some(digit));
        b = b * 16 + digit;
        if i % 2 == 1 {
            out.push(b);
            b = 0;
        }
        i += 1;
    }
    assert(out@ =~= hex_bytes(hex@)->0);
    Some(out)
}

/// The public key that bytes encode, in its compressed serialisation.
pub uninterp spec fn secp256k1_public_key(data: Seq<u8>) -> Option<Seq<u8>>;

/// `secp256k1::PublicKey::from_slice` reads a public key, and
/// `secp256k1::PublicKey::serialize` writes it compressed.
///
/// A key that was read from 33 bytes is written as those bytes.
#[verifier::external_body]
fn public_key_from_slice(data: &[u8]) -> (key: Option<PublicKey>)
    ensures
        match key {
            Some(key) => secp256k1_public_key(data@) == Some(key.bytes@),
            None => secp256k1_public_key(data@) is None,
        },
        data@.len() == 33 && key is Some ==> key->0.bytes@ == data@,
{
    match bitcoin::secp256k1::PublicKey::from_slice(data) {
        Ok(key) => Some(PublicKey { bytes: key.serialize() }),
        Err(_) => None,
    }
}

/// The public key that hexadecimal text encodes in 33 bytes.
pub open spec fn compressed_pubkey(text: Seq<char>) -> Option<Seq<u8>> {
    match hex_bytes(text) {
        Some(data) if text.len() == 66 => secp256k1_public_key(data),
        _ => None,
    }
}

/// Reads a compressed public key from hexadecimal text.
pub fn to_compressed_pubkey(hex: &str) -> (key: Option<PublicKey>)
    ensures
        match key {
            Some(key) => compressed_pubkey(hex@) == Some(key.bytes@) && hex_bytes(hex@) == Some(
                key.bytes@,
            ),
            None => compressed_pubkey(hex@) is None,
        },
{
    let chars = chars_of(hex);
    if chars.len() != 66 {
        return None;
    }
    match to_vec(hex) {
        Some(data) => public_key_from_slice(data.as_slice()),
        None => None,
    }
}

/// Why a node's public key could not be read.
#[derive(Clone, Copy, Debug, PartialEq, Eq)]
pub enum PubkeyError {
    /// The given text is no public key.
    Unparsable,
}

/// Reads a node's public key from hexadecimal text.
pub fn parse_pubkey(pubkey_str: &str) -> (key: Result<PublicKey, PubkeyError>)
    ensures
        match key {
            Ok(key) => compressed_pubkey(pubkey_str@) == Some(key.bytes@) && hex_bytes(pubkey_str@)
                == Some(key.bytes@),
            Err(e) => e == PubkeyError::Unparsable && compressed_pubkey(pubkey_str@) is None,
        },
{
    match to_compressed_pubkey(pubkey_str) {
        Some(key) => Ok(key),
        None => Err(PubkeyError::Unparsable),
    }
}

/// The text of the request id that 32 random bytes give.
pub open spec fn request_id_text(entropy: Seq<u8>) -> Seq<char> {
    hex_text(entropy.take(16))
}

/// Makes a request id of the first 16 of 32 random bytes.
pub fn generate_request_id(entropy: &[u8; 32]) -> (request_id: RequestId)
    ensures
        request_id.0@ == request_id_text(entropy@),
{
    let bytes = vstd::slice::slice_subrange(entropy.as_slice(), 0, 16);
    assert(bytes@ =~= entropy@.take(16));
    RequestId(hex_str(bytes))
}

/// The big-endian bytes of a number in the given width.
pub open spec fn be_bytes(value: nat, width: nat) -> Seq<u8>
    decreases width,
{
    if width == 0 {
        Seq::empty()
    } else {
        be_bytes(value / 256, (width - 1) as nat).push((value % 256) as u8)
    }
}

/// The number that big-endian bytes denote.
pub open spec fn be_value(bytes: Seq<u8>) -> nat
    decreases bytes.len(),
{
    if bytes.len() == 0 {
        0
    } else {
        256 * be_value(bytes.drop_last()) + bytes.last() as nat
    }
}

/// Appends the big-endian bytes of a number.
pub fn push_be_bytes(out: &mut Vec<u8>, value: u64, width: usize)
    ensures
        final(out)@ == old(out)@ + be_bytes(value as nat, width as nat),
    decreases width,
{
    if width == 0 {
        assert(out@ =~= out@ + be_bytes(value as nat, 0));
    } else {
        push_be_bytes(out, value / 256, width - 1);
        out.push((value % 256) as u8);
        assert(out@ =~= old(out)@ + be_bytes(value as nat, width as nat));
    }
}

/// Makes a random identifier of the first 16 of 32 random bytes.
pub fn generate_channel_id(entropy: &[u8; 32]) -> (id: u128)
    ensures
        id == be_value(entropy@.take(16)),
{
    let mut id: u128 = 0;
    let mut i: usize = 0;
    let ghost mut bound: nat = 1;
    proof {
        vstd::arithmetic::power::lemma_pow0(256);
    }
    while i < 16
        invariant
            i <= 16,
            id == be_value(entropy@.take(i as int)),
            id < bound,
            bound == vstd::arithmetic::power::pow(256, i as nat),
        decreases 16 - i,
    {
        proof {
            vstd::arithmetic::power::lemma_pow_increases(256, (i + 1) as nat, 16);
            vstd::arithmetic::power::lemma_pow_adds(256, i as nat, 1);
            vstd::arithmetic::power::lemma_pow1(256);
            assert(vstd::arithmetic::power::pow(256, 16) == 0x1_0000_0000_0000_0000_0000_0000_0000_0000) by {
                reveal_with_fuel(vstd::arithmetic::power::pow, 17);
            }
            assert(entropy@.take(i + 1).drop_last() == entropy@.take(i as int));
            bound = 256 * bound;
        }
        id = id * 256 + entropy[i] as u128;
        i += 1;
    }
    id
}

/// The big-endian bytes of a number that fits them denote the number, and there are as many as asked
/// for. The first of several bytes weighs most.
pub proof fn lemma_be_round_trip(value: nat, width: nat)
    requires
        value < vstd::arithmetic::power::pow(256, width),
    ensures
        be_bytes(value, width).len() == width,
        be_value(be_bytes(value, width)) == value,
    decreases width,
{
    vstd::arithmetic::power::lemma_pow0(256);
    if width > 0 {
        let less = (width - 1) as nat;
        assert(vstd::arithmetic::power::pow(256, width) == 256 * vstd::arithmetic::power::pow(
            256,
            less,
        )) by {
            reveal(vstd::arithmetic::power::pow);
        }
        lemma_be_round_trip(value / 256, less);
        assert(be_bytes(value, width).drop_last() =~= be_bytes(value / 256, less));
    }
}

/// A block height, a tx index and a vout that fit their bytes are packed one after the other: the block
/// height in the first three bytes, the tx index in the next three and the vout in the last two.
pub proof fn lemma_scid_is_packed(block: u64, tx_index: u64, vout: u64)
    requires
        block <= 0xffffff,
        tx_index <= 0xffffff,
        vout <= 0xffff,
    ensures
        packed_scid(block, tx_index, vout) == block * 0x100_0000_0000 + tx_index * 0x1_0000 + vout,
{
    assert((block << 40) | (tx_index << 16) | vout == block * 0x100_0000_0000 + tx_index * 0x1_0000
        + vout) by (bit_vector)
        requires
            block <= 0xffffff,
            tx_index <= 0xffffff,
            vout <= 0xffff,
    ;
}

/// A text is read as a short channel id by its first three fields between the letter x: where each of
/// them is an amount, it is the short channel id that packs them. Fewer fields are none.
pub proof fn lemma_scids_have_three_parts(
    block: Seq<char>,
    tx_index: Seq<char>,
    vout: Seq<char>,
    rest: Seq<char>,
)
    requires
        forall|i: int| 0 <= i < block.len() ==> #[trigger] block[i] != 'x',
        forall|i: int| 0 <= i < tx_index.len() ==> #[trigger] tx_index[i] != 'x',
        forall|i: int| 0 <= i < vout.len() ==> #[trigger] vout[i] != 'x',
    ensures
        parsed_scid(block) is None,
        parsed_scid(block.push('x') + tx_index) is None,
        ({
            let text = block.push('x') + (tx_index.push('x') + vout);
            let longer = block.push('x') + (tx_index.push('x') + (vout.push('x') + rest));
            let readable = parsed_u64(block) is Some && parsed_u64(tx_index) is Some && parsed_u64(
                vout,
            ) is Some;
            &&& readable ==> parsed_scid(text) == Some(
                packed_scid(parsed_u64(block)->0, parsed_u64(tx_index)->0, parsed_u64(vout)->0),
            )
            &&& !readable ==> parsed_scid(text) is None
            &&& parsed_scid(longer) == parsed_scid(text)
        }),
{
    lemma_fields_end_at_separators(vout, rest, 'x');
    lemma_fields_end_at_separators(tx_index, vout, 'x');
    lemma_fields_end_at_separators(tx_index, vout.push('x') + rest, 'x');
    lemma_fields_end_at_separators(block, tx_index, 'x');
    lemma_fields_end_at_separators(block, tx_index.push('x') + vout, 'x');
    lemma_fields_end_at_separators(block, tx_index.push('x') + (vout.push('x') + rest), 'x');
}

/// Bytes are written as two hexadecimal digits each, in small letters: the upper half of the byte, then
/// the lower half.
pub proof fn lemma_hex_digits_of_bytes(bytes: Seq<u8>, i: int)
    requires
        0 <= i < bytes.len(),
    ensures
        hex_text(bytes).len() == 2 * bytes.len(),
        ({
            let upper = hex_text(bytes)[2 * i];
            let lower = hex_text(bytes)[2 * i + 1];
            &&& '0' <= upper <= '9' || 'a' <= upper <= 'f'
            &&& '0' <= lower <= '9' || 'a' <= lower <= 'f'
            &&& hex_digit_value(upper) is Some && hex_digit_value(lower) is Some
            &&& bytes[i] == 16 * hex_digit_value(upper)->0 + hex_digit_value(lower)->0
        }),
{
}

/// The hexadecimal digits are those of base ten and the letters from a to f, small or large, which
/// denote the numbers from ten to fifteen.
pub proof fn lemma_hex_digits(c: char)
    ensures
        '0' <= c <= '9' ==> hex_digit_value(c) is Some && hex_digit_value(c)->0 == c as int
            - '0' as int,
        'a' <= c <= 'f' ==> hex_digit_value(c) is Some && hex_digit_value(c)->0 == 10 + c as int
            - 'a' as int,
        'A' <= c <= 'F' ==> hex_digit_value(c) is Some && hex_digit_value(c)->0 == 10 + c as int
            - 'A' as int,
        !('0' <= c <= '9' || 'a' <= c <= 'f' || 'A' <= c <= 'F') ==> hex_digit_value(c) is None,
{
}

/// A text is read as bytes exactly where all of it is hexadecimal digits: each two digits are a byte,
/// and a last digit without a second one is left out.
pub proof fn lemma_hex_texts_are_read(text: Seq<char>, i: int)
    ensures
        hex_bytes(text) is Some <==> forall|k: int|
            0 <= k < text.len() ==> hex_digit_value(#[trigger] text[k]) is Some,
        hex_bytes(text) is Some ==> hex_bytes(text)->0.len() == text.len() / 2,
        hex_bytes(text) is Some && 0 <= i < text.len() / 2 ==> hex_bytes(text)->0[i] == 16
            * hex_digit_value(text[2 * i])->0 + hex_digit_value(text[2 * i + 1])->0,
{
    if hex_bytes(text) is Some && 0 <= i < text.len() / 2 {
        assert(hex_digit_value(text[2 * i]) is Some);
        assert(hex_digit_value(text[2 * i + 1]) is Some);
    }
}

/// A request id is 32 hexadecimal digits, and denotes the first 16 of the bytes that it is made of.
pub proof fn lemma_request_ids_denote_their_bytes(entropy: Seq<u8>)
    requires
        entropy.len() >= 16,
    ensures
        request_id_text(entropy).len() == 32,
        hex_bytes(request_id_text(entropy)) == Some(entropy.take(16)),
{
    lemma_hex_round_trip(entropy.take(16));
}

/// Different random bytes give different request ids.
pub proof fn lemma_request_ids_differ(entropy: Seq<u8>, other: Seq<u8>)
    requires
        entropy.len() >= 16,
        other.len() >= 16,
        entropy.take(16) != other.take(16),
    ensures
        request_id_text(entropy) != request_id_text(other),
{
    lemma_hex_round_trip(entropy.take(16));
    lemma_hex_round_trip(other.take(16));
}

/// A public key is read from 66 hexadecimal digits that denote a key, and from no other text.
pub proof fn lemma_public_keys_are_read(text: Seq<char>)
    ensures
        text.len() != 66 ==> compressed_pubkey(text) is None,
        hex_bytes(text) is None ==> compressed_pubkey(text) is None,
        text.len() == 66 && hex_bytes(text) is Some ==> compressed_pubkey(text)
            == secp256k1_public_key(hex_bytes(text)->0),
{
}

/// Writing a short channel id and reading it back gives the short channel id, and the parts that are
/// extracted from it make it up: the block height weighs most, the vout least.
pub proof fn lemma_scids_are_written_and_read(
    scid: u64,
    written: String,
    text: &str,
    read: Result<u64, ()>,
    block: u32,
    tx_index: u32,
    vout: u16,
)
    requires
        call_ensures(scid_to_string, (scid,), written),
        text@ == written@,
        call_ensures(scid_from_human_readable_string, (text,), read),
        call_ensures(block_from_scid, (&scid,), block),
        call_ensures(tx_index_from_scid, (&scid,), tx_index),
        call_ensures(vout_from_scid, (&scid,), vout),
    ensures
        read == Ok::<u64, ()>(scid),
        block * 0x100_0000_0000 + tx_index * 0x1_0000 + vout == scid,
        block <= 0xffffff,
        tx_index <= 0xffffff,
{
    lemma_scid_round_trip(scid);
}

/// Writing bytes in hexadecimal digits and reading them back gives the bytes. Two digits are written for
/// each byte.
pub proof fn lemma_bytes_are_written_and_read(
    bytes: &[u8],
    written: String,
    text: &str,
    read: Option<Vec<u8>>,
)
    requires
        call_ensures(hex_str, (bytes,), written),
        text@ == written@,
        call_ensures(to_vec, (text,), read),
    ensures
        written@.len() == 2 * bytes@.len(),
        read is Some,
        read->0@ == bytes@,
{
    lemma_hex_round_trip(bytes@);
}

/// Ids that are made of random bytes are the same exactly where the first 16 of the bytes are.
pub proof fn lemma_ids_are_made_of_their_bytes(
    entropy: [u8; 32],
    other: [u8; 32],
    id: RequestId,
    other_id: RequestId,
)
    requires
        call_ensures(generate_request_id, (&entropy,), id),
        call_ensures(generate_request_id, (&other,), other_id),
    ensures
        id.0@ == other_id.0@ <==> entropy@.take(16) == other@.take(16),
{
    lemma_hex_round_trip(entropy@.take(16));
    lemma_hex_round_trip(other@.take(16));
}

/// A public key is read from the hexadecimal digits of its bytes.
pub proof fn lemma_keys_are_read(text: &str, key: Option<PublicKey>)
    requires
        call_ensures(to_compressed_pubkey, (text,), key),
    ensures
        key is Some ==> text@.len() == 66 && hex_bytes(text@) == Some(key->0.bytes@),
        key is None <==> text@.len() != 66 || hex_bytes(text@) is None || secp256k1_public_key(
            hex_bytes(text@)->0,
        ) is None,
{
}

} // verus!
