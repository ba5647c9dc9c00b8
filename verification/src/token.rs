//! The token by which a peer is known.
//!
//! A client draws a token of 128 bits and sends it, in base64, as the
//! `Sec-WebSocket-Key` of its handshake. The server reads it back from there.

use base64::Engine;
use vstd::arithmetic::div_mod::lemma_div_denominator;
use vstd::arithmetic::power::{lemma_pow0, lemma_pow_positive, pow};
use vstd::prelude::*;

use crate::error::ConnectionError;

verus! {

/// How many bytes a token takes.
pub const TOKEN_LENGTH: usize = 16;

/// The number that `bytes` stand for, the least significant byte first.
pub open spec fn le_value(bytes: Seq<u8>) -> nat
    decreases bytes.len(),
{
    if bytes.len() == 0 {
        0
    } else {
        bytes[0] as nat + 256 * le_value(bytes.skip(1))
    }
}

/// The `count` least significant bytes of `value`, the least significant first.
pub open spec fn le_bytes(value: nat, count: nat) -> Seq<u8>
    decreases count,
{
    if count == 0 {
        Seq::empty()
    } else {
        seq![(value % 256) as u8] + le_bytes(value / 256, (count - 1) as nat)
    }
}

/// How many values `count` bytes can take.
spec fn byte_range(count: nat) -> nat
    decreases count,
{
    if count == 0 {
        1
    } else {
        256 * byte_range((count - 1) as nat)
    }
}

proof fn lemma_byte_range_monotone(small: nat, large: nat)
    requires
        small <= large,
    ensures
        0 < byte_range(small) <= byte_range(large),
    decreases large,
{
    if small < large {
        lemma_byte_range_monotone(small, (large - 1) as nat);
    } else if 0 < small {
        lemma_byte_range_monotone((small - 1) as nat, (large - 1) as nat);
    }
}

proof fn lemma_token_range()
    ensures
        byte_range(TOKEN_LENGTH as nat) == u128::MAX + 1,
{
    reveal_with_fuel(byte_range, 17);
}

proof fn lemma_le_value_bound(bytes: Seq<u8>)
    ensures
        le_value(bytes) < byte_range(bytes.len()),
    decreases bytes.len(),
{
    if 0 < bytes.len() {
        lemma_le_value_bound(bytes.skip(1));
    }
}

/// The bytes of a number stand for that number, as long as they are enough.
proof fn lemma_le_value_of_le_bytes(value: nat, count: nat)
    requires
        value < byte_range(count),
    ensures
        le_bytes(value, count).len() == count,
        le_value(le_bytes(value, count)) == value,
    decreases count,
{
    if 0 < count {
        let rest = (count - 1) as nat;
        lemma_le_value_of_le_bytes(value / 256, rest);
        assert(le_bytes(value, count).skip(1) =~= le_bytes(value / 256, rest));
    }
}

/// Bytes are the bytes of the number that they stand for.
proof fn lemma_le_bytes_of_le_value(bytes: Seq<u8>)
    ensures
        le_bytes(le_value(bytes), bytes.len()) == bytes,
    decreases bytes.len(),
{
    if 0 < bytes.len() {
        lemma_le_bytes_of_le_value(bytes.skip(1));
        assert(le_bytes(le_value(bytes), bytes.len()) =~= bytes);
    }
}

/// Reads 16 bytes as a token, the least significant first.
pub fn token_from_le_bytes(bytes: &[u8]) -> (token: u128)
    requires
        bytes@.len() == TOKEN_LENGTH,
    ensures
        token == le_value(bytes@),
{
    let mut value: u128 = 0;
    let mut left: usize = TOKEN_LENGTH;
    while 0 < left
        invariant
            left <= TOKEN_LENGTH,
            bytes@.len() == TOKEN_LENGTH,
            value == le_value(bytes@.skip(left as int)),
        decreases left,
    {
        left = left - 1;
        proof {
            let tail = bytes@.skip(left as int);
            assert(tail.skip(1) =~= bytes@.skip(left + 1));
            lemma_le_value_bound(tail);
            lemma_byte_range_monotone(tail.len(), TOKEN_LENGTH as nat);
            lemma_token_range();
        }
        value = bytes[left] as u128 + 256 * value;
    }
    assert(bytes@.skip(0) =~= bytes@);
    value
}

/// Writes a token as 16 bytes, the least significant first.
pub fn token_to_le_bytes(token: u128) -> (bytes: Vec<u8>)
    ensures
        bytes@ == le_bytes(token as nat, TOKEN_LENGTH as nat),
        bytes@.len() == TOKEN_LENGTH,
        le_value(bytes@) == token,
{
    let mut bytes: Vec<u8> = Vec::new();
    let mut rest: u128 = token;
    let mut left: usize = TOKEN_LENGTH;
    while 0 < left
        invariant
            left <= TOKEN_LENGTH,
            bytes@ + le_bytes(rest as nat, left as nat) == le_bytes(
                token as nat,
                TOKEN_LENGTH as nat,
            ),
        decreases left,
    {
        let ghost before = bytes@;
        let ghost value = rest as nat;
        bytes.push((rest % 256) as u8);
        rest = rest / 256;
        left = left - 1;
        assert(bytes@ + le_bytes(rest as nat, left as nat) =~= before + le_bytes(
            value,
            (left + 1) as nat,
        ));
    }
    proof {
        assert(bytes@ + le_bytes(rest as nat, 0) =~= bytes@);
        lemma_token_range();
        lemma_le_value_of_le_bytes(token as nat, TOKEN_LENGTH as nat);
    }
    bytes
}

/// The text that the standard base64 engine makes of `bytes`.
pub uninterp spec fn base64_encoded(bytes: Seq<u8>) -> Seq<char>;

/// The bytes that the standard base64 engine reads from `text`, if it reads any.
pub uninterp spec fn base64_decoded(text: Seq<char>) -> Option<Seq<u8>>;

/// Whether a text holds nothing but the visible characters of ASCII, so that it
/// can stand in a header.
pub open spec fn is_visible(text: Seq<char>) -> bool {
    forall|i: int| 0 <= i < text.len() ==> '!' <= #[trigger] text[i] <= '~'
}

/// Calls `base64`'s `Engine::encode` on its `STANDARD` engine.
///
/// Trusted: the text depends on the bytes alone, it is made of the letters,
/// digits and signs of the alphabet, and `STANDARD` reads those bytes back from
/// it. `encode` panics where the length of the text overflows,
/// which no input of at most 2^28 bytes comes near.
#[verifier::external_body]
fn base64_encode(bytes: &[u8]) -> (text: String)
    requires
        bytes@.len() <= 0x1000_0000,
    ensures
        text@ == base64_encoded(bytes@),
        base64_decoded(text@) == Some(bytes@),
        is_visible(text@),
{
    base64::engine::general_purpose::STANDARD.encode(bytes)
}

/// Calls `base64`'s `Engine::decode` on its `STANDARD` engine.
///
/// Trusted: whether bytes come out, and which, depends on the text alone. They
/// come out of no text but the one that `STANDARD` makes of them, which has four
/// characters for every three bytes begun: padding must be canonical, and no
/// bits may trail. And they do come out of that one; this is claimed up to the
/// length that is certain to be encoded.
#[verifier::external_body]
fn base64_decode(text: &str) -> (decoded: Option<Vec<u8>>)
    ensures
        (match decoded {
            Some(bytes) => {
                &&& base64_decoded(text@) == Some(bytes@)
                &&& base64_encoded(bytes@) == text@
                &&& text@.len() == (bytes@.len() + 2) / 3 * 4
                &&& forall|other: Seq<u8>|
                    other.len() <= 0x1000_0000 && #[trigger] base64_encoded(other) == text@
                        ==> other == bytes@
            },
            None => {
                &&& base64_decoded(text@) is None
                &&& forall|other: Seq<u8>|
                    other.len() <= 0x1000_0000 ==> #[trigger] base64_encoded(other) != text@
            },
        }),
{
    base64::engine::general_purpose::STANDARD.decode(text).ok()
}

/// The token that decoded bytes stand for: there must be some, and exactly 16.
pub open spec fn token_of(decoded: Option<Seq<u8>>) -> Result<u128, ConnectionError> {
    match decoded {
        Some(raw) if raw.len() == TOKEN_LENGTH => Ok(le_value(raw) as u128),
        _ => Err(ConnectionError::InvalidValue),
    }
}

/// Turns what base64 decoding gave into a token.
pub fn read_token(decoded: Option<Vec<u8>>) -> (token: Result<u128, ConnectionError>)
    ensures
        token == token_of(
            match decoded {
                Some(raw) => Some(raw@),
                None => None,
            },
        ),
        token matches Ok(value) ==> value == le_value(decoded->0@),
{
    match decoded {
        Some(raw) => {
            if raw.len() == TOKEN_LENGTH {
                Ok(token_from_le_bytes(raw.as_slice()))
            } else {
                Err(ConnectionError::InvalidValue)
            }
        },
        None => Err(ConnectionError::InvalidValue),
    }
}

/// The text that a token is written as.
pub open spec fn token_text(token: u128) -> Seq<char> {
    base64_encoded(le_bytes(token as nat, TOKEN_LENGTH as nat))
}

/// Reads a token from its base64 text. Every token is read from the text that it
/// is written as, and from no other.
pub fn decode_token(text: &str) -> (token: Result<u128, ConnectionError>)
    ensures
        token == token_of(base64_decoded(text@)),
        forall|value: u128|
            #[trigger] token_text(value) == text@ <==> token == Ok::<u128, ConnectionError>(value),
        token matches Err(error) ==> error == ConnectionError::InvalidValue,
        token is Ok ==> text@.len() == 24,
{
    let decoded = base64_decode(text);
    let ghost raw = decoded;
    let token = read_token(decoded);
    proof {
        lemma_token_range();
        assert forall|value: u128|
            #[trigger] token_text(value) == text@ <==> token == Ok::<u128, ConnectionError>(
                value,
            ) by {
            lemma_le_value_of_le_bytes(value as nat, TOKEN_LENGTH as nat);
            if token == Ok::<u128, ConnectionError>(value) {
                lemma_le_bytes_of_le_value(raw->0@);
            }
        }
    }
    token
}

/// Writes a token as base64 text, from which it can be read back.
pub fn encode_token(token: u128) -> (text: String)
    ensures
        text@ == token_text(token),
        token_of(base64_decoded(text@)) == Ok::<u128, ConnectionError>(token),
        is_visible(text@),
{
    let bytes = token_to_le_bytes(token);
    base64_encode(bytes.as_slice())
}

/// Whether 16 bytes are the digits of a token to the base of 256, the one that
/// counts least first.
pub open spec fn are_digits(token: u128, bytes: Seq<u8>) -> bool {
    &&& bytes.len() == 16
    &&& forall|i: int|
        0 <= i < 16 ==> #[trigger] bytes[i] == token as int / pow(256, i as nat) % 256
}

proof fn lemma_le_bytes_digit(value: nat, count: nat, i: int)
    requires
        0 <= i < count,
    ensures
        le_bytes(value, count).len() == count,
        le_bytes(value, count)[i] == value as int / pow(256, i as nat) % 256,
    decreases count,
{
    let rest = le_bytes(value / 256, (count - 1) as nat);
    lemma_le_bytes_length(value / 256, (count - 1) as nat);
    if i == 0 {
        lemma_pow0(256);
    } else {
        lemma_le_bytes_digit(value / 256, (count - 1) as nat, i - 1);
        assert(le_bytes(value, count)[i] == rest[i - 1]);
        lemma_pow_positive(256, (i - 1) as nat);
        lemma_div_denominator(value as int, 256, pow(256, (i - 1) as nat));
        reveal(pow);
    }
}

proof fn lemma_le_bytes_length(value: nat, count: nat)
    ensures
        le_bytes(value, count).len() == count,
    decreases count,
{
    if 0 < count {
        lemma_le_bytes_length(value / 256, (count - 1) as nat);
    }
}

proof fn lemma_digits_of_token(token: u128, bytes: Seq<u8>)
    ensures
        are_digits(token, bytes) <==> bytes == le_bytes(token as nat, 16),
{
    let written = le_bytes(token as nat, 16);
    lemma_le_bytes_length(token as nat, 16);
    assert forall|i: int| 0 <= i < 16 implies #[trigger] written[i] == token as int / pow(
        256,
        i as nat,
    ) % 256 by {
        lemma_le_bytes_digit(token as nat, 16, i);
    }
    if are_digits(token, bytes) {
        assert(bytes =~= written);
    }
}

/// The number that 16 bytes are read as has these bytes as its digits.
pub proof fn bytes_are_the_digits_of_what_they_read_as(bytes: &[u8], token: u128)
    requires
        bytes@.len() == TOKEN_LENGTH,
        call_ensures(token_from_le_bytes, (bytes,), token),
    ensures
        are_digits(token, bytes@),
{
    lemma_le_bytes_of_le_value(bytes@);
    lemma_digits_of_token(token, bytes@);
}

/// The bytes that a token is written as are its digits.
pub proof fn token_is_written_in_digits(token: u128, bytes: Vec<u8>)
    requires
        call_ensures(token_to_le_bytes, (token,), bytes),
    ensures
        are_digits(token, bytes@),
{
    lemma_digits_of_token(token, bytes@);
}

/// No two tokens have the same digits.
pub proof fn digits_tell_tokens_apart(token: u128, other: u128, bytes: Seq<u8>)
    requires
        are_digits(token, bytes),
        are_digits(other, bytes),
    ensures
        token == other,
{
    lemma_digits_of_token(token, bytes);
    lemma_digits_of_token(other, bytes);
    lemma_token_range();
    lemma_le_value_of_le_bytes(token as nat, 16);
    lemma_le_value_of_le_bytes(other as nat, 16);
}

/// Decoded bytes are a token exactly where there are 16 of them, and it is the
/// one of which they are the digits. Anything else is refused as invalid.
pub proof fn sixteen_bytes_are_a_token(
    decoded: Option<Vec<u8>>,
    token: Result<u128, ConnectionError>,
)
    requires
        call_ensures(read_token, (decoded,), token),
    ensures
        decoded is None ==> token == Err::<u128, ConnectionError>(ConnectionError::InvalidValue),
        decoded matches Some(raw) ==> raw@.len() != 16 ==> token == Err::<u128, ConnectionError>(
            ConnectionError::InvalidValue,
        ),
        decoded matches Some(raw) ==> raw@.len() == 16 ==> (token matches Ok(value) && are_digits(
            value,
            raw@,
        )),
{
    if let Some(raw) = decoded {
        if raw@.len() == 16 {
            lemma_le_bytes_of_le_value(raw@);
            lemma_digits_of_token(token->Ok_0, raw@);
        }
    }
}

/// A text is a token exactly where base64 makes 16 bytes of it, and it is the one
/// of which they are the digits. Any other text is refused as invalid.
pub proof fn text_of_sixteen_bytes_is_a_token(text: &str, token: Result<u128, ConnectionError>)
    requires
        call_ensures(decode_token, (text,), token),
    ensures
        base64_decoded(text@) matches Some(raw) ==> raw.len() == 16 ==> (token matches Ok(value)
            && are_digits(value, raw)),
        !(base64_decoded(text@) matches Some(raw) && raw.len() == 16) ==> token == Err::<
            u128,
            ConnectionError,
        >(ConnectionError::InvalidValue),
{
    if let Some(raw) = base64_decoded(text@) {
        if raw.len() == 16 {
            lemma_le_value_bound(raw);
            lemma_token_range();
            lemma_le_bytes_of_le_value(raw);
            lemma_digits_of_token(token->Ok_0, raw);
        }
    }
}

/// A token is written as the base64 text of its digits.
pub proof fn token_is_written_as_its_digits(token: u128, text: String, bytes: Seq<u8>)
    requires
        call_ensures(encode_token, (token,), text),
        are_digits(token, bytes),
    ensures
        text@ == base64_encoded(bytes),
        base64_decoded(text@) matches Some(raw) && are_digits(token, raw),
{
    lemma_digits_of_token(token, bytes);
    lemma_token_range();
    let raw = base64_decoded(text@)->0;
    lemma_le_value_bound(raw);
    lemma_le_bytes_of_le_value(raw);
    lemma_digits_of_token(token, raw);
}

/// A token that was written is read back from its text, and no other token is.
pub proof fn written_token_is_read_back(
    token: u128,
    written: String,
    text: &str,
    read: Result<u128, ConnectionError>,
)
    requires
        call_ensures(encode_token, (token,), written),
        text@ == written@,
        call_ensures(decode_token, (text,), read),
    ensures
        read == Ok::<u128, ConnectionError>(token),
{
}

/// Different tokens are written as different texts.
pub proof fn different_tokens_have_different_texts(
    token: u128,
    written: String,
    other: u128,
    other_written: String,
)
    requires
        call_ensures(encode_token, (token,), written),
        call_ensures(encode_token, (other,), other_written),
        token != other,
    ensures
        written@ != other_written@,
{
}

/// What can stand in a header holds no blank, no control character and nothing
/// outside ASCII.
pub proof fn visible_text_is_printable(text: Seq<char>, i: int)
    requires
        is_visible(text),
        0 <= i < text.len(),
    ensures
        0x21 <= text[i] as u32 <= 0x7e,
{
}

/// Bytes of which a token is made are its digits, and the token is written as
/// their base64 text.
pub(crate) proof fn lemma_token_of_digits(token: u128, raw: Seq<u8>)
    requires
        token_of(Some(raw)) == Ok::<u128, ConnectionError>(token),
    ensures
        are_digits(token, raw),
        token_text(token) == base64_encoded(raw),
{
    lemma_le_value_bound(raw);
    lemma_token_range();
    lemma_le_bytes_of_le_value(raw);
    lemma_digits_of_token(token, raw);
}

} // verus!
