//! Reading the headers of a handshake.

use vstd::prelude::*;
use vstd::utf8::{
    decode_utf8, encode_utf8, encode_utf8_decode_utf8, encode_utf8_valid_utf8, valid_utf8,
};

verus! {

/// The header collection of `hyper`. What it holds is named by
/// [`header_values`].
#[verifier::external_type_specification]
#[verifier::external_body]
#[verifier::reject_recursive_types(T)]
pub struct ExHeaderMap<T>(hyper::HeaderMap<T>);

/// One value in such a collection: bytes that need not be text.
#[verifier::external_type_specification]
#[verifier::external_body]
pub struct ExHeaderValue(hyper::header::HeaderValue);

/// What a header collection holds: for the name of each header that is there,
/// in lower case, its values in the order in which they were added. There is at
/// least one.
pub uninterp spec fn header_values(
    headers: hyper::HeaderMap<hyper::header::HeaderValue>,
) -> Map<Seq<char>, Seq<Seq<u8>>>;

/// Whether `name` is made of lower case letters and hyphens, and is short
/// enough for a header.
pub open spec fn is_lower_case_name(name: Seq<char>) -> bool {
    &&& 0 < name.len() <= 64
    &&& forall|i: int| 0 <= i < name.len() ==> ('a' <= #[trigger] name[i] <= 'z' || name[i] == '-')
}

/// Calls `http`'s `HeaderMap::get` and `HeaderValue::as_bytes`.
///
/// Trusted: a value comes back exactly where the collection holds the name, and
/// it is the first of its values. Names in the collection are in lower case, so
/// a name in lower case is found as it is written.
#[verifier::external_body]
fn first_value<'a>(
    headers: &'a hyper::HeaderMap<hyper::header::HeaderValue>,
    name: &str,
) -> (value: Option<&'a [u8]>)
    requires
        is_lower_case_name(name@),
    ensures
        value is Some <==> header_values(*headers).contains_key(name@),
        value matches Some(bytes) ==> 0 < header_values(*headers)[name@].len() && bytes@
            == header_values(*headers)[name@][0],
{
    headers.get(name).map(|value| value.as_bytes())
}

/// Calls `std::str::from_utf8`.
///
/// Trusted: text comes back exactly where the bytes are valid UTF-8, and it is
/// the text that they encode.
#[verifier::external_body]
fn utf8_text<'a>(bytes: &'a [u8]) -> (text: Option<&'a str>)
    ensures
        text is Some <==> valid_utf8(bytes@),
        text matches Some(decoded) ==> decoded@ == decode_utf8(bytes@),
{
    std::str::from_utf8(bytes).ok()
}

/// The text of the first value of the header `name`, if there is such a header
/// and the value is text.
pub open spec fn text_of(values: Map<Seq<char>, Seq<Seq<u8>>>, name: Seq<char>) -> Option<
    Seq<char>,
> {
    if values.contains_key(name) && valid_utf8(values[name][0]) {
        Some(decode_utf8(values[name][0]))
    } else {
        None
    }
}

/// Reads the first value of the header `name` as text.
pub fn header_text<'a>(
    headers: &'a hyper::HeaderMap<hyper::header::HeaderValue>,
    name: &str,
) -> (text: Option<&'a str>)
    requires
        is_lower_case_name(name@),
    ensures
        (match text {
            Some(found) => Some(found@),
            None => None,
        }) == text_of(header_values(*headers), name@),
{
    match first_value(headers, name) {
        Some(bytes) => utf8_text(bytes),
        None => None,
    }
}

/// The text of a header is what its first value encodes in UTF-8. There is none
/// where the header is missing or that value is no UTF-8.
pub proof fn header_text_is_the_first_value(
    headers: &hyper::HeaderMap<hyper::header::HeaderValue>,
    name: &str,
    text: Option<&str>,
)
    requires
        is_lower_case_name(name@),
        call_ensures(header_text, (headers, name), text),
    ensures
        ({
            let values = header_values(*headers);
            &&& !values.contains_key(name@) ==> text is None
            &&& values.contains_key(name@) && !valid_utf8(values[name@][0]) ==> text is None
            &&& values.contains_key(name@) && valid_utf8(values[name@][0]) ==> (text matches Some(
                found,
            ) && found@ == decode_utf8(values[name@][0]))
        }),
{
}

/// A header whose first value encodes a text is read as that text, whatever its
/// length and whatever values follow.
pub proof fn encoded_text_is_read(
    values: Map<Seq<char>, Seq<Seq<u8>>>,
    name: Seq<char>,
    text: Seq<char>,
)
    requires
        values.contains_key(name),
        0 < values[name].len(),
        values[name][0] == encode_utf8(text),
    ensures
        text_of(values, name) == Some(text),
{
    encode_utf8_valid_utf8(text);
    encode_utf8_decode_utf8(text);
}

/// There is no text of a header that is missing or whose first value is no UTF-8.
pub proof fn missing_text_is_not_read(
    values: Map<Seq<char>, Seq<Seq<u8>>>,
    name: Seq<char>,
)
    requires
        !values.contains_key(name) || !valid_utf8(values[name][0]),
    ensures
        text_of(values, name) is None,
{
}

} // verus!
