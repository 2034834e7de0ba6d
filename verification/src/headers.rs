//! Reading the request identifier that a client sent in a header.
//!
//! The headers of a request are an `http::HeaderMap`. A header value is a
//! string of bytes; it counts as text only where every byte is a visible
//! ASCII character or a tab.

use http::header::ToStrError;
use http::{HeaderMap, HeaderValue};
use vstd::prelude::*;
use vstd::string::StringSliceAdditionalSpecFns;
use vstd::utf8::*;

verus! {

#[verifier::external_type_specification]
#[verifier::external_body]
#[verifier::reject_recursive_types(T)]
pub struct ExHeaderMap<T>(HeaderMap<T>);

#[verifier::external_type_specification]
#[verifier::external_body]
pub struct ExHeaderValue(HeaderValue);

#[verifier::external_type_specification]
#[verifier::external_body]
pub struct ExToStrError(ToStrError);

/// What a header map holds: for each header name, in lower case, that has
/// a value, the bytes of its values in the order in which they were added.
pub uninterp spec fn header_map_values(headers: HeaderMap<HeaderValue>) -> Map<
    Seq<char>,
    Seq<Seq<u8>>,
>;

/// The bytes of a header value.
pub uninterp spec fn header_value_bytes(value: HeaderValue) -> Seq<u8>;

/// Whether `name` holds no upper-case ASCII letter.
pub open spec fn is_lower_case(name: Seq<char>) -> bool {
    forall|i: int| 0 <= i < name.len() ==> !('A' <= #[trigger] name[i] <= 'Z')
}

/// Whether `byte` is a visible ASCII character, a space or a tab.
pub open spec fn is_visible_ascii(byte: u8) -> bool {
    32 <= byte < 127 || byte == 9
}

/// Whether every byte of a header value is visible ASCII.
pub open spec fn is_visible_text(bytes: Seq<u8>) -> bool {
    forall|i: int| 0 <= i < bytes.len() ==> is_visible_ascii(#[trigger] bytes[i])
}

/// The text of a header value: its bytes read as characters, where all of
/// them are visible ASCII.
pub open spec fn header_text(bytes: Seq<u8>) -> Option<Seq<char>> {
    if is_visible_text(bytes) {
        Some(Seq::new(bytes.len(), |i: int| bytes[i] as char))
    } else {
        None
    }
}

/// The text of the first value that `headers` holds under `name`, if there
/// is such a value and it is text.
pub open spec fn first_header_text(headers: HeaderMap<HeaderValue>, name: Seq<char>) -> Option<
    Seq<char>,
> {
    if header_map_values(headers).contains_key(name) {
        header_text(header_map_values(headers)[name].first())
    } else {
        None
    }
}

/// `HeaderMap::get` with a string for the name: the first value stored
/// under that name, or nothing where the map has no value for it. The map
/// stores names in lower case and turns the name it is asked for into lower
/// case, so the contract is stated for names without upper-case letters.
#[verifier::external_body]
pub(crate) fn header_get<'a>(headers: &'a HeaderMap<HeaderValue>, name: &str) -> (found: Option<
    &'a HeaderValue,
>)
    requires
        is_lower_case(name@),
    ensures
        match found {
            Some(value) => header_map_values(*headers).contains_key(name@) && header_value_bytes(
                *value,
            ) == header_map_values(*headers)[name@].first(),
            None => !header_map_values(*headers).contains_key(name@),
        },
{
    headers.get(name)
}

/// `HeaderValue::to_str`: the value as a string slice over the same bytes
/// where all of them are visible ASCII, and an error otherwise.
#[verifier::external_body]
pub(crate) fn header_to_str<'a>(value: &'a HeaderValue) -> (text: Result<&'a str, ToStrError>)
    ensures
        text is Ok <==> is_visible_text(header_value_bytes(*value)),
        text matches Ok(slice) ==> slice.spec_bytes() == header_value_bytes(*value),
{
    value.to_str()
}

/// Text whose encoding is visible ASCII is those bytes read as characters.
pub proof fn lemma_visible_text(text: Seq<char>)
    requires
        is_visible_text(encode_utf8(text)),
    ensures
        header_text(encode_utf8(text)) == Some(text),
        is_ascii_chars(text),
        text.len() == encode_utf8(text).len(),
{
    let bytes = encode_utf8(text);
    let chars = Seq::new(bytes.len(), |i: int| bytes[i] as char);
    assert(is_ascii_chars(chars));
    is_ascii_chars_encode_utf8(chars);
    assert(forall|i: int| 0 <= i < bytes.len() ==> (bytes[i] as char) as u8 == bytes[i]);
    assert(encode_utf8(chars) =~= bytes);
    encode_utf8_decode_utf8(chars);
    encode_utf8_decode_utf8(text);
}

} // verus!
