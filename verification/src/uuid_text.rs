//! The textual form of universally unique identifiers: thirty-two lower-case
//! hexadecimal digits in five groups, separated by hyphens.

use vstd::prelude::*;
use vstd::utf8::*;

verus! {

/// The lower-case hexadecimal digit for a value below sixteen.
pub open spec fn lower_hex_digit(value: int) -> char {
    seq!['0', '1', '2', '3', '4', '5', '6', '7', '8', '9', 'a', 'b', 'c', 'd', 'e', 'f'][value]
}

/// Whether `c` is a lower-case hexadecimal digit.
pub open spec fn is_lower_hex(c: char) -> bool {
    ('0' <= c <= '9') || ('a' <= c <= 'f')
}

/// Two digits for each byte, the high half first.
pub open spec fn hex_text(bytes: Seq<u8>) -> Seq<char> {
    Seq::new(
        2 * bytes.len(),
        |i: int|
            if i % 2 == 0 {
                lower_hex_digit(bytes[i / 2] as int / 16)
            } else {
                lower_hex_digit(bytes[i / 2] as int % 16)
            },
    )
}

/// The hyphenated form of the sixteen bytes of an identifier: groups of
/// four, two, two, two and six bytes.
pub open spec fn hyphenated(bytes: Seq<u8>) -> Seq<char>
    recommends
        bytes.len() == 16,
{
    hex_text(bytes.subrange(0, 4)) + seq!['-'] + hex_text(bytes.subrange(4, 6)) + seq!['-']
        + hex_text(bytes.subrange(6, 8)) + seq!['-'] + hex_text(bytes.subrange(8, 10)) + seq!['-']
        + hex_text(bytes.subrange(10, 16))
}

/// Whether `text` has the shape of a hyphenated identifier: thirty-six
/// characters, hyphens at 8, 13, 18 and 23, hexadecimal digits elsewhere.
pub open spec fn is_hyphenated_uuid(text: Seq<char>) -> bool {
    &&& text.len() == 36
    &&& forall|i: int|
        0 <= i < 36 ==> if i == 8 || i == 13 || i == 18 || i == 23 {
            #[trigger] text[i] == '-'
        } else {
            is_lower_hex(text[i])
        }
}

/// Whether sixteen bytes carry the marks of a randomly generated
/// identifier: version 4 in the high half of byte 6, and the two high bits
/// of byte 8 set to `10`.
pub open spec fn is_random_uuid(bytes: Seq<u8>) -> bool {
    &&& bytes.len() == 16
    &&& bytes[6] as int / 16 == 4
    &&& bytes[8] as int / 64 == 2
}

/// The hyphenated form of any sixteen bytes has the shape of a hyphenated
/// identifier. It is plain ASCII, so it takes thirty-six bytes.
pub proof fn lemma_hyphenated_shape(bytes: Seq<u8>)
    requires
        bytes.len() == 16,
    ensures
        is_hyphenated_uuid(hyphenated(bytes)),
        is_ascii_chars(hyphenated(bytes)),
        encode_utf8(hyphenated(bytes)).len() == 36,
{
    let text = hyphenated(bytes);
    assert(text.len() == 36);
    assert forall|i: int| 0 <= i < 36 implies (if i == 8 || i == 13 || i == 18 || i == 23 {
        #[trigger] text[i] == '-'
    } else {
        is_lower_hex(text[i])
    }) && '\0' <= text[i] <= '\u{7f}' by {
        lemma_hyphenated_position(bytes, i);
    }
    is_ascii_chars_encode_utf8(text);
}

/// The character at each position of the hyphenated form.
proof fn lemma_hyphenated_position(bytes: Seq<u8>, i: int)
    requires
        bytes.len() == 16,
        0 <= i < 36,
    ensures
        hyphenated(bytes).len() == 36,
        i == 8 || i == 13 || i == 18 || i == 23 ==> hyphenated(bytes)[i] == '-',
        !(i == 8 || i == 13 || i == 18 || i == 23) ==> is_lower_hex(hyphenated(bytes)[i]),
        '\0' <= hyphenated(bytes)[i] <= '\u{7f}',
{
    assert forall|value: int| 0 <= value < 16 implies is_lower_hex(
        #[trigger] lower_hex_digit(value),
    ) by {}
}

/// The marks of a randomly generated identifier show in its text: the
/// version digit is `4`, and the digit after the third hyphen is one of `8`,
/// `9`, `a` and `b`.
pub proof fn lemma_random_uuid_marks(bytes: Seq<u8>)
    requires
        is_random_uuid(bytes),
    ensures
        hyphenated(bytes)[14] == '4',
        hyphenated(bytes)[19] == '8' || hyphenated(bytes)[19] == '9' || hyphenated(bytes)[19]
            == 'a' || hyphenated(bytes)[19] == 'b',
{
    let high = bytes[8] as int / 16;
    assert(8 <= high <= 11);
    assert(hyphenated(bytes)[14] == lower_hex_digit(bytes[6] as int / 16));
    assert(hyphenated(bytes)[19] == lower_hex_digit(high));
}

/// `Uuid::new_v4`: sixteen bytes from the random source of the operating
/// system, with the version and variant marks of a randomly generated
/// identifier set. Nothing else holds of every outcome. (The call panics
/// where the operating system has no random source.)
#[verifier::external_body]
pub(crate) fn random_uuid_bytes() -> (bytes: [u8; 16])
    ensures
        is_random_uuid(bytes@),
{
    *uuid::Uuid::new_v4().as_bytes()
}

/// `Uuid::to_hyphenated_ref`, formatted: the hyphenated lower-case text of
/// the identifier with these bytes.
#[verifier::external_body]
pub(crate) fn hyphenated_text(bytes: &[u8; 16]) -> (text: String)
    ensures
        text@ == hyphenated(bytes@),
{
    uuid::Uuid::from_bytes(*bytes).to_hyphenated_ref().to_string()
}

} // verus!
