use http::{HeaderMap, HeaderValue};
use request_id::buffer::{RequestIdData, REQUEST_ID_DATA_LENGTH};
use request_id::request_id::{
    RequestId, RequestIdScope, REQUEST_ID_HEADER, REQUEST_ID_PREFIX_INTERNAL,
};
use request_id::truncate::truncate_to_boundary;

const LONG_TEXT: &str = "This is a very long string and should get truncated at some point, because we have a fixed length.";
const EMOJI_TEXT: &str =
    "Let's run test strings with some special chars like emojis \u{1F468}\u{200D}\u{1F468}\u{200D}\u{1F466}\u{200D}\u{1F466}.";
const SHORT_TEXT: &str = "a31eaf0c-a573-44c9-9e47-e26a1d6c53b1";

fn is_uuid_text(text: &str) -> bool {
    let bytes = text.as_bytes();
    bytes.len() == 36
        && bytes.iter().enumerate().all(|(i, b)| {
            if i == 8 || i == 13 || i == 18 || i == 23 {
                *b == b'-'
            } else {
                b.is_ascii_digit() || (b'a'..=b'f').contains(b)
            }
        })
}

#[test]
fn capacity_is_sixty_four_bytes() {
    assert_eq!(REQUEST_ID_DATA_LENGTH, 64);
}

#[test]
fn truncate_keeps_short_text() {
    assert_eq!(truncate_to_boundary(SHORT_TEXT, 64), SHORT_TEXT);
    assert_eq!(truncate_to_boundary("", 64), "");
    assert_eq!(truncate_to_boundary("abc", 3), "abc");
}

#[test]
fn truncate_cuts_ascii_at_the_limit() {
    assert_eq!(
        truncate_to_boundary(LONG_TEXT, 64),
        "This is a very long string and should get truncated at some poin"
    );
    assert_eq!(
        truncate_to_boundary(LONG_TEXT, 63),
        "This is a very long string and should get truncated at some poi"
    );
    assert_eq!(truncate_to_boundary("abc", 0), "");
}

#[test]
fn truncate_never_splits_a_character() {
    assert_eq!(
        truncate_to_boundary(EMOJI_TEXT, 64),
        "Let's run test strings with some special chars like emojis \u{1F468}"
    );
    assert_eq!(
        truncate_to_boundary(EMOJI_TEXT, 63),
        "Let's run test strings with some special chars like emojis \u{1F468}"
    );
    assert_eq!(
        truncate_to_boundary(EMOJI_TEXT, 62),
        "Let's run test strings with some special chars like emojis "
    );
    assert_eq!(truncate_to_boundary("\u{00e9}", 1), "");
    assert_eq!(truncate_to_boundary("a\u{20ac}b", 3), "a");
    assert_eq!(truncate_to_boundary("a\u{20ac}b", 4), "a\u{20ac}");
}

#[test]
fn buffer_holds_fitting_text_exactly() {
    let data = RequestIdData::from_truncated(SHORT_TEXT);
    assert_eq!(data.as_str(), SHORT_TEXT);
    assert_eq!(data.len(), 36);
    assert!(!data.is_empty());
    let exact = "0123456789012345678901234567890123456789012345678901234567890123";
    assert_eq!(exact.len(), 64);
    assert_eq!(RequestIdData::from_truncated(exact).as_str(), exact);
}

#[test]
fn buffer_of_empty_text_is_empty() {
    let data = RequestIdData::from_truncated("");
    assert_eq!(data.as_str(), "");
    assert_eq!(data.len(), 0);
    assert!(data.is_empty());
}

#[test]
fn buffer_cuts_long_text_to_capacity() {
    let data = RequestIdData::from_truncated(LONG_TEXT);
    assert_eq!(data.len(), 64);
    assert_eq!(
        data.as_str(),
        "This is a very long string and should get truncated at some poin"
    );
    let emoji = RequestIdData::from_truncated(EMOJI_TEXT);
    assert_eq!(emoji.len(), 63);
    assert!(std::str::from_utf8(emoji.as_str().as_bytes()).is_ok());
}

#[test]
fn buffer_is_a_copyable_value() {
    let data = RequestIdData::from_truncated("my-id");
    let copy = data;
    assert_eq!(data.as_str(), copy.as_str());
    assert_eq!(data.clone().as_str(), "my-id");
}

#[test]
fn external_identifier_renders_verbatim() {
    let id = RequestId::from_external("my-id");
    assert_eq!(id.scope, RequestIdScope::External);
    assert_eq!(id.data.as_str(), "my-id");
    assert_eq!(id.to_string(), "my-id");
}

#[test]
fn external_identifier_is_truncated_not_rejected() {
    let id = RequestId::from_external(LONG_TEXT);
    assert_eq!(id.scope, RequestIdScope::External);
    assert_eq!(
        id.to_string(),
        "This is a very long string and should get truncated at some poin"
    );
    let same = RequestId::from_external_truncated(LONG_TEXT);
    assert_eq!(same.scope, RequestIdScope::External);
    assert_eq!(same.to_string(), id.to_string());
    let emoji = RequestId::from_external_truncated(EMOJI_TEXT);
    assert_eq!(
        emoji.to_string(),
        "Let's run test strings with some special chars like emojis \u{1F468}"
    );
}

#[test]
fn internal_identifier_renders_with_prefix() {
    let id = RequestId::internal_from_uuid_bytes(&[
        0x87, 0xca, 0x5d, 0x23, 0x7d, 0x18, 0x44, 0x85, 0xb0, 0xc1, 0xbf, 0xf4, 0x8a, 0x67, 0xa9,
        0xa4,
    ]);
    assert_eq!(id.scope, RequestIdScope::Internal);
    assert_eq!(id.data.as_str(), "87ca5d23-7d18-4485-b0c1-bff48a67a9a4");
    assert_eq!(id.to_string(), "internal-87ca5d23-7d18-4485-b0c1-bff48a67a9a4");
    let nil = RequestId::internal_from_uuid_bytes(&[0; 16]);
    assert_eq!(nil.data.as_str(), "00000000-0000-0000-0000-000000000000");
}

#[test]
fn generated_identifier_is_a_random_uuid() {
    let id = RequestId::generate_internal();
    assert_eq!(id.scope, RequestIdScope::Internal);
    let text = id.data.as_str().to_string();
    assert!(is_uuid_text(&text));
    assert_eq!(text.as_bytes()[14], b'4');
    assert!(matches!(text.as_bytes()[19], b'8' | b'9' | b'a' | b'b'));
    let rendered = id.to_string();
    assert_eq!(rendered.len(), 45);
    assert!(rendered.starts_with(REQUEST_ID_PREFIX_INTERNAL));
    assert_eq!(&rendered[9..], text);
    let other = RequestId::generate_internal();
    assert_ne!(other.to_string(), rendered);
}

#[test]
fn header_value_becomes_external_identifier() {
    let mut headers = HeaderMap::new();
    headers.insert(REQUEST_ID_HEADER, HeaderValue::from_static("my-id"));
    let id = RequestId::from_headers_or_internal(&headers);
    assert_eq!(id.scope, RequestIdScope::External);
    assert_eq!(id.to_string(), "my-id");
}

#[test]
fn header_name_is_matched_whatever_its_case() {
    let mut headers = HeaderMap::new();
    headers.insert("X-Request-Id", HeaderValue::from_static("my-external-request-id"));
    let id = RequestId::from_headers_or_internal(&headers);
    assert_eq!(id.scope, RequestIdScope::External);
    assert_eq!(id.to_string(), "my-external-request-id");
}

#[test]
fn first_header_value_wins() {
    let mut headers = HeaderMap::new();
    headers.append(REQUEST_ID_HEADER, HeaderValue::from_static("first"));
    headers.append(REQUEST_ID_HEADER, HeaderValue::from_static("second"));
    let id = RequestId::from_headers_or_internal(&headers);
    assert_eq!(id.to_string(), "first");
}

#[test]
fn long_header_value_is_truncated() {
    let mut headers = HeaderMap::new();
    headers.insert(REQUEST_ID_HEADER, HeaderValue::from_static(LONG_TEXT));
    let id = RequestId::from_headers_or_internal(&headers);
    assert_eq!(id.scope, RequestIdScope::External);
    assert_eq!(id.to_string(), &LONG_TEXT[..64]);
    assert_eq!(id.data.len(), 64);
}

#[test]
fn missing_header_gives_internal_identifier() {
    let mut headers = HeaderMap::new();
    headers.insert("div-by", HeaderValue::from_static("2"));
    let id = RequestId::from_headers_or_internal(&headers);
    assert_eq!(id.scope, RequestIdScope::Internal);
    let rendered = id.to_string();
    assert!(rendered.starts_with("internal-"));
    assert!(is_uuid_text(&rendered[9..]));
    let empty = RequestId::from_headers_or_internal(&HeaderMap::new());
    assert_eq!(empty.scope, RequestIdScope::Internal);
    assert!(is_uuid_text(empty.data.as_str()));
}

#[test]
fn malformed_header_gives_internal_identifier() {
    let mut headers = HeaderMap::new();
    headers.insert(
        REQUEST_ID_HEADER,
        HeaderValue::from_bytes(&[b'i', b'd', 0xff, 0xfe]).unwrap(),
    );
    let id = RequestId::from_headers_or_internal(&headers);
    assert_eq!(id.scope, RequestIdScope::Internal);
    let rendered = id.to_string();
    assert!(rendered.starts_with("internal-"));
    assert!(is_uuid_text(&rendered[9..]));
}

#[test]
fn empty_header_value_gives_empty_external_identifier() {
    let mut headers = HeaderMap::new();
    headers.insert(REQUEST_ID_HEADER, HeaderValue::from_static(""));
    let id = RequestId::from_headers_or_internal(&headers);
    assert_eq!(id.scope, RequestIdScope::External);
    assert_eq!(id.to_string(), "");
}

#[test]
fn scope_names() {
    assert_eq!(RequestIdScope::Internal.name(), "Internal");
    assert_eq!(RequestIdScope::External.name(), "External");
}
