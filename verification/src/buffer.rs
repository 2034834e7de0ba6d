//! Fixed-capacity text storage for the payload of a request identifier.
//!
//! The storage is an inline array of `REQUEST_ID_DATA_LENGTH` bytes, so a
//! value is copied freely and never allocates. Text that does not fit is cut
//! on a character boundary; construction never fails.

use crate::truncate::{lemma_truncated_fits, lemma_truncated_identity, truncate_to_boundary, truncated};
use arrayvec::ArrayString;
use vstd::pervasive::unreached;
use vstd::prelude::*;
use vstd::string::StringSliceAdditionalSpecFns;
use vstd::utf8::*;

verus! {

/// Number of bytes that the payload of a request identifier can hold.
pub const REQUEST_ID_DATA_LENGTH: usize = 64;

/// The inline string of `arrayvec` that backs a [`RequestIdData`]: an
/// `ArrayString` over an array of `REQUEST_ID_DATA_LENGTH` bytes.
#[verifier::external_body]
#[derive(Debug)]
pub struct InlineText {
    text: ArrayString<[u8; REQUEST_ID_DATA_LENGTH]>,
}

impl Clone for InlineText {
    fn clone(&self) -> (copy: Self)
        ensures
            copy == *self,
    {
        *self
    }
}

impl Copy for InlineText {

}

/// The text that an [`InlineText`] holds.
pub uninterp spec fn inline_text(stored: InlineText) -> Seq<char>;

/// `ArrayString::from`: a new inline string that holds `text`, or nothing
/// where the UTF-8 encoding of `text` is longer than the backing array.
#[verifier::external_body]
fn inline_text_from(text: &str) -> (stored: Option<InlineText>)
    ensures
        stored is Some <==> text.spec_bytes().len() <= REQUEST_ID_DATA_LENGTH,
        stored matches Some(s) ==> inline_text(s) == text@,
{
    match ArrayString::from(text) {
        Ok(text) => Some(InlineText { text }),
        Err(_) => None,
    }
}

/// `ArrayString::as_str`: the stored text as a string slice.
#[verifier::external_body]
fn inline_text_as_str(stored: &InlineText) -> (text: &str)
    ensures
        text@ == inline_text(*stored),
{
    stored.text.as_str()
}

/// Text of at most `REQUEST_ID_DATA_LENGTH` bytes of UTF-8, stored inline.
#[derive(Clone, Copy, Debug)]
pub struct RequestIdData {
    stored: InlineText,
}

impl View for RequestIdData {
    type V = Seq<char>;

    closed spec fn view(&self) -> Seq<char> {
        inline_text(self.stored)
    }
}

impl RequestIdData {
    #[verifier::type_invariant]
    spec fn within_capacity(self) -> bool {
        encode_utf8(inline_text(self.stored)).len() <= REQUEST_ID_DATA_LENGTH
    }

    /// The stored bytes: the UTF-8 encoding of the stored text.
    pub open spec fn spec_bytes(&self) -> Seq<u8> {
        encode_utf8(self@)
    }

    /// Stores `input`, cut down to the capacity on a character boundary.
    ///
    /// The result holds valid UTF-8 of at most `REQUEST_ID_DATA_LENGTH`
    /// bytes, and holds `input` itself where `input` fits.
    pub fn from_truncated(input: &str) -> (data: Self)
        ensures
            data@ == truncated(input@, REQUEST_ID_DATA_LENGTH as int),
            data.spec_bytes().len() <= REQUEST_ID_DATA_LENGTH,
            valid_utf8(data.spec_bytes()),
            input.spec_bytes().len() <= REQUEST_ID_DATA_LENGTH ==> data@ == input@,
    {
        let head = truncate_to_boundary(input, REQUEST_ID_DATA_LENGTH);
        proof {
            lemma_truncated_fits(input@, REQUEST_ID_DATA_LENGTH as int);
            if input.spec_bytes().len() <= REQUEST_ID_DATA_LENGTH {
                lemma_truncated_identity(input@, REQUEST_ID_DATA_LENGTH as int);
            }
        }
        match inline_text_from(head) {
            Some(stored) => RequestIdData { stored },
            None => unreached(),
        }
    }

    /// The stored text.
    pub fn as_str(&self) -> (text: &str)
        ensures
            text@ == self@,
            text.spec_bytes().len() <= REQUEST_ID_DATA_LENGTH,
    {
        proof {
            use_type_invariant(self);
        }
        inline_text_as_str(&self.stored)
    }

    /// Number of bytes stored.
    pub fn len(&self) -> (count: usize)
        ensures
            count == self.spec_bytes().len(),
            count <= REQUEST_ID_DATA_LENGTH,
    {
        self.as_str().as_bytes().len()
    }

    /// Whether no text is stored.
    pub fn is_empty(&self) -> (empty: bool)
        ensures
            empty == (self@.len() == 0),
    {
        self.as_str().is_empty()
    }
}

} // verus!
