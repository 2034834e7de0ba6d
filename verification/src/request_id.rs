//! The request identifier: where it came from, and its text.
//!
//! An identifier is either generated by this service (`Internal`) or taken
//! from the request's `x-request-id` header (`External`). An internal
//! identifier is written with a fixed prefix; an external one is written as
//! the client sent it, cut down to the capacity of the storage.

use crate::buffer::{RequestIdData, REQUEST_ID_DATA_LENGTH};
use crate::headers::{first_header_text, header_get, header_to_str, lemma_visible_text};
use crate::truncate::{
    lemma_truncated_ascii, lemma_truncated_idempotent, lemma_truncated_identity,
    truncate_to_boundary, truncated,
};
use crate::uuid_text::{
    hyphenated, hyphenated_text, is_hyphenated_uuid, is_random_uuid, lemma_hyphenated_shape,
    random_uuid_bytes,
};
use http::{HeaderMap, HeaderValue};
use vstd::prelude::*;
use vstd::string::{StringExecFns, StringSliceAdditionalSpecFns};

verus! {

/// What stands before the payload in the text of an internal identifier.
pub const REQUEST_ID_PREFIX_INTERNAL: &'static str = "internal-";

/// Name of the header that carries the request identifier, in requests and
/// in responses.
pub const REQUEST_ID_HEADER: &'static str = "x-request-id";

/// Where a request identifier came from.
#[derive(Debug, Clone, Copy, PartialEq, Eq, Structural)]
pub enum RequestIdScope {
    /// Generated by this service.
    Internal,
    /// Supplied by the client.
    External,
}

/// The identifier of one request.
#[derive(Debug, Clone, Copy)]
pub struct RequestId {
    pub scope: RequestIdScope,
    pub data: RequestIdData,
}

impl RequestIdScope {
    /// The name of the scope, as it is written into a response body.
    pub open spec fn spec_name(self) -> Seq<char> {
        match self {
            RequestIdScope::Internal => "Internal"@,
            RequestIdScope::External => "External"@,
        }
    }

    /// The name of the scope, as it is written into a response body.
    pub fn name(&self) -> (name: &'static str)
        ensures
            name@ == self.spec_name(),
    {
        match self {
            RequestIdScope::Internal => "Internal",
            RequestIdScope::External => "External",
        }
    }
}

impl RequestId {
    /// The text of the identifier: the payload, after the prefix where the
    /// identifier is internal.
    pub open spec fn rendered(&self) -> Seq<char> {
        match self.scope {
            RequestIdScope::Internal => REQUEST_ID_PREFIX_INTERNAL@ + self.data@,
            RequestIdScope::External => self.data@,
        }
    }

    /// The text of the identifier.
    pub fn to_string(&self) -> (text: String)
        ensures
            text@ == self.rendered(),
    {
        match self.scope {
            RequestIdScope::Internal => String::from_str(REQUEST_ID_PREFIX_INTERNAL).concat(
                self.data.as_str(),
            ),
            RequestIdScope::External => self.data.as_str().to_owned(),
        }
    }

    /// The header that carries the identifier in a response: its name and
    /// its value.
    pub fn response_header(&self) -> (header: (&'static str, String))
        ensures
            header.0@ == REQUEST_ID_HEADER@,
            header.1@ == self.rendered(),
    {
        (REQUEST_ID_HEADER, self.to_string())
    }

    /// A fresh internal identifier: the hyphenated text of a randomly
    /// generated universally unique identifier.
    pub fn generate_internal() -> (id: Self)
        ensures
            id.scope == RequestIdScope::Internal,
            is_hyphenated_uuid(id.data@),
            exists|bytes: Seq<u8>| is_random_uuid(bytes) && id.data@ == hyphenated(bytes),
    {
        let bytes = random_uuid_bytes();
        let id = Self::internal_from_uuid_bytes(&bytes);
        proof {
            lemma_hyphenated_shape(bytes@);
            assert(is_random_uuid(bytes@) && id.data@ == hyphenated(bytes@));
        }
        id
    }

    /// The internal identifier for the universally unique identifier with
    /// these bytes.
    pub fn internal_from_uuid_bytes(bytes: &[u8; 16]) -> (id: Self)
        ensures
            id.scope == RequestIdScope::Internal,
            id.data@ == hyphenated(bytes@),
    {
        let uuid_string = hyphenated_text(bytes);
        proof {
            lemma_hyphenated_shape(bytes@);
        }
        RequestId {
            scope: RequestIdScope::Internal,
            data: RequestIdData::from_truncated(uuid_string.as_str()),
        }
    }

    /// An external identifier that holds `data`, cut down to the capacity
    /// where it is longer: oversized text is never rejected.
    pub fn from_external(data: &str) -> (id: Self)
        ensures
            id.scope == RequestIdScope::External,
            id.data@ == truncated(data@, REQUEST_ID_DATA_LENGTH as int),
            data.spec_bytes().len() <= REQUEST_ID_DATA_LENGTH ==> id.data@ == data@,
    {
        RequestId { scope: RequestIdScope::External, data: RequestIdData::from_truncated(data) }
    }

    /// An external identifier from text of any length: the text is cut down
    /// to the capacity on a character boundary and then stored.
    pub fn from_external_truncated(unbounded: &str) -> (id: Self)
        ensures
            id.scope == RequestIdScope::External,
            id.data@ == truncated(unbounded@, REQUEST_ID_DATA_LENGTH as int),
            id.rendered() == truncated(unbounded@, REQUEST_ID_DATA_LENGTH as int),
            unbounded.spec_bytes().len() <= REQUEST_ID_DATA_LENGTH ==> id.rendered() == unbounded@,
    {
        let truncated = truncate_to_boundary(unbounded, REQUEST_ID_DATA_LENGTH);
        proof {
            lemma_truncated_idempotent(unbounded@, REQUEST_ID_DATA_LENGTH as int);
            if unbounded.spec_bytes().len() <= REQUEST_ID_DATA_LENGTH {
                lemma_truncated_identity(unbounded@, REQUEST_ID_DATA_LENGTH as int);
            }
        }
        Self::from_external(truncated)
    }

    /// The identifier of a request with these headers.
    ///
    /// Where the `x-request-id` header is present and its first value is
    /// text, the identifier is external and holds that text, cut down to the
    /// capacity. Where the header is missing or its value is not text, the
    /// identifier is a fresh internal one. Both cases of failure are treated
    /// alike.
    pub fn from_headers_or_internal(headers: &HeaderMap<HeaderValue>) -> (id: Self)
        ensures
            match first_header_text(*headers, REQUEST_ID_HEADER@) {
                Some(value) => {
                    &&& id.scope == RequestIdScope::External
                    &&& id.rendered() == truncated(value, REQUEST_ID_DATA_LENGTH as int)
                    &&& id.rendered() == value.subrange(
                        0,
                        if value.len() <= REQUEST_ID_DATA_LENGTH {
                            value.len() as int
                        } else {
                            REQUEST_ID_DATA_LENGTH as int
                        },
                    )
                    &&& value.len() <= REQUEST_ID_DATA_LENGTH ==> id.rendered() == value
                },
                None => {
                    &&& id.scope == RequestIdScope::Internal
                    &&& id.rendered() == REQUEST_ID_PREFIX_INTERNAL@ + id.data@
                    &&& is_hyphenated_uuid(id.data@)
                },
            },
    {
        proof {
            reveal_strlit("x-request-id");
        }
        match header_get(headers, REQUEST_ID_HEADER) {
            Some(hvalue) => match header_to_str(hvalue) {
                Ok(valid) => {
                    proof {
                        lemma_visible_text(valid@);
                        lemma_truncated_ascii(valid@, REQUEST_ID_DATA_LENGTH as int);
                        assert(valid@.subrange(0, valid@.len() as int) =~= valid@);
                    }
                    RequestId::from_external_truncated(valid)
                },
                Err(_) => RequestId::generate_internal(),
            },
            None => RequestId::generate_internal(),
        }
    }
}

} // verus!
