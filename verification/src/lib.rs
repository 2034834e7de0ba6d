//! Request identifiers for an HTTP service: a bounded, copyable correlation
//! value that is taken from an inbound header or generated, carried through
//! the handling of one request, and written into the response's headers and
//! body.
//!
//! - [`truncate`] cuts text down to a number of bytes without splitting a
//!   character.
//! - [`buffer`] stores the payload of an identifier in a fixed number of
//!   bytes.
//! - [`uuid_text`] describes the text of a generated identifier.
//! - [`headers`] describes what is read from the headers of a request.
//! - [`request_id`] is the identifier itself: how it is derived and how it
//!   is written.
//! - [`json`] and [`body`] rewrite the body of a response so that it carries
//!   the identifier.
//! - [`routes`] and [`rejection`] are the division route and the error
//!   replies.
//!
//! Every function takes the identifier it works with as an argument; the
//! library keeps no state between requests.

pub mod body;
pub mod buffer;
pub mod headers;
pub mod json;
pub mod rejection;
pub mod request_id;
pub mod routes;
pub mod truncate;
pub mod uuid_text;
