//! Turning a rejected request into an error reply that names the request.

use crate::request_id::RequestId;
use vstd::prelude::*;
use vstd::string::StringExecFns;

verus! {

/// What the handler reads of a rejection: which causes are on record.
#[derive(Debug, Clone, Copy, PartialEq, Eq, Structural)]
pub struct RejectionCauses {
    /// No route matched the request.
    pub not_found: bool,
    /// The request asked to divide by zero.
    pub divide_by_zero: bool,
    /// A route matched the path, but not the method.
    pub method_not_allowed: bool,
}

/// The kinds of rejection that the handler tells apart.
#[derive(Debug, Clone, Copy, PartialEq, Eq, Structural)]
pub enum RejectionKind {
    NotFound,
    DivideByZero,
    MethodNotAllowed,
    Unhandled,
}

/// The body of an error reply.
#[derive(Debug)]
pub struct ErrorMessage {
    pub code: u16,
    pub message: String,
    pub request_id: String,
}

impl RejectionCauses {
    /// The kind of the rejection. Where more than one cause is on record,
    /// "not found" comes before "divide by zero", and that before "method
    /// not allowed"; a rejection with none of them is unhandled.
    pub open spec fn spec_kind(self) -> RejectionKind {
        if self.not_found {
            RejectionKind::NotFound
        } else if self.divide_by_zero {
            RejectionKind::DivideByZero
        } else if self.method_not_allowed {
            RejectionKind::MethodNotAllowed
        } else {
            RejectionKind::Unhandled
        }
    }

    /// The kind of the rejection.
    pub fn kind(&self) -> (kind: RejectionKind)
        ensures
            kind == self.spec_kind(),
    {
        if self.not_found {
            RejectionKind::NotFound
        } else if self.divide_by_zero {
            RejectionKind::DivideByZero
        } else if self.method_not_allowed {
            RejectionKind::MethodNotAllowed
        } else {
            RejectionKind::Unhandled
        }
    }
}

impl RejectionKind {
    /// The HTTP status code of the reply.
    pub open spec fn spec_code(self) -> u16 {
        match self {
            RejectionKind::NotFound => 404,
            RejectionKind::DivideByZero => 400,
            RejectionKind::MethodNotAllowed => 405,
            RejectionKind::Unhandled => 500,
        }
    }

    /// The short message of the reply.
    pub open spec fn spec_message(self) -> Seq<char> {
        match self {
            RejectionKind::NotFound => "NOT_FOUND"@,
            RejectionKind::DivideByZero => "DIVIDE_BY_ZERO"@,
            RejectionKind::MethodNotAllowed => "METHOD_NOT_ALLOWED"@,
            RejectionKind::Unhandled => "UNHANDLED_REJECTION"@,
        }
    }

    /// The HTTP status code of the reply.
    pub fn code(&self) -> (code: u16)
        ensures
            code == self.spec_code(),
    {
        match self {
            RejectionKind::NotFound => 404,
            RejectionKind::DivideByZero => 400,
            RejectionKind::MethodNotAllowed => 405,
            RejectionKind::Unhandled => 500,
        }
    }

    /// The short message of the reply.
    pub fn message(&self) -> (message: &'static str)
        ensures
            message@ == self.spec_message(),
    {
        match self {
            RejectionKind::NotFound => "NOT_FOUND",
            RejectionKind::DivideByZero => "DIVIDE_BY_ZERO",
            RejectionKind::MethodNotAllowed => "METHOD_NOT_ALLOWED",
            RejectionKind::Unhandled => "UNHANDLED_REJECTION",
        }
    }
}

/// The error reply to a rejected request: the status code and message of
/// the rejection's kind, and the text of the request's identifier.
pub fn handle_rejection(err: &RejectionCauses, id: &RequestId) -> (reply: ErrorMessage)
    ensures
        reply.code == err.spec_kind().spec_code(),
        reply.message@ == err.spec_kind().spec_message(),
        reply.request_id@ == id.rendered(),
{
    let kind = err.kind();
    ErrorMessage {
        code: kind.code(),
        message: String::from_str(kind.message()),
        request_id: id.to_string(),
    }
}

} // verus!
