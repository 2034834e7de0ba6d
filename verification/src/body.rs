//! Rewriting the body of a response so that it carries the request
//! identifier.
//!
//! The body arrives in chunks. It is put together, read as UTF-8 text and
//! parsed as JSON. It has to be a JSON object; the object gets one more
//! member, which holds the identifier and a note, and is written out again,
//! pretty-printed and with a newline at the end.

use crate::json::{
    json_as_object_mut, json_from_object, json_from_str, json_object, json_object_insert,
    json_object_new, json_parsed, json_pretty, json_text, json_to_string_pretty, json_value,
    no_members, Json,
};
use crate::request_id::RequestId;
use serde_json::Value;
use vstd::prelude::*;
use vstd::string::StringExecFns;
use vstd::utf8::*;

verus! {

/// Key of the member that is added to the body of a response.
pub const TASK_LOCALS_KEY: &'static str = "taskLocals";

/// The note that is added to the body of a response.
pub const TASK_LOCALS_NOTE: &'static str = "this data is injected after warp service ran";

/// Why the body of a response could not be rewritten.
#[derive(Debug, Clone, Copy, PartialEq, Eq, Structural)]
pub enum BodyError {
    /// The bytes of the body are not valid UTF-8.
    NotUtf8,
    /// The text of the body is not one JSON value.
    NotJson,
    /// The body is a JSON value, but not an object.
    NotObject,
    /// The object could not be written out.
    NotPrintable,
}

impl BodyError {
    /// What the failure is called in a diagnostic.
    pub fn message(&self) -> (text: &'static str)
        ensures
            text@ == match *self {
                BodyError::NotUtf8 => "body must be a valid UTF8 string"@,
                BodyError::NotJson => "body must be valid JSON"@,
                BodyError::NotObject => "value must be an object"@,
                BodyError::NotPrintable => "print_json failed to stringify data"@,
            },
    {
        match self {
            BodyError::NotUtf8 => "body must be a valid UTF8 string",
            BodyError::NotJson => "body must be valid JSON",
            BodyError::NotObject => "value must be an object",
            BodyError::NotPrintable => "print_json failed to stringify data",
        }
    }
}

/// The chunks of a body, one after the other.
pub open spec fn joined(chunks: Seq<Vec<u8>>) -> Seq<u8>
    decreases chunks.len(),
{
    if chunks.len() == 0 {
        Seq::empty()
    } else {
        joined(chunks.drop_last()) + chunks.last()@
    }
}

/// The text of a body that came in these chunks.
pub open spec fn body_text(chunks: Seq<Vec<u8>>) -> Result<Seq<char>, BodyError> {
    if valid_utf8(joined(chunks)) {
        Ok(decode_utf8(joined(chunks)))
    } else {
        Err(BodyError::NotUtf8)
    }
}

/// The JSON object that stands for a request identifier in a body.
pub open spec fn request_id_json(id: RequestId) -> Json {
    Json::Object(
        no_members().insert("scope"@, Json::Text(id.scope.spec_name())).insert(
            "data"@,
            Json::Text(id.data@),
        ),
    )
}

/// The JSON object that is added to the body of a response: a note, and the
/// request identifier.
pub open spec fn task_locals_json(id: RequestId) -> Json {
    Json::Object(
        no_members().insert("note"@, Json::Text(TASK_LOCALS_NOTE@)).insert(
            "RequestIdInstance"@,
            request_id_json(id),
        ),
    )
}

/// The text of an object, as it is sent: pretty-printed, with one newline
/// at the end.
pub open spec fn printed(members: Map<Seq<char>, Json>) -> Result<Seq<char>, BodyError> {
    match json_pretty(members) {
        Some(text) => Ok(text + seq!['\n']),
        None => Err(BodyError::NotPrintable),
    }
}

/// The rewritten form of a body with this text, for the request with this
/// identifier.
pub open spec fn modified_text(body: Seq<char>, id: RequestId) -> Result<Seq<char>, BodyError> {
    match json_parsed(body) {
        Some(Json::Object(members)) => printed(members.insert(TASK_LOCALS_KEY@, task_locals_json(id))),
        Some(_) => Err(BodyError::NotObject),
        None => Err(BodyError::NotJson),
    }
}

/// The rewritten form of a body that came in these chunks.
pub open spec fn modified_body(chunks: Seq<Vec<u8>>, id: RequestId) -> Result<
    Seq<char>,
    BodyError,
> {
    match body_text(chunks) {
        Ok(text) => modified_text(text, id),
        Err(error) => Err(error),
    }
}

/// Whether `result` is the text or the failure that `expected` gives.
pub open spec fn is_text_or_error(
    result: Result<String, BodyError>,
    expected: Result<Seq<char>, BodyError>,
) -> bool {
    match expected {
        Ok(text) => result matches Ok(output) && output@ == text,
        Err(error) => result == Err::<String, BodyError>(error),
    }
}

/// The member that is added to a body names one identifier: where the
/// members for two identifiers are the same, the identifiers have the same
/// scope and the same payload.
pub proof fn lemma_task_locals_name_one_identifier(first: RequestId, second: RequestId)
    requires
        task_locals_json(first) == task_locals_json(second),
    ensures
        first.scope == second.scope,
        first.data@ == second.data@,
{
    reveal_strlit("RequestIdInstance");
    reveal_strlit("scope");
    reveal_strlit("data");
    reveal_strlit("Internal");
    reveal_strlit("External");
    let first_locals = task_locals_json(first)->Object_0;
    let second_locals = task_locals_json(second)->Object_0;
    assert(first_locals["RequestIdInstance"@] == request_id_json(first));
    assert(second_locals["RequestIdInstance"@] == request_id_json(second));
    let first_instance = request_id_json(first)->Object_0;
    let second_instance = request_id_json(second)->Object_0;
    assert("scope"@.len() != "data"@.len());
    assert(first_instance["data"@] == Json::Text(first.data@));
    assert(second_instance["data"@] == Json::Text(second.data@));
    assert(first_instance["scope"@] == Json::Text(first.scope.spec_name()));
    assert(second_instance["scope"@] == Json::Text(second.scope.spec_name()));
    assert("Internal"@[0] != "External"@[0]);
}

/// `String::from_utf8`: the text that the bytes encode, or nothing where
/// they are not valid UTF-8.
#[verifier::external_body]
fn string_from_utf8(bytes: Vec<u8>) -> (text: Option<String>)
    ensures
        text is Some <==> valid_utf8(bytes@),
        text matches Some(decoded) ==> decoded@ == decode_utf8(bytes@),
{
    String::from_utf8(bytes).ok()
}

/// Puts the chunks of a body together, in their order.
pub fn collect_chunks(chunks: &Vec<Vec<u8>>) -> (data: Vec<u8>)
    ensures
        data@ == joined(chunks@),
{
    let mut data: Vec<u8> = Vec::new();
    let mut index: usize = 0;
    while index < chunks.len()
        invariant
            index <= chunks.len(),
            data@ == joined(chunks@.take(index as int)),
        decreases chunks.len() - index,
    {
        data.extend_from_slice(chunks[index].as_slice());
        proof {
            let next = chunks@.take(index + 1);
            assert(next.drop_last() =~= chunks@.take(index as int));
            assert(data@ =~= joined(next));
        }
        index = index + 1;
    }
    proof {
        assert(chunks@.take(index as int) =~= chunks@);
    }
    data
}

/// Reads a body that came in these chunks as text.
pub fn body_to_string(chunks: &Vec<Vec<u8>>) -> (text: Result<String, BodyError>)
    ensures
        is_text_or_error(text, body_text(chunks@)),
{
    let entire_body = collect_chunks(chunks);
    match string_from_utf8(entire_body) {
        Some(text) => Ok(text),
        None => Err(BodyError::NotUtf8),
    }
}

/// The JSON value that stands for a request identifier in a body.
pub fn request_id_value(id: &RequestId) -> (value: Value)
    ensures
        json_value(value) == request_id_json(*id),
{
    let mut instance = json_object_new();
    let _ = json_object_insert(&mut instance, "scope".to_owned(), json_text(id.scope.name().to_owned()));
    let _ = json_object_insert(&mut instance, "data".to_owned(), json_text(id.data.as_str().to_owned()));
    json_from_object(instance)
}

/// The JSON value that is added to the body of a response.
pub fn task_locals(id: &RequestId) -> (value: Value)
    ensures
        json_value(value) == task_locals_json(*id),
{
    let mut locals = json_object_new();
    let _ = json_object_insert(&mut locals, "note".to_owned(), json_text(TASK_LOCALS_NOTE.to_owned()));
    let _ = json_object_insert(&mut locals, "RequestIdInstance".to_owned(), request_id_value(id));
    json_from_object(locals)
}

/// Writes an object out as it is sent: pretty-printed, with one newline at
/// the end.
pub fn print_json(jsonable: &serde_json::Map<String, Value>) -> (text: Result<String, BodyError>)
    ensures
        is_text_or_error(text, printed(json_object(*jsonable))),
{
    match json_to_string_pretty(jsonable) {
        Ok(output) => {
            proof {
                reveal_strlit("\n");
                assert("\n"@ =~= seq!['\n']);
            }
            Ok(output.concat("\n"))
        },
        Err(_) => Err(BodyError::NotPrintable),
    }
}

/// Rewrites the text of a body: parses it, adds the member that holds the
/// request identifier, and writes the object out again.
pub fn modify_text(body: &str, id: &RequestId) -> (text: Result<String, BodyError>)
    ensures
        is_text_or_error(text, modified_text(body@, *id)),
{
    match json_from_str(body) {
        Ok(mut parsed) => match json_as_object_mut(&mut parsed) {
            Some(members) => {
                let _ = json_object_insert(members, TASK_LOCALS_KEY.to_owned(), task_locals(id));
                print_json(members)
            },
            None => Err(BodyError::NotObject),
        },
        Err(_) => Err(BodyError::NotJson),
    }
}

/// Rewrites a body that came in these chunks, for the request with this
/// identifier.
pub fn modify_body(chunks: &Vec<Vec<u8>>, id: &RequestId) -> (text: Result<String, BodyError>)
    ensures
        is_text_or_error(text, modified_body(chunks@, *id)),
{
    match body_to_string(chunks) {
        Ok(body_string) => modify_text(body_string.as_str(), id),
        Err(error) => Err(error),
    }
}

} // verus!
