use http::{HeaderMap, HeaderValue};
use request_id::body::modify_body;
use request_id::rejection::{handle_rejection, ErrorMessage, RejectionCauses};
use request_id::request_id::{RequestId, RequestIdScope};
use request_id::routes::{div_by, math, Math, DIV_BY_HEADER};
use serde_json::{Number, Value};

fn request_headers(div_by_value: &'static str, request_id: Option<&'static str>) -> HeaderMap {
    let mut headers = HeaderMap::new();
    headers.insert(DIV_BY_HEADER, HeaderValue::from_static(div_by_value));
    if let Some(value) = request_id {
        headers.insert("x-request-id", HeaderValue::from_static(value));
    }
    headers
}

fn looks_internal(rendered: &str) -> bool {
    let bytes = rendered.as_bytes();
    rendered.starts_with("internal-")
        && bytes.len() == 45
        && bytes[9..].iter().enumerate().all(|(i, b)| {
            if i == 8 || i == 13 || i == 18 || i == 23 {
                *b == b'-'
            } else {
                b.is_ascii_digit() || (b'a'..=b'f').contains(b)
            }
        })
}

// The body of a reply, as it is serialised before it is rewritten.
fn math_body(reply: &Math) -> Vec<Vec<u8>> {
    let mut object = serde_json::Map::new();
    object.insert("op".to_string(), Value::String(reply.op.clone()));
    object.insert("output".to_string(), Value::Number(Number::from(reply.output)));
    vec![serde_json::to_vec(&object).unwrap()]
}

fn error_body(reply: &ErrorMessage) -> Vec<Vec<u8>> {
    let mut object = serde_json::Map::new();
    object.insert("code".to_string(), Value::Number(Number::from(reply.code)));
    object.insert("message".to_string(), Value::String(reply.message.clone()));
    object.insert("request_id".to_string(), Value::String(reply.request_id.clone()));
    vec![serde_json::to_vec(&object).unwrap()]
}

#[test]
fn division_without_request_id() {
    let headers = request_headers("2", None);
    let id = RequestId::from_headers_or_internal(&headers);
    let reply = math(4, div_by(2).unwrap());
    let (name, value) = id.response_header();
    assert_eq!(name, "x-request-id");
    assert!(looks_internal(&value));
    let body = modify_body(&math_body(&reply), &id).unwrap();
    let json: Value = serde_json::from_str(&body).unwrap();
    assert_eq!(json["op"], Value::String("4 / 2".to_string()));
    assert_eq!(json["output"], Value::Number(Number::from(2u16)));
    assert_eq!(json.as_object().unwrap().len(), 3);
    let instance = &json["taskLocals"]["RequestIdInstance"];
    assert_eq!(instance["scope"], Value::String("Internal".to_string()));
    assert_eq!(instance["data"], Value::String(value[9..].to_string()));
    assert_eq!(body.len(), 231);
}

#[test]
fn division_by_zero_is_a_bad_request() {
    let headers = request_headers("0", None);
    let id = RequestId::from_headers_or_internal(&headers);
    assert!(div_by(0).is_err());
    let causes = RejectionCauses { not_found: false, divide_by_zero: true, method_not_allowed: false };
    let reply = handle_rejection(&causes, &id);
    assert_eq!(reply.code, 400);
    assert_eq!(reply.message, "DIVIDE_BY_ZERO");
    assert!(looks_internal(&reply.request_id));
    assert_eq!(reply.request_id, id.to_string());
    let body = modify_body(&error_body(&reply), &id).unwrap();
    let json: Value = serde_json::from_str(&body).unwrap();
    assert_eq!(json["code"], Value::Number(Number::from(400u16)));
    assert_eq!(json["message"], Value::String("DIVIDE_BY_ZERO".to_string()));
    assert_eq!(json["request_id"], Value::String(id.to_string()));
    assert_eq!(json["taskLocals"]["RequestIdInstance"]["scope"], Value::String("Internal".to_string()));
}

#[test]
fn division_with_request_id() {
    let headers = request_headers("2", Some("my-id"));
    let id = RequestId::from_headers_or_internal(&headers);
    assert_eq!(id.scope, RequestIdScope::External);
    let (name, value) = id.response_header();
    assert_eq!(name, "x-request-id");
    assert_eq!(value, "my-id");
    let reply = math(4, div_by(2).unwrap());
    let body = modify_body(&math_body(&reply), &id).unwrap();
    let json: Value = serde_json::from_str(&body).unwrap();
    let mut instance = serde_json::Map::new();
    instance.insert("scope".to_string(), Value::String("External".to_string()));
    instance.insert("data".to_string(), Value::String("my-id".to_string()));
    assert_eq!(json["taskLocals"]["RequestIdInstance"], Value::Object(instance));
    assert_eq!(json["op"], Value::String("4 / 2".to_string()));
    assert_eq!(json["output"], Value::Number(Number::from(2u16)));
}

#[test]
fn unmatched_path_is_not_found() {
    let id = RequestId::from_headers_or_internal(&HeaderMap::new());
    let causes = RejectionCauses { not_found: true, divide_by_zero: false, method_not_allowed: false };
    let reply = handle_rejection(&causes, &id);
    assert_eq!(reply.code, 404);
    assert_eq!(reply.message, "NOT_FOUND");
    assert!(looks_internal(&reply.request_id));
    let (_, value) = id.response_header();
    assert_eq!(value, reply.request_id);
}

#[test]
fn each_request_carries_its_own_identifier() {
    let first = RequestId::from_headers_or_internal(&request_headers("2", Some("first")));
    let second = RequestId::from_headers_or_internal(&request_headers("2", Some("second")));
    let third = RequestId::from_headers_or_internal(&request_headers("2", None));
    let fourth = RequestId::from_headers_or_internal(&request_headers("2", None));
    let reply = math(4, div_by(2).unwrap());
    let ids = [first, second, third, fourth];
    let bodies: Vec<String> =
        ids.iter().map(|id| modify_body(&math_body(&reply), id).unwrap()).collect();
    for (i, id) in ids.iter().enumerate() {
        for (j, body) in bodies.iter().enumerate() {
            let json: Value = serde_json::from_str(body).unwrap();
            let data = json["taskLocals"]["RequestIdInstance"]["data"].clone();
            assert_eq!(data == Value::String(id.data.as_str().to_string()), i == j);
        }
    }
    assert_eq!(ids[0].response_header().1, "first");
    assert_eq!(ids[1].response_header().1, "second");
    assert_ne!(ids[2].response_header().1, ids[3].response_header().1);
}
