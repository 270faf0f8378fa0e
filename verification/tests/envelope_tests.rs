use worker_supervisor::envelope::decode_envelope;
use worker_supervisor::envelope::expect_bool;
use worker_supervisor::envelope::expect_object;
use worker_supervisor::envelope::expect_text;
use worker_supervisor::envelope::DecodeError;
use worker_supervisor::envelope::ExpectedShape;
use worker_supervisor::envelope::extract_envelope;
use worker_supervisor::envelope::JsonValue;
use worker_supervisor::envelope::UnexpectedResponseShape;

fn obj(fields: Vec<(&str, JsonValue)>) -> JsonValue {
    JsonValue::Object(fields.into_iter().map(|(k, v)| (String::from(k), v)).collect())
}

#[test]
fn result_key_unwraps_the_payload() {
    let r = decode_envelope("{\"result\": {\"a\": 1}}");
    assert_eq!(r.unwrap(), obj(vec![("a", JsonValue::Number(String::from("1")))]));
}

#[test]
fn error_key_reports_the_worker_message() {
    let r = decode_envelope("{\"error\": \"boom\"}");
    assert_eq!(r.unwrap_err(), DecodeError::WorkerReportedError(String::from("boom")));
}

#[test]
fn object_without_envelope_keys_is_returned_whole() {
    let r = decode_envelope("{}");
    assert_eq!(r.unwrap(), obj(vec![]));
}

#[test]
fn empty_text_is_an_empty_response() {
    assert_eq!(decode_envelope("").unwrap_err(), DecodeError::EmptyResponse);
    assert_eq!(decode_envelope("  \n\t ").unwrap_err(), DecodeError::EmptyResponse);
}

#[test]
fn unparseable_text_is_malformed_with_the_original_attached() {
    let r = decode_envelope("not json");
    assert_eq!(r.unwrap_err(), DecodeError::MalformedResponse(String::from("not json")));
}

#[test]
fn non_text_error_value_gets_the_placeholder_message() {
    let r = decode_envelope("{\"error\": 5}");
    assert_eq!(r.unwrap_err(), DecodeError::WorkerReportedError(String::from("Unknown error")));
}

#[test]
fn error_wins_over_result() {
    let r = decode_envelope("{\"error\": \"x\", \"result\": 1}");
    assert_eq!(r.unwrap_err(), DecodeError::WorkerReportedError(String::from("x")));
}

#[test]
fn bare_values_pass_through_unwrapped() {
    assert_eq!(decode_envelope("true").unwrap(), JsonValue::Bool(true));
    assert_eq!(decode_envelope("\"hi\"").unwrap(), JsonValue::Text(String::from("hi")));
    assert_eq!(
        decode_envelope("[1, null]").unwrap(),
        JsonValue::Array(vec![JsonValue::Number(String::from("1")), JsonValue::Null])
    );
}

#[test]
fn numbers_keep_their_rendered_literal() {
    assert_eq!(
        decode_envelope("{\"result\": 1.5}").unwrap(),
        JsonValue::Number(String::from("1.5"))
    );
    assert_eq!(
        decode_envelope("{\"result\": -7}").unwrap(),
        JsonValue::Number(String::from("-7"))
    );
}

#[test]
fn nested_result_object_is_converted_deeply() {
    let r = decode_envelope("{\"result\": {\"ok\": true, \"names\": [\"a\"]}}").unwrap();
    assert_eq!(
        r,
        obj(vec![
            ("names", JsonValue::Array(vec![JsonValue::Text(String::from("a"))])),
            ("ok", JsonValue::Bool(true)),
        ])
    );
}

#[test]
fn extract_envelope_on_a_built_value() {
    let v = obj(vec![("result", JsonValue::Bool(false))]);
    assert_eq!(extract_envelope(v).unwrap(), JsonValue::Bool(false));
    let plain = obj(vec![("other", JsonValue::Null)]);
    let back = extract_envelope(obj(vec![("other", JsonValue::Null)])).unwrap();
    assert_eq!(back, plain);
}

#[test]
fn expect_bool_accepts_booleans_only() {
    assert_eq!(expect_bool(&JsonValue::Bool(true)).unwrap(), true);
    assert_eq!(
        expect_bool(&JsonValue::Text(String::from("true"))).unwrap_err(),
        UnexpectedResponseShape { expected: ExpectedShape::Boolean }
    );
}

#[test]
fn expect_text_accepts_text_only() {
    assert_eq!(expect_text(JsonValue::Text(String::from("abc"))).unwrap(), "abc");
    assert_eq!(
        expect_text(JsonValue::Bool(true)).unwrap_err(),
        UnexpectedResponseShape { expected: ExpectedShape::Text }
    );
}

#[test]
fn expect_object_accepts_objects_only() {
    let v = obj(vec![("k", JsonValue::Null)]);
    assert_eq!(expect_object(v).unwrap(), obj(vec![("k", JsonValue::Null)]));
    assert_eq!(
        expect_object(JsonValue::Null).unwrap_err(),
        UnexpectedResponseShape { expected: ExpectedShape::Object }
    );
}
