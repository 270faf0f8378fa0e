//! The response envelope decoder.
//!
//! A worker's raw response text is expected to be a structured
//! (JSON-equivalent) value, usually wrapped in an envelope: `{error: ...}`
//! signals a handled failure, `{result: ...}` carries the payload, and a
//! value with neither key is itself the payload.  Parsing is done by an
//! outside parser behind a trusted wrapper; everything after the parse —
//! trimming, the envelope rules, the shape checks — is verified.

use crate::framing::spec_trim;
use crate::framing::trim_str;
use vstd::prelude::*;
use vstd::string::StringExecFns;

verus! {

/// A structured value as the library holds it.  Numbers keep their literal
/// text: the library forwards them and never computes with them.
#[derive(PartialEq, Eq, Debug)]
pub enum JsonValue {
    /// The null value.
    Null,
    /// A boolean.
    Bool(bool),
    /// A number, as the text of its literal.
    Number(String),
    /// A text value.
    Text(String),
    /// An ordered sequence of values.
    Array(Vec<JsonValue>),
    /// Named fields, in the order the parser hands them out.
    Object(Vec<(String, JsonValue)>),
}

/// serde_json's own value type, declared so the conversion below may take
/// it; the library holds no value of it and sees nothing inside one.
#[verifier::external_type_specification]
#[verifier::external_body]
pub struct ExValue(serde_json::Value);

/// What the outside parser makes of a text: `None` when the text is not a
/// structured value, otherwise the value it denotes, in the library's own
/// shape.  The outcome depends on the text alone.
pub uninterp spec fn json_of(s: Seq<char>) -> Option<JsonValue>;

/// Relies on serde_json::from_str: whether a text parses, and what value
/// it parses to, are functions of the text alone.
#[verifier::external_body]
fn parse_json(s: &str) -> (r: Option<JsonValue>)
    ensures
        r == json_of(s@),
{
    serde_json::from_str::<serde_json::Value>(s).ok().map(convert_value)
}

/// Relies on serde_json::Value: each variant is carried over to the
/// library's own value shape, one arm per variant; a number becomes its
/// rendered literal, and object fields keep the order in which
/// serde_json's map iterates them.
#[verifier::external_body]
fn convert_value(v: serde_json::Value) -> JsonValue {
    match v {
        serde_json::Value::Null => JsonValue::Null,
        serde_json::Value::Bool(b) => JsonValue::Bool(b),
        serde_json::Value::Number(n) => JsonValue::Number(n.to_string()),
        serde_json::Value::String(s) => JsonValue::Text(s),
        serde_json::Value::Array(a) => JsonValue::Array(
            a.into_iter().map(convert_value).collect(),
        ),
        serde_json::Value::Object(o) => JsonValue::Object(
            o.into_iter().map(|(k, x)| (k, convert_value(x))).collect(),
        ),
    }
}

/// The value of the first field named `key`, if any.
pub open spec fn spec_lookup(fields: Seq<(String, JsonValue)>, key: Seq<char>) -> Option<JsonValue>
    decreases fields.len(),
{
    if fields.len() == 0 {
        None
    } else if fields[0].0@ == key {
        Some(fields[0].1)
    } else {
        spec_lookup(fields.drop_first(), key)
    }
}

proof fn lemma_lookup_at(fields: Seq<(String, JsonValue)>, key: Seq<char>, i: int)
    requires
        0 <= i < fields.len(),
        fields[i].0@ == key,
        forall|k: int| 0 <= k < i ==> fields[k].0@ != key,
    ensures
        spec_lookup(fields, key) == Some(fields[i].1),
    decreases i,
{
    if i > 0 {
        lemma_lookup_at(fields.drop_first(), key, i - 1);
    }
}

proof fn lemma_lookup_none(fields: Seq<(String, JsonValue)>, key: Seq<char>)
    requires
        forall|k: int| 0 <= k < fields.len() ==> fields[k].0@ != key,
    ensures
        spec_lookup(fields, key) is None,
    decreases fields.len(),
{
    if fields.len() > 0 {
        lemma_lookup_none(fields.drop_first(), key);
    }
}

/// Why decoding a raw response failed.
#[derive(PartialEq, Eq, Debug)]
pub enum DecodeError {
    /// The response was empty after trimming.
    EmptyResponse,
    /// The response was not a structured value; carries the original text
    /// for diagnostics.
    MalformedResponse(String),
    /// The worker itself reported a handled failure; carries its message.
    WorkerReportedError(String),
}

/// What envelope extraction owes for a parsed value `v`: a reported error
/// wins, then a `result` payload, and a value with neither key — or no
/// envelope at all — is itself the payload.
pub open spec fn extract_post(v: JsonValue, r: Result<JsonValue, DecodeError>) -> bool {
    match v {
        JsonValue::Object(fields) => {
            if spec_lookup(fields@, "error"@) is Some {
                match spec_lookup(fields@, "error"@)->0 {
                    JsonValue::Text(msg) => r matches Err(DecodeError::WorkerReportedError(t))
                        && t@ == msg@,
                    _ => r matches Err(DecodeError::WorkerReportedError(t)) && t@
                        == "Unknown error"@,
                }
            } else if spec_lookup(fields@, "result"@) is Some {
                r == Ok::<JsonValue, DecodeError>(spec_lookup(fields@, "result"@)->0)
            } else {
                r == Ok::<JsonValue, DecodeError>(v)
            }
        },
        _ => r == Ok::<JsonValue, DecodeError>(v),
    }
}

/// What the decoder owes for the raw text `raw`.
pub open spec fn decode_post(raw: Seq<char>, r: Result<JsonValue, DecodeError>) -> bool {
    if spec_trim(raw).len() == 0 {
        r == Err::<JsonValue, DecodeError>(DecodeError::EmptyResponse)
    } else {
        match json_of(raw) {
            None => r matches Err(DecodeError::MalformedResponse(t)) && t@ == raw,
            Some(v) => extract_post(v, r),
        }
    }
}

/// The index of the first field named `key`, if any.
fn lookup_index(fields: &Vec<(String, JsonValue)>, key: &String) -> (r: Option<usize>)
    ensures
        r matches Some(i) ==> i < fields@.len() && fields@[i as int].0@ == key@ && (forall|k: int|
            0 <= k < i ==> fields@[k].0@ != key@),
        r is None ==> forall|k: int| 0 <= k < fields@.len() ==> fields@[k].0@ != key@,
{
    let mut i: usize = 0;
    while i < fields.len()
        invariant
            0 <= i <= fields@.len(),
            forall|k: int| 0 <= k < i ==> fields@[k].0@ != key@,
        decreases fields@.len() - i,
    {
        if fields[i].0 == *key {
            return Some(i);
        }
        i = i + 1;
    }
    None
}

/// Applies the envelope rules to a parsed value: a reported `error` wins,
/// then a `result` payload is unwrapped, and a value with neither key is
/// returned whole (responses need not be envelope-wrapped).
pub fn extract_envelope(v: JsonValue) -> (r: Result<JsonValue, DecodeError>)
    ensures
        extract_post(v, r),
{
    match v {
        JsonValue::Object(fields) => {
            let err_key = String::from_str("error");
            match lookup_index(&fields, &err_key) {
                Some(i) => {
                    proof {
                        lemma_lookup_at(fields@, "error"@, i as int);
                    }
                    let msg = match &fields[i].1 {
                        JsonValue::Text(s) => s.clone(),
                        _ => String::from_str("Unknown error"),
                    };
                    Err(DecodeError::WorkerReportedError(msg))
                },
                None => {
                    proof {
                        lemma_lookup_none(fields@, "error"@);
                    }
                    let res_key = String::from_str("result");
                    match lookup_index(&fields, &res_key) {
                        Some(j) => {
                            proof {
                                lemma_lookup_at(fields@, "result"@, j as int);
                            }
                            let mut fields = fields;
                            let pair = fields.remove(j);
                            Ok(pair.1)
                        },
                        None => {
                            proof {
                                lemma_lookup_none(fields@, "result"@);
                            }
                            Ok(JsonValue::Object(fields))
                        },
                    }
                },
            }
        },
        other => Ok(other),
    }
}

/// Decodes a raw response: empty text is refused, text that is no
/// structured value is refused with the original attached, and a parsed
/// value goes through the envelope rules.
pub fn decode_envelope(raw: &str) -> (r: Result<JsonValue, DecodeError>)
    ensures
        decode_post(raw@, r),
{
    let t = trim_str(raw);
    if t.as_str().is_empty() {
        return Err(DecodeError::EmptyResponse);
    }
    match parse_json(raw) {
        None => Err(DecodeError::MalformedResponse(String::from_str(raw))),
        Some(v) => extract_envelope(v),
    }
}

/// The shapes a caller can require of a response payload.
#[derive(PartialEq, Eq, Structural, Clone, Copy, Debug)]
pub enum ExpectedShape {
    /// A boolean payload.
    Boolean,
    /// A text payload.
    Text,
    /// An object payload.
    Object,
}

/// A contract violation between caller and engine: the payload did not
/// have the shape the caller required.
#[derive(PartialEq, Eq, Structural, Clone, Copy, Debug)]
pub struct UnexpectedResponseShape {
    /// The shape the caller required.
    pub expected: ExpectedShape,
}

/// Requires a boolean payload.
pub fn expect_bool(v: &JsonValue) -> (r: Result<bool, UnexpectedResponseShape>)
    ensures
        v matches JsonValue::Bool(b) ==> r == Ok::<bool, UnexpectedResponseShape>(*b),
        !(v is Bool) ==> r == Err::<bool, UnexpectedResponseShape>(
            UnexpectedResponseShape { expected: ExpectedShape::Boolean },
        ),
{
    match v {
        JsonValue::Bool(b) => Ok(*b),
        _ => Err(UnexpectedResponseShape { expected: ExpectedShape::Boolean }),
    }
}

/// Requires a text payload and hands it out.
pub fn expect_text(v: JsonValue) -> (r: Result<String, UnexpectedResponseShape>)
    ensures
        v matches JsonValue::Text(s) ==> r == Ok::<String, UnexpectedResponseShape>(s),
        !(v is Text) ==> r == Err::<String, UnexpectedResponseShape>(
            UnexpectedResponseShape { expected: ExpectedShape::Text },
        ),
{
    match v {
        JsonValue::Text(s) => Ok(s),
        _ => Err(UnexpectedResponseShape { expected: ExpectedShape::Text }),
    }
}

/// Requires an object payload and hands the value back whole.
pub fn expect_object(v: JsonValue) -> (r: Result<JsonValue, UnexpectedResponseShape>)
    ensures
        v is Object ==> r == Ok::<JsonValue, UnexpectedResponseShape>(v),
        !(v is Object) ==> r == Err::<JsonValue, UnexpectedResponseShape>(
            UnexpectedResponseShape { expected: ExpectedShape::Object },
        ),
{
    match v {
        JsonValue::Object(fields) => Ok(JsonValue::Object(fields)),
        _ => Err(UnexpectedResponseShape { expected: ExpectedShape::Object }),
    }
}

} // verus!
