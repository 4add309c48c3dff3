use vstd::prelude::*;
use crate::error::{ClientError, SQLError};
use vstd::string::StringExecFns;

verus! {

#[verifier::external_type_specification]
#[verifier::external_body]
pub struct ExValue(serde_json::Value);

// Names for what serde_json computes from a body text. Each is a function of
// the text alone; the trusted extractors below state their results with them.
// json_parses: whether `serde_json::from_str` reads the text as one
// well-formed JSON value.
pub uninterp spec fn json_parses(s: Seq<char>) -> bool;

// json_has_key: whether `serde_json::Value::get` finds the key on the value
// the text parses to — true exactly for an object holding the key.
pub uninterp spec fn json_has_key(s: Seq<char>, key: Seq<char>) -> bool;

// json_string_field: the text of the JSON string `serde_json::Value::as_str`
// yields on what `get` finds under the key; `None` when the key is absent or
// its value is not a string.
pub uninterp spec fn json_string_field(s: Seq<char>, key: Seq<char>) -> Option<Seq<char>>;

// json_u64_field: the number `serde_json::Value::as_u64` yields on what
// `get` finds under the key; `None` when the key is absent or its value is
// not a nonnegative integer in range.
pub uninterp spec fn json_u64_field(s: Seq<char>, key: Seq<char>) -> Option<u64>;

/// Relies on `serde_json::from_str` and the `Display` form of its error: a
/// parse yields an error, and so a description of it, exactly when the body
/// is not well-formed JSON.
#[verifier::external_body]
fn body_parse_error(body: &str) -> (r: Option<String>)
    ensures
        r is Some <==> !json_parses(body@),
{
    match serde_json::from_str::<serde_json::Value>(body) {
        Ok(_) => None,
        Err(e) => Some(e.to_string()),
    }
}

/// Relies on `serde_json::from_str`, `Value::get` and `Value::clone`: an
/// owned copy of the value under the key, present exactly when the body
/// parses and the parsed object holds the key.
#[verifier::external_body]
fn body_value_field(body: &str, key: &str) -> (r: Option<serde_json::Value>)
    ensures
        r is Some <==> (json_parses(body@) && json_has_key(body@, key@)),
{
    match serde_json::from_str::<serde_json::Value>(body) {
        Ok(v) => match v.get(key) {
            Some(f) => Some(f.clone()),
            None => None,
        },
        Err(_) => None,
    }
}

/// Relies on `serde_json::from_str`, `Value::get` and `Value::as_str`, with
/// `str::to_owned` for the copy handed out: the string under the key of a
/// body that parses, `None` when the body does not parse, the key is absent,
/// or its value is not a JSON string.
#[verifier::external_body]
fn body_string_field(body: &str, key: &str) -> (r: Option<String>)
    ensures
        json_parses(body@) ==> (match json_string_field(body@, key@) {
            Some(v) => r matches Some(s) && s@ == v,
            None => r is None,
        }),
        !json_parses(body@) ==> r is None,
{
    match serde_json::from_str::<serde_json::Value>(body) {
        Ok(v) => match v.get(key) {
            Some(f) => match f.as_str() {
                Some(s) => Some(s.to_owned()),
                None => None,
            },
            None => None,
        },
        Err(_) => None,
    }
}

/// Relies on `serde_json::from_str`, `Value::get` and `Value::as_u64`: the
/// number under the key of a body that parses, `None` when the body does not
/// parse, the key is absent, or its value is not a nonnegative integer that
/// fits.
#[verifier::external_body]
fn body_u64_field(body: &str, key: &str) -> (r: Option<u64>)
    ensures
        json_parses(body@) ==> r == json_u64_field(body@, key@),
        !json_parses(body@) ==> r is None,
{
    match serde_json::from_str::<serde_json::Value>(body) {
        Ok(v) => match v.get(key) {
            Some(f) => f.as_u64(),
            None => None,
        },
        Err(_) => None,
    }
}

/// A well-formed response to a query: either the `dataset` value the server
/// produced, or the server's structured description of why it produced none.
/// The wire format carries no explicit tag — the union is discriminated by
/// the presence of the `dataset` key alone.
#[derive(Debug)]
pub enum ResponsePayload {
    Dataset(serde_json::Value),
    Failure(SQLError),
}

/// Classifies a decoded response from its extracted fields. A present
/// `dataset` value wins and is passed through unchanged, with nothing else
/// consulted; otherwise the three error fields must all be present and form
/// the server's error description; otherwise the response matches neither
/// shape and is a decode failure.
pub fn payload_from_fields(
    dataset: Option<serde_json::Value>,
    query: Option<String>,
    error: Option<String>,
    position: Option<u64>,
) -> (r: Result<ResponsePayload, ClientError>)
    ensures
        (match dataset {
            Some(d) => r == Ok::<ResponsePayload, ClientError>(ResponsePayload::Dataset(d)),
            None => (match (query, error, position) {
                (Some(q), Some(e), Some(p)) => r == Ok::<ResponsePayload, ClientError>(
                    ResponsePayload::Failure(SQLError { query: q, error: e, position: p }),
                ),
                _ => (r matches Err(c) && c matches ClientError::DecodeError(m)
                    && m@ == "response carries neither a dataset nor a complete error description"@),
            }),
        }),
{
    match dataset {
        Some(d) => Ok(ResponsePayload::Dataset(d)),
        None => match (query, error, position) {
            (Some(q), Some(e), Some(p)) => Ok(
                ResponsePayload::Failure(SQLError { query: q, error: e, position: p }),
            ),
            _ => Err(
                ClientError::DecodeError(
                    String::from_str(
                        "response carries neither a dataset nor a complete error description",
                    ),
                ),
            ),
        },
    }
}

/// Parses a response body and classifies it, the presence of a `dataset` key
/// deciding between the two payload shapes. A body that is not well-formed
/// JSON is a decode failure; one holding `dataset` yields that value as the
/// dataset payload; one without it yields the failure payload when the three
/// error fields are all present, and a decode failure otherwise. This
/// function performs no I/O: every failure out of it is a decode failure,
/// never a transport or file error.
pub fn interpret_exec_body(body: &str) -> (r: Result<ResponsePayload, ClientError>)
    ensures
        r matches Err(e) ==> e is DecodeError,
        !json_parses(body@) ==> (r matches Err(e) && e is DecodeError),
        (json_parses(body@) && json_has_key(body@, "dataset"@)) ==> (r matches Ok(p)
            && p is Dataset),
        (json_parses(body@) && !json_has_key(body@, "dataset"@)) ==> (match (
            json_string_field(body@, "query"@),
            json_string_field(body@, "error"@),
            json_u64_field(body@, "position"@),
        ) {
            (Some(q), Some(e), Some(p)) => (r matches Ok(pl) && pl matches ResponsePayload::Failure(
                se,
            ) && se.query@ == q && se.error@ == e && se.position == p),
            _ => (r matches Err(c) && c is DecodeError),
        }),
{
    match body_parse_error(body) {
        Some(m) => Err(ClientError::DecodeError(m)),
        None => match body_value_field(body, "dataset") {
            Some(d) => payload_from_fields(Some(d), None, None, None),
            None => {
                let q = body_string_field(body, "query");
                let e = body_string_field(body, "error");
                let p = body_u64_field(body, "position");
                payload_from_fields(None, q, e, p)
            },
        },
    }
}

/// Maps a classified payload to a query execution's result: a dataset
/// becomes the success value, unchanged; the server's failure description
/// becomes `QueryFailed` carrying it; a decode failure passes through.
pub fn result_from_payload(p: Result<ResponsePayload, ClientError>) -> (r: Result<
    serde_json::Value,
    ClientError,
>)
    ensures
        (match p {
            Ok(ResponsePayload::Dataset(v)) => r == Ok::<serde_json::Value, ClientError>(v),
            Ok(ResponsePayload::Failure(e)) => r == Err::<serde_json::Value, ClientError>(
                ClientError::QueryFailed(e),
            ),
            Err(e) => r == Err::<serde_json::Value, ClientError>(e),
        }),
{
    match p {
        Ok(ResponsePayload::Dataset(v)) => Ok(v),
        Ok(ResponsePayload::Failure(e)) => Err(ClientError::QueryFailed(e)),
        Err(e) => Err(e),
    }
}

/// The result of a query execution, given the response body — the
/// composition of `interpret_exec_body` and `result_from_payload`. A body
/// that is not well-formed JSON is a `DecodeError`; one holding a `dataset`
/// key succeeds with that value; one without it fails with `QueryFailed`
/// carrying the server's error description when the three error fields are
/// all present, and with `DecodeError` otherwise. Never a transport or file
/// error, and the error description is never decoded as rows.
pub fn exec_result(body: &str) -> (r: Result<serde_json::Value, ClientError>)
    ensures
        r matches Err(e) ==> (e is DecodeError || e is QueryFailed),
        !json_parses(body@) ==> (r matches Err(e) && e is DecodeError),
        (json_parses(body@) && json_has_key(body@, "dataset"@)) ==> r is Ok,
        (json_parses(body@) && !json_has_key(body@, "dataset"@)) ==> (match (
            json_string_field(body@, "query"@),
            json_string_field(body@, "error"@),
            json_u64_field(body@, "position"@),
        ) {
            (Some(q), Some(e), Some(p)) => (r matches Err(c) && c matches ClientError::QueryFailed(
                se,
            ) && se.query@ == q && se.error@ == e && se.position == p),
            _ => (r matches Err(c) && c is DecodeError),
        }),
{
    result_from_payload(interpret_exec_body(body))
}

} // verus!
