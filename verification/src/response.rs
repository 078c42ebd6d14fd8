//! Classification of an `/exec` response body: a body holds exactly one of
//! a `"dataset"` value (success) or a structured SQL error object (failure).
//! The body is first parsed into a generic JSON value, the branch is chosen
//! on the presence of the `"dataset"` key, and only then is the chosen
//! branch decoded into its specific shape.
//!
//! The JSON library's results are deterministic functions of the body text,
//! so they carry names: `json_parses`, `json_has_dataset` and the three
//! `sql_*_field` functions stand for what the parser finds in a given body,
//! and the classifier's contract is stated over them.

use vstd::prelude::*;
use vstd::string::StringExecFns;

use crate::error::{Error, SQLError};

verus! {

/// Whether a body is valid JSON at all.
pub uninterp spec fn json_parses(s: Seq<char>) -> bool;

/// Whether a body that parses holds a top-level `"dataset"` key.
pub uninterp spec fn json_has_dataset(s: Seq<char>) -> bool;

/// The text of the body's top-level string field `"query"`, when the body
/// parses and has one.
pub uninterp spec fn sql_query_field(s: Seq<char>) -> Option<Seq<char>>;

/// The text of the body's top-level string field `"error"`, when the body
/// parses and has one.
pub uninterp spec fn sql_error_field(s: Seq<char>) -> Option<Seq<char>>;

/// The value of the body's top-level integer field `"position"`, when the
/// body parses and has one.
pub uninterp spec fn sql_position_field(s: Seq<char>) -> Option<i64>;

/// Whether a parsed body has the complete SQL error shape: all three
/// fields present with their JSON types, the position within the payload's
/// integer width.
pub open spec fn sql_error_shape(s: Seq<char>) -> bool {
    &&& sql_query_field(s) is Some
    &&& sql_error_field(s) is Some
    &&& sql_position_field(s) is Some
    &&& i32::MIN as i64 <= sql_position_field(s)->0 <= i32::MAX as i64
}

/// Relies on serde_json::from_str: whether the body is valid JSON; a
/// failure carries the parser's message.
#[verifier::external_body]
fn json_check(body: &str) -> (r: Result<(), String>)
    ensures
        r is Ok <==> json_parses(body@),
{
    match serde_json::from_str::<serde_json::Value>(body) {
        Ok(_) => Ok(()),
        Err(e) => Err(e.to_string()),
    }
}

/// Relies on serde_json::from_str and Value::get: the `"dataset"` value of
/// a body that parses with that top-level key.
#[verifier::external_body]
fn dataset_of(body: &str) -> (r: Option<serde_json::Value>)
    ensures
        r is Some <==> (json_parses(body@) && json_has_dataset(body@)),
{
    match serde_json::from_str::<serde_json::Value>(body) {
        Ok(v) => match v.get("dataset") {
            Some(d) => Some(d.clone()),
            None => None,
        },
        Err(_) => None,
    }
}

/// Relies on serde_json::from_str, Value::get and Value::as_str: the text
/// of the body's top-level string field `"query"`.
#[verifier::external_body]
fn query_field_of(body: &str) -> (r: Option<String>)
    ensures
        r is Some <==> (json_parses(body@) && sql_query_field(body@) is Some),
        r is Some ==> r->0@ == sql_query_field(body@)->0,
{
    match serde_json::from_str::<serde_json::Value>(body) {
        Ok(v) => match v.get("query") {
            Some(f) => match f.as_str() {
                Some(s) => Some(s.to_string()),
                None => None,
            },
            None => None,
        },
        Err(_) => None,
    }
}

/// Relies on serde_json::from_str, Value::get and Value::as_str: the text
/// of the body's top-level string field `"error"`.
#[verifier::external_body]
fn error_field_of(body: &str) -> (r: Option<String>)
    ensures
        r is Some <==> (json_parses(body@) && sql_error_field(body@) is Some),
        r is Some ==> r->0@ == sql_error_field(body@)->0,
{
    match serde_json::from_str::<serde_json::Value>(body) {
        Ok(v) => match v.get("error") {
            Some(f) => match f.as_str() {
                Some(s) => Some(s.to_string()),
                None => None,
            },
            None => None,
        },
        Err(_) => None,
    }
}

/// Relies on serde_json::from_str, Value::get and Value::as_i64: the value
/// of the body's top-level integer field `"position"`.
#[verifier::external_body]
fn position_field_of(body: &str) -> (r: Option<i64>)
    ensures
        r is Some <==> (json_parses(body@) && sql_position_field(body@) is Some),
        r is Some ==> r->0 == sql_position_field(body@)->0,
{
    match serde_json::from_str::<serde_json::Value>(body) {
        Ok(v) => match v.get("position") {
            Some(f) => f.as_i64(),
            None => None,
        },
        Err(_) => None,
    }
}

/// Assembles a `SQLError` from the three extracted fields. The payload is
/// well-formed exactly when all three fields were present with the right
/// JSON types and the position fits the payload's integer width; the
/// assembled error then carries those values unchanged.
pub fn sql_error_from_parts(
    query: Option<String>,
    error: Option<String>,
    position: Option<i64>,
) -> (r: Option<SQLError>)
    ensures
        (r is Some) <==> (query is Some && error is Some && position is Some
            && i32::MIN as i64 <= position->0 <= i32::MAX as i64),
        r is Some ==> r->0.query == query->0 && r->0.error == error->0 && r->0.position
            == position->0 as i32,
{
    match (query, error, position) {
        (Option::Some(q), Option::Some(e), Option::Some(p)) => {
            if i32::MIN as i64 <= p && p <= i32::MAX as i64 {
                Option::Some(SQLError { query: q, error: e, position: p as i32 })
            } else {
                Option::None
            }
        },
        _ => Option::None,
    }
}

/// Splits an `/exec` response body into its two valid shapes.
///
/// The rows come back exactly when the body parses with a top-level
/// `"dataset"` key. A body that parses without one comes back as a SQL
/// failure exactly when it has the complete SQL error shape, and the
/// failure then carries the three fields' values unchanged. Everything
/// else — a body that is not JSON, or parses but fits neither shape — is a
/// deserialization failure; a transport or file error never comes back.
pub fn classify_exec_body(body: &str) -> (r: Result<serde_json::Value, Error>)
    ensures
        (r is Ok) <==> (json_parses(body@) && json_has_dataset(body@)),
        (r is Err && r->Err_0 is SQLError) <==> (json_parses(body@) && !json_has_dataset(body@)
            && sql_error_shape(body@)),
        r matches Err(Error::SQLError(e)) ==> e.query@ == sql_query_field(body@)->0 && e.error@
            == sql_error_field(body@)->0 && e.position as i64 == sql_position_field(body@)->0,
        r is Err ==> (r->Err_0 is SQLError || r->Err_0 is DeserializeError),
        !json_parses(body@) ==> (r is Err && r->Err_0 is DeserializeError),
{
    match json_check(body) {
        Err(msg) => Err(Error::DeserializeError(msg)),
        Ok(()) => match dataset_of(body) {
            Option::Some(d) => Ok(d),
            Option::None => {
                let query = query_field_of(body);
                let error = error_field_of(body);
                let position = position_field_of(body);
                match sql_error_from_parts(query, error, position) {
                    Option::Some(e) => Err(Error::SQLError(e)),
                    Option::None => Err(Error::DeserializeError(String::from_str(
                        "response is neither a dataset nor a SQL error object",
                    ))),
                }
            },
        },
    }
}

} // verus!
