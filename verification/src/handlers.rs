//! The decision half of every request handler.
//!
//! A handler performs exactly one store operation under the shared-state
//! lock and then maps the outcome to the uniform envelope. The store is an
//! outside collaborator, so the mapping takes the store's outcome as an
//! argument: success wraps the value, an absent entity is 404, any store
//! failure is 500. Field queries validate the requested field against a
//! fixed allow-list before the store is ever consulted.
use vstd::prelude::*;
use crate::envelope::{ApiResponse, ServerError};
use crate::text::str_eq;

verus! {

/// The envelope for a fetch backed by `get_by_id`: the entity when the
/// store found one, `NotFound` with the given message when it did not,
/// `DatabaseError` with the store's message when the call failed.
pub fn lookup_response<T>(outcome: Result<Option<T>, String>, missing_msg: &str) -> (r: Result<
    ApiResponse<T>,
    ServerError,
>)
    ensures
        outcome is Ok && outcome->Ok_0 is Some ==> r is Ok && r->Ok_0.code == 200
            && r->Ok_0.msg@ == "success"@ && r->Ok_0.data == outcome->Ok_0,
        outcome is Ok && outcome->Ok_0 is None ==> r is Err && r->Err_0 is NotFound
            && r->Err_0.spec_message() == missing_msg@,
        outcome is Err ==> r is Err && r->Err_0 is DatabaseError && r->Err_0.spec_message()
            == outcome->Err_0@,
{
    match outcome {
        Ok(Some(v)) => Ok(ApiResponse::success(v)),
        Ok(None) => Err(ServerError::NotFound(missing_msg.to_owned())),
        Err(e) => Err(ServerError::DatabaseError(e)),
    }
}

/// The envelope for any other single store operation: the value on
/// success, `DatabaseError` with the store's message on failure.
pub fn store_response<T>(outcome: Result<T, String>) -> (r: Result<ApiResponse<T>, ServerError>)
    ensures
        outcome is Ok ==> r is Ok && r->Ok_0.code == 200 && r->Ok_0.msg@ == "success"@
            && r->Ok_0.data == Some(outcome->Ok_0),
        outcome is Err ==> r is Err && r->Err_0 is DatabaseError && r->Err_0.spec_message()
            == outcome->Err_0@,
{
    match outcome {
        Ok(v) => Ok(ApiResponse::success(v)),
        Err(e) => Err(ServerError::DatabaseError(e)),
    }
}

/// The query-string parameters of the range route: the window's bounds
/// as unix timestamps in milliseconds. The caller parses the RFC3339
/// timestamps of the query string into these before asking the store
/// which items overlap the window.
pub struct TimeRangeQuery {
    pub start: i64,
    pub end: i64,
}

/// The query-string parameters of the field-query route.
pub struct QueryFieldParams {
    pub field: String,
    pub value: String,
    pub exact_match: bool,
}

/// The default when the query string leaves `exact_match` out: a
/// substring match.
pub fn default_exact_match() -> (r: bool)
    ensures
        r == false,
{
    false
}

/// The fixed allow-list of queryable fields.
pub open spec fn is_valid_field(f: Seq<char>) -> bool {
    ||| f == "id"@
    ||| f == "title"@
    ||| f == "description"@
    ||| f == "tags"@
    ||| f == "priority"@
    ||| f == "type"@
    ||| f == "reserved_1"@
    ||| f == "reserved_2"@
    ||| f == "reserved_3"@
    ||| f == "reserved_4"@
    ||| f == "reserved_5"@
}

/// Whether the field is on the allow-list.
pub fn field_in_whitelist(field: &str) -> (r: bool)
    ensures
        r == is_valid_field(field@),
{
    str_eq(field, "id") || str_eq(field, "title") || str_eq(field, "description") || str_eq(
        field,
        "tags",
    ) || str_eq(field, "priority") || str_eq(field, "type") || str_eq(field, "reserved_1")
        || str_eq(field, "reserved_2") || str_eq(field, "reserved_3") || str_eq(field, "reserved_4")
        || str_eq(field, "reserved_5")
}

/// The message a rejected field query carries: it names the offending
/// field and lists the allowed ones.
pub open spec fn invalid_field_message(f: Seq<char>) -> Seq<char> {
    "Invalid field name: "@ + f + ". Valid fields are: "@
        + "id, title, description, tags, priority, type, reserved_1, reserved_2, reserved_3, reserved_4, reserved_5"@
}

/// Boundary validation of a field query: accepts exactly the allow-listed
/// field names and rejects anything else as a `BadRequest`, before any
/// store call is made.
pub fn validate_query_field(params: &QueryFieldParams) -> (r: Result<(), ServerError>)
    ensures
        r is Ok <==> is_valid_field(params.field@),
        r is Err ==> r->Err_0 is BadRequest && r->Err_0.spec_message() == invalid_field_message(
            params.field@,
        ),
{
    if field_in_whitelist(params.field.as_str()) {
        Ok(())
    } else {
        let mut msg = String::from_str("Invalid field name: ");
        msg.append(params.field.as_str());
        msg.append(". Valid fields are: ");
        msg.append(
            "id, title, description, tags, priority, type, reserved_1, reserved_2, reserved_3, reserved_4, reserved_5",
        );
        Err(ServerError::BadRequest(msg))
    }
}

} // verus!
