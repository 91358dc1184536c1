//! What a database call came back with, as the endpoints see it, and the
//! general rules by which an endpoint turns that into its answer.
use vstd::prelude::*;
use crate::http::{HttpError, http_error};

verus! {

/// The outcome of a query that returns rows: the rows (one, or all that
/// matched), no matching row, or any other database failure.
pub enum Fetched<T> {
    Row(T),
    NotFound,
    Failed,
}

/// The outcome of a statement that returns no rows: the number of rows it
/// touched, or a database failure.
pub enum Executed {
    Affected(u64),
    Failed,
}

/// An answer as the contracts speak of it: the value, or (status, message).
pub open spec fn reply_view<T>(r: Result<T, HttpError>) -> Result<T, (u16, Seq<char>)> {
    match r {
        Ok(t) => Ok(t),
        Err(e) => Err(e@),
    }
}

/// The answer to a query: its rows, or the given error for a missing row or
/// for a failure.
pub open spec fn fetched_reply<T>(
    outcome: Fetched<T>,
    not_found: (u16, Seq<char>),
    failed: (u16, Seq<char>),
) -> Result<T, (u16, Seq<char>)> {
    match outcome {
        Fetched::Row(t) => Ok(t),
        Fetched::NotFound => Err(not_found),
        Fetched::Failed => Err(failed),
    }
}

/// The answer to a deletion: success when at least one row went, the
/// `not_found` error when none matched, the `failed` error on failure.
pub open spec fn deleted_reply(
    outcome: Executed,
    not_found: (u16, Seq<char>),
    failed: (u16, Seq<char>),
) -> Result<(), (u16, Seq<char>)> {
    match outcome {
        Executed::Affected(n) => if n > 0 { Ok(()) } else { Err(not_found) },
        Executed::Failed => Err(failed),
    }
}

/// The answer to an insertion that echoes what was inserted.
pub open spec fn inserted_reply<T>(outcome: Executed, value: T, failed: (u16, Seq<char>)) -> Result<
    T,
    (u16, Seq<char>),
> {
    match outcome {
        Executed::Affected(_) => Ok(value),
        Executed::Failed => Err(failed),
    }
}

/// Answers the outcome of a query.
pub fn reply_fetched<T>(
    outcome: Fetched<T>,
    not_found_status: u16,
    not_found: &str,
    failed_status: u16,
    failed: &str,
) -> (r: Result<T, HttpError>)
    ensures
        reply_view(r) == fetched_reply(
            outcome,
            (not_found_status, not_found@),
            (failed_status, failed@),
        ),
{
    match outcome {
        Fetched::Row(t) => Ok(t),
        Fetched::NotFound => Err(http_error(not_found_status, not_found)),
        Fetched::Failed => Err(http_error(failed_status, failed)),
    }
}

/// Answers the outcome of a deletion.
pub fn reply_deleted(
    outcome: Executed,
    not_found_status: u16,
    not_found: &str,
    failed_status: u16,
    failed: &str,
) -> (r: Result<(), HttpError>)
    ensures
        reply_view(r) == deleted_reply(
            outcome,
            (not_found_status, not_found@),
            (failed_status, failed@),
        ),
{
    match outcome {
        Executed::Affected(n) => if n > 0 {
            Ok(())
        } else {
            Err(http_error(not_found_status, not_found))
        },
        Executed::Failed => Err(http_error(failed_status, failed)),
    }
}

/// Answers the outcome of an insertion with the inserted value.
pub fn reply_inserted<T>(outcome: Executed, value: T, failed_status: u16, failed: &str) -> (r: Result<
    T,
    HttpError,
>)
    ensures
        reply_view(r) == inserted_reply(outcome, value, (failed_status, failed@)),
{
    match outcome {
        Executed::Affected(_) => Ok(value),
        Executed::Failed => Err(http_error(failed_status, failed)),
    }
}

} // verus!
