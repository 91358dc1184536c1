//! Answers of the bus schedule endpoints.
use vstd::prelude::*;
use crate::db::{Fetched, fetched_reply, reply_fetched, reply_view};
use vstd::string::StrSliceExecFns;
use crate::http::{HttpError, http_error, BAD_REQUEST, INTERNAL_SERVER_ERROR};

verus! {

/// The bus schedule, or 500 when it cannot be read.
pub fn get_bus_reply<T>(outcome: Fetched<T>) -> (r: Result<T, HttpError>)
    ensures
        reply_view(r) == fetched_reply(
            outcome,
            (INTERNAL_SERVER_ERROR, "Couldn't get bus_schedule from database"@),
            (INTERNAL_SERVER_ERROR, "Couldn't get bus_schedule from database"@),
        ),
{
    reply_fetched(
        outcome,
        INTERNAL_SERVER_ERROR,
        "Couldn't get bus_schedule from database",
        INTERNAL_SERVER_ERROR,
        "Couldn't get bus_schedule from database",
    )
}

/// Whether a database error code is of class 22, "data exception": the
/// stored value itself was wrong, such as a departure time that is no
/// clock time.
pub open spec fn is_data_exception_code(code: Seq<char>) -> bool {
    code.len() >= 2 && code[0] == '2' && code[1] == '2'
}

/// Whether a database error code starts with "22".
pub fn is_data_exception(code: &str) -> (r: bool)
    ensures
        r == is_data_exception_code(code@),
{
    code.unicode_len() >= 2 && code.get_char(0) == '2' && code.get_char(1) == '2'
}

/// The answer to adding a bus: the stored bus; 400 when the database
/// rejected one of its values (an error of class 22); 500 otherwise. The
/// error side carries the database error code, when there is one.
pub open spec fn add_bus_reply_spec<T>(outcome: Result<T, Option<Seq<char>>>) -> Result<
    T,
    (u16, Seq<char>),
> {
    match outcome {
        Ok(t) => Ok(t),
        Err(code) => if code matches Some(c) && is_data_exception_code(c) {
            Err((BAD_REQUEST, "Invalid departure_time \u{2014} use a clock time such as \"07:30\""@))
        } else {
            Err((INTERNAL_SERVER_ERROR, "Couldn't add bus_entry to database"@))
        },
    }
}

/// Answers the insertion of a bus.
pub fn add_bus_reply<T>(outcome: Result<T, Option<String>>) -> (r: Result<T, HttpError>)
    ensures
        reply_view(r) == add_bus_reply_spec(
            match outcome {
                Ok(t) => Ok(t),
                Err(Some(c)) => Err(Some(c@)),
                Err(None) => Err(None),
            },
        ),
{
    match outcome {
        Ok(t) => Ok(t),
        Err(code) => {
            let bad_input = match &code {
                Some(c) => is_data_exception(c.as_str()),
                None => false,
            };
            if bad_input {
                Err(
                    http_error(
                        BAD_REQUEST,
                        "Invalid departure_time \u{2014} use a clock time such as \"07:30\"",
                    ),
                )
            } else {
                Err(http_error(INTERNAL_SERVER_ERROR, "Couldn't add bus_entry to database"))
            }
        },
    }
}

} // verus!
