//! Answers of the administrator endpoints.
use vstd::prelude::*;
use crate::db::{Executed, Fetched, fetched_reply, inserted_reply, reply_fetched, reply_inserted, reply_view};
use crate::claims::{Claims, ClaimValue, ClaimView, claims_view, email_claim};
use crate::auth::text_reply;
use crate::http::{HttpError, http_error, FORBIDDEN, INTERNAL_SERVER_ERROR};

verus! {

/// The list of administrators, or 500 when it cannot be read.
pub fn get_admins_reply<T>(outcome: Fetched<T>) -> (r: Result<T, HttpError>)
    ensures
        reply_view(r) == fetched_reply(
            outcome,
            (INTERNAL_SERVER_ERROR, "Couldn't fetch admins from database"@),
            (INTERNAL_SERVER_ERROR, "Couldn't fetch admins from database"@),
        ),
{
    reply_fetched(
        outcome,
        INTERNAL_SERVER_ERROR,
        "Couldn't fetch admins from database",
        INTERNAL_SERVER_ERROR,
        "Couldn't fetch admins from database",
    )
}

/// The caller's own administrator row; 403 when the caller has no row,
/// being no administrator; 500 when it cannot be read.
pub fn get_admin_permissions_reply<T>(outcome: Fetched<T>) -> (r: Result<T, HttpError>)
    ensures
        reply_view(r) == fetched_reply(
            outcome,
            (FORBIDDEN, "Forbidden"@),
            (INTERNAL_SERVER_ERROR, "Failed getting admin permissions from database"@),
        ),
{
    reply_fetched(
        outcome,
        FORBIDDEN,
        "Forbidden",
        INTERNAL_SERVER_ERROR,
        "Failed getting admin permissions from database",
    )
}

/// The new administrator echoed back once stored, or 500.
pub fn add_admin_reply<T>(outcome: Executed, admin: T) -> (r: Result<T, HttpError>)
    ensures
        reply_view(r) == inserted_reply(
            outcome,
            admin,
            (INTERNAL_SERVER_ERROR, "Couldn't add admin to admin to the database"@),
        ),
{
    reply_inserted(outcome, admin, INTERNAL_SERVER_ERROR, "Couldn't add admin to admin to the database")
}

/// Whose administrator row is read back to the caller: the address of a
/// validated token; 403 when the token does not validate or has no email;
/// 500 when its email is not text.
pub open spec fn admin_caller_reply(validated: Option<Map<Seq<char>, ClaimView>>) -> Result<
    Seq<char>,
    (u16, Seq<char>),
> {
    match validated {
        None => Err((FORBIDDEN, "Invalid user"@)),
        Some(c) => match email_claim(c) {
            Some(ClaimView::Text(e)) => Ok(e),
            Some(ClaimView::Other) => Err(
                (INTERNAL_SERVER_ERROR, "This shouldn't happen in any case"@),
            ),
            None => Err((FORBIDDEN, "Invalid user"@)),
        },
    }
}

/// Identifies the caller who asks for their own permissions.
pub fn admin_permissions_caller(validated: Option<Claims>) -> (r: Result<String, HttpError>)
    ensures
        text_reply(r) == admin_caller_reply(claims_view(validated)),
{
    match validated {
        None => Err(http_error(FORBIDDEN, "Invalid user")),
        Some(c) => match c.email() {
            Some(ClaimValue::Text(e)) => Ok(e),
            Some(ClaimValue::Other) => Err(
                http_error(INTERNAL_SERVER_ERROR, "This shouldn't happen in any case"),
            ),
            None => Err(http_error(FORBIDDEN, "Invalid user")),
        },
    }
}

} // verus!
