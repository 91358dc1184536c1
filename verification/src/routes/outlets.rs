//! Answers of the outlet endpoints.
use vstd::prelude::*;
use crate::db::{Fetched, fetched_reply, reply_fetched, reply_view};
use crate::images::{reply_saved_image, saved_image_reply, saved_image_view, saved_upload_view};
use crate::http::{HttpError, INTERNAL_SERVER_ERROR};

verus! {

/// Every outlet, or 500 when they cannot be read.
pub fn get_outlets_reply<T>(outcome: Fetched<T>) -> (r: Result<T, HttpError>)
    ensures
        reply_view(r) == fetched_reply(
            outcome,
            (INTERNAL_SERVER_ERROR, "Couldn't get outlets from database"@),
            (INTERNAL_SERVER_ERROR, "Couldn't get outlets from database"@),
        ),
{
    reply_fetched(
        outcome,
        INTERNAL_SERVER_ERROR,
        "Couldn't get outlets from database",
        INTERNAL_SERVER_ERROR,
        "Couldn't get outlets from database",
    )
}

/// One outlet, or 500 when it cannot be read (a missing one included).
pub fn get_outlet_reply<T>(outcome: Fetched<T>) -> (r: Result<T, HttpError>)
    ensures
        reply_view(r) == fetched_reply(
            outcome,
            (INTERNAL_SERVER_ERROR, "Couldn't get outlet from the database"@),
            (INTERNAL_SERVER_ERROR, "Couldn't get outlet from the database"@),
        ),
{
    reply_fetched(
        outcome,
        INTERNAL_SERVER_ERROR,
        "Couldn't get outlet from the database",
        INTERNAL_SERVER_ERROR,
        "Couldn't get outlet from the database",
    )
}

/// The new outlet, or 500 when it cannot be stored.
pub fn add_outlet_reply<T>(outcome: Fetched<T>) -> (r: Result<T, HttpError>)
    ensures
        reply_view(r) == fetched_reply(
            outcome,
            (INTERNAL_SERVER_ERROR, "Couldn't add outlet to database"@),
            (INTERNAL_SERVER_ERROR, "Couldn't add outlet to database"@),
        ),
{
    reply_fetched(
        outcome,
        INTERNAL_SERVER_ERROR,
        "Couldn't add outlet to database",
        INTERNAL_SERVER_ERROR,
        "Couldn't add outlet to database",
    )
}

/// The URL of the outlet picture, if one was sent; 500 when it could not be saved.
pub fn outlet_image_reply(upload: Option<Option<String>>) -> (r: Result<Option<String>, HttpError>)
    ensures
        saved_image_view(r) == saved_image_reply(saved_upload_view(upload), "Couldn't save outlet image"@),
{
    reply_saved_image(upload, "Couldn't save outlet image")
}

} // verus!
