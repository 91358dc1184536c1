//! Answers of the event endpoints.
use vstd::prelude::*;
use crate::db::{Executed, Fetched, deleted_reply, fetched_reply, reply_deleted, reply_fetched, reply_view};
use crate::images::{reply_saved_image, saved_image_reply, saved_image_view, saved_upload_view};
use crate::http::{HttpError, INTERNAL_SERVER_ERROR, NOT_FOUND};

verus! {

/// The upcoming events, or 500 when they cannot be read.
pub fn get_events_reply<T>(outcome: Fetched<T>) -> (r: Result<T, HttpError>)
    ensures
        reply_view(r) == fetched_reply(
            outcome,
            (INTERNAL_SERVER_ERROR, "Couldn't get events from the database"@),
            (INTERNAL_SERVER_ERROR, "Couldn't get events from the database"@),
        ),
{
    reply_fetched(
        outcome,
        INTERNAL_SERVER_ERROR,
        "Couldn't get events from the database",
        INTERNAL_SERVER_ERROR,
        "Couldn't get events from the database",
    )
}

/// One event, or 500 when it cannot be read (a missing one included).
pub fn get_event_reply<T>(outcome: Fetched<T>) -> (r: Result<T, HttpError>)
    ensures
        reply_view(r) == fetched_reply(
            outcome,
            (INTERNAL_SERVER_ERROR, "Couldn't get event from the database"@),
            (INTERNAL_SERVER_ERROR, "Couldn't get event from the database"@),
        ),
{
    reply_fetched(
        outcome,
        INTERNAL_SERVER_ERROR,
        "Couldn't get event from the database",
        INTERNAL_SERVER_ERROR,
        "Couldn't get event from the database",
    )
}

/// The new event, or 500 when it cannot be stored.
pub fn add_event_reply<T>(outcome: Fetched<T>) -> (r: Result<T, HttpError>)
    ensures
        reply_view(r) == fetched_reply(
            outcome,
            (INTERNAL_SERVER_ERROR, "Couldn't add event to database"@),
            (INTERNAL_SERVER_ERROR, "Couldn't add event to database"@),
        ),
{
    reply_fetched(
        outcome,
        INTERNAL_SERVER_ERROR,
        "Couldn't add event to database",
        INTERNAL_SERVER_ERROR,
        "Couldn't add event to database",
    )
}

/// The edited event; 404 when the caller added no event with that id; 500 on failure.
pub fn edit_event_reply<T>(outcome: Fetched<T>) -> (r: Result<T, HttpError>)
    ensures
        reply_view(r) == fetched_reply(
            outcome,
            (NOT_FOUND, "event not found"@),
            (INTERNAL_SERVER_ERROR, "Couldn't edit event entry in the database"@),
        ),
{
    reply_fetched(
        outcome,
        NOT_FOUND,
        "event not found",
        INTERNAL_SERVER_ERROR,
        "Couldn't edit event entry in the database",
    )
}

/// Success when the caller's event went; 404 when the caller added no event with that id; 500 on failure.
pub fn delete_event_reply(outcome: Executed) -> (r: Result<(), HttpError>)
    ensures
        reply_view(r) == deleted_reply(
            outcome,
            (NOT_FOUND, "event not found"@),
            (INTERNAL_SERVER_ERROR, "Couldn't delete event entry from the database"@),
        ),
{
    reply_deleted(
        outcome,
        NOT_FOUND,
        "event not found",
        INTERNAL_SERVER_ERROR,
        "Couldn't delete event entry from the database",
    )
}

/// The URL of the event poster, if one was sent; 500 when it could not be saved.
pub fn event_poster_reply(upload: Option<Option<String>>) -> (r: Result<Option<String>, HttpError>)
    ensures
        saved_image_view(r) == saved_image_reply(saved_upload_view(upload), "Couldn't save event poster image"@),
{
    reply_saved_image(upload, "Couldn't save event poster image")
}

} // verus!
