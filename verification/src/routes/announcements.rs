//! Answers of the announcement endpoints.
use vstd::prelude::*;
use crate::db::{Executed, Fetched, deleted_reply, fetched_reply, reply_deleted, reply_fetched, reply_view};
use crate::images::{
    replacement_image, reply_replacement_image, reply_saved_image, saved_image_reply,
    saved_image_view, saved_upload_view,
};
use crate::http::{HttpError, INTERNAL_SERVER_ERROR, NOT_FOUND};

verus! {

/// Every announcement; 404 should the read report a missing row (a read of
/// all rows gives an empty list instead), 500 on failure.
pub fn get_all_announcements_reply<T>(outcome: Fetched<T>) -> (r: Result<T, HttpError>)
    ensures
        reply_view(r) == fetched_reply(
            outcome,
            (NOT_FOUND, "No announcement found"@),
            (INTERNAL_SERVER_ERROR, "Error fetching announcement"@),
        ),
{
    reply_fetched(
        outcome,
        NOT_FOUND,
        "No announcement found",
        INTERNAL_SERVER_ERROR,
        "Error fetching announcement",
    )
}

/// One announcement; 404 when no announcement has that id, 500 on failure.
pub fn get_announcement_by_id_reply<T>(outcome: Fetched<T>) -> (r: Result<T, HttpError>)
    ensures
        reply_view(r) == fetched_reply(
            outcome,
            (NOT_FOUND, "Announcement not found"@),
            (INTERNAL_SERVER_ERROR, "Error fetching announcement"@),
        ),
{
    reply_fetched(
        outcome,
        NOT_FOUND,
        "Announcement not found",
        INTERNAL_SERVER_ERROR,
        "Error fetching announcement",
    )
}

/// Success when the caller's announcement went; 404 when the caller has no announcement with that id; 500 on failure.
pub fn delete_announcement_reply(outcome: Executed) -> (r: Result<(), HttpError>)
    ensures
        reply_view(r) == deleted_reply(
            outcome,
            (NOT_FOUND, "announcement not found"@),
            (INTERNAL_SERVER_ERROR, "Couldn't delete announcement entry from the database"@),
        ),
{
    reply_deleted(
        outcome,
        NOT_FOUND,
        "announcement not found",
        INTERNAL_SERVER_ERROR,
        "Couldn't delete announcement entry from the database",
    )
}

/// The edited announcement; 404 when the caller has no announcement with that id; 500 on failure.
pub fn edit_announcement_reply<T>(outcome: Fetched<T>) -> (r: Result<T, HttpError>)
    ensures
        reply_view(r) == fetched_reply(
            outcome,
            (NOT_FOUND, "Couldn't get announcement_entry from db"@),
            (INTERNAL_SERVER_ERROR, "Couldn't edit announcement entry in the database"@),
        ),
{
    reply_fetched(
        outcome,
        NOT_FOUND,
        "Couldn't get announcement_entry from db",
        INTERNAL_SERVER_ERROR,
        "Couldn't edit announcement entry in the database",
    )
}

/// The new announcement, or 500 when it cannot be stored.
pub fn add_announcement_reply<T>(outcome: Fetched<T>) -> (r: Result<T, HttpError>)
    ensures
        reply_view(r) == fetched_reply(
            outcome,
            (INTERNAL_SERVER_ERROR, "Couldn't add buy sell entry in the database"@),
            (INTERNAL_SERVER_ERROR, "Couldn't add buy sell entry in the database"@),
        ),
{
    reply_fetched(
        outcome,
        INTERNAL_SERVER_ERROR,
        "Couldn't add buy sell entry in the database",
        INTERNAL_SERVER_ERROR,
        "Couldn't add buy sell entry in the database",
    )
}

/// The URL of the picture of a new announcement, if one was sent; 500 when
/// it could not be saved.
pub fn add_announcement_image_reply(upload: Option<Option<String>>) -> (r: Result<
    Option<String>,
    HttpError,
>)
    ensures
        saved_image_view(r) == saved_image_reply(
            saved_upload_view(upload),
            "Couldn't save announcement image"@,
        ),
{
    reply_saved_image(upload, "Couldn't save announcement image")
}

/// The picture to store on an edited announcement: the new one when it was
/// saved; none, keeping the current picture, when no picture was sent or it
/// could not be saved.
pub fn edit_announcement_image(upload: Option<Option<String>>) -> (r: Option<String>)
    ensures
        match r {
            Some(url) => replacement_image(saved_upload_view(upload)) == Some(url@),
            None => replacement_image(saved_upload_view(upload)) is None,
        },
{
    reply_replacement_image(upload)
}

} // verus!
