//! Answers of the lost-and-found endpoints.
use vstd::prelude::*;
use crate::db::{Executed, Fetched, deleted_reply, fetched_reply, reply_deleted, reply_fetched, reply_view};
use crate::images::{reply_saved_images, saved_images_ok};
use crate::http::{HttpError, INTERNAL_SERVER_ERROR, NOT_FOUND, FORBIDDEN};

verus! {

/// Every lost item, or 500 when they cannot be read.
pub fn get_all_lost_found_reply<T>(outcome: Fetched<T>) -> (r: Result<T, HttpError>)
    ensures
        reply_view(r) == fetched_reply(
            outcome,
            (INTERNAL_SERVER_ERROR, "Couldn't fetch lost found entries from database"@),
            (INTERNAL_SERVER_ERROR, "Couldn't fetch lost found entries from database"@),
        ),
{
    reply_fetched(
        outcome,
        INTERNAL_SERVER_ERROR,
        "Couldn't fetch lost found entries from database",
        INTERNAL_SERVER_ERROR,
        "Couldn't fetch lost found entries from database",
    )
}

/// One lost item; 404 when no item has that id, 500 on failure.
pub fn get_lost_found_by_id_reply<T>(outcome: Fetched<T>) -> (r: Result<T, HttpError>)
    ensures
        reply_view(r) == fetched_reply(
            outcome,
            (NOT_FOUND, "Couldn't get lost_found_entry from db"@),
            (INTERNAL_SERVER_ERROR, "Couldn't get lost_found_entry from db"@),
        ),
{
    reply_fetched(
        outcome,
        NOT_FOUND,
        "Couldn't get lost_found_entry from db",
        INTERNAL_SERVER_ERROR,
        "Couldn't get lost_found_entry from db",
    )
}

/// The new lost item, or 500 when it cannot be stored.
pub fn add_lost_found_reply<T>(outcome: Fetched<T>) -> (r: Result<T, HttpError>)
    ensures
        reply_view(r) == fetched_reply(
            outcome,
            (INTERNAL_SERVER_ERROR, "Couldn't add lost found entry in the database"@),
            (INTERNAL_SERVER_ERROR, "Couldn't add lost found entry in the database"@),
        ),
{
    reply_fetched(
        outcome,
        INTERNAL_SERVER_ERROR,
        "Couldn't add lost found entry in the database",
        INTERNAL_SERVER_ERROR,
        "Couldn't add lost found entry in the database",
    )
}

/// The edited item; 404 when the caller reported no item with that id; 500 on failure.
pub fn edit_lost_found_reply<T>(outcome: Fetched<T>) -> (r: Result<T, HttpError>)
    ensures
        reply_view(r) == fetched_reply(
            outcome,
            (NOT_FOUND, "Couldn't get lost_found_entry from db"@),
            (INTERNAL_SERVER_ERROR, "Couldn't edit lost found entry in the database"@),
        ),
{
    reply_fetched(
        outcome,
        NOT_FOUND,
        "Couldn't get lost_found_entry from db",
        INTERNAL_SERVER_ERROR,
        "Couldn't edit lost found entry in the database",
    )
}

/// Success when the caller's item went; 404 when the caller reported no item with that id; 500 on failure.
pub fn delete_lost_found_reply(outcome: Executed) -> (r: Result<(), HttpError>)
    ensures
        reply_view(r) == deleted_reply(
            outcome,
            (NOT_FOUND, "entry not found"@),
            (INTERNAL_SERVER_ERROR, "Couldn't delete lost found entry from the database"@),
        ),
{
    reply_deleted(
        outcome,
        NOT_FOUND,
        "entry not found",
        INTERNAL_SERVER_ERROR,
        "Couldn't delete lost found entry from the database",
    )
}

/// The item marked found; 403 when the caller reported no item with that id, or on failure.
pub fn mark_found_reply<T>(outcome: Fetched<T>) -> (r: Result<T, HttpError>)
    ensures
        reply_view(r) == fetched_reply(
            outcome,
            (FORBIDDEN, "Couldn't update item as found"@),
            (FORBIDDEN, "Couldn't update item as found"@),
        ),
{
    reply_fetched(
        outcome,
        FORBIDDEN,
        "Couldn't update item as found",
        FORBIDDEN,
        "Couldn't update item as found",
    )
}

/// The item with the new claim; 404 when no item with that id takes claims; 500 on failure.
pub fn claim_found_reply<T>(outcome: Fetched<T>) -> (r: Result<T, HttpError>)
    ensures
        reply_view(r) == fetched_reply(
            outcome,
            (NOT_FOUND, "Couldn't add found claim in the database"@),
            (INTERNAL_SERVER_ERROR, "Couldn't add found claim in the database"@),
        ),
{
    reply_fetched(
        outcome,
        NOT_FOUND,
        "Couldn't add found claim in the database",
        INTERNAL_SERVER_ERROR,
        "Couldn't add found claim in the database",
    )
}

/// The URLs of the pictures of a new lost item, in order; 500 when one of
/// them could not be saved.
pub fn add_lost_found_images_reply(saved: Vec<Option<String>>) -> (r: Result<Vec<String>, HttpError>)
    ensures
        match r {
            Ok(urls) => saved_images_ok(saved@) && urls@.len() == saved@.len() && forall|i: int|
                0 <= i < urls@.len() ==> #[trigger] urls@[i] == saved@[i].unwrap(),
            Err(e) => !saved_images_ok(saved@) && e@ == (INTERNAL_SERVER_ERROR, "Couldn't save item image"@),
        },
{
    reply_saved_images(saved, "Couldn't save item image")
}

/// The URLs of the new pictures of an edited lost item, in order; 500 when
/// one of them could not be saved.
pub fn edit_lost_found_images_reply(saved: Vec<Option<String>>) -> (r: Result<Vec<String>, HttpError>)
    ensures
        match r {
            Ok(urls) => saved_images_ok(saved@) && urls@.len() == saved@.len() && forall|i: int|
                0 <= i < urls@.len() ==> #[trigger] urls@[i] == saved@[i].unwrap(),
            Err(e) => !saved_images_ok(saved@) && e@ == (INTERNAL_SERVER_ERROR, "Couldn't save item image"@),
        },
{
    reply_saved_images(saved, "Couldn't save item image")
}

} // verus!
