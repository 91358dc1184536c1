//! Announcements.
use vstd::prelude::*;

verus! {

/// What is sent to publish or edit an announcement.
pub struct AnnouncementRequest {
    pub title: String,
    pub description: String,
    pub img_base64: Option<String>,
    pub added_by_email: String,
}

} // verus!
