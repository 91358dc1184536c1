//! The mess menu.
use vstd::prelude::*;

verus! {

/// What is served on one day.
pub struct MessMenuEntry {
    pub day: i32,
    pub breakfast: Vec<String>,
    pub lunch: Vec<String>,
    pub snacks: Vec<String>,
    pub dinner: Vec<String>,
}

/// The menu of the week, one entry per day.
pub type MessMenu = Vec<MessMenuEntry>;

} // verus!
