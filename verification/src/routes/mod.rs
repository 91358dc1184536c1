//! How each endpoint answers: for every handler, the answer to the outcome
//! of its database work, with the status and message of each error.
pub mod admin;
pub mod announcements;
pub mod bus;
pub mod buy_sell;
pub mod events;
pub mod lost_found;
pub mod mess;
pub mod outlets;
