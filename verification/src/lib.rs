//! Request decisions of the campus services backend: who may call a
//! guarded endpoint, how a signed-in user is identified from token claims,
//! how each endpoint answers the outcome of its database work, the life
//! cycle of marketplace and lost-and-found listings, the statements of the
//! boards where users post, and how uploaded images are decoded and named.

pub mod http;
pub mod db;
pub mod claims;
pub mod decimal;
pub mod schemas;
pub mod auth;
pub mod images;
pub mod routes;
pub mod ownership;
pub mod statements;
