//! The data of the services: administrators and their permissions,
//! listings and their life cycle, requests and menus.
pub mod admin;
pub mod announcements;
pub mod buy_sell;
pub mod common;
pub mod lost_found;
pub mod mess;
