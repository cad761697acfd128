//! The handlers of the web pages.
pub mod auth;
