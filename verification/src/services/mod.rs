//! The services behind the handlers.
pub mod users;
