//! The data of the application.
pub mod users;
pub mod workflows;
