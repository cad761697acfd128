//! The request middleware: flash messages and sessions.
pub mod flash;
pub mod flash_messages;
pub mod session;
