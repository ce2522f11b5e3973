//! Core of a minimal FTP server: the command parser, the per-session
//! protocol state machine, the path sandbox that keeps every client inside
//! the server root, and the directory-listing formatter.
//!
//! Socket and filesystem work stays outside this crate; the library decides
//! what to do, and states in its contracts exactly which reply and which
//! state change every command produces.

pub mod codes;
pub mod command;
pub mod framing;
pub mod listing;
pub mod paths;
pub mod response;
pub mod session;
