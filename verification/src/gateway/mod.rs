//! IM gateway: command parsing, approval handling, message formatting,
//! configuration and platform message handling.
pub mod approval_bridge;
pub mod command_router;
pub mod traits;
pub mod platforms;
pub mod message_formatter;
pub mod config;
pub mod user_session;
pub mod runner;
pub mod dedup;
