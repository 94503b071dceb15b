//! Persistence and frontend data model: statuses with their stored names,
//! records read from storage, and the DTOs built from them.
pub mod errors;
pub mod thread;
pub mod goal;
pub mod provider;
pub mod subagent;
pub mod task_board;
pub mod task_item;
pub mod terminal;
pub mod workspace;
pub mod settings;
pub mod file;
pub mod git;
pub mod extensions;
