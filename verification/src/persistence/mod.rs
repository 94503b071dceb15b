//! Storage rows as read from SQLite and their conversion into model records.
pub mod rows;
