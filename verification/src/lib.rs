//! Verified core of the TiyCode IM gateway and persistence models.
pub mod text;
pub mod crypto;
pub mod gateway;
pub mod model;
pub mod time;
pub mod json;
pub mod persistence;
pub mod ipc;
pub mod setup;
