//! Messages exchanged with the frontend and with the agent sidecar.
pub mod app_events;
pub mod frontend_channels;
pub mod sidecar_protocol;
