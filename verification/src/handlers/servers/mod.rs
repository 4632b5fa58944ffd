//! Handlers of `/v1/servers/{id}`.

pub mod state;
pub mod delete;
pub mod update;
pub mod status;
pub mod console;
pub mod console_stream;
pub mod stats;
