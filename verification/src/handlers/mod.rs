//! The decisions of the HTTP handlers.

pub mod servers;
