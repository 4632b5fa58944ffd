//! How a server's containers are named, laid out on disk and created.

pub mod servers;
pub mod install;
