//! The server model: what a server is made of and how its enumerations are
//! named in the database and in Docker.

pub mod blueprint;
pub mod network;
pub mod resources;
pub mod server;
pub mod server_service;
