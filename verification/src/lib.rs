//! Verified core of a node controller that runs game/application servers in
//! Docker containers: the server model, configuration checks, the argument
//! lists handed to `docker`, and the decisions of every HTTP handler.

pub mod text;
pub mod structs;
pub mod config;
pub mod helpers;
pub mod flow;
pub mod handlers;
pub mod mw;
