//! Client for a remote ticket service: layered configuration resolution, command
//! routing, request construction, reply classification and rendering.

pub mod client;
pub mod command;
pub mod present;
pub mod settings;
