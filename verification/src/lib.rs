//! Command dispatch core of a bridge between a tool-calling client and an
//! editor host that polls for work: the command envelope, the shared dispatch
//! state (queue, pending map, change counter), the decisions behind the HTTP
//! endpoints and the relay, and the laws that hold of them.

pub mod error;
pub mod envelope;
pub mod dispatch;
pub mod endpoints;
pub mod tool_server;
pub mod install;
pub mod laws;
