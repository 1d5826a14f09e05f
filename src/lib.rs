//! A client for tool servers that speak JSON-RPC 2.0 over a child process's
//! standard streams, with the data that the surrounding application exchanges
//! with its front end.
use vstd::prelude::*;

pub mod benchmark;
pub mod error;
pub mod hardware;
pub mod json;
pub mod message;
pub mod mux;
pub mod ollama;
pub mod security;
pub mod session;
pub mod text;
pub mod types;

verus! {

} // verus!
