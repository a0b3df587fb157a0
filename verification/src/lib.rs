//! A typed, transport-agnostic client core for a blockchain node's JSON-RPC
//! surface: endpoint resolution, request marshalling, response decoding and
//! the dispatch policy (batching, retry, instrumentation) around every call.

pub mod config;
pub mod core_namespace;
pub mod debug;
pub mod endpoint;
pub mod error;
pub mod hex;
pub mod json;
pub mod middleware;
pub mod network;
pub mod provider;
pub mod quantity;
pub mod rpc;
pub mod text;
pub mod transact;
pub mod types;
