//! # jsonrpsee-server
//!
//! The logic of a JSON-RPC server that supports both HTTP and WebSocket transport: its
//! configuration, the admission and routing of requests, the dispatch of JSON-RPC messages, the
//! notification of connected clients and the life of the server and its connections. Sockets,
//! tasks and serialisation of user types live outside of this crate.

pub mod accept;
pub mod admission;
pub mod builder;
pub mod config;
pub mod connection_manager;
pub mod handshake;
pub mod operations;
pub mod outside;
pub mod properties;
pub mod rpc;
pub mod service;
pub mod summary;
pub mod text;
pub mod traits;
pub mod types;
