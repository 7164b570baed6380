//! A persistent, message-driven actor engine.
//!
//! Actors are independently addressable units of durable state. A handler
//! never mutates the store directly: it records *effects* (storage writes,
//! outgoing messages) that the runtime applies only when the dispatch
//! succeeds. Delivered messages live in an append-only per-actor log, and an
//! actor's state is reconstructed deterministically by replaying that log.

pub mod actor;
pub mod client_server;
pub mod codec;
pub mod context;
pub mod counter;
pub mod database;
pub mod dispatcher;
pub mod dyn_table;
pub mod errors;
pub mod global_storage;
pub mod handler;
pub mod kinds;
pub mod kvmap;
pub mod laws;
pub mod log;
pub mod message;
pub mod program;
pub mod runtime;
pub mod value;
