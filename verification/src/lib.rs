//! Server- and client-side runtime of an agent-to-agent interaction
//! protocol: a task lifecycle engine with pluggable stores, a push
//! notification subsystem, a capability gate over an advertised agent
//! card, and a client-side auth interceptor.

pub mod auth;
pub mod core_types;
pub mod errors;
pub mod grpc_handler;
pub mod handler;
mod idgen;
pub mod manager;
pub mod models;
pub mod push_sender;
pub mod push_store;
pub mod rpc;
pub mod seq_facts;
pub mod task_store;
pub mod views;
