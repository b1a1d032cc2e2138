//! A local bridge between presence producers and the desktop platform's IPC
//! endpoint.
//!
//! Producers send presence updates scoped to an application identity; the
//! bridge keeps exactly one long-lived IPC session per identity and relays
//! each update as a connect, set or clear call on that session.  The crate
//! verifies the session multiplexer: the pure mapping from a producer
//! record to the platform payload, the registry that owns the sessions, and
//! the dispatcher that turns each inbound event into an ordered run of
//! platform calls.

pub mod activity;
pub mod dispatcher;
pub mod frames;
pub mod json;
pub mod local_presence;
pub mod platform;
pub mod rpc_client;
pub mod rpc_client_manager;
pub mod settings;
pub mod types;
pub mod wire;
