//! A relay that authenticates a WebSocket client in-band and then pipes frames
//! between it and a target endpoint that the client names.
//!
//! The library holds the decisions of the relay: the configuration and its
//! validation, the token table, the per-connection session machine, the relay
//! outcome, the hot-reload rule and the socket and TLS plans.
pub mod auth;
pub mod config;
pub mod control;
pub mod headers;
pub mod relay;
pub mod session;
pub mod store;
pub mod text;
pub mod transport;
