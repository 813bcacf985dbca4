//! The server: one process serving one session.

pub mod args;
pub mod connection;
pub mod error;
pub mod exchange;
pub mod ipc;
pub mod laws;
pub mod state;
pub mod tls;
pub mod wire;
