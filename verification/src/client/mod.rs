//! The client.

pub mod answers;
pub mod bootstrap;
pub mod cache;
pub mod command;
pub mod control;
pub mod detach;
pub mod error;
pub mod identity;
pub mod quic_client;
pub mod retry;
pub mod session;
pub mod state;
pub mod stdin;
pub mod wire;
