//! How the protocol uses QUIC.

pub mod quic;
