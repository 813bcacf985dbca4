//! The terminal of a session.

pub mod pty;
