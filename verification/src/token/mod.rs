//! Opaque tokens.

pub mod laws;
pub mod service;
