//! Sessions and who is attached to them.

pub mod laws;
pub mod manager;
