//! The control protocol: frames, messages and their order.

pub mod dispatcher;
pub mod framing;
pub mod messages;
