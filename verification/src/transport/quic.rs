//! The parameters of the protocol on QUIC.

use vstd::prelude::*;

verus! {

/// The most payload bytes that a control frame may carry.
pub const MAX_CONTROL_FRAME: usize = 65536;

/// The parameters of the protocol on QUIC.
#[derive(Debug, Clone)]
pub struct QuicSkeletonConfig {
    pub alpn: &'static str,
    pub max_control_frame_bytes: usize,
}

impl Default for QuicSkeletonConfig {
    fn default() -> (config: QuicSkeletonConfig)
        ensures
            config.alpn@ == "neosh/1"@,
            config.max_control_frame_bytes == MAX_CONTROL_FRAME,
    {
        QuicSkeletonConfig { alpn: "neosh/1", max_control_frame_bytes: MAX_CONTROL_FRAME }
    }
}

} // verus!
