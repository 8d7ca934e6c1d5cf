use vstd::prelude::*;

verus! {

/// One captured video sample: an opaque payload plus its size and timing
/// metadata. A frame is produced by a backend, moved into the frame channel,
/// and never mutated after creation; the consumer that drains the channel is
/// its sole subsequent owner.
pub struct Frame {
    /// Position of this frame in the production order of its session.
    pub seq: u64,
    /// Capture time of this frame, in milliseconds.
    pub timestamp_ms: u64,
    /// Width of the frame in pixels.
    pub width: u32,
    /// Height of the frame in pixels.
    pub height: u32,
    /// Opaque pixel payload.
    pub data: Vec<u8>,
}

} // verus!
