//! Per-connection configuration, captured once at connect or accept time.

use vstd::prelude::*;

verus! {

/// The number of bytes in the default message-size limit: 64 MiB.
pub const DEFAULT_MAX_MESSAGE_SIZE: usize = 67108864;

/// The number of bytes in the default single-frame limit: 16 MiB.
pub const DEFAULT_MAX_FRAME_SIZE: usize = 16777216;

/// An immutable configuration snapshot handed to both pumps when a
/// connection starts. It is never mutated after connection start.
#[derive(Clone, Copy, Debug, PartialEq, Eq, Structural)]
pub struct NetworkSettings {
    /// Largest payload, in bytes, that a single message may carry. Applies
    /// to the raw-mode length check before any payload is read, and bounds
    /// the scratch buffer a receiver may allocate.
    pub max_message_size: usize,
    /// Largest single WebSocket frame accepted during a connection.
    pub max_frame_size: usize,
    /// Whether a server accepts frames that a client failed to mask.
    pub accept_unmasked_frames: bool,
}

impl NetworkSettings {
    /// A settings snapshot is coherent when one frame never needs to exceed
    /// the whole-message limit.
    pub open spec fn wf(&self) -> bool {
        self.max_frame_size <= self.max_message_size
    }

    /// Builds a snapshot from explicit limits.
    pub fn new(max_message_size: usize, max_frame_size: usize, accept_unmasked_frames: bool) -> (s: Self)
        requires
            max_frame_size <= max_message_size,
        ensures
            s == (NetworkSettings { max_message_size, max_frame_size, accept_unmasked_frames }),
            s.wf(),
    {
        NetworkSettings { max_message_size, max_frame_size, accept_unmasked_frames }
    }
}

impl Default for NetworkSettings {
    /// The stock limits: 64 MiB per message, 16 MiB per frame, masking
    /// required.
    fn default() -> (s: Self)
        ensures
            s.max_message_size == DEFAULT_MAX_MESSAGE_SIZE,
            s.max_frame_size == DEFAULT_MAX_FRAME_SIZE,
            !s.accept_unmasked_frames,
            s.wf(),
    {
        NetworkSettings {
            max_message_size: DEFAULT_MAX_MESSAGE_SIZE,
            max_frame_size: DEFAULT_MAX_FRAME_SIZE,
            accept_unmasked_frames: false,
        }
    }
}

} // verus!
