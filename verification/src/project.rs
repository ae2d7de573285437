//! Project-level recording configuration.

use vstd::prelude::*;

verus! {

/// An output frame size in pixels.
#[derive(Clone, Copy, Debug, PartialEq, Eq, Structural)]
pub struct Resolution {
    pub width: u32,
    pub height: u32,
}

/// Capture configuration for a recording.
#[derive(Clone, Copy, Debug, PartialEq, Eq, Structural)]
pub struct RecordingConfig {
    pub fps: u32,
    pub resolution: Resolution,
}

impl Default for RecordingConfig {
    /// 30 frames per second at 1920x1080.
    fn default() -> (r: Self)
        ensures
            r.fps == 30,
            r.resolution == (Resolution { width: 1920, height: 1080 }),
    {
        RecordingConfig { fps: 30, resolution: Resolution { width: 1920, height: 1080 } }
    }
}

} // verus!
