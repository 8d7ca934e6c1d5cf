use vstd::prelude::*;

verus! {

/// Capture configuration: which source to capture and at what geometry and
/// rate. An `Options` value is immutable once handed to an engine; a capture
/// with different parameters requires a new engine.
pub struct Options {
    /// Identifier of the display or window to capture.
    pub target: String,
    /// Desired output width in pixels.
    pub width: u32,
    /// Desired output height in pixels.
    pub height: u32,
    /// Desired capture rate in frames per second.
    pub fps: u32,
}

impl Clone for Options {
    fn clone(&self) -> (res: Self)
        ensures
            res == *self,
    {
        Options {
            target: self.target.clone(),
            width: self.width,
            height: self.height,
            fps: self.fps,
        }
    }
}

} // verus!
