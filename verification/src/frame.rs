//! What a frame callback tells the surrounding render loop to do next.

use vstd::prelude::*;

verus! {

/// The outcome of rendering one frame: whether the loop should exit, and
/// whether the drawn frame should be presented by swapping buffers.
#[derive(Clone, Copy, Debug, PartialEq, Eq, Structural)]
pub struct FrameOutput {
    /// Close the window and end the render loop after this frame.
    pub exit: bool,
    /// Present the frame by swapping the front and back buffers.
    pub swap_buffers: bool,
}

impl Default for FrameOutput {
    /// By default a frame neither exits the loop nor skips presentation.
    fn default() -> (r: Self)
        ensures
            r.exit == false,
            r.swap_buffers == true,
    {
        FrameOutput { exit: false, swap_buffers: true }
    }
}

} // verus!
