use vstd::prelude::*;

verus! {

/// The presentation target as this subsystem sees it: the dimensions it was
/// last configured with, and whether it has been configured at all. A frame
/// is only submitted once the target is configured; until then rendering is
/// skipped entirely.
#[derive(Clone, Copy, Debug, PartialEq, Eq, Structural)]
pub struct TargetState {
    /// Width of the last accepted configuration, in pixels.
    pub width: u32,
    /// Height of the last accepted configuration, in pixels.
    pub height: u32,
    /// Whether the surface has ever been configured.
    pub configured: bool,
}

impl TargetState {
    /// The initial state: nothing configured yet, so the first frame is
    /// skipped until a real size arrives.
    pub fn new() -> (s: TargetState)
        ensures
            s == (TargetState { width: 0, height: 0, configured: false }),
    {
        TargetState { width: 0, height: 0, configured: false }
    }

    /// Decides a resize request. A request with both dimensions positive is
    /// accepted: the state takes the new dimensions and counts as
    /// configured, and the caller must reconfigure the surface to match. A
    /// degenerate request (either dimension zero, as a minimized window
    /// reports) is rejected: the surface must not be reconfigured and every
    /// prior field of the state is left exactly as it was.
    pub fn request_resize(&mut self, width: u32, height: u32) -> (accepted: bool)
        ensures
            accepted == (width > 0 && height > 0),
            accepted ==> *final(self) == (TargetState { width, height, configured: true }),
            !accepted ==> *final(self) == *old(self),
    {
        if width > 0 && height > 0 {
            self.width = width;
            self.height = height;
            self.configured = true;
            true
        } else {
            false
        }
    }

    /// Whether a frame may be submitted at all: only once the target has
    /// been configured.
    pub fn should_render(&self) -> (r: bool)
        ensures
            r == self.configured,
    {
        self.configured
    }
}

} // verus!
