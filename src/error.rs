use vstd::prelude::*;

verus! {

/// Every way a capture run can fail.
#[derive(Clone, Copy, Debug, PartialEq, Eq, Structural)]
pub enum CaptureError {
    /// No display server is reachable at the default display target.
    ConnectionFailed,
    /// The display server refused or failed the image request.
    CaptureFailed,
    /// The raw frame's pixel encoding or geometry cannot be interpreted.
    UnsupportedFormat,
    /// No GPU adapter is compatible with the preview surface.
    NoCompatibleAdapter,
    /// The adapter refused to hand out a logical device and queue.
    DeviceRequestFailed,
    /// The next presentable surface frame could not be acquired.
    SurfaceAcquireFailed,
}

} // verus!
