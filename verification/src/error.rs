//! Error kinds of the capture pipeline.
//!
//! Every failure is fatal to a run; nothing is retried. The binary around the
//! library turns these values into diagnostic messages.

use vstd::prelude::*;

verus! {

/// A failure of the capture pipeline.
#[derive(Clone, Copy, Debug, PartialEq, Eq, Structural)]
pub enum CaptureError {
    /// The requested layer index lies outside the valid range `0..=5`.
    InvalidLayer(i32),
    /// No layer index was given and none could be defaulted.
    MissingLayer,
    /// A device control call returned the carried non-zero code.
    ControlCall(i32),
    /// The screenshot control call succeeded but reported the carried
    /// non-zero hardware result code.
    ScreenshotFailed(i32),
    /// Establishing the memory window over the device failed.
    Mapping,
}

} // verus!
