//! Resolution of the layer to capture from the command line inputs.
//!
//! The layer may be given explicitly; with the screenshot flag set and no
//! explicit layer, the capture defaults to the layer the hardware writes
//! screenshots to. An explicit layer combined with the screenshot flag is
//! allowed, but when it differs from the screenshot layer the caller must
//! surface an advisory notice.

use vstd::prelude::*;
use crate::error::CaptureError;
use crate::geometry::{validate_layer, MAX_LAYER};

verus! {

/// The layer the hardware writes a triggered screenshot to, used as the
/// default when the screenshot flag is set and no layer is given.
pub const SCREENSHOT_LAYER: u8 = 4;

/// A validated capture request.
#[derive(Clone, Copy, Debug, PartialEq, Eq, Structural)]
pub struct CaptureRequest {
    /// The validated layer to capture.
    pub layer: u8,
    /// True when a screenshot was requested but the layer to capture is not
    /// the screenshot layer: the caller must emit a non-fatal advisory.
    pub cross_layer_notice: bool,
}

/// Resolves and validates the target layer: an explicit layer must lie in
/// `0..=5`; without one, the screenshot flag selects the screenshot layer,
/// and otherwise the request is rejected as missing a layer.
pub fn resolve_target(explicit: Option<i32>, screenshot: bool) -> (r: Result<
    CaptureRequest,
    CaptureError,
>)
    ensures
        r == (match explicit {
            Some(v) => if 0 <= v <= MAX_LAYER {
                Ok::<CaptureRequest, CaptureError>(
                    CaptureRequest {
                        layer: v as u8,
                        cross_layer_notice: screenshot && v != SCREENSHOT_LAYER,
                    },
                )
            } else {
                Err::<CaptureRequest, CaptureError>(CaptureError::InvalidLayer(v))
            },
            None => if screenshot {
                Ok::<CaptureRequest, CaptureError>(
                    CaptureRequest { layer: SCREENSHOT_LAYER, cross_layer_notice: false },
                )
            } else {
                Err::<CaptureRequest, CaptureError>(CaptureError::MissingLayer)
            },
        }),
{
    match explicit {
        Some(v) => {
            match validate_layer(v) {
                Ok(layer) => Ok(
                    CaptureRequest {
                        layer,
                        cross_layer_notice: screenshot && layer != SCREENSHOT_LAYER,
                    },
                ),
                Err(e) => Err(e),
            }
        },
        None => {
            if screenshot {
                Ok(CaptureRequest { layer: SCREENSHOT_LAYER, cross_layer_notice: false })
            } else {
                Err(CaptureError::MissingLayer)
            }
        },
    }
}

} // verus!
