//! Interpretation of device control call results.
//!
//! The three control calls (query the active layer, switch the active
//! layer, trigger a screenshot) are blocking device operations issued by the
//! surrounding binary. Their decision logic is here: a non-zero return of
//! the call itself is a control-call error, and a screenshot that the call
//! delivered must still carry a zero hardware result code to count as
//! successful.

use vstd::prelude::*;
use crate::error::CaptureError;

verus! {

/// Turns the return code of a control call and the value it delivered into
/// the call's result: zero means success, any other return is the error.
pub fn control_outcome(ret: i32, value: i32) -> (r: Result<i32, CaptureError>)
    ensures
        ret == 0 ==> r == Ok::<i32, CaptureError>(value),
        ret != 0 ==> r == Err::<i32, CaptureError>(CaptureError::ControlCall(ret)),
{
    if ret == 0 {
        Ok(value)
    } else {
        Err(CaptureError::ControlCall(ret))
    }
}

/// Checks the hardware-reported result code of a screenshot whose control
/// call itself succeeded: a non-zero code is a screenshot failure.
pub fn screenshot_outcome(code: i32) -> (r: Result<(), CaptureError>)
    ensures
        code == 0 ==> r == Ok::<(), CaptureError>(()),
        code != 0 ==> r == Err::<(), CaptureError>(CaptureError::ScreenshotFailed(code)),
{
    if code == 0 {
        Ok(())
    } else {
        Err(CaptureError::ScreenshotFailed(code))
    }
}

} // verus!
