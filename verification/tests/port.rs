use fbcapture::error::CaptureError;
use fbcapture::port::{control_outcome, screenshot_outcome};

#[test]
fn zero_return_delivers_the_value() {
    assert_eq!(control_outcome(0, 3), Ok(3));
    assert_eq!(control_outcome(0, -1), Ok(-1));
}

#[test]
fn non_zero_return_is_a_control_call_error() {
    assert_eq!(control_outcome(-1, 0), Err(CaptureError::ControlCall(-1)));
    assert_eq!(control_outcome(25, 7), Err(CaptureError::ControlCall(25)));
}

#[test]
fn zero_screenshot_code_is_success() {
    assert_eq!(screenshot_outcome(0), Ok(()));
}

#[test]
fn non_zero_screenshot_code_is_a_screenshot_failure() {
    assert_eq!(screenshot_outcome(1), Err(CaptureError::ScreenshotFailed(1)));
    assert_eq!(screenshot_outcome(-9), Err(CaptureError::ScreenshotFailed(-9)));
}
