use fbcapture::error::CaptureError;
use fbcapture::request::{resolve_target, CaptureRequest, SCREENSHOT_LAYER};

#[test]
fn screenshot_without_layer_defaults_to_screenshot_layer() {
    assert_eq!(
        resolve_target(None, true),
        Ok(CaptureRequest { layer: SCREENSHOT_LAYER, cross_layer_notice: false })
    );
    assert_eq!(SCREENSHOT_LAYER, 4);
}

#[test]
fn screenshot_with_explicit_other_layer_raises_notice() {
    // Screenshot requested but layer 2 captured: the capture proceeds on
    // layer 2 and the advisory notice is demanded.
    assert_eq!(
        resolve_target(Some(2), true),
        Ok(CaptureRequest { layer: 2, cross_layer_notice: true })
    );
}

#[test]
fn screenshot_with_explicit_screenshot_layer_raises_no_notice() {
    assert_eq!(
        resolve_target(Some(4), true),
        Ok(CaptureRequest { layer: 4, cross_layer_notice: false })
    );
}

#[test]
fn explicit_layer_without_screenshot() {
    for layer in 0..=5i32 {
        assert_eq!(
            resolve_target(Some(layer), false),
            Ok(CaptureRequest { layer: layer as u8, cross_layer_notice: false })
        );
    }
}

#[test]
fn missing_layer_without_screenshot_is_rejected() {
    assert_eq!(resolve_target(None, false), Err(CaptureError::MissingLayer));
}

#[test]
fn out_of_range_layer_is_rejected_even_with_screenshot() {
    assert_eq!(resolve_target(Some(6), true), Err(CaptureError::InvalidLayer(6)));
    assert_eq!(resolve_target(Some(-3), false), Err(CaptureError::InvalidLayer(-3)));
}
