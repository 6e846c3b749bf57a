use fbcapture::error::CaptureError;
use fbcapture::geometry::{resolve_geometry, validate_layer, LayerGeometry, PixelFormat};

#[test]
fn resolve_geometry_layer_0() {
    let g = resolve_geometry(0);
    assert_eq!(
        g,
        LayerGeometry { width: 1024, height: 600, bytes_per_pixel: 2, format: PixelFormat::Rgb565 }
    );
}

#[test]
fn resolve_geometry_layer_1() {
    let g = resolve_geometry(1);
    assert_eq!(
        g,
        LayerGeometry { width: 1000, height: 480, bytes_per_pixel: 4, format: PixelFormat::Bgra32 }
    );
}

#[test]
fn resolve_geometry_layer_2() {
    let g = resolve_geometry(2);
    assert_eq!(
        g,
        LayerGeometry { width: 1000, height: 480, bytes_per_pixel: 2, format: PixelFormat::Rgb565 }
    );
}

#[test]
fn resolve_geometry_layers_3_to_5() {
    for layer in 3..=5u8 {
        let g = resolve_geometry(layer);
        assert_eq!(
            g,
            LayerGeometry {
                width: 1024,
                height: 600,
                bytes_per_pixel: 2,
                format: PixelFormat::Rgb565,
            }
        );
    }
}

#[test]
fn window_length_of_each_layer() {
    assert_eq!(resolve_geometry(0).len(), 1024 * 600 * 2);
    assert_eq!(resolve_geometry(1).len(), 1000 * 480 * 4);
    assert_eq!(resolve_geometry(2).len(), 1000 * 480 * 2);
    assert_eq!(resolve_geometry(4).len(), 1024 * 600 * 2);
}

#[test]
fn validate_layer_accepts_valid_range() {
    for value in 0..=5i32 {
        assert_eq!(validate_layer(value), Ok(value as u8));
    }
}

#[test]
fn validate_layer_rejects_out_of_range() {
    assert_eq!(validate_layer(-1), Err(CaptureError::InvalidLayer(-1)));
    assert_eq!(validate_layer(6), Err(CaptureError::InvalidLayer(6)));
    assert_eq!(validate_layer(i32::MAX), Err(CaptureError::InvalidLayer(i32::MAX)));
    assert_eq!(validate_layer(i32::MIN), Err(CaptureError::InvalidLayer(i32::MIN)));
}
