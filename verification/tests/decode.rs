use fbcapture::decode::{decode, decode_row_into, raw_window_bytes};
use fbcapture::geometry::{resolve_geometry, LayerGeometry, PixelFormat};

#[test]
fn full_layer_window_decodes_to_height_rows_of_width_pixels() {
    // A full layer-0 window: 1024x600 at 2 bytes per pixel.
    let g = resolve_geometry(0);
    let win: Vec<u8> = vec![0u8; g.len()];
    let rows = decode(&win, &g);
    assert_eq!(rows.len(), 600);
    for row in &rows {
        assert_eq!(row.len(), 1024 * 4);
    }
}

#[test]
fn rgb565_window_decodes_pixel_by_pixel() {
    let g = LayerGeometry {
        width: 2,
        height: 2,
        bytes_per_pixel: 2,
        format: PixelFormat::Rgb565,
    };
    // Row 0: packed 0x0000, 0xFFFF. Row 1: packed 0xCCCC, 0x001F.
    let win: Vec<u8> = vec![0x00, 0x00, 0xff, 0xff, 0xcc, 0xcc, 0x1f, 0x00];
    let rows = decode(&win, &g);
    assert_eq!(rows.len(), 2);
    assert_eq!(rows[0], vec![0x00, 0x00, 0x00, 0xff, 0xf8, 0xfc, 0xf8, 0xff]);
    assert_eq!(rows[1], vec![0xc8, 0x98, 0x60, 0x00, 0x00, 0x00, 0xf8, 0xff]);
}

#[test]
fn bgra32_window_decodes_pixel_by_pixel() {
    let g = LayerGeometry {
        width: 2,
        height: 1,
        bytes_per_pixel: 4,
        format: PixelFormat::Bgra32,
    };
    // First pixel: the key, passed through with its fourth byte. Second
    // pixel: ordinary, swapped and forced opaque.
    let win: Vec<u8> = vec![0xcc, 0xcc, 0xcc, 0x42, 0x10, 0x20, 0x30, 0x00];
    let rows = decode(&win, &g);
    assert_eq!(rows.len(), 1);
    assert_eq!(rows[0], vec![0xcc, 0xcc, 0xcc, 0x42, 0x30, 0x20, 0x10, 0xff]);
}

#[test]
fn row_buffer_is_overwritten_in_place() {
    let g = LayerGeometry {
        width: 1,
        height: 2,
        bytes_per_pixel: 2,
        format: PixelFormat::Rgb565,
    };
    let win: Vec<u8> = vec![0xff, 0xff, 0x00, 0x00];
    let mut buf: Vec<u8> = vec![0xaa; 4];
    decode_row_into(&win, &g, 0, &mut buf);
    assert_eq!(buf, vec![0xf8, 0xfc, 0xf8, 0xff]);
    decode_row_into(&win, &g, 1, &mut buf);
    assert_eq!(buf, vec![0x00, 0x00, 0x00, 0xff]);
}

#[test]
fn raw_output_is_byte_identical_to_window() {
    let win: Vec<u8> = (0..=255u8).cycle().take(4096).collect();
    let out = raw_window_bytes(&win);
    assert_eq!(out, win);
}

#[test]
fn raw_output_of_empty_window_is_empty() {
    let win: Vec<u8> = Vec::new();
    assert_eq!(raw_window_bytes(&win), Vec::<u8>::new());
}
