//! The fixed layer geometry table.
//!
//! The device exposes six display layers. Their dimensions and pixel
//! encodings are hardware constants: layers 1 and 2 are 1000x480, all others
//! 1024x600; layer 1 stores four bytes per pixel in a keyed BGRA layout,
//! every other layer stores two bytes per pixel as little-endian RGB565 with
//! a keyed transparency value.

use vstd::prelude::*;
use crate::error::CaptureError;

verus! {

/// Largest valid layer index.
pub const MAX_LAYER: u8 = 5;

/// The raw pixel encoding of a layer.
#[derive(Clone, Copy, Debug, PartialEq, Eq, Structural)]
pub enum PixelFormat {
    /// Four bytes per pixel, stored blue-green-red-alpha, with the fixed
    /// transparency key `(0xCC, 0xCC, 0xCC)` on the first three bytes.
    Bgra32,
    /// Two bytes per pixel, a little-endian 5-6-5 packed color, with the
    /// fixed packed transparency key `0xCCCC`.
    Rgb565,
}

/// Dimensions and encoding of one layer, as resolved from the fixed table.
#[derive(Clone, Copy, Debug, PartialEq, Eq, Structural)]
pub struct LayerGeometry {
    /// Width in pixels.
    pub width: usize,
    /// Height in pixels.
    pub height: usize,
    /// Bytes of raw framebuffer data per pixel: 4 for `Bgra32`, 2 for
    /// `Rgb565`.
    pub bytes_per_pixel: usize,
    /// The raw pixel encoding.
    pub format: PixelFormat,
}

impl LayerGeometry {
    /// Total length in bytes of the raw window covering the whole layer.
    pub open spec fn len_spec(self) -> int {
        self.width * self.height * self.bytes_per_pixel
    }

    /// A geometry the decoder accepts: bounded dimensions, and a byte width
    /// that agrees with the pixel format. Every row of the table satisfies
    /// this.
    pub open spec fn wf(self) -> bool {
        &&& 0 < self.width <= 1024
        &&& 0 < self.height <= 600
        &&& self.bytes_per_pixel == (match self.format {
            PixelFormat::Bgra32 => 4int,
            PixelFormat::Rgb565 => 2int,
        })
    }

    /// Total window length in bytes, computed without overflow.
    pub fn len(&self) -> (n: usize)
        requires
            self.wf(),
        ensures
            n == self.len_spec(),
    {
        proof {
            assert(self.width * self.height <= 1024 * 600 && self.width * self.height
                * self.bytes_per_pixel <= 1024 * 600 * 4) by (nonlinear_arith)
                requires
                    0 < self.width <= 1024,
                    0 < self.height <= 600,
                    self.bytes_per_pixel <= 4,
            ;
        }
        self.width * self.height * self.bytes_per_pixel
    }
}

/// The geometry table as a mathematical function of the layer index.
pub open spec fn geometry_of(layer: int) -> LayerGeometry {
    LayerGeometry {
        width: if layer == 1 || layer == 2 { 1000 } else { 1024 },
        height: if layer == 1 || layer == 2 { 480 } else { 600 },
        bytes_per_pixel: if layer == 1 { 4 } else { 2 },
        format: if layer == 1 { PixelFormat::Bgra32 } else { PixelFormat::Rgb565 },
    }
}

/// Resolves the fixed geometry of a valid layer index.
pub fn resolve_geometry(layer: u8) -> (g: LayerGeometry)
    requires
        layer <= MAX_LAYER,
    ensures
        g == geometry_of(layer as int),
        g.wf(),
{
    let width: usize = match layer {
        1 | 2 => 1000,
        _ => 1024,
    };
    let height: usize = match layer {
        1 | 2 => 480,
        _ => 600,
    };
    let bytes_per_pixel: usize = match layer {
        1 => 4,
        _ => 2,
    };
    let format = match layer {
        1 => PixelFormat::Bgra32,
        _ => PixelFormat::Rgb565,
    };
    LayerGeometry { width, height, bytes_per_pixel, format }
}

/// Checks a raw layer index against the valid range `0..=5`; the only
/// gateway from an arbitrary integer to a layer index.
pub fn validate_layer(value: i32) -> (r: Result<u8, CaptureError>)
    ensures
        0 <= value <= MAX_LAYER ==> r == Ok::<u8, CaptureError>(value as u8),
        !(0 <= value <= MAX_LAYER) ==> r == Err::<u8, CaptureError>(
            CaptureError::InvalidLayer(value),
        ),
{
    if 0 <= value && value <= MAX_LAYER as i32 {
        Ok(value as u8)
    } else {
        Err(CaptureError::InvalidLayer(value))
    }
}

} // verus!
