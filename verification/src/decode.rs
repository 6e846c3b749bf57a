//! Decoding of a raw mapped window into canonical RGBA rows.
//!
//! The decoder walks the window row by row. A caller that streams rows can
//! reuse one row buffer across calls of [`decode_row_into`]; [`decode`]
//! materializes every row at once. The raw output mode bypasses decoding and
//! hands the window bytes through unchanged.

use vstd::prelude::*;
use crate::geometry::{LayerGeometry, PixelFormat};
use crate::pixel::{Rgba, decode_bgra32, decode_bgra32_spec, decode_rgb565, decode_rgb565_spec};

verus! {

/// The four bytes starting at `4 * i` of a canonical RGBA byte sequence,
/// read as one pixel.
pub open spec fn rgba_at(bytes: Seq<u8>, i: int) -> Rgba {
    Rgba { r: bytes[4 * i], g: bytes[4 * i + 1], b: bytes[4 * i + 2], a: bytes[4 * i + 3] }
}

/// The canonical pixel at `(row, col)` of a raw window under a geometry.
pub open spec fn pixel_at(win: Seq<u8>, g: LayerGeometry, row: int, col: int) -> Rgba {
    let idx = row * g.width + col;
    match g.format {
        PixelFormat::Bgra32 => decode_bgra32_spec(
            win[4 * idx],
            win[4 * idx + 1],
            win[4 * idx + 2],
            win[4 * idx + 3],
        ),
        PixelFormat::Rgb565 => decode_rgb565_spec(win[2 * idx], win[2 * idx + 1]),
    }
}

/// `out` is the canonical decoding of row `row` of the window: `width`
/// pixels of four bytes each, pixel by pixel.
pub open spec fn row_decoded(out: Seq<u8>, win: Seq<u8>, g: LayerGeometry, row: int) -> bool {
    &&& out.len() == 4 * g.width
    &&& forall|c: int| 0 <= c < g.width ==> rgba_at(out, c) == pixel_at(win, g, row, c)
}

/// Decodes one row of the window into `buf`, overwriting its contents. The
/// buffer keeps its length, so one buffer can serve every row in turn.
pub fn decode_row_into(win: &Vec<u8>, g: &LayerGeometry, row: usize, buf: &mut Vec<u8>)
    requires
        g.wf(),
        win@.len() == g.len_spec(),
        row < g.height,
        old(buf)@.len() == 4 * g.width,
    ensures
        row_decoded(final(buf)@, win@, *g, row as int),
{
    let w = g.width;
    let n = win.len();
    let mut pix: usize = 0;
    while pix < w
        invariant
            g.wf(),
            w == g.width,
            row < g.height,
            n == win@.len(),
            win@.len() == g.len_spec(),
            buf@.len() == 4 * g.width,
            pix <= w,
            forall|c: int| 0 <= c < pix ==> rgba_at(buf@, c) == pixel_at(win@, *g, row as int, c),
        decreases w - pix,
    {
        proof {
            assert((row * g.width + pix) * g.bytes_per_pixel + g.bytes_per_pixel <= g.width
                * g.height * g.bytes_per_pixel) by (nonlinear_arith)
                requires
                    0 <= row < g.height,
                    0 <= pix < g.width,
                    0 < g.bytes_per_pixel,
            ;
        }
        let idx = row * w + pix;
        let p: Rgba = match g.format {
            PixelFormat::Bgra32 => {
                let base = 4 * idx;
                decode_bgra32(win[base], win[base + 1], win[base + 2], win[base + 3])
            },
            PixelFormat::Rgb565 => {
                let base = 2 * idx;
                decode_rgb565(win[base], win[base + 1])
            },
        };
        let ghost buf0 = buf@;
        buf[4 * pix] = p.r;
        buf[4 * pix + 1] = p.g;
        buf[4 * pix + 2] = p.b;
        buf[4 * pix + 3] = p.a;
        proof {
            assert forall|c: int| 0 <= c < pix + 1 implies rgba_at(buf@, c) == pixel_at(
                win@,
                *g,
                row as int,
                c,
            ) by {
                if c < pix {
                    assert(rgba_at(buf0, c) == pixel_at(win@, *g, row as int, c));
                    assert(buf@[4 * c] == buf0[4 * c]);
                    assert(buf@[4 * c + 1] == buf0[4 * c + 1]);
                    assert(buf@[4 * c + 2] == buf0[4 * c + 2]);
                    assert(buf@[4 * c + 3] == buf0[4 * c + 3]);
                } else {
                    assert(rgba_at(buf@, c) == pixel_at(win@, *g, row as int, c));
                }
            }
        }
        pix = pix + 1;
    }
}

/// Decodes the whole window into `height` fresh canonical rows.
pub fn decode(win: &Vec<u8>, g: &LayerGeometry) -> (rows: Vec<Vec<u8>>)
    requires
        g.wf(),
        win@.len() == g.len_spec(),
    ensures
        rows@.len() == g.height,
        forall|r: int| 0 <= r < g.height ==> row_decoded(rows@[r]@, win@, *g, r),
{
    let mut rows: Vec<Vec<u8>> = Vec::new();
    let mut row: usize = 0;
    while row < g.height
        invariant
            g.wf(),
            win@.len() == g.len_spec(),
            row <= g.height,
            rows@.len() == row,
            forall|r: int| 0 <= r < row ==> row_decoded(rows@[r]@, win@, *g, r),
        decreases g.height - row,
    {
        let mut buf: Vec<u8> = vec![0u8; 4 * g.width];
        decode_row_into(win, g, row, &mut buf);
        rows.push(buf);
        row = row + 1;
    }
    rows
}

/// Raw output mode: the bytes handed onward are exactly the window's bytes.
pub fn raw_window_bytes(win: &Vec<u8>) -> (out: Vec<u8>)
    ensures
        out@ == win@,
{
    let mut out: Vec<u8> = Vec::new();
    let n = win.len();
    let mut i: usize = 0;
    while i < n
        invariant
            n == win@.len(),
            i <= n,
            out@ =~= win@.subrange(0, i as int),
        decreases n - i,
    {
        out.push(win[i]);
        i = i + 1;
    }
    proof {
        assert(out@ =~= win@);
    }
    out
}

} // verus!
