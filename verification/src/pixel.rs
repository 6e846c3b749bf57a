//! Decoding of single raw pixels into the canonical representation.
//!
//! Both framebuffer encodings carry a fixed transparency key. The 16-bit
//! packed encoding widens its 5/6/5 color fields into the top bits of each
//! output channel and forces alpha fully transparent on the key, fully opaque
//! otherwise. The 32-bit encoding swaps its first and third channel and
//! forces alpha opaque, except on the key, whose four bytes pass through
//! unchanged (alpha included).

use vstd::prelude::*;

verus! {

/// The canonical pixel: 8 bits per channel, red-green-blue-alpha. The only
/// pixel representation that leaves the decoder.
#[derive(Clone, Copy, Debug, PartialEq, Eq, Structural)]
pub struct Rgba {
    pub r: u8,
    pub g: u8,
    pub b: u8,
    pub a: u8,
}

/// The packed transparency key of the 16-bit encoding.
pub const RGB565_KEY: u16 = 0xcccc;

/// The per-channel transparency key byte of the 32-bit encoding.
pub const BGRA_KEY_BYTE: u8 = 0xcc;

/// The 16-bit value packed little-endian from two consecutive raw bytes.
pub open spec fn packed565(lo: u8, hi: u8) -> u16 {
    ((hi as u16) << 8) | (lo as u16)
}

/// Decoding of one packed 16-bit pixel: each color field is left-justified
/// in its output byte (low bits zero), and alpha is 0 exactly on the packed
/// transparency key.
pub open spec fn decode_rgb565_spec(lo: u8, hi: u8) -> Rgba {
    let packed = packed565(lo, hi);
    Rgba {
        r: ((packed & 0xf800) >> 8) as u8,
        g: ((packed & 0x07e0) >> 3) as u8,
        b: ((packed & 0x001f) << 3) as u8,
        a: if packed == RGB565_KEY {
            0
        } else {
            0xff
        },
    }
}

/// Decoding of one raw 32-bit pixel `(b0, b1, b2, b3)`: on the transparency
/// key the bytes pass through unchanged, alpha included; otherwise the first
/// and third byte are swapped and alpha is forced opaque.
pub open spec fn decode_bgra32_spec(b0: u8, b1: u8, b2: u8, b3: u8) -> Rgba {
    if b0 == BGRA_KEY_BYTE && b1 == BGRA_KEY_BYTE && b2 == BGRA_KEY_BYTE {
        Rgba { r: b0, g: b1, b: b2, a: b3 }
    } else {
        Rgba { r: b2, g: b1, b: b0, a: 0xff }
    }
}

/// A keyed 32-bit pixel passes through unchanged, whatever its fourth byte
/// holds: no channel swap, and no forced alpha either.
pub proof fn lemma_bgra32_key_passthrough(b3: u8)
    ensures
        decode_bgra32_spec(BGRA_KEY_BYTE, BGRA_KEY_BYTE, BGRA_KEY_BYTE, b3) == (Rgba {
            r: BGRA_KEY_BYTE,
            g: BGRA_KEY_BYTE,
            b: BGRA_KEY_BYTE,
            a: b3,
        }),
{
}

/// Every non-keyed 32-bit pixel has its first and third byte swapped and is
/// forced fully opaque.
pub proof fn lemma_bgra32_swaps_and_opaque(b0: u8, b1: u8, b2: u8, b3: u8)
    requires
        !(b0 == BGRA_KEY_BYTE && b1 == BGRA_KEY_BYTE && b2 == BGRA_KEY_BYTE),
    ensures
        decode_bgra32_spec(b0, b1, b2, b3) == (Rgba { r: b2, g: b1, b: b0, a: 0xff }),
{
}

/// A 16-bit pixel is transparent exactly when it carries the packed key,
/// whatever its color bits widen to; every other value is fully opaque.
pub proof fn lemma_rgb565_key_alpha(lo: u8, hi: u8)
    ensures
        decode_rgb565_spec(lo, hi).a == (if packed565(lo, hi) == RGB565_KEY {
            0u8
        } else {
            0xffu8
        }),
{
}

/// Decodes one 16-bit packed pixel from its two raw bytes (low byte first).
pub fn decode_rgb565(lo: u8, hi: u8) -> (p: Rgba)
    ensures
        p == decode_rgb565_spec(lo, hi),
{
    let packed: u16 = ((hi as u16) << 8) | (lo as u16);
    proof {
        assert((packed & 0xf800) >> 8 < 256 && (packed & 0x07e0) >> 3 < 256 && (packed & 0x001f)
            << 3 < 256) by (bit_vector);
    }
    let r: u8 = ((packed & 0xf800) >> 8) as u8;
    let g: u8 = ((packed & 0x07e0) >> 3) as u8;
    let b: u8 = ((packed & 0x001f) << 3) as u8;
    let a: u8 = if packed == RGB565_KEY {
        0
    } else {
        0xff
    };
    Rgba { r, g, b, a }
}

/// Decodes one raw 32-bit pixel from its four raw bytes, in stored order.
pub fn decode_bgra32(b0: u8, b1: u8, b2: u8, b3: u8) -> (p: Rgba)
    ensures
        p == decode_bgra32_spec(b0, b1, b2, b3),
{
    if b0 == BGRA_KEY_BYTE && b1 == BGRA_KEY_BYTE && b2 == BGRA_KEY_BYTE {
        Rgba { r: b0, g: b1, b: b2, a: b3 }
    } else {
        Rgba { r: b2, g: b1, b: b0, a: 0xff }
    }
}

} // verus!
