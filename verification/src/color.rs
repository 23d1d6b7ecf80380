//! HSV-to-RGB conversion and pixel packing for the border renderer.
//!
//! The renderer colors each border pixel from a hue on the color wheel with
//! full saturation and value. The conversion here follows the standard
//! six-sector construction: chroma `c = v*s`, an intermediate ramp value `x`
//! that rises and falls across alternating sectors, and a match value
//! `m = v - c` added to every channel. All arithmetic is integral: a hue is
//! given in millidegrees (thousandths of a degree, `0..360_000`), and
//! saturation and value in 255ths, so that `255` stands for full saturation
//! or full value.

use vstd::arithmetic::div_mod::{lemma_multiply_divide_le, lemma_remainder_upper};
use vstd::prelude::*;

verus! {

/// Millidegrees in one 60-degree hue sector.
pub const HUE_SECTOR_MILLIDEG: u32 = 60_000;

/// Millidegrees in the full hue circle.
pub const HUE_FULL_MILLIDEG: u32 = 360_000;

/// The chroma of an HSV color, scaled to 255ths: `c = v * s`.
pub open spec fn chroma_spec(s: int, v: int) -> int {
    (v * s) / 255
}

/// The ramp value within a hue sector, scaled to 255ths: the intermediate
/// component `x = c * (1 - |((h/60) mod 2) - 1|)`, which rises across even
/// sectors and falls across odd ones.
pub open spec fn ramp_spec(h: int, s: int, v: int) -> int {
    let f = h % (HUE_SECTOR_MILLIDEG as int);
    if (h / (HUE_SECTOR_MILLIDEG as int)) % 2 == 0 {
        (chroma_spec(s, v) * f) / (HUE_SECTOR_MILLIDEG as int)
    } else {
        (chroma_spec(s, v) * (HUE_SECTOR_MILLIDEG as int - f)) / (HUE_SECTOR_MILLIDEG as int)
    }
}

/// The RGB triple of the HSV color `(h, s, v)`, each channel in `0..=255`:
/// hue `h` in millidegrees, saturation `s` and value `v` in 255ths. Each
/// channel is `c`, `x` or `0`, by the sector of the hue, plus the match
/// value `m = v - c`; `c + m` collapses to `v`.
pub open spec fn hsv_to_rgb_spec(h: int, s: int, v: int) -> (int, int, int) {
    let m = v - chroma_spec(s, v);
    let xm = ramp_spec(h, s, v) + m;
    let sector = h / (HUE_SECTOR_MILLIDEG as int);
    if sector == 0 {
        (v, xm, m)
    } else if sector == 1 {
        (xm, v, m)
    } else if sector == 2 {
        (m, v, xm)
    } else if sector == 3 {
        (m, xm, v)
    } else if sector == 4 {
        (xm, m, v)
    } else {
        (v, m, xm)
    }
}

/// The chroma is at most the value, so the match value `v - c` and the
/// channel sums `x + m` stay within `0..=v`.
proof fn lemma_chroma_le_value(s: int, v: int)
    requires
        0 <= s <= 255,
        0 <= v,
    ensures
        0 <= chroma_spec(s, v) <= v,
{
    assert(0 <= v * s <= 255 * v) by (nonlinear_arith)
        requires
            0 <= s <= 255,
            0 <= v,
    ;
    lemma_multiply_divide_le(v * s, 255, v);
}

/// The ramp value is at most the chroma.
proof fn lemma_ramp_le_chroma(h: int, s: int, v: int)
    requires
        0 <= h,
        0 <= s <= 255,
        0 <= v,
    ensures
        0 <= ramp_spec(h, s, v) <= chroma_spec(s, v),
{
    let sec = HUE_SECTOR_MILLIDEG as int;
    let c = chroma_spec(s, v);
    let f = h % sec;
    lemma_chroma_le_value(s, v);
    lemma_remainder_upper(h, sec);
    assert(0 <= f < sec);
    if h / sec % 2 == 0 {
        assert(0 <= c * f <= sec * c) by (nonlinear_arith)
            requires
                0 <= c,
                0 <= f <= sec,
        ;
        lemma_multiply_divide_le(c * f, sec, c);
    } else {
        assert(0 <= c * (sec - f) <= sec * c) by (nonlinear_arith)
            requires
                0 <= c,
                0 <= sec - f <= sec,
        ;
        lemma_multiply_divide_le(c * (sec - f), sec, c);
    }
}

/// At zero saturation the hue is immaterial and every channel equals the
/// value: with full value the color is white.
pub proof fn lemma_zero_saturation_is_white(h: int)
    requires
        0 <= h < HUE_FULL_MILLIDEG,
    ensures
        hsv_to_rgb_spec(h, 0, 255) == (255int, 255int, 255int),
{
    assert(chroma_spec(0, 255) == 0);
    assert(ramp_spec(h, 0, 255) == 0);
}

/// Convert an HSV color to an RGB triple: hue in millidegrees, saturation
/// and value in 255ths.
pub fn hsv_to_rgb(h: u32, s: u8, v: u8) -> (rgb: (u8, u8, u8))
    requires
        h < HUE_FULL_MILLIDEG,
    ensures
        ({
            let (r, g, b) = hsv_to_rgb_spec(h as int, s as int, v as int);
            rgb.0 == r && rgb.1 == g && rgb.2 == b
        }),
{
    proof {
        lemma_chroma_le_value(s as int, v as int);
        lemma_ramp_le_chroma(h as int, s as int, v as int);
    }
    let c: u32 = (v as u32 * s as u32) / 255;
    let m: u8 = v - (c as u8);
    let sector: u32 = h / HUE_SECTOR_MILLIDEG;
    let f: u32 = h % HUE_SECTOR_MILLIDEG;
    let ramp: u32 = if sector % 2 == 0 {
        f
    } else {
        HUE_SECTOR_MILLIDEG - f
    };
    let x: u32 = (c * ramp) / HUE_SECTOR_MILLIDEG;
    let xm: u8 = (x as u8) + m;
    if sector == 0 {
        (v, xm, m)
    } else if sector == 1 {
        (xm, v, m)
    } else if sector == 2 {
        (m, v, xm)
    } else if sector == 3 {
        (m, xm, v)
    } else if sector == 4 {
        (xm, m, v)
    } else {
        (v, m, xm)
    }
}

/// The packed pixel value of an RGB triple: red in bits 16..24, green in
/// bits 8..16, blue in bits 0..8, as the drawing surface expects.
pub open spec fn pack_rgb_spec(r: int, g: int, b: int) -> int {
    r * 0x10000 + g * 0x100 + b
}

/// Pack an RGB triple into one surface pixel value.
pub fn pack_rgb(r: u8, g: u8, b: u8) -> (pixel: u32)
    ensures
        pixel == pack_rgb_spec(r as int, g as int, b as int),
{
    (r as u32) * 0x10000 + (g as u32) * 0x100 + (b as u32)
}

} // verus!
