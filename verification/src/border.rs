//! Border geometry: the four bands of the overlay frame and the clockwise
//! perimeter walk that phases the rainbow animation.
//!
//! The overlay window covers the whole display but paints only a border of
//! thickness `b` along its edge. A border pixel's position is its distance
//! walking clockwise around the border from the top-left corner; divided by
//! the total perimeter it gives the fraction of the color wheel by which
//! that pixel's hue is shifted.

use vstd::arithmetic::div_mod::{
    lemma_div_pos_is_pos, lemma_fundamental_div_mod_converse, lemma_mod_division_less_than_divisor,
    lemma_multiply_divide_lt,
};
use vstd::arithmetic::mul::{
    lemma_mul_inequality, lemma_mul_nonnegative, lemma_mul_strict_inequality,
};
use vstd::prelude::*;

use crate::color::{hsv_to_rgb, hsv_to_rgb_spec, pack_rgb, pack_rgb_spec, HUE_FULL_MILLIDEG};

verus! {

/// The surface dimensions a border of thickness `b` fits in: at least one
/// pixel of border, and two opposite bands that do not cross.
pub open spec fn dims_valid(w: int, h: int, b: int) -> bool {
    1 <= b && 2 * b <= w && 2 * b <= h
}

/// The length of one clockwise lap around the border: `2 * (w + h - 2b)`.
pub open spec fn perimeter_spec(w: int, h: int, b: int) -> int {
    2 * (w + h - 2 * b)
}

/// Whether the pixel `(x, y)` lies in one of the four border bands: the top
/// rows `[0, b)`, the bottom rows `[h-b, h)`, the left columns `[0, b)` or
/// the right columns `[w-b, w)`.
pub open spec fn in_border_spec(x: int, y: int, w: int, h: int, b: int) -> bool {
    y < b || y >= h - b || x < b || x >= w - b
}

/// The clockwise distance of a border pixel from the top-left corner: the
/// top band counts columns left to right, the right band rows downward, the
/// bottom band columns right to left, and the left band rows upward. Bands
/// claim corner pixels in that order.
pub open spec fn position_spec(x: int, y: int, w: int, h: int, b: int) -> int
    recommends
        dims_valid(w, h, b),
        in_border_spec(x, y, w, h, b),
{
    if y < b {
        x
    } else if x >= w - b {
        w + (y - b)
    } else if y >= h - b {
        w + (h - 2 * b) + (w - 1 - x)
    } else {
        2 * w + (h - 2 * b) + (h - y - b - 1)
    }
}

/// Every border pixel's position lies within one lap of the perimeter.
pub proof fn lemma_position_in_range(x: int, y: int, w: int, h: int, b: int)
    requires
        dims_valid(w, h, b),
        0 <= x < w,
        0 <= y < h,
        in_border_spec(x, y, w, h, b),
    ensures
        0 <= position_spec(x, y, w, h, b) < perimeter_spec(w, h, b),
{
}

/// The length of one clockwise lap around the border.
pub fn perimeter(w: u32, h: u32, b: u32) -> (p: u64)
    requires
        dims_valid(w as int, h as int, b as int),
    ensures
        p == perimeter_spec(w as int, h as int, b as int),
        p > 0,
{
    2 * (w as u64 + h as u64 - 2 * b as u64)
}

/// Whether the pixel `(x, y)` lies in one of the four border bands.
pub fn in_border(x: u32, y: u32, w: u32, h: u32, b: u32) -> (r: bool)
    requires
        dims_valid(w as int, h as int, b as int),
        x < w,
        y < h,
    ensures
        r == in_border_spec(x as int, y as int, w as int, h as int, b as int),
{
    y < b || y >= h - b || x < b || x >= w - b
}

/// The clockwise distance of a border pixel from the top-left corner.
pub fn perimeter_position(x: u32, y: u32, w: u32, h: u32, b: u32) -> (pos: u64)
    requires
        dims_valid(w as int, h as int, b as int),
        x < w,
        y < h,
        in_border_spec(x as int, y as int, w as int, h as int, b as int),
    ensures
        pos == position_spec(x as int, y as int, w as int, h as int, b as int),
        pos < perimeter_spec(w as int, h as int, b as int),
{
    proof {
        lemma_position_in_range(x as int, y as int, w as int, h as int, b as int);
    }
    if y < b {
        x as u64
    } else if x >= w - b {
        w as u64 + (y - b) as u64
    } else if y >= h - b {
        w as u64 + (h as u64 - 2 * b as u64) + (w - 1 - x) as u64
    } else {
        2 * w as u64 + (h as u64 - 2 * b as u64) + (h as u64 - y as u64 - b as u64 - 1)
    }
}

/// The number of steps in one clockwise lap along the outer edge of the
/// surface: the top row left to right, the right column downward, the
/// bottom row right to left, and the left column upward, each corner
/// counted once.
pub open spec fn walk_lap_spec(w: int, h: int) -> int {
    2 * w + 2 * h - 4
}

/// The column of the outer-edge pixel reached after `t` clockwise steps
/// from the top-left corner.
pub open spec fn walk_x_spec(t: int, w: int, h: int) -> int {
    if t < w {
        t
    } else if t < w + h - 1 {
        w - 1
    } else if t < 2 * w + h - 2 {
        2 * w + h - 3 - t
    } else {
        0
    }
}

/// The row of the outer-edge pixel reached after `t` clockwise steps from
/// the top-left corner.
pub open spec fn walk_y_spec(t: int, w: int, h: int) -> int {
    if t < w {
        0
    } else if t < w + h - 1 {
        t - w + 1
    } else if t < 2 * w + h - 2 {
        h - 1
    } else {
        2 * w + 2 * h - 4 - t
    }
}

/// The last step of the clockwise walk before its position wraps: past it,
/// the remaining outer-edge pixels belong to the top band again and a new
/// lap begins.
pub open spec fn walk_wrap_spec(w: int, h: int, b: int) -> int {
    2 * w + 2 * h - 4 - b
}

/// The perimeter position of the outer-edge pixel after `t` clockwise
/// steps.
pub open spec fn walk_position_spec(t: int, w: int, h: int, b: int) -> int {
    position_spec(walk_x_spec(t, w, h), walk_y_spec(t, w, h), w, h, b)
}

/// Every pixel of the clockwise walk lies on the surface and inside the
/// border bands.
pub proof fn lemma_walk_on_border(t: int, w: int, h: int, b: int)
    requires
        dims_valid(w, h, b),
        0 <= t < walk_lap_spec(w, h),
    ensures
        0 <= walk_x_spec(t, w, h) < w,
        0 <= walk_y_spec(t, w, h) < h,
        in_border_spec(walk_x_spec(t, w, h), walk_y_spec(t, w, h), w, h, b),
{
}

/// Walking clockwise from the top-left corner, the perimeter position never
/// decreases until the walk wraps.
pub proof fn lemma_walk_monotonic(t1: int, t2: int, w: int, h: int, b: int)
    requires
        dims_valid(w, h, b),
        0 <= t1 <= t2 <= walk_wrap_spec(w, h, b),
    ensures
        walk_position_spec(t1, w, h, b) <= walk_position_spec(t2, w, h, b),
{
}

/// The walk starts at position zero and reaches the last position of the
/// lap, one short of the perimeter, exactly where it wraps.
pub proof fn lemma_walk_covers_lap(w: int, h: int, b: int)
    requires
        dims_valid(w, h, b),
    ensures
        walk_position_spec(0, w, h, b) == 0,
        walk_position_spec(walk_wrap_spec(w, h, b), w, h, b) == perimeter_spec(w, h, b) - 1,
{
}

/// Past the wrap step the walk has re-entered the top band at the left
/// edge: its position has wrapped to zero, where the next lap begins.
pub proof fn lemma_walk_wraps(t: int, w: int, h: int, b: int)
    requires
        dims_valid(w, h, b),
        walk_wrap_spec(w, h, b) < t < walk_lap_spec(w, h),
    ensures
        walk_position_spec(t, w, h, b) == 0,
{
}

/// The hue, in millidegrees, of the border pixel at clockwise position
/// `pos` when the animation has advanced by `tp` perimeter units: the
/// pixel's fraction of a lap, shifted by the time phase, wrapped to one
/// lap, and scaled to the color wheel.
pub open spec fn border_hue_spec(pos: int, tp: int, w: int, h: int, b: int) -> int {
    let p = perimeter_spec(w, h, b);
    (((pos + tp) % p) * HUE_FULL_MILLIDEG) / p
}

/// The border hue is a hue: it lies on the color wheel.
pub proof fn lemma_border_hue_in_range(pos: int, tp: int, w: int, h: int, b: int)
    requires
        dims_valid(w, h, b),
        0 <= pos,
        0 <= tp,
    ensures
        0 <= border_hue_spec(pos, tp, w, h, b) < HUE_FULL_MILLIDEG,
{
    let p = perimeter_spec(w, h, b);
    let full = HUE_FULL_MILLIDEG as int;
    let phase = (pos + tp) % p;
    lemma_mod_division_less_than_divisor(pos + tp, p);
    lemma_mul_nonnegative(phase, full);
    lemma_div_pos_is_pos(phase * full, p);
    lemma_mul_strict_inequality(phase, p, full);
    lemma_multiply_divide_lt(phase * full, p, full);
}

/// The packed color of the pixel `(x, y)` in a frame drawn at time phase
/// `tp`: a fully saturated, full-value hue shifted along the perimeter for
/// border pixels, and zero (fully transparent) elsewhere.
pub open spec fn pixel_color_spec(x: int, y: int, w: int, h: int, b: int, tp: int) -> int {
    if in_border_spec(x, y, w, h, b) {
        let hue = border_hue_spec(position_spec(x, y, w, h, b), tp, w, h, b);
        let (cr, cg, cb) = hsv_to_rgb_spec(hue, 255, 255);
        pack_rgb_spec(cr, cg, cb)
    } else {
        0
    }
}

/// A row-major pixel index decomposes into the column `x` and the row `y`.
pub proof fn lemma_pixel_index(x: int, y: int, w: int)
    requires
        0 <= x < w,
        0 <= y,
    ensures
        (y * w + x) % w == x,
        (y * w + x) / w == y,
{
    lemma_fundamental_div_mod_converse(y * w + x, w, y, x);
}

/// Draw one frame: a row-major pixel buffer for a `w` by `h` surface with a
/// border of thickness `b`, animated to the time phase `tp`, given in
/// perimeter units (the fraction of a lap the colors have rotated by).
/// Border pixels carry the rainbow; all others stay fully transparent.
pub fn render_frame(w: u32, h: u32, b: u32, tp: u64) -> (frame: Vec<u32>)
    requires
        dims_valid(w as int, h as int, b as int),
        w as int * h as int <= usize::MAX as int,
        tp < perimeter_spec(w as int, h as int, b as int),
    ensures
        frame@.len() == w as int * h as int,
        forall|j: int|
            0 <= j < frame@.len() ==> frame@[j] == pixel_color_spec(
                j % (w as int),
                j / (w as int),
                w as int,
                h as int,
                b as int,
                tp as int,
            ),
        forall|x: int, y: int|
            0 <= x < w && 0 <= y < h ==> #[trigger] frame@[y * (w as int) + x]
                == pixel_color_spec(x, y, w as int, h as int, b as int, tp as int),
{
    let p: u64 = perimeter(w, h, b);
    let total: usize = (w as usize) * (h as usize);
    let mut frame: Vec<u32> = Vec::new();
    let mut i: usize = 0;
    while i < total
        invariant
            dims_valid(w as int, h as int, b as int),
            tp < p,
            p == perimeter_spec(w as int, h as int, b as int),
            total == w as int * h as int,
            total <= usize::MAX,
            i <= total,
            frame@.len() == i,
            forall|j: int|
                0 <= j < i ==> frame@[j] == pixel_color_spec(
                    j % (w as int),
                    j / (w as int),
                    w as int,
                    h as int,
                    b as int,
                    tp as int,
                ),
        decreases total - i,
    {
        let x: u32 = (i % (w as usize)) as u32;
        let y: u32 = (i / (w as usize)) as u32;
        proof {
            lemma_multiply_divide_lt(i as int, w as int, h as int);
            lemma_mod_division_less_than_divisor(i as int, w as int);
        }
        let pixel: u32 = if in_border(x, y, w, h, b) {
            let pos: u64 = perimeter_position(x, y, w, h, b);
            let phase: u64 = (pos + tp) % p;
            proof {
                lemma_border_hue_in_range(pos as int, tp as int, w as int, h as int, b as int);
                lemma_mod_division_less_than_divisor(pos as int + tp as int, p as int);
                lemma_mul_nonnegative(phase as int, HUE_FULL_MILLIDEG as int);
            }
            let hue: u32 = ((phase * HUE_FULL_MILLIDEG as u64) / p) as u32;
            let (cr, cg, cb) = hsv_to_rgb(hue, 255, 255);
            pack_rgb(cr, cg, cb)
        } else {
            0
        };
        frame.push(pixel);
        i = i + 1;
    }
    proof {
        assert forall|x: int, y: int| 0 <= x < w && 0 <= y < h implies #[trigger] frame@[y * (w
            as int) + x] == pixel_color_spec(x, y, w as int, h as int, b as int, tp as int) by {
            let j = y * (w as int) + x;
            lemma_mul_nonnegative(y, w as int);
            lemma_mul_inequality(y, h as int - 1, w as int);
            assert((h as int - 1) * (w as int) == h as int * w as int - w as int) by (
            nonlinear_arith);
            assert(w as int * h as int == h as int * w as int) by (nonlinear_arith);
            assert(0 <= j && j < w as int * h as int);
            lemma_pixel_index(x, y, w as int);
            assert(frame@[j] == pixel_color_spec(
                j % (w as int),
                j / (w as int),
                w as int,
                h as int,
                b as int,
                tp as int,
            ));
        }
    }
    frame
}

/// Draw one frame if the surface can carry the border, and skip it
/// otherwise.
///
/// A frame is skipped — nothing is drawn for this tick — when the surface
/// is degenerate: too small for a border of thickness `b` on every side, or
/// with more pixels than a buffer can hold. The time phase `tp`, in
/// perimeter units, may exceed the perimeter and is wrapped into one lap.
pub fn try_render_frame(w: u32, h: u32, b: u32, tp: u64) -> (frame: Option<Vec<u32>>)
    ensures
        frame is Some <==> dims_valid(w as int, h as int, b as int) && w as int * h as int
            <= usize::MAX as int,
        frame matches Some(f) ==> {
            &&& f@.len() == w as int * h as int
            &&& forall|j: int|
                0 <= j < f@.len() ==> f@[j] == pixel_color_spec(
                    j % (w as int),
                    j / (w as int),
                    w as int,
                    h as int,
                    b as int,
                    tp as int % perimeter_spec(w as int, h as int, b as int),
                )
        },
{
    proof {
        assert(w as int * h as int <= 0xffff_ffff_ffff_ffff) by (nonlinear_arith)
            requires
                w as int <= 0xffff_ffff,
                h as int <= 0xffff_ffff,
                0 <= w as int,
                0 <= h as int,
        ;
    }
    if b >= 1 && 2 * (b as u64) <= w as u64 && 2 * (b as u64) <= h as u64 && (w as u64) * (h
        as u64) <= (usize::MAX as u64) {
        let p: u64 = perimeter(w, h, b);
        Some(render_frame(w, h, b, tp % p))
    } else {
        None
    }
}

} // verus!
