use vimbrowse::border::{in_border, perimeter, perimeter_position, render_frame, try_render_frame};
use vimbrowse::color::{hsv_to_rgb, pack_rgb};

#[test]
fn perimeter_of_the_reference_surface() {
    // 2 * (800 + 600 - 2*4) = 2784.
    assert_eq!(perimeter(800, 600, 4), 2784);
}

#[test]
fn top_left_border_pixel_has_position_zero() {
    assert_eq!(perimeter_position(0, 0, 800, 600, 4), 0);
}

#[test]
fn top_right_border_pixel_position() {
    assert_eq!(perimeter_position(796, 0, 800, 600, 4), 796);
}

#[test]
fn clockwise_walk_is_monotonic_until_wrap() {
    // Walk the outer edge of an 800x600 surface with border 4 clockwise
    // from the top-left corner: the perimeter position never decreases
    // until the walk re-enters the top band at the left edge, where it
    // wraps to zero for the next lap.
    let (w, h, b) = (800u32, 600u32, 4u32);
    let lap = 2 * w + 2 * h - 4;
    let wrap = lap - b;
    let mut last = 0u64;
    for t in 0..lap {
        let (x, y) = if t < w {
            (t, 0)
        } else if t < w + h - 1 {
            (w - 1, t - w + 1)
        } else if t < 2 * w + h - 2 {
            (2 * w + h - 3 - t, h - 1)
        } else {
            (0, 2 * w + 2 * h - 4 - t)
        };
        assert!(in_border(x, y, w, h, b));
        let pos = perimeter_position(x, y, w, h, b);
        if t == 0 {
            assert_eq!(pos, 0);
        } else if t <= wrap {
            assert!(pos >= last, "position dropped at step {t}");
        } else {
            assert_eq!(pos, 0, "position did not wrap at step {t}");
        }
        if t == wrap {
            assert_eq!(pos, perimeter(w, h, b) - 1);
        }
        last = pos;
    }
}

#[test]
fn frame_has_one_pixel_per_cell() {
    let frame = render_frame(8, 6, 1, 0);
    assert_eq!(frame.len(), 48);
}

#[test]
fn frame_interior_is_transparent() {
    let (w, h, b) = (8u32, 6u32, 1u32);
    let frame = render_frame(w, h, b, 0);
    for y in b..h - b {
        for x in b..w - b {
            assert_eq!(frame[(y * w + x) as usize], 0, "pixel ({x},{y})");
        }
    }
}

#[test]
fn frame_border_carries_the_rainbow() {
    let (w, h, b) = (8u32, 6u32, 1u32);
    let frame = render_frame(w, h, b, 0);
    // At time phase zero the top-left pixel sits at position 0: hue 0, red.
    assert_eq!(frame[0], 0x00FF_0000);
    // Every border pixel is the packed full-saturation color of its
    // perimeter fraction of the hue circle.
    let p = perimeter(w, h, b);
    for y in 0..h {
        for x in 0..w {
            if in_border(x, y, w, h, b) {
                let pos = perimeter_position(x, y, w, h, b);
                let hue = (pos * 360_000 / p) as u32;
                let (r, g, bl) = hsv_to_rgb(hue, 255, 255);
                assert_eq!(frame[(y * w + x) as usize], pack_rgb(r, g, bl), "pixel ({x},{y})");
            }
        }
    }
}

#[test]
fn time_phase_rotates_the_colors() {
    let (w, h, b) = (8u32, 6u32, 1u32);
    let p = perimeter(w, h, b);
    let shifted = render_frame(w, h, b, 3);
    // The pixel at position 0 now shows the hue of phase 3.
    let hue = (3 * 360_000 / p) as u32;
    let (r, g, bl) = hsv_to_rgb(hue, 255, 255);
    assert_eq!(shifted[0], pack_rgb(r, g, bl));
}

#[test]
fn smallest_renderable_surface_is_all_border() {
    // A 2x2 surface with border 1 has no interior: every pixel is colored.
    let frame = render_frame(2, 2, 1, 0);
    assert_eq!(frame.len(), 4);
    for pixel in &frame {
        assert_ne!(*pixel, 0);
    }
    // Perimeter 2*(2+2-2) = 4: one hue step per pixel, starting at red.
    assert_eq!(frame[0], 0x00FF_0000);
}

#[test]
fn degenerate_surfaces_skip_the_frame() {
    // Too narrow for the border on both sides.
    assert!(try_render_frame(10, 10, 6, 0).is_none());
    assert!(try_render_frame(3, 600, 2, 0).is_none());
    // No border at all.
    assert!(try_render_frame(800, 600, 0, 0).is_none());
}

#[test]
fn renderable_surface_draws_and_wraps_the_phase() {
    let frame = try_render_frame(8, 6, 1, 0).expect("surface fits the border");
    assert_eq!(frame, render_frame(8, 6, 1, 0));
    // A time phase beyond the perimeter is wrapped into one lap.
    let p = perimeter(8, 6, 1);
    let wrapped = try_render_frame(8, 6, 1, p + 3).expect("surface fits the border");
    assert_eq!(wrapped, render_frame(8, 6, 1, 3));
}
