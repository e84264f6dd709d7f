use imgui_dx11_renderer::{
    projection_matrix, scissor_rect, viewport_size, ClipRect, Rat, Scale, ScissorRect,
};

/// Projection correctness for display position (0,0) and size (800,600): the
/// matrix entries are the exact fractions, and applying the matrix maps UI
/// point (0,0) to clip (-1,1) and (800,600) to clip (1,-1).
#[test]
fn projection_for_800_by_600_display() {
    let m = projection_matrix(0, 0, 800, 600);
    assert_eq!(m.m00, Rat { num: 2, den: 800 });
    assert_eq!(m.m11, Rat { num: -2, den: 600 });
    assert_eq!(m.m22, Rat { num: 1, den: 2 });
    assert_eq!(m.m30, Rat { num: -800, den: 800 });
    assert_eq!(m.m31, Rat { num: 600, den: 600 });
    assert_eq!(m.m32, Rat { num: 1, den: 2 });
    assert_eq!(m.m33, Rat { num: 1, den: 1 });

    // clip_x(x) = x * m00 + m30, as a fraction by cross multiplication.
    let clip_x = |x: i64| -> (i64, i64) {
        (x * m.m00.num * m.m30.den + m.m30.num * m.m00.den, m.m00.den * m.m30.den)
    };
    let clip_y = |y: i64| -> (i64, i64) {
        (y * m.m11.num * m.m31.den + m.m31.num * m.m11.den, m.m11.den * m.m31.den)
    };

    // (0, 0) maps to (-1, 1).
    let (nx, dx) = clip_x(0);
    assert_eq!(nx, -dx);
    let (ny, dy) = clip_y(0);
    assert_eq!(ny, dy);

    // (800, 600) maps to (1, -1).
    let (nx, dx) = clip_x(800);
    assert_eq!(nx, dx);
    let (ny, dy) = clip_y(600);
    assert_eq!(ny, -dy);
}

/// The projection follows the display position: for position (100, 50) the
/// left and top edges still map to -1 and 1.
#[test]
fn projection_follows_display_position() {
    let m = projection_matrix(100, 50, 200, 100);
    assert_eq!(m.m00, Rat { num: 2, den: 200 });
    assert_eq!(m.m30, Rat { num: -400, den: 200 });
    // x = 100: 100 * 2/200 + (-400/200) = 1 - 2 = -1.
    assert_eq!(100 * m.m00.num * m.m30.den + m.m30.num * m.m00.den, -(m.m00.den * m.m30.den));
    // x = 300 (right edge): 300 * 2/200 - 400/200 = 3 - 2 = 1.
    assert_eq!(300 * m.m00.num * m.m30.den + m.m30.num * m.m00.den, m.m00.den * m.m30.den);
}

/// Clip-rect transform: display position (10,10), framebuffer scale (2,2),
/// command clip rect (20,20,30,30) gives pixel scissor rect (20,20,40,40).
#[test]
fn clip_rect_to_scissor() {
    let clip = ClipRect { left: 20, top: 20, right: 30, bottom: 30 };
    let sx = Scale { num: 2, den: 1 };
    let sy = Scale { num: 2, den: 1 };
    let r = scissor_rect(&clip, 10, 10, sx, sy);
    assert_eq!(r, ScissorRect { left: 20, top: 20, right: 40, bottom: 40 });
}

/// Fractional scales truncate toward zero, also for negative coordinates.
#[test]
fn scissor_truncates_toward_zero() {
    let clip = ClipRect { left: -5, top: 5, right: 7, bottom: -7 };
    let half = Scale { num: 1, den: 2 };
    let r = scissor_rect(&clip, 0, 0, half, half);
    assert_eq!(r.left, -2);
    assert_eq!(r.top, 2);
    assert_eq!(r.right, 3);
    assert_eq!(r.bottom, -3);
}

/// A 150% scale as the exact fraction 3/2.
#[test]
fn scissor_with_three_halves_scale() {
    let clip = ClipRect { left: 0, top: 0, right: 101, bottom: 11 };
    let s = Scale { num: 3, den: 2 };
    let r = scissor_rect(&clip, 0, 0, s, s);
    assert_eq!(r.right, 151);
    assert_eq!(r.bottom, 16);
}

/// The viewport is the display size times the framebuffer scale, exactly.
#[test]
fn viewport_scales_display_size() {
    let vp = viewport_size(800, 600, Scale { num: 3, den: 2 }, Scale { num: 1, den: 1 });
    assert_eq!(vp.width, Rat { num: 2400, den: 2 });
    assert_eq!(vp.height, Rat { num: 600, den: 1 });
}
