use vstd::prelude::*;

verus! {

/// Largest magnitude allowed for a UI coordinate (display position or size,
/// clip-rectangle corner), in logical units. Keeps every intermediate product
/// of the coordinate transforms inside `i64` and every pixel result inside
/// `i32`.
pub const MAX_COORD: i32 = 0x10_0000;

/// Largest numerator or denominator allowed for a framebuffer scale factor.
pub const MAX_SCALE: u32 = 512;

/// An exact rational value. The GUI library works in real coordinates; this
/// crate keeps them as exact fractions so every transform can be stated and
/// proved precisely. The device adapter converts a `Rat` to the float the GPU
/// expects.
#[derive(Clone, Copy, Debug, PartialEq, Eq, Structural)]
pub struct Rat {
    pub num: i64,
    pub den: i64,
}

impl Rat {
    /// A rational is well formed when its denominator is positive.
    pub open spec fn wf(self) -> bool {
        self.den > 0
    }
}

/// A rational value in specifications, over unbounded integers.
pub ghost struct QVal {
    pub num: int,
    pub den: int,
}

/// The unbounded value of a `Rat`.
pub open spec fn q(r: Rat) -> QVal {
    QVal { num: r.num as int, den: r.den as int }
}

/// Multiply a rational by an integer.
pub open spec fn q_mul_int(k: int, v: QVal) -> QVal {
    QVal { num: k * v.num, den: v.den }
}

/// Sum of two rationals, by cross multiplication.
pub open spec fn q_add(a: QVal, b: QVal) -> QVal {
    QVal { num: a.num * b.den + b.num * a.den, den: a.den * b.den }
}

/// The rational `v` equals the integer `k`.
pub open spec fn q_eq_int(v: QVal, k: int) -> bool {
    v.num == k * v.den
}

/// One axis of the framebuffer scale: the ratio of physical pixels to
/// logical units, as an exact positive fraction (for instance 3/2 for a
/// 150% scale).
#[derive(Clone, Copy, Debug, PartialEq, Eq, Structural)]
pub struct Scale {
    pub num: u32,
    pub den: u32,
}

impl Scale {
    /// A scale is well formed when both parts are positive and small enough
    /// that scaled coordinates stay inside `i32`.
    pub open spec fn wf(self) -> bool {
        1 <= self.num <= MAX_SCALE && 1 <= self.den <= MAX_SCALE
    }
}

/// A clip rectangle in UI logical coordinates, as carried by a draw command.
#[derive(Clone, Copy, Debug, PartialEq, Eq, Structural)]
pub struct ClipRect {
    pub left: i32,
    pub top: i32,
    pub right: i32,
    pub bottom: i32,
}

impl ClipRect {
    /// All four corners within the coordinate budget.
    pub open spec fn wf(self) -> bool {
        &&& -MAX_COORD <= self.left <= MAX_COORD
        &&& -MAX_COORD <= self.top <= MAX_COORD
        &&& -MAX_COORD <= self.right <= MAX_COORD
        &&& -MAX_COORD <= self.bottom <= MAX_COORD
    }
}

/// A scissor rectangle in framebuffer pixel coordinates, ready for the
/// device's scissor slot.
#[derive(Clone, Copy, Debug, PartialEq, Eq, Structural)]
pub struct ScissorRect {
    pub left: i32,
    pub top: i32,
    pub right: i32,
    pub bottom: i32,
}

/// The viewport a frame renders into: the display size in physical pixels,
/// as exact rationals. Its top-left corner is the origin and its depth range
/// is the unit interval.
#[derive(Clone, Copy, Debug, PartialEq, Eq, Structural)]
pub struct Viewport {
    pub width: Rat,
    pub height: Rat,
}

/// The viewport of a frame: its display size in physical pixels, as exact
/// rationals.
pub open spec fn viewport_spec(w: int, h: int, sx: Scale, sy: Scale) -> Viewport {
    Viewport {
        width: Rat { num: (w * sx.num) as i64, den: sx.den as i64 },
        height: Rat { num: (h * sy.num) as i64, den: sy.den as i64 },
    }
}

/// Compute the viewport of a frame from its display size and framebuffer
/// scale.
pub fn viewport_size(w: i32, h: i32, sx: Scale, sy: Scale) -> (r: Viewport)
    requires
        -MAX_COORD <= w <= MAX_COORD,
        -MAX_COORD <= h <= MAX_COORD,
        sx.wf(),
        sy.wf(),
    ensures
        r == viewport_spec(w as int, h as int, sx, sy),
{
    proof {
        assert((w as int) * (sx.num as int) <= (MAX_COORD as int) * (MAX_SCALE as int)
            && (w as int) * (sx.num as int) >= -((MAX_COORD as int) * (MAX_SCALE as int)))
            by (nonlinear_arith)
            requires -(MAX_COORD as int) <= w <= MAX_COORD as int && 1 <= sx.num <= MAX_SCALE as int;
        assert((h as int) * (sy.num as int) <= (MAX_COORD as int) * (MAX_SCALE as int)
            && (h as int) * (sy.num as int) >= -((MAX_COORD as int) * (MAX_SCALE as int)))
            by (nonlinear_arith)
            requires -(MAX_COORD as int) <= h <= MAX_COORD as int && 1 <= sy.num <= MAX_SCALE as int;
    }
    Viewport {
        width: Rat { num: (w as i64) * (sx.num as i64), den: sx.den as i64 },
        height: Rat { num: (h as i64) * (sy.num as i64), den: sy.den as i64 },
    }
}

/// Scale a signed displacement `d` by `num / den`, truncating the result
/// toward zero. This is how a logical distance becomes a whole number of
/// pixels.
pub open spec fn trunc_scale(d: int, num: int, den: int) -> int {
    if d >= 0 {
        (d * num) / den
    } else {
        -(((-d) * num) / den)
    }
}

/// One scissor coordinate: the clip coordinate, made display-relative,
/// scaled to pixels and truncated.
pub open spec fn scissor_coord(c: int, off: int, s: Scale) -> int {
    trunc_scale(c - off, s.num as int, s.den as int)
}

/// The whole scissor rectangle of a clip rectangle, given the display
/// offset and the framebuffer scale.
pub open spec fn scissor_spec(clip: ClipRect, off_x: int, off_y: int, sx: Scale, sy: Scale) -> ScissorRect {
    ScissorRect {
        left: scissor_coord(clip.left as int, off_x, sx) as i32,
        top: scissor_coord(clip.top as int, off_y, sy) as i32,
        right: scissor_coord(clip.right as int, off_x, sx) as i32,
        bottom: scissor_coord(clip.bottom as int, off_y, sy) as i32,
    }
}

proof fn lemma_trunc_scale_bounds(d: int, num: int, den: int, bound: int)
    requires
        1 <= num,
        1 <= den,
        0 <= bound,
        -bound <= d <= bound,
    ensures
        -(bound * num) <= trunc_scale(d, num, den) <= bound * num,
{
    if d >= 0 {
        assert(d * num <= bound * num) by (nonlinear_arith)
            requires 0 <= d <= bound && 1 <= num;
        assert(0 <= (d * num) / den <= d * num) by (nonlinear_arith)
            requires 0 <= d * num && 1 <= den;
        assert(0 <= bound * num) by (nonlinear_arith)
            requires 0 <= bound && 1 <= num;
    } else {
        assert((-d) * num <= bound * num) by (nonlinear_arith)
            requires 0 <= -d <= bound && 1 <= num;
        assert(0 <= ((-d) * num) / den <= (-d) * num) by (nonlinear_arith)
            requires 0 <= (-d) * num && 1 <= den;
        assert(0 <= bound * num) by (nonlinear_arith)
            requires 0 <= bound && 1 <= num;
    }
}

/// Scale the displacement `d` by `num / den` pixels per unit, truncating
/// toward zero.
fn scale_coord(d: i64, num: u32, den: u32) -> (r: i32)
    requires
        -2 * MAX_COORD <= d <= 2 * MAX_COORD,
        1 <= num <= MAX_SCALE,
        1 <= den <= MAX_SCALE,
    ensures
        r == trunc_scale(d as int, num as int, den as int),
{
    proof {
        lemma_trunc_scale_bounds(d as int, num as int, den as int, 2 * MAX_COORD as int);
        assert(2 * (MAX_COORD as int) * (num as int) <= 2 * (MAX_COORD as int) * (MAX_SCALE as int))
            by (nonlinear_arith)
            requires 1 <= num <= MAX_SCALE as int;
    }
    if d >= 0 {
        assert((d as int) * (num as int) <= 2 * (MAX_COORD as int) * (MAX_SCALE as int))
            by (nonlinear_arith)
            requires 0 <= d <= 2 * (MAX_COORD as int) && 1 <= num <= MAX_SCALE as int;
        let scaled: u64 = (d as u64) * (num as u64);
        let q: u64 = scaled / (den as u64);
        assert(q <= scaled);
        q as i32
    } else {
        assert(((-d) as int) * (num as int) <= 2 * (MAX_COORD as int) * (MAX_SCALE as int))
            by (nonlinear_arith)
            requires 0 <= -d <= 2 * (MAX_COORD as int) && 1 <= num <= MAX_SCALE as int;
        let scaled: u64 = ((-d) as u64) * (num as u64);
        let q: u64 = scaled / (den as u64);
        assert(q <= scaled);
        -(q as i32)
    }
}

/// Convert a clip rectangle from UI logical coordinates to framebuffer pixel
/// coordinates: subtract the display offset, multiply by the framebuffer
/// scale, truncate to whole pixels.
pub fn scissor_rect(clip: &ClipRect, off_x: i32, off_y: i32, sx: Scale, sy: Scale) -> (r: ScissorRect)
    requires
        clip.wf(),
        -MAX_COORD <= off_x <= MAX_COORD,
        -MAX_COORD <= off_y <= MAX_COORD,
        sx.wf(),
        sy.wf(),
    ensures
        r == scissor_spec(*clip, off_x as int, off_y as int, sx, sy),
{
    proof {
        lemma_trunc_scale_bounds(clip.left - off_x, sx.num as int, sx.den as int, 2 * MAX_COORD as int);
        lemma_trunc_scale_bounds(clip.top - off_y, sy.num as int, sy.den as int, 2 * MAX_COORD as int);
        lemma_trunc_scale_bounds(clip.right - off_x, sx.num as int, sx.den as int, 2 * MAX_COORD as int);
        lemma_trunc_scale_bounds(clip.bottom - off_y, sy.num as int, sy.den as int, 2 * MAX_COORD as int);
    }
    ScissorRect {
        left: scale_coord(clip.left as i64 - off_x as i64, sx.num, sx.den),
        top: scale_coord(clip.top as i64 - off_y as i64, sy.num, sy.den),
        right: scale_coord(clip.right as i64 - off_x as i64, sx.num, sx.den),
        bottom: scale_coord(clip.bottom as i64 - off_y as i64, sy.num, sy.den),
    }
}

/// The orthographic projection for a display rectangle, as the non-zero
/// entries of the row-major 4x4 matrix
/// `[[m00, 0, 0, 0], [0, m11, 0, 0], [0, 0, m22, 0], [m30, m31, m32, m33]]`
/// that maps UI coordinates to clip space: left to -1, right to +1, top to
/// +1, bottom to -1 (window-space y grows downward, clip-space y upward).
#[derive(Clone, Copy, Debug, PartialEq, Eq, Structural)]
pub struct ProjectionMatrix {
    pub m00: Rat,
    pub m11: Rat,
    pub m22: Rat,
    pub m30: Rat,
    pub m31: Rat,
    pub m32: Rat,
    pub m33: Rat,
}

/// The projection matrix for display position `(px, py)` and size `(w, h)`.
pub open spec fn projection_spec(px: int, py: int, w: int, h: int) -> ProjectionMatrix {
    ProjectionMatrix {
        m00: Rat { num: 2 as i64, den: w as i64 },
        m11: Rat { num: -2 as i64, den: h as i64 },
        m22: Rat { num: 1 as i64, den: 2 as i64 },
        m30: Rat { num: (-(2 * px + w)) as i64, den: w as i64 },
        m31: Rat { num: (2 * py + h) as i64, den: h as i64 },
        m32: Rat { num: 1 as i64, den: 2 as i64 },
        m33: Rat { num: 1 as i64, den: 1 as i64 },
    }
}

/// Where the projection sends the x coordinate of a UI point:
/// `x * m00 + m30`.
pub open spec fn clip_x(m: ProjectionMatrix, x: int) -> QVal {
    q_add(q_mul_int(x, q(m.m00)), q(m.m30))
}

/// Where the projection sends the y coordinate of a UI point:
/// `y * m11 + m31`.
pub open spec fn clip_y(m: ProjectionMatrix, y: int) -> QVal {
    q_add(q_mul_int(y, q(m.m11)), q(m.m31))
}

/// Compute the orthographic projection matrix of a frame.
pub fn projection_matrix(px: i32, py: i32, w: i32, h: i32) -> (r: ProjectionMatrix)
    requires
        -MAX_COORD <= px <= MAX_COORD,
        -MAX_COORD <= py <= MAX_COORD,
        0 < w <= MAX_COORD,
        0 < h <= MAX_COORD,
    ensures
        r == projection_spec(px as int, py as int, w as int, h as int),
        r.m00.wf() && r.m11.wf() && r.m22.wf() && r.m30.wf() && r.m31.wf() && r.m32.wf() && r.m33.wf(),
{
    let wl: i64 = w as i64;
    let hl: i64 = h as i64;
    ProjectionMatrix {
        m00: Rat { num: 2, den: wl },
        m11: Rat { num: -2, den: hl },
        m22: Rat { num: 1, den: 2 },
        m30: Rat { num: -(2 * (px as i64) + wl), den: wl },
        m31: Rat { num: 2 * (py as i64) + hl, den: hl },
        m32: Rat { num: 1, den: 2 },
        m33: Rat { num: 1, den: 1 },
    }
}

/// Projection correctness: for any display position and positive size, the
/// projection matrix maps the display's top-left corner to clip coordinates
/// (-1, 1) and its bottom-right corner to (1, -1).
pub proof fn lemma_projection_corners(px: int, py: int, w: int, h: int, m: ProjectionMatrix)
    requires
        0 < w,
        0 < h,
        -MAX_COORD <= px <= MAX_COORD,
        -MAX_COORD <= py <= MAX_COORD,
        w <= MAX_COORD,
        h <= MAX_COORD,
        m == projection_spec(px, py, w, h),
    ensures
        q_eq_int(clip_x(m, px), -1),
        q_eq_int(clip_x(m, px + w), 1),
        q_eq_int(clip_y(m, py), 1),
        q_eq_int(clip_y(m, py + h), -1),
{
    assert(px * 2 * w + (-(2 * px + w)) * w == (-1) * (w * w)) by (nonlinear_arith);
    assert((px + w) * 2 * w + (-(2 * px + w)) * w == 1 * (w * w)) by (nonlinear_arith);
    assert(py * (-2) * h + (2 * py + h) * h == 1 * (h * h)) by (nonlinear_arith);
    assert((py + h) * (-2) * h + (2 * py + h) * h == (-1) * (h * h)) by (nonlinear_arith);
}

} // verus!
