//! The scissor rectangle that keeps drawing inside the projection's
//! footprint on the screen.
use vstd::prelude::*;
use crate::math::{Vec2, ONE};
use crate::viewport::{CameraViewPort, MAX_DPI, max_physical};

verus! {

/// A rectangle of physical pixels.
#[derive(PartialEq, Eq, Structural, Clone, Copy, Debug)]
pub struct ScissorRect {
    pub x: i64,
    pub y: i64,
    pub width: i64,
    pub height: i64,
}

/// A screen coordinate (fixed point, logical pixels) scaled by the density
/// `dpi` (fixed point): physical pixels times `ONE * ONE`.
pub open spec fn scaled(v: int, dpi: int) -> int {
    v * dpi
}

/// `v`, or zero where it is negative.
pub open spec fn non_negative(v: int) -> int {
    if v < 0 { 0 } else { v }
}

/// `v` brought into `[0, hi]`.
pub open spec fn clamp_to(v: int, hi: int) -> int {
    if v < 0 { 0 } else if v > hi { hi } else { v }
}

/// The scissor rectangle for the screen images `tl`, `tr` and `br` of the
/// top-left, top-right and bottom-right corners of the projection's clip
/// footprint, on a physical screen of `width` by `height` at density `dpi`:
/// its origin is the top-left image, at least zero; its size the distance
/// between the images, within `[0, width]` and `[0, height]`.
pub open spec fn scissor_of(tl: Vec2, tr: Vec2, br: Vec2, dpi: int, width: int, height: int) -> ScissorRect {
    let unit = ONE as int * ONE as int;
    ScissorRect {
        x: (non_negative(scaled(tl.x as int, dpi)) / unit) as i64,
        y: (non_negative(scaled(tl.y as int, dpi)) / unit) as i64,
        width: (clamp_to(scaled(tr.x as int, dpi) - scaled(tl.x as int, dpi), width * unit) / unit) as i64,
        height: (clamp_to(scaled(br.y as int, dpi) - scaled(tr.y as int, dpi), height * unit) / unit) as i64,
    }
}

/// The top-left, top-right and bottom-right corners of a clip footprint of
/// size `clip_size`, centered on the origin.
pub open spec fn footprint_corners(clip_size: Vec2) -> (Vec2, Vec2, Vec2) {
    let hw = clip_size.x / 2;
    let hh = clip_size.y / 2;
    (
        Vec2 { x: -hw as i64, y: hh as i64 },
        Vec2 { x: hw as i64, y: hh as i64 },
        Vec2 { x: hw as i64, y: -hh as i64 },
    )
}

fn scale(v: i64, dpi: u64) -> (r: i128)
    requires
        dpi <= MAX_DPI,
    ensures
        r == scaled(v as int, dpi as int),
        -(i64::MAX as int + 1) * MAX_DPI <= r <= i64::MAX * MAX_DPI,
{
    proof {
        let a = v as int;
        let d = dpi as int;
        assert(-(i64::MAX as int + 1) * MAX_DPI <= a * d <= i64::MAX * MAX_DPI) by (nonlinear_arith)
            requires i64::MIN <= a <= i64::MAX, 0 <= d <= MAX_DPI;
    }
    v as i128 * dpi as i128
}

fn clamp_scaled(v: i128, hi: i128) -> (r: i128)
    requires
        0 <= hi,
    ensures
        r == clamp_to(v as int, hi as int),
{
    if v < 0 { 0 } else if v > hi { hi } else { v }
}

impl CameraViewPort {
    /// The scissor rectangle of the projection's footprint: the corners of a
    /// clip region of `clip_size` are taken to the screen by `to_screen`
    /// (top-left, top-right, then bottom-right), and `scissor_of` bounds the
    /// rectangle they span to the physical screen.
    pub fn canvas_scissor<S>(&self, clip_size: Vec2, to_screen: S) -> (r: ScissorRect)
        where
            S: Fn(Vec2) -> Vec2,
        requires
            self@.wf(),
            0 <= clip_size.x,
            0 <= clip_size.y,
            forall|v: Vec2| to_screen.requires((v,)),
        ensures
            exists|tl: Vec2, tr: Vec2, br: Vec2|
                #![trigger scissor_of(tl, tr, br, self@.dpi as int, self@.width as int, self@.height as int)]
                {
                    &&& to_screen.ensures((footprint_corners(clip_size).0,), tl)
                    &&& to_screen.ensures((footprint_corners(clip_size).1,), tr)
                    &&& to_screen.ensures((footprint_corners(clip_size).2,), br)
                    &&& r == scissor_of(tl, tr, br, self@.dpi as int, self@.width as int, self@.height as int)
                },
    {
        let hw = clip_size.x / 2;
        let hh = clip_size.y / 2;
        let tl = to_screen(Vec2 { x: -hw, y: hh });
        let tr = to_screen(Vec2 { x: hw, y: hh });
        let br = to_screen(Vec2 { x: hw, y: -hh });
        let dpi = self.get_dpi();
        let unit: i128 = ONE as i128 * ONE as i128;
        let (width, height) = self.get_screen_size();
        proof {
            assert(max_physical() * (ONE * ONE) <= i64::MAX * MAX_DPI);
        }
        let sx = scale(tl.x, dpi);
        let sy = scale(tl.y, dpi);
        let x = if sx < 0 { 0 } else { sx } / unit;
        let y = if sy < 0 { 0 } else { sy } / unit;
        let w = clamp_scaled(scale(tr.x, dpi) - scale(tl.x, dpi), width as i128 * unit) / unit;
        let h = clamp_scaled(scale(br.y, dpi) - scale(tr.y, dpi), height as i128 * unit) / unit;
        let r = ScissorRect { x: x as i64, y: y as i64, width: w as i64, height: h as i64 };
        assert(r == scissor_of(tl, tr, br, dpi as int, width as int, height as int));
        r
    }
}

} // verus!
