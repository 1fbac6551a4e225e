//! Fixed-point value types shared by the camera: angles, vectors and
//! 4x4 transforms.
use vstd::prelude::*;

verus! {

/// Scale of every fixed-point quantity: `ONE` stands for `1.0`.
pub const ONE: i64 = 1_000_000;

/// Largest magnitude of an angle, in micro-degrees.
pub const MAX_ANGLE: i64 = 9_000_000_000_000;

/// An angle, in micro-degrees.
#[derive(PartialEq, Eq, Structural, Clone, Copy, Debug)]
pub struct Angle(pub i64);

impl Angle {
    /// An angle whose magnitude fits the fixed-point ratios of the camera.
    pub open spec fn wf(self) -> bool {
        -MAX_ANGLE <= self.0 <= MAX_ANGLE
    }

    /// The angle of `deg` whole degrees.
    pub fn from_degrees(deg: i32) -> (r: Angle)
        requires
            -9_000_000 <= deg <= 9_000_000,
        ensures
            r.0 == deg as int * 1_000_000,
            r.wf(),
    {
        Angle(deg as i64 * 1_000_000)
    }
}

/// A point of clip or screen space, in fixed point.
#[derive(PartialEq, Eq, Structural, Clone, Copy, Debug)]
pub struct Vec2 {
    pub x: i64,
    pub y: i64,
}

/// A homogeneous direction, in fixed point.
#[derive(PartialEq, Eq, Structural, Clone, Copy, Debug)]
pub struct Vec4 {
    pub x: i64,
    pub y: i64,
    pub z: i64,
    pub w: i64,
}

/// A 4x4 transform, stored by columns.
#[derive(PartialEq, Eq, Structural, Clone, Copy, Debug)]
pub struct Mat4 {
    pub x: Vec4,
    pub y: Vec4,
    pub z: Vec4,
    pub w: Vec4,
}

/// A rotation, as a unit quaternion in fixed point.
#[derive(PartialEq, Eq, Structural, Clone, Copy, Debug)]
pub struct Rotation {
    pub s: i64,
    pub x: i64,
    pub y: i64,
    pub z: i64,
}

/// The entry of `m` at row `r` and column `c`, both below 4.
pub open spec fn entry(m: Mat4, r: int, c: int) -> i64 {
    let col = if c == 0 { m.x } else if c == 1 { m.y } else if c == 2 { m.z } else { m.w };
    if r == 0 { col.x } else if r == 1 { col.y } else if r == 2 { col.z } else { col.w }
}

/// `t` is the transpose of `m`.
pub open spec fn is_transpose(t: Mat4, m: Mat4) -> bool {
    forall|r: int, c: int| 0 <= r < 4 && 0 <= c < 4 ==> #[trigger] entry(t, r, c) == entry(m, c, r)
}

impl Mat4 {
    /// The identity transform.
    pub open spec fn spec_identity() -> Mat4 {
        Mat4 {
            x: Vec4 { x: ONE, y: 0, z: 0, w: 0 },
            y: Vec4 { x: 0, y: ONE, z: 0, w: 0 },
            z: Vec4 { x: 0, y: 0, z: ONE, w: 0 },
            w: Vec4 { x: 0, y: 0, z: 0, w: ONE },
        }
    }

    pub fn identity() -> (r: Mat4)
        ensures
            r == Mat4::spec_identity(),
    {
        Mat4 {
            x: Vec4 { x: ONE, y: 0, z: 0, w: 0 },
            y: Vec4 { x: 0, y: ONE, z: 0, w: 0 },
            z: Vec4 { x: 0, y: 0, z: ONE, w: 0 },
            w: Vec4 { x: 0, y: 0, z: 0, w: ONE },
        }
    }

    /// The transpose: rows become columns.
    pub open spec fn spec_transpose(self) -> Mat4 {
        Mat4 {
            x: Vec4 { x: self.x.x, y: self.y.x, z: self.z.x, w: self.w.x },
            y: Vec4 { x: self.x.y, y: self.y.y, z: self.z.y, w: self.w.y },
            z: Vec4 { x: self.x.z, y: self.y.z, z: self.z.z, w: self.w.z },
            w: Vec4 { x: self.x.w, y: self.y.w, z: self.z.w, w: self.w.w },
        }
    }

    pub fn transpose(&self) -> (r: Mat4)
        ensures
            r == self.spec_transpose(),
            is_transpose(r, *self),
            is_transpose(*self, r),
    {
        let m = *self;
        Mat4 {
            x: Vec4 { x: m.x.x, y: m.y.x, z: m.z.x, w: m.w.x },
            y: Vec4 { x: m.x.y, y: m.y.y, z: m.z.y, w: m.w.y },
            z: Vec4 { x: m.x.z, y: m.y.z, z: m.z.z, w: m.w.z },
            w: Vec4 { x: m.x.w, y: m.y.w, z: m.z.w, w: m.w.w },
        }
    }
}

impl Rotation {
    /// The rotation that leaves every direction in place.
    pub open spec fn spec_zero() -> Rotation {
        Rotation { s: ONE, x: 0, y: 0, z: 0 }
    }

    pub fn zero() -> (r: Rotation)
        ensures
            r == Rotation::spec_zero(),
    {
        Rotation { s: ONE, x: 0, y: 0, z: 0 }
    }
}

} // verus!
