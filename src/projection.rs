//! What the camera needs to know of a projection, and the zoom policy that
//! follows from it.
use vstd::prelude::*;
use crate::math::{Angle, Vec2, ONE, MAX_ANGLE};

verus! {

/// The projection families of the viewer.
#[derive(PartialEq, Eq, Structural, Clone, Copy, Debug)]
pub enum ProjectionFamily {
    Orthographic,
    Aitoff,
    Mollweide,
    ZenithalEqualArea,
    Stereographic,
    Gnomonic,
    Mercator,
    PlateCarree,
    HEALPix,
}

/// A projection as the camera sees it: its family and the aperture at
/// which the whole of its domain fits in clip space.
#[derive(PartialEq, Eq, Structural, Clone, Copy, Debug)]
pub struct ProjectionInfo {
    pub family: ProjectionFamily,
    pub aperture_start: Angle,
}

impl ProjectionFamily {
    /// Whether the aperture may grow past the projection's starting aperture.
    pub open spec fn spec_can_unzoom_more(self) -> bool {
        !(self is Gnomonic || self is Mercator || self is HEALPix)
    }

    pub fn can_unzoom_more(&self) -> (r: bool)
        ensures
            r == self.spec_can_unzoom_more(),
    {
        match self {
            ProjectionFamily::Gnomonic | ProjectionFamily::Mercator | ProjectionFamily::HEALPix => false,
            _ => true,
        }
    }
}

impl ProjectionInfo {
    /// A usable projection: a positive starting aperture.
    pub open spec fn wf(self) -> bool {
        0 < self.aperture_start.0 && self.aperture_start.wf()
    }
}

/// Integer division that rounds toward zero, as machine division does.
pub open spec fn div_toward_zero(a: int, b: int) -> int {
    if a >= 0 { a / b } else { -((-a) / b) }
}

/// `aperture / aperture_start` in fixed point.
pub open spec fn aperture_ratio(aperture: int, start: int) -> int {
    div_toward_zero(aperture * ONE, start)
}

/// Half the clip-space distance between two abscissas, at most `1.0`.
pub open spec fn half_separation(x0: int, x1: int) -> int {
    let d = if x1 >= x0 { x1 - x0 } else { x0 - x1 };
    if d / 2 <= ONE { d / 2 } else { ONE as int }
}

/// The clip zoom factor at an aperture no wider than the starting one,
/// from the clip-space images of the two points at longitudes
/// `-aperture/2` and `+aperture/2` on the equator (`None`: no image).
pub open spec fn narrow_zoom_factor(
    aperture: int,
    start: int,
    left: Option<Vec2>,
    right: Option<Vec2>,
) -> int {
    match (left, right) {
        (Some(a), Some(b)) => half_separation(a.x as int, b.x as int),
        _ => aperture_ratio(aperture, start),
    }
}

/// The aperture kept and the clip zoom factor, for a requested aperture.
pub open spec fn zoom_outcome(
    requested: int,
    proj: ProjectionInfo,
    left: Option<Vec2>,
    right: Option<Vec2>,
) -> (int, int) {
    let start = proj.aperture_start.0 as int;
    if requested <= start {
        (requested, narrow_zoom_factor(requested, start, left, right))
    } else if proj.family.spec_can_unzoom_more() {
        (requested, aperture_ratio(requested, start))
    } else {
        (start, ONE as int)
    }
}

/// The action that a change of aperture from `old` to `new` records.
pub open spec fn zoom_action(current: crate::UserAction, old: int, new: int) -> crate::UserAction {
    if old > new {
        crate::UserAction::Zooming
    } else if old < new {
        crate::UserAction::Unzooming
    } else {
        current
    }
}

/// The half longitude span probed for an aperture: `|aperture| / 2`.
pub open spec fn probe_half(aperture: int) -> int {
    (if aperture >= 0 { aperture } else { -aperture }) / 2
}

pub fn probe_half_span(aperture: Angle) -> (r: Angle)
    requires
        aperture.wf(),
    ensures
        r.0 == probe_half(aperture.0 as int),
        r.wf(),
{
    let lon: i64 = if aperture.0 >= 0 { aperture.0 } else { -aperture.0 };
    Angle(lon / 2)
}

fn ratio(aperture: i64, start: i64) -> (r: i64)
    requires
        -MAX_ANGLE <= aperture <= MAX_ANGLE,
        0 < start,
    ensures
        r == aperture_ratio(aperture as int, start as int),
{
    let num: i128 = aperture as i128 * ONE as i128;
    let q: i128 = if num >= 0 { num / start as i128 } else { -((-num) / start as i128) };
    assert(-MAX_ANGLE * ONE <= num <= MAX_ANGLE * ONE);
    proof {
        let n = num as int;
        let s = start as int;
        assert(n >= 0 ==> 0 <= n / s <= n) by (nonlinear_arith)
            requires 0 < s;
        assert(n < 0 ==> 0 <= (-n) / s <= -n) by (nonlinear_arith)
            requires 0 < s;
    }
    q as i64
}

/// The clip zoom factor at a narrow aperture: from the projected probe
/// points where both have an image, else from the aperture ratio.
pub fn narrow_zoom(aperture: Angle, start: Angle, left: Option<Vec2>, right: Option<Vec2>) -> (r: i64)
    requires
        aperture.wf(),
        start.wf(),
        0 < start.0,
    ensures
        r == narrow_zoom_factor(aperture.0 as int, start.0 as int, left, right),
{
    match (left, right) {
        (Some(a), Some(b)) => {
            let d: i128 = if b.x >= a.x { b.x as i128 - a.x as i128 } else { a.x as i128 - b.x as i128 };
            let h: i128 = d / 2;
            if h <= ONE as i128 { h as i64 } else { ONE }
        },
        _ => ratio(aperture.0, start.0),
    }
}

/// The aperture kept and the clip zoom factor for a requested aperture.
/// Up to the starting aperture the request is kept and the factor comes
/// from the projected probe points; past it the request is kept with the
/// aperture ratio as factor where the projection can unzoom further, and
/// otherwise the aperture is clamped to the starting one with factor `1.0`.
pub fn zoom_policy(requested: Angle, proj: &ProjectionInfo, left: Option<Vec2>, right: Option<Vec2>) -> (r: (Angle, i64))
    requires
        requested.wf(),
        proj.wf(),
    ensures
        r.0.0 == zoom_outcome(requested.0 as int, *proj, left, right).0,
        r.1 == zoom_outcome(requested.0 as int, *proj, left, right).1,
        r.0.wf(),
{
    let start = proj.aperture_start;
    if requested.0 <= start.0 {
        (requested, narrow_zoom(requested, start, left, right))
    } else if proj.family.can_unzoom_more() {
        (requested, ratio(requested.0, start.0))
    } else {
        (start, ONE)
    }
}

/// The clip-space distance between the two probe images, where both exist.
pub open spec fn probe_spread(left: Option<Vec2>, right: Option<Vec2>) -> Option<int> {
    match (left, right) {
        (Some(a), Some(b)) => Some(if b.x >= a.x { b.x - a.x } else { a.x - b.x }),
        _ => None,
    }
}

/// For a projection that cannot unzoom further, any request wider than the
/// starting aperture keeps exactly the starting aperture, with factor `1.0`.
pub proof fn lemma_no_unzoom_clamps(requested: Angle, proj: ProjectionInfo, left: Option<Vec2>, right: Option<Vec2>)
    requires
        proj.wf(),
        !proj.family.spec_can_unzoom_more(),
        requested.0 > proj.aperture_start.0,
    ensures
        zoom_outcome(requested.0 as int, proj, left, right) == (proj.aperture_start.0 as int, ONE as int),
{
}

/// Up to the starting aperture, the clip zoom factor is at most `1.0`.
pub proof fn lemma_narrow_factor_at_most_one(requested: Angle, proj: ProjectionInfo, left: Option<Vec2>, right: Option<Vec2>)
    requires
        proj.wf(),
        requested.wf(),
        requested.0 <= proj.aperture_start.0,
    ensures
        zoom_outcome(requested.0 as int, proj, left, right).1 <= ONE,
{
    let a = requested.0 as int;
    let s = proj.aperture_start.0 as int;
    if a >= 0 {
        assert(a * ONE <= s * ONE) by (nonlinear_arith) requires a <= s;
        assert((a * ONE) / s <= (s * ONE) / s) by (nonlinear_arith) requires a * ONE <= s * ONE, 0 < s;
        assert((s * ONE) / s == ONE) by (nonlinear_arith) requires 0 < s;
    } else {
        assert(0 <= (-(a * ONE)) / s) by (nonlinear_arith) requires a < 0, 0 < s;
    }
}

proof fn lemma_div_toward_zero_monotone(x: int, y: int, d: int)
    requires
        x <= y,
        0 < d,
    ensures
        div_toward_zero(x, d) <= div_toward_zero(y, d),
{
    if x >= 0 {
        assert(x / d <= y / d) by (nonlinear_arith) requires x <= y, 0 < d;
    } else if y >= 0 {
        assert(0 <= (-x) / d) by (nonlinear_arith) requires x < 0, 0 < d;
        assert(0 <= y / d) by (nonlinear_arith) requires y >= 0, 0 < d;
    } else {
        assert((-y) / d <= (-x) / d) by (nonlinear_arith) requires -y <= -x, 0 < d;
    }
}

/// Zooming in never widens the clip zoom factor: of two requests up to the
/// starting aperture, the narrower one gets a factor no larger, when neither
/// has both probe images, or when both have them and the narrower request's
/// images lie no further apart.
pub proof fn lemma_zoom_in_tightens(
    narrow: Angle,
    wide: Angle,
    proj: ProjectionInfo,
    left: Option<Vec2>,
    right: Option<Vec2>,
    wide_left: Option<Vec2>,
    wide_right: Option<Vec2>,
)
    requires
        proj.wf(),
        narrow.wf(),
        wide.wf(),
        narrow.0 <= wide.0 <= proj.aperture_start.0,
        (probe_spread(left, right) is None && probe_spread(wide_left, wide_right) is None) || (probe_spread(left, right) is Some
            && probe_spread(wide_left, wide_right) is Some && probe_spread(left, right)->0 <= probe_spread(wide_left, wide_right)->0),
    ensures
        zoom_outcome(narrow.0 as int, proj, left, right).1 <= zoom_outcome(wide.0 as int, proj, wide_left, wide_right).1,
{
    let s = proj.aperture_start.0 as int;
    if probe_spread(left, right) is None {
        assert(narrow.0 * ONE <= wide.0 * ONE) by (nonlinear_arith) requires narrow.0 <= wide.0;
        lemma_div_toward_zero_monotone(narrow.0 * ONE, wide.0 * ONE, s);
    } else {
        let dp = probe_spread(left, right)->0;
        let dq = probe_spread(wide_left, wide_right)->0;
        assert(dp / 2 <= dq / 2) by (nonlinear_arith) requires dp <= dq;
    }
}

/// A strictly narrower request records `Zooming` and a strictly wider one
/// `Unzooming`, whatever the last action was; an equal one keeps it.
pub proof fn lemma_zoom_direction(current: crate::UserAction, old: Angle, new: Angle)
    ensures
        old.0 > new.0 ==> zoom_action(current, old.0 as int, new.0 as int) == crate::UserAction::Zooming,
        old.0 < new.0 ==> zoom_action(current, old.0 as int, new.0 as int) == crate::UserAction::Unzooming,
        old.0 == new.0 ==> zoom_action(current, old.0 as int, new.0 as int) == current,
{
}

} // verus!
