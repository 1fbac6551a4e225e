//! The camera viewport: screen geometry, aperture and zoom, rotation state,
//! coordinate system and the last action of the user.
//!
//! What needs projection formulas or rotation arithmetic is handed in as a
//! function value; the camera decides when each is called and with what, and
//! keeps its own state consistent with the answers.
use vstd::prelude::*;
use crate::UserAction;
use crate::coosys::CooSystem;
use crate::math::{Angle, Mat4, Rotation, Vec2, Vec4, ONE, is_transpose};
use crate::projection::{ProjectionInfo, zoom_policy, zoom_outcome, zoom_action, probe_half_span, probe_half};

verus! {

/// The largest pixel density the camera draws at, in fixed point (`3.0`).
pub const MAX_DPI: u64 = 3_000_000;

/// The screen the camera starts on: its logical size in pixels and the
/// device pixel density in fixed point.
#[derive(PartialEq, Eq, Structural, Clone, Copy, Debug)]
pub struct ScreenConfig {
    pub width: u32,
    pub height: u32,
    pub density: u64,
}

/// What a base rotation and a spin about the view axis give: the composite
/// rotation, its world-to-model transform and the view center in model space.
#[derive(PartialEq, Eq, Structural, Clone, Copy, Debug)]
pub struct RotationFrame {
    pub final_rot: Rotation,
    pub w2m: Mat4,
    pub center: Vec4,
}

/// The values a shader reads from the camera each frame.
#[derive(PartialEq, Eq, Structural, Clone, Copy, Debug)]
pub struct Uniforms {
    pub ndc_to_clip: Vec2,
    pub clip_zoom_factor: i64,
    pub window_width: u64,
    pub window_height: u64,
    pub fov: Angle,
}

/// The state of a camera, as its contracts speak of it.
pub struct CameraState {
    pub aperture: Angle,
    pub center: Vec4,
    pub rotation_center_angle: Angle,
    pub w2m_rot: Rotation,
    pub final_rot: Rotation,
    pub w2m: Mat4,
    pub m2w: Mat4,
    /// Width over height, in fixed point; zero on a screen of no height.
    pub aspect: u128,
    pub width: u64,
    pub height: u64,
    pub dpi: u64,
    pub ndc_to_clip: Vec2,
    pub clip_zoom_factor: i64,
    pub moved: bool,
    pub last_user_action: UserAction,
    pub is_allsky: bool,
    pub time_last_move: u64,
    pub system: CooSystem,
    pub reversed_longitude: bool,
}

/// The camera looking at the celestial sphere.
pub struct CameraViewPort {
    aperture: Angle,
    center: Vec4,
    rotation_center_angle: Angle,
    w2m_rot: Rotation,
    final_rot: Rotation,
    w2m: Mat4,
    m2w: Mat4,
    aspect: u128,
    width: u64,
    height: u64,
    dpi: u64,
    ndc_to_clip: Vec2,
    clip_zoom_factor: i64,
    moved: bool,
    last_user_action: UserAction,
    is_allsky: bool,
    time_last_move: u64,
    system: CooSystem,
    reversed_longitude: bool,
}

impl View for CameraViewPort {
    type V = CameraState;

    closed spec fn view(&self) -> CameraState {
        CameraState {
            aperture: self.aperture,
            center: self.center,
            rotation_center_angle: self.rotation_center_angle,
            w2m_rot: self.w2m_rot,
            final_rot: self.final_rot,
            w2m: self.w2m,
            m2w: self.m2w,
            aspect: self.aspect,
            width: self.width,
            height: self.height,
            dpi: self.dpi,
            ndc_to_clip: self.ndc_to_clip,
            clip_zoom_factor: self.clip_zoom_factor,
            moved: self.moved,
            last_user_action: self.last_user_action,
            is_allsky: self.is_allsky,
            time_last_move: self.time_last_move,
            system: self.system,
            reversed_longitude: self.reversed_longitude,
        }
    }
}

/// The density the camera draws at: the device's, at most `MAX_DPI`.
pub open spec fn clamp_dpi(density: int) -> int {
    if density > MAX_DPI { MAX_DPI as int } else { density }
}

/// A logical length in physical pixels at density `dpi`.
pub open spec fn physical(logical: int, dpi: int) -> int {
    logical * dpi / (ONE as int)
}

/// Width over height in fixed point, zero where the height is zero.
pub open spec fn aspect_of(width: int, height: int) -> int {
    if height == 0 { 0 } else { width * ONE / height }
}

/// The largest physical length: a logical `u32` at the largest density.
pub open spec fn max_physical() -> int {
    physical(u32::MAX as int, MAX_DPI as int)
}

/// The state after a rotation update from base rotation `base` and spin
/// `spin`, with `fr` the frame they give, at time `now`.
pub open spec fn moved_to(s: CameraState, base: Rotation, spin: Angle, fr: RotationFrame, now: u64) -> CameraState {
    CameraState {
        w2m_rot: base,
        rotation_center_angle: spin,
        final_rot: fr.final_rot,
        w2m: fr.w2m,
        m2w: fr.w2m.spec_transpose(),
        center: fr.center,
        time_last_move: now,
        last_user_action: UserAction::Moving,
        moved: true,
        ..s
    }
}

/// `left` and `right` are what `project` answers for the two probe points of
/// `aperture`; the second is asked only where the first has an image.
pub open spec fn probed<P: Fn(Angle) -> Option<Vec2>>(project: P, aperture: int, left: Option<Vec2>, right: Option<Vec2>) -> bool {
    &&& project.ensures((Angle(-probe_half(aperture) as i64),), left)
    &&& left is Some ==> project.ensures((Angle(probe_half(aperture) as i64),), right)
    &&& left is None ==> right is None
}

impl CameraState {
    /// The invariant of a camera: the model-to-world transform is the
    /// transpose of the world-to-model one, the density is clamped, the
    /// aperture fits and the aspect ratio follows the screen size.
    pub open spec fn wf(self) -> bool {
        &&& self.m2w == self.w2m.spec_transpose()
        &&& 0 <= self.dpi <= MAX_DPI
        &&& self.aperture.wf()
        &&& self.width <= max_physical()
        &&& self.height <= max_physical()
        &&& self.aspect == aspect_of(self.width as int, self.height as int)
    }
}

/// Whatever the camera went through, its model-to-world transform is the
/// exact transpose of its world-to-model one, and the other way round.
pub proof fn lemma_m2w_is_transpose(camera: &CameraViewPort)
    requires
        camera@.wf(),
    ensures
        is_transpose(camera@.m2w, camera@.w2m),
        is_transpose(camera@.w2m, camera@.m2w),
{
}

fn physical_size(logical: u32, dpi: u64) -> (r: u64)
    requires
        dpi <= MAX_DPI,
    ensures
        r == physical(logical as int, dpi as int),
        r <= max_physical(),
{
    proof {
        let l = logical as int;
        let d = dpi as int;
        assert(0 <= l * d <= u32::MAX * MAX_DPI) by (nonlinear_arith)
            requires 0 <= l <= u32::MAX, 0 <= d <= MAX_DPI;
        assert(l * d / (ONE as int) <= (u32::MAX * MAX_DPI) / (ONE as int)) by (nonlinear_arith)
            requires 0 <= l * d <= u32::MAX * MAX_DPI;
    }
    (logical as u64 * dpi) / (ONE as u64)
}

fn aspect_ratio(width: u64, height: u64) -> (r: u128)
    requires
        width <= max_physical(),
    ensures
        r == aspect_of(width as int, height as int),
{
    if height == 0 {
        0
    } else {
        proof {
            assert(width as int * ONE <= max_physical() * ONE) by (nonlinear_arith)
                requires width <= max_physical();
            assert(width as int * ONE / height as int <= width as int * ONE) by (nonlinear_arith)
                requires 0 < height, 0 <= width as int * ONE;
        }
        (width as u128 * ONE as u128) / height as u128
    }
}

impl CameraViewPort {
    /// A camera on `screen`, expressed in `system`, at the starting aperture
    /// of `proj`: no rotation, zoom factor `1.0`, density clamped to
    /// `MAX_DPI`, physical size the logical one times the density.
    /// `ndc_factor` gives the projection's clip-space scale for a physical
    /// screen size.
    pub fn new<F>(screen: ScreenConfig, system: CooSystem, proj: &ProjectionInfo, ndc_factor: F, now: u64) -> (r: CameraViewPort)
        where
            F: Fn(u64, u64) -> Vec2,
        requires
            proj.wf(),
            forall|w: u64, h: u64| ndc_factor.requires((w, h)),
        ensures
            r@.wf(),
            r@.aperture == proj.aperture_start,
            r@.dpi == clamp_dpi(screen.density as int),
            r@.width == physical(screen.width as int, r@.dpi as int),
            r@.height == physical(screen.height as int, r@.dpi as int),
            ndc_factor.ensures((r@.width, r@.height), r@.ndc_to_clip),
            r@.center == (Vec4 { x: 0, y: 0, z: ONE, w: ONE }),
            r@.w2m == Mat4::spec_identity(),
            r@.m2w == Mat4::spec_identity(),
            r@.w2m_rot == Rotation::spec_zero(),
            r@.final_rot == Rotation::spec_zero(),
            r@.rotation_center_angle == Angle(0),
            r@.clip_zoom_factor == ONE,
            !r@.moved,
            r@.last_user_action == UserAction::Starting,
            r@.is_allsky,
            r@.time_last_move == now,
            r@.system == system,
            !r@.reversed_longitude,
    {
        let dpi: u64 = if screen.density > MAX_DPI { MAX_DPI } else { screen.density };
        let width = physical_size(screen.width, dpi);
        let height = physical_size(screen.height, dpi);
        let ndc_to_clip = ndc_factor(width, height);
        let w2m = Mat4::identity();
        let m2w = w2m.transpose();
        CameraViewPort {
            aperture: proj.aperture_start,
            center: Vec4 { x: 0, y: 0, z: ONE, w: ONE },
            rotation_center_angle: Angle(0),
            w2m_rot: Rotation::zero(),
            final_rot: Rotation::zero(),
            w2m,
            m2w,
            aspect: aspect_ratio(width, height),
            width,
            height,
            dpi,
            ndc_to_clip,
            clip_zoom_factor: ONE,
            moved: false,
            last_user_action: UserAction::Starting,
            is_allsky: true,
            time_last_move: now,
            system,
            reversed_longitude: false,
        }
    }

    /// Resizes the screen to `width` by `height` logical pixels: the
    /// physical size, aspect ratio and clip-space scale (`ndc_factor`) are
    /// recomputed, the camera has moved and the last action is `Starting`.
    /// The sky covers the whole screen exactly when `corner_inside`, asked
    /// for the clip-space scale and zoom factor, says that the corner of the
    /// screen falls outside the projection.
    pub fn set_screen_size<F, G>(&mut self, width: u32, height: u32, ndc_factor: F, corner_inside: G)
        where
            F: Fn(u64, u64) -> Vec2,
            G: Fn(Vec2, i64) -> bool,
        requires
            old(self)@.wf(),
            0 < width,
            0 < height,
            forall|w: u64, h: u64| ndc_factor.requires((w, h)),
            forall|v: Vec2, z: i64| corner_inside.requires((v, z)),
        ensures
            final(self)@.wf(),
            final(self)@.width == physical(width as int, old(self)@.dpi as int),
            final(self)@.height == physical(height as int, old(self)@.dpi as int),
            ndc_factor.ensures((final(self)@.width, final(self)@.height), final(self)@.ndc_to_clip),
            corner_inside.ensures((final(self)@.ndc_to_clip, old(self)@.clip_zoom_factor), !final(self)@.is_allsky),
            final(self)@ == (CameraState {
                width: final(self)@.width,
                height: final(self)@.height,
                aspect: aspect_of(final(self)@.width as int, final(self)@.height as int) as u128,
                ndc_to_clip: final(self)@.ndc_to_clip,
                is_allsky: final(self)@.is_allsky,
                moved: true,
                last_user_action: UserAction::Starting,
                ..old(self)@
            }),
    {
        self.width = physical_size(width, self.dpi);
        self.height = physical_size(height, self.dpi);
        self.aspect = aspect_ratio(self.width, self.height);
        self.ndc_to_clip = ndc_factor(self.width, self.height);
        self.moved = true;
        self.last_user_action = UserAction::Starting;
        let inside = corner_inside(self.ndc_to_clip, self.clip_zoom_factor);
        self.is_allsky = !inside;
    }

    /// Changes the aperture. A request narrower than the current aperture
    /// records `Zooming`, a wider one `Unzooming`, an equal one leaves the
    /// last action. Up to the starting aperture of `proj`, `project` is asked
    /// for the clip-space images of the equator points at longitudes
    /// `-|aperture|/2` and then `+|aperture|/2`; the aperture kept and the zoom
    /// factor are then those of `zoom_outcome`. The camera has moved, and the
    /// sky covers the screen exactly when `corner_inside` says that the
    /// corner falls outside the projection.
    pub fn set_aperture<P, G>(&mut self, aperture: Angle, proj: &ProjectionInfo, project: P, corner_inside: G)
        where
            P: Fn(Angle) -> Option<Vec2>,
            G: Fn(Vec2, i64) -> bool,
        requires
            old(self)@.wf(),
            aperture.wf(),
            proj.wf(),
            forall|a: Angle| project.requires((a,)),
            forall|v: Vec2, z: i64| corner_inside.requires((v, z)),
        ensures
            final(self)@.wf(),
            exists|left: Option<Vec2>, right: Option<Vec2>|
                #![trigger zoom_outcome(aperture.0 as int, *proj, left, right)]
                {
                    &&& aperture.0 <= proj.aperture_start.0 ==> probed(project, aperture.0 as int, left, right)
                    &&& final(self)@.aperture.0 == zoom_outcome(aperture.0 as int, *proj, left, right).0
                    &&& final(self)@.clip_zoom_factor == zoom_outcome(aperture.0 as int, *proj, left, right).1
                },
            corner_inside.ensures((old(self)@.ndc_to_clip, final(self)@.clip_zoom_factor), !final(self)@.is_allsky),
            final(self)@ == (CameraState {
                aperture: final(self)@.aperture,
                clip_zoom_factor: final(self)@.clip_zoom_factor,
                is_allsky: final(self)@.is_allsky,
                moved: true,
                last_user_action: zoom_action(old(self)@.last_user_action, old(self)@.aperture.0 as int, aperture.0 as int),
                ..old(self)@
            }),
    {
        self.last_user_action = if self.aperture.0 > aperture.0 {
            UserAction::Zooming
        } else if self.aperture.0 < aperture.0 {
            UserAction::Unzooming
        } else {
            self.last_user_action
        };
        let mut left: Option<Vec2> = None;
        let mut right: Option<Vec2> = None;
        if aperture.0 <= proj.aperture_start.0 {
            let half = probe_half_span(aperture);
            left = project(Angle(-half.0));
            if left.is_some() {
                right = project(half);
            }
        }
        let (kept, czf) = zoom_policy(aperture, proj, left, right);
        self.aperture = kept;
        self.clip_zoom_factor = czf;
        self.moved = true;
        let inside = corner_inside(self.ndc_to_clip, self.clip_zoom_factor);
        self.is_allsky = !inside;
        assert(zoom_outcome(aperture.0 as int, *proj, left, right).1 == czf);
    }

    /// Folds the current base rotation and spin into the derived state:
    /// `frame` gives the composite rotation, its transform and the center;
    /// the inverse transform is the transpose.
    fn update_rot_matrices<R>(&mut self, frame: R, now: u64) -> (fr: RotationFrame)
        where
            R: Fn(Rotation, Angle) -> RotationFrame,
        requires
            old(self)@.wf(),
            forall|b: Rotation, a: Angle| frame.requires((b, a)),
        ensures
            final(self)@.wf(),
            frame.ensures((old(self)@.w2m_rot, old(self)@.rotation_center_angle), fr),
            final(self)@ == moved_to(old(self)@, old(self)@.w2m_rot, old(self)@.rotation_center_angle, fr, now),
    {
        let fr = frame(self.w2m_rot, self.rotation_center_angle);
        self.final_rot = fr.final_rot;
        self.w2m = fr.w2m;
        self.m2w = fr.w2m.transpose();
        self.center = fr.center;
        self.time_last_move = now;
        self.last_user_action = UserAction::Moving;
        self.moved = true;
        fr
    }

    /// Rotates the camera by `delta`, applied in world space after the
    /// current base rotation: the new base rotation is
    /// `compose(delta, base)`, that is `delta * base`.
    pub fn rotate<C, R>(&mut self, delta: Rotation, compose: C, frame: R, now: u64)
        where
            C: Fn(Rotation, Rotation) -> Rotation,
            R: Fn(Rotation, Angle) -> RotationFrame,
        requires
            old(self)@.wf(),
            forall|a: Rotation, b: Rotation| compose.requires((a, b)),
            forall|b: Rotation, a: Angle| frame.requires((b, a)),
        ensures
            final(self)@.wf(),
            compose.ensures((delta, old(self)@.w2m_rot), final(self)@.w2m_rot),
            exists|fr: RotationFrame|
                #![trigger moved_to(old(self)@, final(self)@.w2m_rot, old(self)@.rotation_center_angle, fr, now)]
                frame.ensures((final(self)@.w2m_rot, old(self)@.rotation_center_angle), fr)
                && final(self)@ == moved_to(old(self)@, final(self)@.w2m_rot, old(self)@.rotation_center_angle, fr, now),
    {
        let base = compose(delta, self.w2m_rot);
        let fr = self.set_rotation(base, frame, now);
        assert(frame.ensures((self@.w2m_rot, old(self)@.rotation_center_angle), fr));
    }

    /// Installs `base` as the base rotation, replacing the current one.
    fn set_rotation<R>(&mut self, base: Rotation, frame: R, now: u64) -> (fr: RotationFrame)
        where
            R: Fn(Rotation, Angle) -> RotationFrame,
        requires
            old(self)@.wf(),
            forall|b: Rotation, a: Angle| frame.requires((b, a)),
        ensures
            final(self)@.wf(),
            frame.ensures((base, old(self)@.rotation_center_angle), fr),
            final(self)@ == moved_to(old(self)@, base, old(self)@.rotation_center_angle, fr, now),
    {
        self.w2m_rot = base;
        self.update_rot_matrices(frame, now)
    }

    /// Centers the view on `position`, a direction expressed in `system`:
    /// `locate(system, current system, position)` gives the rotation that
    /// takes the reference pole there, which replaces the base rotation.
    pub fn set_center<L, R>(&mut self, position: Vec4, system: CooSystem, locate: L, frame: R, now: u64)
        where
            L: Fn(CooSystem, CooSystem, Vec4) -> Rotation,
            R: Fn(Rotation, Angle) -> RotationFrame,
        requires
            old(self)@.wf(),
            forall|a: CooSystem, b: CooSystem, v: Vec4| locate.requires((a, b, v)),
            forall|b: Rotation, a: Angle| frame.requires((b, a)),
        ensures
            final(self)@.wf(),
            locate.ensures((system, old(self)@.system, position), final(self)@.w2m_rot),
            exists|fr: RotationFrame|
                #![trigger moved_to(old(self)@, final(self)@.w2m_rot, old(self)@.rotation_center_angle, fr, now)]
                frame.ensures((final(self)@.w2m_rot, old(self)@.rotation_center_angle), fr)
                && final(self)@ == moved_to(old(self)@, final(self)@.w2m_rot, old(self)@.rotation_center_angle, fr, now),
    {
        let base = locate(system, self.system, position);
        let fr = self.set_rotation(base, frame, now);
        assert(frame.ensures((self@.w2m_rot, old(self)@.rotation_center_angle), fr));
    }

    /// Expresses the camera in `new_system`: the current center, converted
    /// by `locate(current system, new_system, center)`, gives the new base
    /// rotation; then the system is recorded.
    pub fn set_coo_system<L, R>(&mut self, new_system: CooSystem, locate: L, frame: R, now: u64)
        where
            L: Fn(CooSystem, CooSystem, Vec4) -> Rotation,
            R: Fn(Rotation, Angle) -> RotationFrame,
        requires
            old(self)@.wf(),
            forall|a: CooSystem, b: CooSystem, v: Vec4| locate.requires((a, b, v)),
            forall|b: Rotation, a: Angle| frame.requires((b, a)),
        ensures
            final(self)@.wf(),
            final(self)@.system == new_system,
            locate.ensures((old(self)@.system, new_system, old(self)@.center), final(self)@.w2m_rot),
            exists|fr: RotationFrame|
                #![trigger moved_to(old(self)@, final(self)@.w2m_rot, old(self)@.rotation_center_angle, fr, now)]
                frame.ensures((final(self)@.w2m_rot, old(self)@.rotation_center_angle), fr)
                && final(self)@ == (CameraState {
                    system: new_system,
                    ..moved_to(old(self)@, final(self)@.w2m_rot, old(self)@.rotation_center_angle, fr, now)
                }),
    {
        let base = locate(self.system, new_system, self.center);
        let fr = self.set_rotation(base, frame, now);
        self.system = new_system;
        assert(frame.ensures((self@.w2m_rot, old(self)@.rotation_center_angle), fr));
    }

    /// Spins the view by `theta` about its own axis, independently of the
    /// base rotation.
    pub fn set_rotation_around_center<R>(&mut self, theta: Angle, frame: R, now: u64)
        where
            R: Fn(Rotation, Angle) -> RotationFrame,
        requires
            old(self)@.wf(),
            forall|b: Rotation, a: Angle| frame.requires((b, a)),
        ensures
            final(self)@.wf(),
            exists|fr: RotationFrame|
                #![trigger moved_to(old(self)@, old(self)@.w2m_rot, theta, fr, now)]
                frame.ensures((old(self)@.w2m_rot, theta), fr)
                && final(self)@ == moved_to(old(self)@, old(self)@.w2m_rot, theta, fr, now),
    {
        self.rotation_center_angle = theta;
        let fr = self.update_rot_matrices(frame, now);
        assert(frame.ensures((old(self)@.w2m_rot, theta), fr));
        assert(self@ == moved_to(old(self)@, old(self)@.w2m_rot, theta, fr, now));
    }

    /// Turns the longitude axis around; the camera has moved.
    pub fn set_longitude_reversed(&mut self, reversed_longitude: bool)
        ensures
            final(self)@ == (CameraState { reversed_longitude, moved: true, ..old(self)@ }),
    {
        self.reversed_longitude = reversed_longitude;
        self.moved = true;
    }

    pub fn get_longitude_reversed(&self) -> (r: bool)
        ensures
            r == self@.reversed_longitude,
    {
        self.reversed_longitude
    }

    /// The base rotation, without the spin about the view axis.
    pub fn get_rotation(&self) -> (r: &Rotation)
        ensures
            *r == self@.w2m_rot,
    {
        &self.w2m_rot
    }

    /// The composite of the spin about the view axis and the base rotation.
    pub fn get_final_rotation(&self) -> (r: &Rotation)
        ensures
            *r == self@.final_rot,
    {
        &self.final_rot
    }

    pub fn get_w2m(&self) -> (r: &Mat4)
        ensures
            *r == self@.w2m,
    {
        &self.w2m
    }

    pub fn get_m2w(&self) -> (r: &Mat4)
        ensures
            *r == self@.m2w,
    {
        &self.m2w
    }

    /// Width over height of the physical screen, in fixed point.
    pub fn get_aspect(&self) -> (r: u128)
        ensures
            r == self@.aspect,
    {
        self.aspect
    }

    pub fn get_ndc_to_clip(&self) -> (r: &Vec2)
        ensures
            *r == self@.ndc_to_clip,
    {
        &self.ndc_to_clip
    }

    pub fn get_clip_zoom_factor(&self) -> (r: i64)
        ensures
            r == self@.clip_zoom_factor,
    {
        self.clip_zoom_factor
    }

    /// Physical width and height, in pixels.
    pub fn get_screen_size(&self) -> (r: (u64, u64))
        ensures
            r == (self@.width, self@.height),
    {
        (self.width, self.height)
    }

    pub fn get_width(&self) -> (r: u64)
        ensures
            r == self@.width,
    {
        self.width
    }

    pub fn get_height(&self) -> (r: u64)
        ensures
            r == self@.height,
    {
        self.height
    }

    pub fn get_last_user_action(&self) -> (r: UserAction)
        ensures
            r == self@.last_user_action,
    {
        self.last_user_action
    }

    pub fn get_dpi(&self) -> (r: u64)
        ensures
            r == self@.dpi,
    {
        self.dpi
    }

    /// Whether the camera has moved since the last `reset`.
    pub fn has_moved(&self) -> (r: bool)
        ensures
            r == self@.moved,
    {
        self.moved
    }

    /// Clears the moved flag, once per rendered frame.
    pub fn reset(&mut self)
        ensures
            final(self)@ == (CameraState { moved: false, ..old(self)@ }),
    {
        self.moved = false;
    }

    pub fn get_aperture(&self) -> (r: Angle)
        ensures
            r == self@.aperture,
    {
        self.aperture
    }

    /// The view center in model space.
    pub fn get_center(&self) -> (r: &Vec4)
        ensures
            *r == self@.center,
    {
        &self.center
    }

    pub fn is_allsky(&self) -> (r: bool)
        ensures
            r == self@.is_allsky,
    {
        self.is_allsky
    }

    pub fn get_time_of_last_move(&self) -> (r: u64)
        ensures
            r == self@.time_last_move,
    {
        self.time_last_move
    }

    pub fn get_system(&self) -> (r: &CooSystem)
        ensures
            *r == self@.system,
    {
        &self.system
    }

    pub fn get_rotation_around_center(&self) -> (r: &Angle)
        ensures
            *r == self@.rotation_center_angle,
    {
        &self.rotation_center_angle
    }

    /// The values bound to the shaders: clip-space scale, zoom factor,
    /// physical window size and aperture.
    pub fn uniforms(&self) -> (r: Uniforms)
        ensures
            r == (Uniforms {
                ndc_to_clip: self@.ndc_to_clip,
                clip_zoom_factor: self@.clip_zoom_factor,
                window_width: self@.width,
                window_height: self@.height,
                fov: self@.aperture,
            }),
    {
        Uniforms {
            ndc_to_clip: self.ndc_to_clip,
            clip_zoom_factor: self.clip_zoom_factor,
            window_width: self.width,
            window_height: self.height,
            fov: self.aperture,
        }
    }
}

} // verus!
