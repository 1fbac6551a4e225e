use aladin_camera::canvas::ScissorRect;
use aladin_camera::coosys::CooSystem;
use aladin_camera::math::{Angle, Mat4, Rotation, Vec2, Vec4, ONE};
use aladin_camera::projection::{zoom_policy, ProjectionFamily, ProjectionInfo};
use aladin_camera::viewport::{CameraViewPort, RotationFrame, ScreenConfig, MAX_DPI};
use aladin_camera::UserAction;

fn deg(d: i64) -> Angle {
    Angle(d * 1_000_000)
}

fn proj(family: ProjectionFamily) -> ProjectionInfo {
    ProjectionInfo { family, aperture_start: deg(180) }
}

fn ndc(w: u64, h: u64) -> Vec2 {
    Vec2 { x: (w as i64) * 10, y: (h as i64) * 10 }
}

fn camera(width: u32, height: u32, density: u64) -> CameraViewPort {
    let screen = ScreenConfig { width, height, density };
    CameraViewPort::new(screen, CooSystem::ICRS, &proj(ProjectionFamily::Aitoff), ndc, 7)
}

// Linear projection of a longitude onto the clip x axis: 180 degrees span 1.0.
fn linear(a: Angle) -> Option<Vec2> {
    Some(Vec2 { x: a.0 / 90, y: 0 })
}

fn nowhere(_a: Angle) -> Option<Vec2> {
    None
}

fn inside(_v: Vec2, _z: i64) -> bool {
    true
}

fn outside(_v: Vec2, _z: i64) -> bool {
    false
}

fn compose(a: Rotation, b: Rotation) -> Rotation {
    Rotation { s: a.s, x: a.x + b.x, y: a.y + b.y, z: a.z + b.z }
}

fn frame(base: Rotation, spin: Angle) -> RotationFrame {
    let mut w2m = Mat4::identity();
    w2m.x.y = base.x;
    w2m.y.x = -base.x;
    w2m.z.w = spin.0;
    RotationFrame { final_rot: base, w2m, center: Vec4 { x: base.x, y: base.y, z: base.z, w: ONE } }
}

fn is_transpose(t: &Mat4, m: &Mat4) -> bool {
    let cols = |a: &Mat4| [a.x, a.y, a.z, a.w];
    let row = |v: Vec4| [v.x, v.y, v.z, v.w];
    let (tc, mc) = (cols(t), cols(m));
    (0..4).all(|r| (0..4).all(|c| row(tc[c])[r] == row(mc[r])[c]))
}

#[test]
fn new_camera_starts() {
    let c = camera(800, 600, ONE as u64);
    assert_eq!(c.get_last_user_action(), UserAction::Starting);
    assert_eq!(c.get_aperture(), deg(180));
    assert_eq!(c.get_screen_size(), (800, 600));
    assert_eq!(c.get_clip_zoom_factor(), ONE);
    assert_eq!(*c.get_ndc_to_clip(), Vec2 { x: 8000, y: 6000 });
    assert_eq!(*c.get_center(), Vec4 { x: 0, y: 0, z: ONE, w: ONE });
    assert_eq!(*c.get_w2m(), Mat4::identity());
    assert_eq!(*c.get_m2w(), Mat4::identity());
    assert_eq!(c.get_aspect(), 1_333_333);
    assert_eq!(c.get_time_of_last_move(), 7);
    assert_eq!(*c.get_system(), CooSystem::ICRS);
    assert!(!c.has_moved());
    assert!(c.is_allsky());
    assert!(!c.get_longitude_reversed());
}

#[test]
fn density_is_clamped() {
    let c = camera(100, 50, 4_500_000);
    assert_eq!(c.get_dpi(), MAX_DPI);
    assert_eq!(c.get_width(), 300);
    assert_eq!(c.get_height(), 150);
}

#[test]
fn zoom_to_ninety_degrees() {
    let mut c = camera(800, 600, ONE as u64);
    c.set_aperture(deg(90), &proj(ProjectionFamily::Aitoff), linear, outside);
    assert_eq!(c.get_last_user_action(), UserAction::Zooming);
    assert_eq!(c.get_aperture(), deg(90));
    // the probe points at -45 and +45 degrees land at -0.5 and +0.5
    assert_eq!(c.get_clip_zoom_factor(), 500_000);
    assert!(c.get_clip_zoom_factor() <= ONE);
    assert!(c.is_allsky());
    assert!(c.has_moved());
}

#[test]
fn resize_at_double_density() {
    let mut c = camera(800, 600, 2 * ONE as u64);
    assert_eq!(c.get_width(), 1600);
    c.reset();
    c.set_screen_size(1600, 1200, ndc, inside);
    assert_eq!(c.get_width(), 3200);
    assert_eq!(c.get_height(), 2400);
    assert_eq!(c.get_screen_size(), (3200, 2400));
    assert_eq!(*c.get_ndc_to_clip(), Vec2 { x: 32000, y: 24000 });
    assert_eq!(c.get_last_user_action(), UserAction::Starting);
    assert!(c.has_moved());
    assert!(!c.is_allsky());
}

#[test]
fn healpix_cannot_unzoom_past_start() {
    let p = proj(ProjectionFamily::HEALPix);
    let mut c = CameraViewPort::new(ScreenConfig { width: 10, height: 10, density: ONE as u64 }, CooSystem::GAL, &p, ndc, 0);
    c.set_aperture(deg(250), &p, linear, outside);
    assert_eq!(c.get_aperture(), deg(180));
    assert_eq!(c.get_clip_zoom_factor(), ONE);
    assert_eq!(c.get_last_user_action(), UserAction::Unzooming);
    for family in [ProjectionFamily::Gnomonic, ProjectionFamily::Mercator] {
        assert_eq!(zoom_policy(deg(300), &proj(family), None, None), (deg(180), ONE));
    }
}

#[test]
fn unzoom_where_allowed_keeps_request() {
    let p = proj(ProjectionFamily::Mollweide);
    assert_eq!(zoom_policy(deg(270), &p, None, None), (deg(270), 1_500_000));
}

#[test]
fn zoom_factor_falls_back_to_ratio() {
    let p = proj(ProjectionFamily::Orthographic);
    assert_eq!(zoom_policy(deg(60), &p, None, None), (deg(60), 333_333));
    assert_eq!(zoom_policy(deg(60), &p, Some(Vec2 { x: 1, y: 0 }), None), (deg(60), 333_333));
    let mut c = camera(10, 10, ONE as u64);
    c.set_aperture(deg(45), &p, nowhere, outside);
    assert_eq!(c.get_clip_zoom_factor(), 250_000);
}

#[test]
fn zoom_factor_is_capped_at_one() {
    let p = proj(ProjectionFamily::Stereographic);
    let far = (Some(Vec2 { x: -3 * ONE, y: 0 }), Some(Vec2 { x: 3 * ONE, y: 0 }));
    assert_eq!(zoom_policy(deg(170), &p, far.0, far.1).1, ONE);
}

#[test]
fn zooming_in_tightens_factor() {
    let p = proj(ProjectionFamily::Aitoff);
    let mut last = i64::MAX;
    for d in (1..=180).rev() {
        let a = deg(d);
        let probes = (linear(Angle(-a.0 / 2)), linear(Angle(a.0 / 2)));
        let f = zoom_policy(a, &p, probes.0, probes.1).1;
        assert!(f <= ONE);
        assert!(f <= last);
        last = f;
    }
}

#[test]
fn equal_aperture_keeps_last_action() {
    let mut c = camera(10, 10, ONE as u64);
    c.rotate(Rotation::zero(), compose, frame, 3);
    c.set_aperture(deg(180), &proj(ProjectionFamily::Aitoff), linear, outside);
    assert_eq!(c.get_last_user_action(), UserAction::Moving);
}

#[test]
fn rotation_keeps_transpose() {
    let mut c = camera(10, 10, ONE as u64);
    let delta = Rotation { s: ONE, x: 5, y: 0, z: 0 };
    for step in 0..4u64 {
        c.reset();
        c.rotate(delta, compose, frame, 100 + step);
        assert!(is_transpose(c.get_m2w(), c.get_w2m()));
        assert!(c.has_moved());
        assert_eq!(c.get_last_user_action(), UserAction::Moving);
        assert_eq!(c.get_time_of_last_move(), 100 + step);
    }
    assert_eq!(c.get_rotation().x, 20);
    assert_eq!(c.get_w2m().x.y, 20);
    assert_eq!(c.get_m2w().y.x, 20);
    assert_eq!(*c.get_center(), Vec4 { x: 20, y: 0, z: 0, w: ONE });
}

#[test]
fn spin_is_kept_apart_from_base_rotation() {
    let mut c = camera(10, 10, ONE as u64);
    c.set_rotation_around_center(deg(30), frame, 9);
    assert_eq!(*c.get_rotation_around_center(), deg(30));
    assert_eq!(*c.get_rotation(), Rotation::zero());
    assert_eq!(c.get_w2m().z.w, 30_000_000);
    assert_eq!(c.get_m2w().w.z, 30_000_000);
    assert_eq!(c.get_last_user_action(), UserAction::Moving);
}

fn locate(from: CooSystem, to: CooSystem, v: Vec4) -> Rotation {
    let shift = match (from, to) {
        (CooSystem::ICRS, CooSystem::GAL) => 1000,
        (CooSystem::GAL, CooSystem::ICRS) => -1000,
        _ => 0,
    };
    Rotation { s: ONE, x: v.x + shift, y: v.y, z: v.z }
}

#[test]
fn coo_system_round_trip() {
    let mut c = camera(10, 10, ONE as u64);
    c.set_center(Vec4 { x: 40, y: 1, z: 2, w: ONE }, CooSystem::ICRS, locate, frame, 1);
    let start = *c.get_center();
    assert_eq!(start, Vec4 { x: 40, y: 1, z: 2, w: ONE });
    c.set_coo_system(CooSystem::GAL, locate, frame, 2);
    assert_eq!(*c.get_system(), CooSystem::GAL);
    assert_eq!(c.get_center().x, 1040);
    c.reset();
    c.set_coo_system(CooSystem::ICRS, locate, frame, 3);
    assert_eq!(*c.get_system(), CooSystem::ICRS);
    assert_eq!(*c.get_center(), start);
    assert!(c.has_moved());
}

#[test]
fn moved_flag_lifecycle() {
    let mut c = camera(10, 10, ONE as u64);
    assert!(!c.has_moved());
    c.set_longitude_reversed(true);
    assert!(c.has_moved());
    assert!(c.get_longitude_reversed());
    c.reset();
    assert!(!c.has_moved());
    let _ = c.uniforms();
    let _ = c.get_aperture();
    assert!(!c.has_moved());
    c.set_coo_system(CooSystem::GAL, locate, frame, 5);
    assert!(c.has_moved());
}

#[test]
fn uniforms_follow_state() {
    let mut c = camera(400, 200, ONE as u64);
    c.set_aperture(deg(90), &proj(ProjectionFamily::Aitoff), nowhere, inside);
    let u = c.uniforms();
    assert_eq!(u.ndc_to_clip, Vec2 { x: 4000, y: 2000 });
    assert_eq!(u.clip_zoom_factor, 500_000);
    assert_eq!((u.window_width, u.window_height), (400, 200));
    assert_eq!(u.fov, deg(90));
}

#[test]
fn scissor_is_clamped_to_screen() {
    let c = camera(100, 80, 2 * ONE as u64);
    // clip footprint of 4 by 2 mapped to logical pixels: x * 40 + 10, y * 40 + 5
    let to_screen = |v: Vec2| Vec2 { x: v.x * 40 + 10 * ONE, y: -v.y * 40 + 5 * ONE };
    let r = c.canvas_scissor(Vec2 { x: 4 * ONE, y: 2 * ONE }, to_screen);
    assert_eq!(r, ScissorRect { x: 0, y: 0, width: 200, height: 160 });
    let small = c.canvas_scissor(Vec2 { x: ONE / 2, y: ONE / 2 }, to_screen);
    assert_eq!(small, ScissorRect { x: 0, y: 0, width: 40, height: 40 });
    let shifted = |v: Vec2| Vec2 { x: v.x * 4 + 30 * ONE, y: -v.y * 4 + 20 * ONE };
    let s = c.canvas_scissor(Vec2 { x: 2 * ONE, y: 2 * ONE }, shifted);
    assert_eq!(s, ScissorRect { x: 52, y: 32, width: 16, height: 16 });
}

#[test]
fn angle_from_degrees() {
    assert_eq!(Angle::from_degrees(-45), Angle(-45_000_000));
}

#[test]
fn screen_of_no_height_has_zero_aspect() {
    let c = camera(10, 10, 0);
    assert_eq!(c.get_screen_size(), (0, 0));
    assert_eq!(c.get_aspect(), 0);
}

#[test]
fn negative_aperture_probes_its_magnitude() {
    let p = proj(ProjectionFamily::Aitoff);
    let mut c = camera(10, 10, ONE as u64);
    c.set_aperture(deg(-90), &p, linear, outside);
    assert_eq!(c.get_aperture(), deg(-90));
    assert_eq!(c.get_clip_zoom_factor(), 500_000);
    assert_eq!(c.get_last_user_action(), UserAction::Zooming);
    assert_eq!(zoom_policy(deg(-90), &p, None, None).1, -500_000);
}
