//! Camera sync and the oblique projection matrix.

use portal_core::lifecycle::{PortalSlot, PortalSlots, SurfaceHit};
use portal_core::geometry::RatPoint;
use portal_core::mat::Mat3;
use portal_core::projection::{get_projection_matrix, PortalCameraProjection};
use portal_core::sync::{sync_portal_cameras, sync_tick};
use portal_core::vec::{Vec3, Vec4};
use portal_core::xform::Xform;

fn ident() -> Mat3 {
    Mat3::new(1, 0, 0, 0, 1, 0, 0, 0, 1)
}

fn y180() -> Mat3 {
    Mat3::new(-1, 0, 0, 0, 1, 0, 0, 0, -1)
}

#[test]
fn sync_places_cameras_through_the_pair() {
    let a = Xform::new(ident(), Vec3::new(0, 0, 0), 1);
    let b = Xform::new(y180(), Vec3::new(0, 0, 10000), 1);
    let main = Xform::new(ident(), Vec3::new(0, 1500, 2000), 1);
    let mut cam_a = Xform::identity();
    let mut cam_b = Xform::identity();
    let mut proj_a = PortalCameraProjection::default();
    let mut proj_b = PortalCameraProjection::default();
    sync_portal_cameras(&a, &b, &main, &mut cam_a, &mut cam_b, &mut proj_a, &mut proj_b);
    // Camera A stands where the main camera would, mapped A -> B.
    assert_eq!(cam_a.r, ident());
    assert_eq!(cam_a.t, Vec3::new(0, 1500, 11000));
    assert_eq!(cam_a.s, 1);
    // Its near plane is portal B's plane in camera-A coordinates; B's
    // clip-plane centre (0, 0, 9500) must evaluate to zero on it.
    let near = proj_a.near;
    let (lx, ly, lz, lw) = (0 - cam_a.t.x, 0 - cam_a.t.y, 9500 - cam_a.t.z, 1);
    assert_eq!(near.x * lx + near.y * ly + near.z * lz + near.w * lw, 0);
    // Intrinsics besides the near plane are untouched.
    assert_eq!(proj_a.focal, 2414);
    assert_eq!((proj_a.width, proj_a.height), (16, 9));
}

#[test]
fn sync_tick_skips_without_a_pair() {
    fn hit() -> SurfaceHit {
        SurfaceHit {
            rotation: Mat3::new(1, 0, 0, 0, 1, 0, 0, 0, 1),
            rot_s: 1,
            adjusted: RatPoint { num: Vec3::new(0, 0, 0), den: 1000000 },
            normal: Vec3::new(0, 0, 1000),
        }
    }
    let mut slots = PortalSlots::new();
    slots.fire(PortalSlot::A, Some(&hit()));
    let main = Xform::new(ident(), Vec3::new(0, 0, 0), 1);
    let mut cam_a = Xform::identity();
    let mut cam_b = Xform::identity();
    let mut proj_a = PortalCameraProjection::default();
    let mut proj_b = PortalCameraProjection::default();
    let before = (cam_a, cam_b, proj_a, proj_b);
    // Only one portal open: nothing moves.
    sync_tick(&slots, Some(&main), &mut cam_a, &mut cam_b, &mut proj_a, &mut proj_b);
    assert_eq!((cam_a, cam_b, proj_a, proj_b), before);
    // Both portals but no main camera: still nothing.
    slots.fire(PortalSlot::B, Some(&hit()));
    sync_tick(&slots, None, &mut cam_a, &mut cam_b, &mut proj_a, &mut proj_b);
    assert_eq!((cam_a, cam_b, proj_a, proj_b), before);
}

#[test]
fn default_projection_is_sane() {
    let p = PortalCameraProjection::default();
    assert_eq!(p.far(), 1000000);
    assert_eq!(p.near, Vec4 { x: 0, y: 0, z: -1000, w: -100 });
}

#[test]
fn update_recomputes_the_aspect_ratio() {
    let mut p = PortalCameraProjection::default();
    p.update(1280, 720);
    assert_eq!((p.width, p.height), (1280, 720));
    assert_eq!(p.focal, 2414);
}

#[test]
fn oblique_row_is_the_near_plane() {
    let mut p = PortalCameraProjection::default();
    p.near = Vec4 { x: 200, y: -300, z: -1000, w: -450 };
    let m = get_projection_matrix(&p).expect("non-degenerate plane");
    // Any point of the stored plane must map to zero depth. Take two:
    // c . x == 0 for x = (0, -1500, 450, -1000) and x = (9, 6, 0, 0)...
    // check: 200*0 -300*-1500 -1000*450 -450*-1000 = 450000-450000+450000
    // is not zero; build points directly instead.
    // Solve c . x = 0 with w = 1000: 200 x - 300 y - 1000 z = 450000.
    let on_plane = [(2250, 0, 0, 1000), (0, -1500, 0, 1000), (0, 0, -450, 1000)];
    for (x, y, z, w) in on_plane {
        assert_eq!(p.near.x * x + p.near.y * y + p.near.z * z + p.near.w * w, 0);
        assert_eq!(m.r2.x * x + m.r2.y * y + m.r2.z * z + m.r2.w * w, 0);
    }
    // A point off the plane keeps nonzero depth.
    assert_ne!(m.r2.x * 1 + m.r2.w * 1000, m.r2.w * 0);
    // The first two rows scale x and y only.
    assert_eq!((m.r0.y, m.r0.z, m.r0.w), (0, 0, 0));
    assert_eq!((m.r1.x, m.r1.z, m.r1.w), (0, 0, 0));
    assert_eq!((m.r3.x, m.r3.y, m.r3.w), (0, 0, 0));
}

#[test]
fn degenerate_plane_yields_no_matrix() {
    let mut p = PortalCameraProjection::default();
    // A plane whose corner factor vanishes: c with x, y, w zero and z
    // zero too is the degenerate case.
    p.near = Vec4 { x: 0, y: 0, z: 0, w: -450 };
    assert_eq!(get_projection_matrix(&p), None);
}
