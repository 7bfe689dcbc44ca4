//! Round-trip and clip-plane behaviour of the geometry kernel.

use portal_core::geometry::{get_portal_plane, plane_to_camera_space, portal_to_portal};
use portal_core::mat::Mat3;
use portal_core::vec::{Vec3, Vec4};
use portal_core::xform::{compose, Xform};

fn ident() -> Mat3 {
    Mat3::new(1, 0, 0, 0, 1, 0, 0, 0, 1)
}

fn y180() -> Mat3 {
    Mat3::new(-1, 0, 0, 0, 1, 0, 0, 0, -1)
}

/// Rotation by a quarter turn about the vertical axis.
fn y90() -> Mat3 {
    Mat3::new(0, 0, 1, 0, 1, 0, -1, 0, 0)
}

/// A 3-4-5 rotation in the horizontal plane, scaled by 5.
fn pythagorean() -> Mat3 {
    Mat3::new(3, 0, -4, 0, 5, 0, 4, 0, 3)
}

/// Rotation mapping the local back axis onto world up, as a floor portal
/// has.
fn floorward() -> Mat3 {
    Mat3::new(1, 0, 0, 0, 0, 1, 0, -1, 0)
}

#[test]
fn round_trip_axis_aligned() {
    let a = Xform::new(ident(), Vec3::new(0, 0, 0), 1);
    let b = Xform::new(y90(), Vec3::new(10000, 0, 5000), 1);
    let ab = portal_to_portal(&a, &b);
    let ba = portal_to_portal(&b, &a);
    let rt = compose(&ba, &ab);
    assert!(rt.is_identity_map());
    let rt2 = compose(&ab, &ba);
    assert!(rt2.is_identity_map());
}

#[test]
fn round_trip_oblique() {
    let a = Xform::new(pythagorean(), Vec3::new(-3000, 1500, 200), 5);
    let b = Xform::new(floorward(), Vec3::new(4000, -250, 9000), 1);
    let ab = portal_to_portal(&a, &b);
    let ba = portal_to_portal(&b, &a);
    assert!(compose(&ba, &ab).is_identity_map());
    assert!(compose(&ab, &ba).is_identity_map());
}

#[test]
fn round_trip_is_not_single_hop() {
    let a = Xform::new(ident(), Vec3::new(0, 0, 0), 1);
    let b = Xform::new(y90(), Vec3::new(10000, 0, 5000), 1);
    let ab = portal_to_portal(&a, &b);
    assert!(!ab.is_identity_map());
}

#[test]
fn portal_map_carries_clip_centre() {
    // Wall portal at the origin, facing out along -z; partner ten units
    // away facing back.
    let a = Xform::new(ident(), Vec3::new(0, 0, 0), 1);
    let b = Xform::new(y180(), Vec3::new(0, 0, 10000), 1);
    let ab = portal_to_portal(&a, &b);
    assert_eq!(ab.r, ident());
    assert_eq!(ab.s, 1);
    // Clip centre of a: (0, 0, 500). Mapped: (0, 0, 9500) = clip centre
    // of b.
    let mapped_z = (ab.r.m20 * 0 + ab.r.m21 * 0 + ab.r.m22 * 500 + ab.t.z) / ab.s;
    assert_eq!(mapped_z, 9500);
    assert_eq!(ab.t, Vec3::new(0, 0, 9000));
}

/// Evaluates the camera-local plane on the camera-local homogeneous
/// coordinates of a world point, for a camera placement `(r, t, s)`.
fn near_dot_local(cam: &Xform, near: &Vec4, px: i128, py: i128, pz: i128) -> i128 {
    // Camera-local homogeneous coordinates of (p, 1):
    // (r^T (s p - t), s^2).
    let vx = cam.s * px - cam.t.x;
    let vy = cam.s * py - cam.t.y;
    let vz = cam.s * pz - cam.t.z;
    let lx = cam.r.m00 * vx + cam.r.m10 * vy + cam.r.m20 * vz;
    let ly = cam.r.m01 * vx + cam.r.m11 * vy + cam.r.m21 * vz;
    let lz = cam.r.m02 * vx + cam.r.m12 * vy + cam.r.m22 * vz;
    let lw = cam.s * cam.s;
    near.x * lx + near.y * ly + near.z * lz + near.w * lw
}

#[test]
fn plane_transform_zeroes_points_on_plane() {
    // Five camera/portal configurations; in each, the portal's clip-plane
    // centre must land exactly on the transferred plane.
    let portals = [
        Xform::new(ident(), Vec3::new(0, 0, 0), 1),
        Xform::new(ident(), Vec3::new(2000, -300, 7000), 1),
        Xform::new(y90(), Vec3::new(-5000, 1000, 250), 1),
        Xform::new(pythagorean(), Vec3::new(400, 800, -1200), 5),
        Xform::new(floorward(), Vec3::new(0, -2500, 64), 1),
    ];
    let cameras = [
        Xform::new(ident(), Vec3::new(0, 0, 0), 1),
        Xform::new(y90(), Vec3::new(100, 200, 300), 1),
        Xform::new(pythagorean(), Vec3::new(-1000, 0, 555), 5),
        Xform::new(y180(), Vec3::new(4, 8, 15), 1),
        Xform::new(floorward(), Vec3::new(-16, 23, -42), 1),
    ];
    for i in 0..5 {
        let portal = &portals[i];
        let cam = &cameras[i];
        let plane = get_portal_plane(portal);
        let near = plane_to_camera_space(cam, &plane);
        // The clip-plane centre, homogeneously: (t + 500 * r z, s).
        let cx = portal.t.x + 500 * portal.r.m02;
        let cy = portal.t.y + 500 * portal.r.m12;
        let cz = portal.t.z + 500 * portal.r.m22;
        let w = portal.s;
        // World-plane evaluation must vanish.
        let world = plane.x * cx + plane.y * cy + plane.z * cz + plane.w * w;
        assert_eq!(world, 0);
        // And so must the camera-local evaluation, on camera-local
        // homogeneous coordinates of the same homogeneous point:
        // (r^T (s v - w t), s^2 w).
        let vx = cam.s * cx - w * cam.t.x;
        let vy = cam.s * cy - w * cam.t.y;
        let vz = cam.s * cz - w * cam.t.z;
        let lx = cam.r.m00 * vx + cam.r.m10 * vy + cam.r.m20 * vz;
        let ly = cam.r.m01 * vx + cam.r.m11 * vy + cam.r.m21 * vz;
        let lz = cam.r.m02 * vx + cam.r.m12 * vy + cam.r.m22 * vz;
        let lw = cam.s * cam.s * w;
        assert_eq!(near.x * lx + near.y * ly + near.z * lz + near.w * lw, 0);
    }
}

#[test]
fn plane_transform_keeps_off_plane_points_off() {
    let portal = Xform::new(ident(), Vec3::new(0, 0, 0), 1);
    let cam = Xform::new(y90(), Vec3::new(100, 200, 300), 1);
    let plane = get_portal_plane(&portal);
    let near = plane_to_camera_space(&cam, &plane);
    // A point one milli off the clip plane must not evaluate to zero.
    assert_ne!(near_dot_local(&cam, &near, 0, 0, 501), 0);
    assert_eq!(near_dot_local(&cam, &near, 0, 0, 500), 0);
    assert_eq!(near_dot_local(&cam, &near, 123, -77, 500), 0);
}

#[test]
fn portal_plane_of_wall_portal() {
    let portal = Xform::new(ident(), Vec3::new(0, 0, 10000), 1);
    let plane = get_portal_plane(&portal);
    // Back direction +z, clip centre at z = 10500.
    assert_eq!((plane.x, plane.y, plane.z), (0, 0, 1));
    assert_eq!(plane.w, -10500);
}
