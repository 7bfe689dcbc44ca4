//! Orientation classification, up-axis derivation, obstacle adjustment
//! and the slot lifecycle.

use portal_core::geometry::{adjust_portal_origin_to_obstacles, ObstacleProbes, RatPoint};
use portal_core::mat::Mat3;
use portal_core::lifecycle::{FireResult, Portal, PortalSlot, PortalSlots, SurfaceHit};
use portal_core::orientation::{classify_orientation, derive_portal_up, PortalOrientation};
use portal_core::vec::Vec3;

fn ident() -> Mat3 {
    Mat3::new(1, 0, 0, 0, 1, 0, 0, 0, 1)
}

fn no_probes() -> ObstacleProbes {
    ObstacleProbes { below: None, above: None, left: None, right: None }
}

#[test]
fn vertical_normals_classify_horizontal() {
    assert_eq!(classify_orientation(&Vec3::new(0, 1000, 0)), PortalOrientation::Horizontal);
    assert_eq!(classify_orientation(&Vec3::new(0, -1000, 0)), PortalOrientation::Horizontal);
}

#[test]
fn wall_and_slope_normals_classify_other() {
    assert_eq!(classify_orientation(&Vec3::new(1000, 0, 0)), PortalOrientation::Other);
    assert_eq!(classify_orientation(&Vec3::new(0, 0, -1000)), PortalOrientation::Other);
    // Forty-five degrees from vertical.
    assert_eq!(classify_orientation(&Vec3::new(707, 707, 0)), PortalOrientation::Other);
}

#[test]
fn classification_boundary_is_deterministic() {
    // Tolerance is one milli of horizontal part per unit of length:
    // (1, 1000, 0) sits just inside, (2, 1000, 0) just outside.
    assert_eq!(classify_orientation(&Vec3::new(1, 1000, 0)), PortalOrientation::Horizontal);
    assert_eq!(classify_orientation(&Vec3::new(2, 1000, 0)), PortalOrientation::Other);
}

#[test]
fn up_axis_projects_reference_onto_surface() {
    // Wall normal +x, non-horizontal: world up projects to itself,
    // scaled by the squared normal length.
    let u = derive_portal_up(&Vec3::new(1000, 0, 0), &Vec3::new(0, 0, -1000),
        PortalOrientation::Other);
    assert_eq!(u, Some(Vec3::new(0, 1000000000, 0)));
    // Floor normal +y, horizontal: the shooter's forward projects onto
    // the floor plane.
    let u = derive_portal_up(&Vec3::new(0, 1000, 0), &Vec3::new(600, -800, 0),
        PortalOrientation::Horizontal);
    assert_eq!(u, Some(Vec3::new(600000000, 0, 0)));
}

#[test]
fn up_axis_degenerates_looking_along_normal() {
    // Shooting straight down at the floor: the forward direction has no
    // component in the surface, so no up axis can be derived.
    let u = derive_portal_up(&Vec3::new(0, 1000, 0), &Vec3::new(0, -1000, 0),
        PortalOrientation::Horizontal);
    assert_eq!(u, None);
}

#[test]
fn adjustment_without_obstacles_keeps_the_origin() {
    let base = Vec3::new(4000, 2000, -1000);
    let adjusted = adjust_portal_origin_to_obstacles(&base, &Vec3::new(0, 0, 1000),
        &Vec3::new(0, 1000, 0), &no_probes());
    assert_eq!(adjusted.den, 1000000);
    assert_eq!(adjusted.num, Vec3::new(4000000000, 2000000000, -1000000000));
}

#[test]
fn adjustment_shifts_away_from_obstacles() {
    let base = Vec3::new(0, 0, 0);
    let up = Vec3::new(0, 1000, 0);
    let normal = Vec3::new(0, 0, 1000);
    // An obstruction 0.4 units below: shift up by the 0.6-unit shortfall.
    let probes = ObstacleProbes { below: Some(400), ..no_probes() };
    let adjusted = adjust_portal_origin_to_obstacles(&base, &normal, &up, &probes);
    assert_eq!(adjusted.num, Vec3::new(0, 600000000, 0));
    // An obstruction above instead: shift down.
    let probes = ObstacleProbes { above: Some(250), ..no_probes() };
    let adjusted = adjust_portal_origin_to_obstacles(&base, &normal, &up, &probes);
    assert_eq!(adjusted.num, Vec3::new(0, -750000000, 0));
    // The below probe wins over the above probe.
    let probes = ObstacleProbes { below: Some(400), above: Some(250), ..no_probes() };
    let adjusted = adjust_portal_origin_to_obstacles(&base, &normal, &up, &probes);
    assert_eq!(adjusted.num, Vec3::new(0, 600000000, 0));
    // A lateral obstruction on the left: shift right, along
    // up x normal = +x (times the milli-unit square).
    let probes = ObstacleProbes { left: Some(100), ..no_probes() };
    let adjusted = adjust_portal_origin_to_obstacles(&base, &normal, &up, &probes);
    assert_eq!(adjusted.num, Vec3::new(900000000, 0, 0));
}

fn wall_hit_at(x: i128, y: i128, z: i128) -> SurfaceHit {
    SurfaceHit {
        rotation: ident(),
        rot_s: 1,
        adjusted: RatPoint { num: Vec3::new(x * 1000000, y * 1000000, z * 1000000), den: 1000000 },
        normal: Vec3::new(0, 0, 1000),
    }
}

#[test]
fn fire_installs_a_classified_camera_less_portal() {
    let mut slots = PortalSlots::new();
    let r = slots.fire(PortalSlot::A, Some(&wall_hit_at(1000, 2000, 3000)));
    assert!(r.fired);
    assert_eq!(r.despawned_camera, None);
    let p = slots.a.expect("portal in slot A");
    assert_eq!(p.orientation, PortalOrientation::Other);
    assert_eq!(p.camera, None);
    assert!(!p.linked);
    // Origin plus one milli along the normal plus half a unit along the
    // forward axis (-z).
    assert_eq!(p.pose.t, Vec3::new(1000, 2000, 2501));
    assert_eq!(p.pose.s, 1);
    assert!(slots.b.is_none());
}

#[test]
fn firing_a_slot_twice_leaves_one_portal_and_one_camera() {
    let mut slots = PortalSlots::new();
    slots.fire(PortalSlot::A, Some(&wall_hit_at(0, 0, 0)));
    let first_cam = slots.create_portal_cameras(PortalSlot::A, true);
    assert_eq!(first_cam, Some(0));
    assert_eq!(slots.a.unwrap().camera, Some(0));
    // Re-fire the same slot somewhere else: the first portal and its
    // camera are gone.
    let r = slots.fire(PortalSlot::A, Some(&wall_hit_at(5, 5, 5)));
    assert!(r.fired);
    assert_eq!(r.despawned_camera, Some(0));
    assert_eq!(slots.a.unwrap().camera, None);
    let second_cam = slots.create_portal_cameras(PortalSlot::A, true);
    assert_eq!(second_cam, Some(1));
    assert_eq!(slots.a.unwrap().camera, Some(1));
    // Exactly one live portal in the slot, carrying exactly the second
    // camera; slot B never existed.
    assert!(slots.b.is_none());
    assert_eq!(slots.next_camera_id, 2);
}

#[test]
fn fire_miss_is_a_no_op() {
    let mut slots = PortalSlots::new();
    let r = slots.fire(PortalSlot::B, None);
    assert_eq!(r, FireResult { fired: false, despawned_camera: None });
    assert!(slots.a.is_none() && slots.b.is_none());
}

#[test]
fn second_portal_links_to_the_first() {
    let mut slots = PortalSlots::new();
    slots.fire(PortalSlot::A, Some(&wall_hit_at(0, 0, 0)));
    slots.fire(PortalSlot::B, Some(&wall_hit_at(10, 0, 0)));
    assert!(!slots.a.unwrap().linked);
    assert!(slots.b.unwrap().linked);
    assert!(slots.linked());
}

#[test]
fn cameras_wait_for_the_main_camera() {
    let mut slots = PortalSlots::new();
    slots.fire(PortalSlot::A, Some(&wall_hit_at(0, 0, 0)));
    assert_eq!(slots.create_portal_cameras(PortalSlot::A, false), None);
    assert_eq!(slots.a.unwrap().camera, None);
    assert_eq!(slots.create_portal_cameras(PortalSlot::B, true), None);
    assert_eq!(slots.create_portal_cameras(PortalSlot::A, true), Some(0));
}

#[test]
fn collision_filters_follow_orientation() {
    let horizontal = Portal {
        pose: portal_core::xform::Xform::new(ident(), Vec3::new(0, 0, 0), 1),
        orientation: PortalOrientation::Horizontal,
        camera: None,
        linked: false,
    };
    // Horizontal portals keep colliding with walls but pass the ground.
    assert_eq!(horizontal.filter_collisions(), 8 | 2 | 4 | 1);
    let wall = Portal { orientation: PortalOrientation::Other, ..horizontal };
    assert_eq!(wall.filter_collisions(), 8 | 2 | 4 | 32);
    assert_eq!(wall.restore_collisions(), 0xffff_ffff);
}
