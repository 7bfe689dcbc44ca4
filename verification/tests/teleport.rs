//! Crossing detection and teleport application for props and the player.

use portal_core::geometry::RatPoint;
use portal_core::lifecycle::{PortalSlot, PortalSlots, SurfaceHit};
use portal_core::mat::Mat3;
use portal_core::orientation::OrientationCorrection;
use portal_core::teleport::{
    beyond_clip_plane, near_clip_centre, teleport_player, teleport_props, teleport_tick,
    PlayerState, PropState, Velocity,
};
use portal_core::vec::Vec3;
use portal_core::xform::Xform;

fn ident() -> Mat3 {
    Mat3::new(1, 0, 0, 0, 1, 0, 0, 0, 1)
}

fn y180() -> Mat3 {
    Mat3::new(-1, 0, 0, 0, 1, 0, 0, 0, -1)
}

fn floorward() -> Mat3 {
    Mat3::new(1, 0, 0, 0, 0, 1, 0, -1, 0)
}

/// Portal A at the origin facing -z; portal B ten units down +z facing
/// back at it. A's clip centre is (0, 0, 500), B's is (0, 0, 9500).
fn facing_pair() -> (Xform, Xform) {
    (
        Xform::new(ident(), Vec3::new(0, 0, 0), 1),
        Xform::new(y180(), Vec3::new(0, 0, 10000), 1),
    )
}

fn prop_at(x: i128, y: i128, z: i128) -> PropState {
    PropState {
        pose: Xform::new(ident(), Vec3::new(x, y, z), 1),
        vel: Velocity { num: Vec3::new(0, 0, -2000), den: 1 },
        ang: Velocity { num: Vec3::new(0, 0, 0), den: 1 },
    }
}

#[test]
fn crossing_requires_nearness_and_outwardness() {
    let (a, _b) = facing_pair();
    // Half a unit behind the clip plane: near but not beyond.
    let behind = Xform::new(ident(), Vec3::new(0, 0, 1000), 1);
    assert!(near_clip_centre(&behind, &a, 1000));
    assert!(!beyond_clip_plane(&behind, &a));
    // Half a unit past the clip plane: near and beyond.
    let past = Xform::new(ident(), Vec3::new(0, 0, 0), 1);
    assert!(near_clip_centre(&past, &a, 1000));
    assert!(beyond_clip_plane(&past, &a));
    // Two units past: beyond but no longer near.
    let far = Xform::new(ident(), Vec3::new(0, 0, -2000), 1);
    assert!(!near_clip_centre(&far, &a, 1000));
    assert!(beyond_clip_plane(&far, &a));
}

#[test]
fn proximity_threshold_is_strict() {
    let (a, _b) = facing_pair();
    // Exactly one unit from A's clip centre: not yet within the prop
    // radius.
    let at_radius = Xform::new(ident(), Vec3::new(0, 0, -500), 1);
    assert!(!near_clip_centre(&at_radius, &a, 1000));
    let just_inside = Xform::new(ident(), Vec3::new(0, 0, -499), 1);
    assert!(near_clip_centre(&just_inside, &a, 1000));
}

#[test]
fn prop_crossing_teleports_exactly_once() {
    let (a, b) = facing_pair();
    // The prop starts half a unit behind A's clip plane along A's
    // forward direction, moving forward at two units per second.
    let mut props = vec![prop_at(0, 0, 1000)];
    teleport_props(&a, &b, &mut props);
    // Not beyond the plane yet: nothing happens.
    assert_eq!(props[0], prop_at(0, 0, 1000));
    // Integrate half a second of motion: now half a unit beyond.
    props[0].pose.t.z -= 1000;
    teleport_props(&a, &b, &mut props);
    // Teleported: the pre-teleport position carried through the
    // portal-to-portal map lands half a unit out of B's clip plane.
    assert_eq!(props[0].pose.t, Vec3::new(0, 0, 9000));
    assert_eq!(props[0].pose.s, 1);
    assert_eq!(props[0].pose.r, ident());
    // Velocity rotated (identity here).
    assert_eq!(props[0].vel.num, Vec3::new(0, 0, -2000));
    assert_eq!(props[0].vel.den, 1);
    // A second tick at the new position must not re-trigger.
    let copy = props[0];
    teleport_props(&a, &b, &mut props);
    assert_eq!(props[0], copy);
}

#[test]
fn prop_near_but_inbound_is_skipped_even_near_other_portal() {
    let (a, b) = facing_pair();
    let mut props = vec![prop_at(0, 0, 1000), prop_at(0, 0, 8600)];
    // First is behind A's plane (inbound); second is behind B's plane.
    teleport_props(&a, &b, &mut props);
    assert_eq!(props[0], prop_at(0, 0, 1000));
    assert_eq!(props[1], prop_at(0, 0, 8600));
    // Push the second past B's clip plane (outward for B is +z).
    props[1].pose.t.z = 9800;
    let expected_src = props[1];
    teleport_props(&a, &b, &mut props);
    // It teleports through B into A: B->A maps (0,0,9800) to half a
    // unit... compute: map r == ident, t == (0,0,-9000)? By symmetry the
    // exit sits out of A's face.
    assert_ne!(props[1], expected_src);
    assert_eq!(props[1].pose.t, Vec3::new(0, 0, 800));
}

#[test]
fn player_slow_crossing_gets_minimum_outbound_speed() {
    let (a, b) = facing_pair();
    let mut player = PlayerState {
        pose: Xform::new(ident(), Vec3::new(0, 0, 0), 1),
        vel: Velocity { num: Vec3::new(0, 0, -100), den: 1 },
        camera_local: Xform::new(ident(), Vec3::new(0, 1500, 0), 1),
    };
    let c = teleport_player(&a, &b, &mut player);
    // Teleported through A into B; the root stays upright.
    assert_eq!(c, Some(OrientationCorrection::AlreadyUpright));
    assert_eq!(player.pose.t, Vec3::new(0, 0, 9000));
    // Incoming outbound component was 0.1 units/sec; it leaves at
    // exactly the configured minimum of 3 units/sec along B's back.
    assert_eq!(player.vel.num, Vec3::new(0, 0, -3000));
    assert_eq!(player.vel.den, 1);
}

#[test]
fn player_fast_crossing_keeps_its_speed() {
    let (a, b) = facing_pair();
    let mut player = PlayerState {
        pose: Xform::new(ident(), Vec3::new(0, 0, 0), 1),
        vel: Velocity { num: Vec3::new(0, 0, -5000), den: 1 },
        camera_local: Xform::new(ident(), Vec3::new(0, 1500, 0), 1),
    };
    let c = teleport_player(&a, &b, &mut player);
    assert_eq!(c, Some(OrientationCorrection::AlreadyUpright));
    // Above the minimum: the rotated velocity passes through unchanged.
    assert_eq!(player.vel.num, Vec3::new(0, 0, -5000));
    assert_eq!(player.vel.den, 1);
}

#[test]
fn player_far_from_both_portals_is_untouched() {
    let (a, b) = facing_pair();
    let mut player = PlayerState {
        pose: Xform::new(ident(), Vec3::new(50000, 0, 50000), 1),
        vel: Velocity { num: Vec3::new(0, 0, -5000), den: 1 },
        camera_local: Xform::new(ident(), Vec3::new(0, 1500, 0), 1),
    };
    let before = player;
    let c = teleport_player(&a, &b, &mut player);
    assert_eq!(c, None);
    assert_eq!(player, before);
}

#[test]
fn teleports_skip_while_a_portal_is_missing() {
    let mut slots = PortalSlots::new();
    slots.fire(
        PortalSlot::A,
        Some(&SurfaceHit {
            rotation: ident(),
            rot_s: 1,
            adjusted: RatPoint { num: Vec3::new(0, 0, 0), den: 1000000 },
            normal: Vec3::new(0, 0, 1000),
        }),
    );
    // A prop right on slot A's clip plane: it would cross if the pair
    // were open, but the second portal is missing.
    let mut props = vec![prop_at(0, 0, -1000)];
    let mut player = PlayerState {
        pose: Xform::new(ident(), Vec3::new(0, 0, -1000), 1),
        vel: Velocity { num: Vec3::new(0, 0, -2000), den: 1 },
        camera_local: Xform::new(ident(), Vec3::new(0, 1500, 0), 1),
    };
    let props_before = props.clone();
    let player_before = player;
    let c = teleport_tick(&slots, &mut props, &mut player);
    assert_eq!(c, None);
    assert_eq!(props, props_before);
    assert_eq!(player, player_before);
}

#[test]
fn floor_to_wall_teleport_requests_relevel() {
    // Portal A on the floor (back points up); portal B on a wall.
    let a = Xform::new(floorward(), Vec3::new(0, 0, 0), 1);
    let b = Xform::new(y180(), Vec3::new(0, 0, 10000), 1);
    // The player has sunk past the floor portal's clip plane (which sits
    // at y == 500, outward pointing down).
    let mut player = PlayerState {
        pose: Xform::new(ident(), Vec3::new(0, 400, 0), 1),
        vel: Velocity { num: Vec3::new(0, -4000, 0), den: 1 },
        camera_local: Xform::new(ident(), Vec3::new(0, 1500, 0), 1),
    };
    let c = teleport_player(&a, &b, &mut player);
    match c {
        Some(OrientationCorrection::Relevel { look, den, adjust_yaw, adjust_pitch }) => {
            // The map turns the camera's forward (-z) straight up, so the
            // horizontal look component degenerates and only the pitch is
            // re-derived.
            assert_eq!(look, Vec3::new(0, 1, 0));
            assert_eq!(den, 1);
            assert!(!adjust_yaw);
            assert!(adjust_pitch);
        },
        other => panic!("expected a relevel correction, got {:?}", other),
    }
}
