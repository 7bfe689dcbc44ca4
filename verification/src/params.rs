//! Tunable parameters of the portal subsystem.
//!
//! Lengths are in millis: thousandths of a world unit. Speeds are in millis
//! per second, durations in milliseconds. The collision-group constants
//! mirror the bit layout the physics engine is configured with.

use vstd::prelude::*;

verus! {

/// Number of millis in one world unit.
pub const MILLI: i128 = 1000;

/// Physical depth of the portal volume in millis; the clip plane sits this
/// far from the portal origin along its back direction.
pub const PORTAL_MESH_DEPTH: i128 = 500;

/// Proximity radius for prop crossing detection, in millis.
pub const PROP_PROXIMITY: i128 = 1000;

/// Proximity radius for player crossing detection, in millis. Larger than
/// the prop radius because the player's origin is at ground level rather
/// than at the volumetric centre.
pub const PLAYER_PROXIMITY: i128 = 2300;

/// Minimum speed, in millis per second, at which the player leaves a portal
/// along the destination's back direction.
pub const MIN_OUTBOUND_SPEED: i128 = 3000;

/// Length of the obstacle-probing rays cast around a candidate portal
/// origin, in millis.
pub const OBSTACLE_RAY_LENGTH: i128 = 1000;

/// Offset added along the surface normal when placing a portal, in millis,
/// so the portal quad does not fight the wall for depth.
pub const SURFACE_OFFSET: i128 = 1;

/// A surface normal within this many millis (per unit of normal length) of
/// vertical classifies the portal as horizontal; see
/// `orientation::classify_orientation`.
pub const VERTICAL_TOLERANCE: i128 = 1;

/// Duration of the roll-correction animation, in milliseconds.
pub const ROLL_ANIMATION_MS: u64 = 400;

/// Duration of the kinematic body-mode window around a teleport, in
/// milliseconds.
pub const BODY_MODE_WINDOW_MS: u64 = 100;

/// Collision group occupied by static walls.
pub const WALLS_GROUP: u32 = 1;

/// Collision group occupied by dynamic props.
pub const PROPS_GROUP: u32 = 2;

/// Collision group occupied by portal sensor volumes.
pub const PORTAL_GROUP: u32 = 4;

/// Collision group occupied by the player body.
pub const PLAYER_GROUP: u32 = 8;

/// Collision group reserved for ray-cast queries.
pub const RAYCAST_GROUP: u32 = 16;

/// Collision group occupied by the ground.
pub const GROUND_GROUP: u32 = 32;

/// Filter accepting every collision group.
pub const ALL_GROUPS: u32 = 0xffff_ffff;

/// Magnitude bound on the rotation entries and divisor of a portal, camera
/// or freshly spawned entity placement handed to the library. Exact
/// rational rotations have small divisors (axis-aligned ones have 1,
/// Pythagorean ones 5, 13, 25, ...), so this is ample.
pub const POSE_ROT_LIMIT: i128 = 32;

/// Magnitude bound on the translation entries of a portal, camera or
/// freshly spawned entity placement handed to the library.
pub const POSE_TRANS_LIMIT: i128 = 0x100_0000;

/// Magnitude bound on the rotation entries and divisor of a composed
/// portal-to-portal map.
pub const MAP_ROT_LIMIT: i128 = 0x2_0000;

/// Magnitude bound on the translation entries of a composed
/// portal-to-portal map.
pub const MAP_TRANS_LIMIT: i128 = 0x100_0000_0000;

/// Magnitude bound on the rotation entries and divisor of a placement
/// derived by one composition: a synced portal camera, or an entity pose
/// right after a teleport.
pub const DERIVED_ROT_LIMIT: i128 = 0x100_0000;

/// Magnitude bound on the translation entries of a derived placement.
pub const DERIVED_TRANS_LIMIT: i128 = 0x4000_0000_0000;

/// Magnitude bound on the rotation entries and divisor of the composition
/// of two portal-to-portal maps.
pub const WIDE_ROT_LIMIT: i128 = 0x10_0000_0000;

/// Magnitude bound on the translation entries of the composition of two
/// portal-to-portal maps.
pub const WIDE_TRANS_LIMIT: i128 = 0x1000_0000_0000_0000;

/// Magnitude bound on the entries of a world-space portal plane.
pub const PLANE_LIMIT: i128 = 0x40_0000_0000;

/// Magnitude bound on the numerator entries of an entity velocity, in
/// millis per second.
pub const VEL_NUM_LIMIT: i128 = 0x100_0000_0000;

/// Magnitude bound on the denominator of an entity velocity.
pub const VEL_DEN_LIMIT: i128 = 0x10_0000;

} // verus!
