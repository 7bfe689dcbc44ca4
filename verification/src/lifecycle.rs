//! Portal placement and lifecycle: assembling the placement of a freshly
//! fired portal from the surface-hit data, and the two-slot state machine
//! that owns the live portals and their render cameras.

use vstd::prelude::*;

use crate::geometry::RatPoint;
use crate::mat::{Mat3, ortho};
use crate::orientation::{PortalOrientation, spec_is_horizontal};
use crate::params::{
    ALL_GROUPS, MILLI, PORTAL_MESH_DEPTH, POSE_ROT_LIMIT, POSE_TRANS_LIMIT, SURFACE_OFFSET,
};
use crate::rounding::div_round;
use crate::vec::{V3, Vec3, vec_add, vec_scale};
use crate::xform::{XF, Xform};

verus! {

/// One of the two portal slots.
#[derive(Clone, Copy, Debug, PartialEq, Eq, Structural)]
pub enum PortalSlot {
    A,
    B,
}

/// A live portal: its placement, its surface-orientation class, the render
/// camera paired with it once one exists, and whether the other slot was
/// occupied when it was created.
#[derive(Clone, Copy, Debug, PartialEq, Eq, Structural)]
pub struct Portal {
    pub pose: Xform,
    pub orientation: PortalOrientation,
    pub camera: Option<u64>,
    pub linked: bool,
}

impl Portal {
    pub open spec fn wf(self) -> bool {
        &&& self.pose@.wf()
        &&& self.pose@.bounded(POSE_ROT_LIMIT as int, POSE_TRANS_LIMIT as int)
    }

    /// The collision filter that lets a teleport-eligible entity pass
    /// through the surface this portal is cut into.
    pub fn filter_collisions(&self) -> (f: u32)
        ensures
            f == crate::gating::spec_relaxed_filter(self.orientation),
    {
        match self.orientation {
            PortalOrientation::Horizontal => crate::params::PLAYER_GROUP
                | crate::params::PROPS_GROUP | crate::params::PORTAL_GROUP
                | crate::params::WALLS_GROUP,
            PortalOrientation::Other => crate::params::PLAYER_GROUP | crate::params::PROPS_GROUP
                | crate::params::PORTAL_GROUP | crate::params::GROUND_GROUP,
        }
    }

    /// The full collision filter, restored once the entity has left the
    /// portal's vicinity.
    pub fn restore_collisions(&self) -> (f: u32)
        ensures
            f == ALL_GROUPS,
    {
        ALL_GROUPS
    }
}

/// The data a portal shot produces when its ray hits eligible level
/// geometry: the rotation the engine aligned to the surface, the
/// obstacle-adjusted origin, and the milli-unit surface normal.
#[derive(Clone, Copy, Debug, PartialEq, Eq, Structural)]
pub struct SurfaceHit {
    /// Scaled rotation aligning the portal's local frame to the surface.
    pub rotation: Mat3,
    /// Divisor of the rotation.
    pub rot_s: i128,
    /// Obstacle-adjusted portal origin over the denominator
    /// `MILLI * MILLI`; see `geometry::adjust_portal_origin_to_obstacles`.
    pub adjusted: RatPoint,
    /// Milli-unit surface normal at the impact.
    pub normal: Vec3,
}

impl SurfaceHit {
    pub open spec fn wf(self) -> bool {
        &&& ortho(self.rotation@, self.rot_s as int)
        &&& 1 <= self.rot_s <= POSE_ROT_LIMIT
        &&& self.adjusted.den == MILLI * MILLI
        &&& self.adjusted.num@.bounded(450_000_000_000)
        &&& self.normal@.bounded(2 * MILLI as int)
    }
}

/// Common denominator of the exact assembled portal position.
pub open spec fn spec_assembly_den(h: SurfaceHit) -> int {
    (MILLI * MILLI) * MILLI * h.rot_s
}

/// Numerator of the exact assembled portal position over
/// `spec_assembly_den`: the adjusted origin, plus a small offset along the
/// surface normal against depth fighting, plus the mesh depth along the
/// portal's forward axis so the clip plane sits on the surface.
pub open spec fn spec_assembly_num(h: SurfaceHit) -> V3 {
    h.adjusted.num@.scale(MILLI * h.rot_s).add(
        h.normal@.scale(SURFACE_OFFSET * ((MILLI * MILLI) * h.rot_s)),
    ).add(h.rotation@.mul_v(crate::geometry::axis_z()).neg().scale(
        PORTAL_MESH_DEPTH * ((MILLI * MILLI) * MILLI),
    ))
}

/// The placement is the hit's rotation over an origin within half a milli
/// of the exact assembled position.
pub open spec fn spec_assembled_pose(h: SurfaceHit, pose: XF) -> bool {
    let den = spec_assembly_den(h);
    let num = spec_assembly_num(h);
    &&& pose.r == h.rotation@
    &&& pose.s == h.rot_s
    &&& -(h.rot_s * den) <= 2 * (h.rot_s * num.x - den * pose.t.x) < h.rot_s * den
    &&& -(h.rot_s * den) <= 2 * (h.rot_s * num.y - den * pose.t.y) < h.rot_s * den
    &&& -(h.rot_s * den) <= 2 * (h.rot_s * num.z - den * pose.t.z) < h.rot_s * den
}

/// Assembles the placement of a freshly fired portal, rounding the exact
/// rational origin to whole millis.
pub fn assemble_portal_pose(h: &SurfaceHit) -> (pose: Xform)
    requires
        h.wf(),
    ensures
        spec_assembled_pose(*h, pose@),
        pose@.wf(),
        pose@.bounded(POSE_ROT_LIMIT as int, POSE_TRANS_LIMIT as int),
{
    proof {
        crate::mat::lemma_ortho_entry_bound(h.rotation@, h.rot_s as int);
        crate::vec::lemma_abs_mul(MILLI as int, h.rot_s as int, 1000, 32);
        crate::vec::lemma_abs_mul((MILLI * MILLI) as int, h.rot_s as int, 1000000, 32);
        crate::vec::lemma_abs_mul(
            SURFACE_OFFSET as int,
            ((MILLI * MILLI) * h.rot_s) as int,
            1,
            32000000,
        );
        crate::vec::lemma_abs_mul(((MILLI * MILLI) * MILLI) as int, h.rot_s as int, 1000000000,
            32);
        assert(((MILLI * MILLI) * MILLI) * (h.rot_s as int) >= 1000000000) by (nonlinear_arith)
            requires
                h.rot_s >= 1,
        ;
    }
    let sa = vec_scale(&h.adjusted.num, MILLI * h.rot_s, Ghost(450_000_000_000), Ghost(32000));
    let sn = vec_scale(&h.normal, SURFACE_OFFSET * ((MILLI * MILLI) * h.rot_s), Ghost(2000),
        Ghost(32000000));
    let ez = Vec3::new(0, 0, 1);
    let bd = crate::mat::mat_mul_vec(&h.rotation, &ez, Ghost(32), Ghost(1));
    let fw = crate::vec::vec_neg(&bd);
    let sf = vec_scale(&fw, PORTAL_MESH_DEPTH * ((MILLI * MILLI) * MILLI), Ghost(96),
        Ghost(500000000000));
    let t1 = vec_add(&sa, &sn, Ghost(14400000000000000), Ghost(64000000000));
    let num = vec_add(&t1, &sf, Ghost(14464000000000000), Ghost(48000000000000));
    let den = ((MILLI * MILLI) * MILLI) * h.rot_s;
    let px = div_round(num.x, den);
    let py = div_round(num.y, den);
    let pz = div_round(num.z, den);
    proof {
        lemma_rounded_component(num@.x, den as int, px as int, h.rot_s as int);
        lemma_rounded_component(num@.y, den as int, py as int, h.rot_s as int);
        lemma_rounded_component(num@.z, den as int, pz as int, h.rot_s as int);
    }
    let t = Vec3 { x: h.rot_s * px, y: h.rot_s * py, z: h.rot_s * pz };
    Xform { r: h.rotation, t, s: h.rot_s }
}

/// Lifts the rounding bound of one component through the multiplication
/// by the rotation divisor, and bounds the stored translation.
proof fn lemma_rounded_component(n: int, den: int, q: int, s: int)
    by (nonlinear_arith)
    requires
        1 <= s <= 32,
        den == 1000000000 * s,
        -den <= 2 * (n - den * q) < den,
        -14512000000000000 <= n <= 14512000000000000,
    ensures
        -(s * den) <= 2 * (s * n - den * (s * q)) < s * den,
        -16777216 <= s * q <= 16777216,
{
}

/// The two portal slots, each holding at most one live portal, and the
/// allocator for render-camera identifiers.
#[derive(Clone, Copy, Debug, PartialEq, Eq, Structural)]
pub struct PortalSlots {
    pub a: Option<Portal>,
    pub b: Option<Portal>,
    pub next_camera_id: u64,
}

/// What firing a portal did: whether a portal spawned, and which previous
/// portal camera the engine must now despawn.
#[derive(Clone, Copy, Debug, PartialEq, Eq, Structural)]
pub struct FireResult {
    pub fired: bool,
    pub despawned_camera: Option<u64>,
}

impl PortalSlots {
    /// The portal in the given slot.
    pub open spec fn slot(self, s: PortalSlot) -> Option<Portal> {
        match s {
            PortalSlot::A => self.a,
            PortalSlot::B => self.b,
        }
    }

    /// The other slot.
    pub open spec fn spec_other(s: PortalSlot) -> PortalSlot {
        match s {
            PortalSlot::A => PortalSlot::B,
            PortalSlot::B => PortalSlot::A,
        }
    }

    /// Live portals are well formed and their camera identifiers are
    /// distinct allocations below the allocator's cursor.
    pub open spec fn wf(self) -> bool {
        &&& (self.a is Some ==> self.a->0.wf())
        &&& (self.b is Some ==> self.b->0.wf())
        &&& (self.a is Some && self.a->0.camera is Some ==> self.a->0.camera->0
            < self.next_camera_id)
        &&& (self.b is Some && self.b->0.camera is Some ==> self.b->0.camera->0
            < self.next_camera_id)
        &&& (self.a is Some && self.b is Some && self.a->0.camera is Some
            && self.b->0.camera is Some ==> self.a->0.camera->0 != self.b->0.camera->0)
    }

    /// No portals yet.
    pub fn new() -> (s: PortalSlots)
        ensures
            s.wf(),
            s.a is None,
            s.b is None,
            s.next_camera_id == 0,
    {
        PortalSlots { a: None, b: None, next_camera_id: 0 }
    }

    /// Both portals are open, so the pair renders and teleports.
    pub fn linked(&self) -> (r: bool)
        ensures
            r == (self.a is Some && self.b is Some),
    {
        self.a.is_some() && self.b.is_some()
    }

    /// Fires a portal into a slot. A miss (`None`) changes nothing. A hit
    /// destroys whatever portal held the slot before, hands back its
    /// camera for the engine to despawn, and installs the new portal —
    /// camera-less, classified from the surface normal, and linked exactly
    /// when the other slot is occupied.
    pub fn fire(&mut self, slot: PortalSlot, hit: Option<&SurfaceHit>) -> (r: FireResult)
        requires
            old(self).wf(),
            hit is Some ==> hit->0.wf(),
        ensures
            final(self).wf(),
            match hit {
                None => {
                    &&& *final(self) == *old(self)
                    &&& !r.fired
                    &&& r.despawned_camera is None
                },
                Some(h) => {
                    &&& r.fired
                    &&& final(self).slot(slot) is Some
                    &&& ({
                        let p = final(self).slot(slot)->0;
                        &&& spec_assembled_pose(*h, p.pose@)
                        &&& (p.orientation == PortalOrientation::Horizontal <==> spec_is_horizontal(
                            h.normal@,
                        ))
                        &&& p.camera is None
                        &&& p.linked == (old(self).slot(Self::spec_other(slot)) is Some)
                    })
                    &&& final(self).slot(Self::spec_other(slot)) == old(self).slot(
                        Self::spec_other(slot),
                    )
                    &&& final(self).next_camera_id == old(self).next_camera_id
                    &&& r.despawned_camera == (match old(self).slot(slot) {
                        Some(p) => p.camera,
                        None => None::<u64>,
                    })
                },
            },
    {
        match hit {
            None => FireResult { fired: false, despawned_camera: None },
            Some(h) => {
                let pose = assemble_portal_pose(h);
                let orientation = crate::orientation::classify_orientation(&h.normal);
                let (previous, other_occupied) = match slot {
                    PortalSlot::A => (self.a, self.b.is_some()),
                    PortalSlot::B => (self.b, self.a.is_some()),
                };
                let portal = Portal { pose, orientation, camera: None, linked: other_occupied };
                match slot {
                    PortalSlot::A => {
                        self.a = Some(portal);
                    },
                    PortalSlot::B => {
                        self.b = Some(portal);
                    },
                }
                let despawned_camera = match previous {
                    Some(p) => p.camera,
                    None => None,
                };
                FireResult { fired: true, despawned_camera }
            },
        }
    }

    /// Once the main camera is known, lazily pairs a fresh render camera
    /// with the slot's portal if it lacks one; returns the identifier the
    /// engine must spawn a camera entity under.
    pub fn create_portal_cameras(&mut self, slot: PortalSlot, main_camera_known: bool) -> (r:
        Option<u64>)
        requires
            old(self).wf(),
            old(self).next_camera_id < u64::MAX,
        ensures
            final(self).wf(),
            match r {
                Some(id) => {
                    &&& main_camera_known
                    &&& old(self).slot(slot) is Some
                    &&& old(self).slot(slot)->0.camera is None
                    &&& id == old(self).next_camera_id
                    &&& final(self).next_camera_id == old(self).next_camera_id + 1
                    &&& final(self).slot(slot) is Some
                    &&& final(self).slot(slot)->0 == (Portal {
                        camera: Some(id),
                        ..old(self).slot(slot)->0
                    })
                    &&& final(self).slot(Self::spec_other(slot)) == old(self).slot(
                        Self::spec_other(slot),
                    )
                },
                None => {
                    &&& *final(self) == *old(self)
                    &&& (main_camera_known && old(self).slot(slot) is Some ==> old(self).slot(
                        slot,
                    )->0.camera is Some)
                },
            },
    {
        if !main_camera_known {
            return None;
        }
        let current = match slot {
            PortalSlot::A => self.a,
            PortalSlot::B => self.b,
        };
        match current {
            Some(p) => {
                if p.camera.is_none() {
                    let id = self.next_camera_id;
                    self.next_camera_id = id + 1;
                    let updated = Portal { camera: Some(id), ..p };
                    match slot {
                        PortalSlot::A => {
                            self.a = Some(updated);
                        },
                        PortalSlot::B => {
                            self.b = Some(updated);
                        },
                    }
                    Some(id)
                } else {
                    None
                }
            },
            None => None,
        }
    }
}

} // verus!
