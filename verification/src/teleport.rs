//! Teleportation engine: crossing detection against a portal's clip plane
//! and the once-per-crossing relocation of props and of the player.

use vstd::prelude::*;

use crate::geometry::{
    back_dir, clip_centre_h, forward_dir, portal_to_portal, spec_portal_to_portal,
};
use crate::mat::mat_mul_vec;
use crate::orientation::{adjust_player_camera_on_teleport, OrientationCorrection, spec_carried_look, spec_component_usable, spec_is_upright};
use crate::params::{
    DERIVED_ROT_LIMIT, DERIVED_TRANS_LIMIT, MAP_ROT_LIMIT, MAP_TRANS_LIMIT, MIN_OUTBOUND_SPEED,
    PLAYER_PROXIMITY, POSE_ROT_LIMIT, POSE_TRANS_LIMIT, PROP_PROXIMITY, VEL_DEN_LIMIT,
    VEL_NUM_LIMIT,
};
use crate::vec::{
    lemma_abs_mul, lemma_dot_bound, V3, Vec3, vec_add, vec_dot, vec_scale, vec_sub,
};
use crate::xform::{XF, Xform, xform_compose};

verus! {

/// A linear or angular velocity as an exact rational: numerator in millis
/// per second over a positive denominator.
#[derive(Clone, Copy, Debug, PartialEq, Eq, Structural)]
pub struct Velocity {
    pub num: Vec3,
    pub den: i128,
}

impl Velocity {
    pub open spec fn wf(self) -> bool {
        1 <= self.den <= VEL_DEN_LIMIT && self.num@.bounded(VEL_NUM_LIMIT as int)
    }
}

/// A teleport-eligible prop: its placement and its linear and angular
/// velocities.
#[derive(Clone, Copy, Debug, PartialEq, Eq, Structural)]
pub struct PropState {
    pub pose: Xform,
    pub vel: Velocity,
    pub ang: Velocity,
}

impl PropState {
    pub open spec fn wf(self) -> bool {
        &&& self.pose@.bounded(DERIVED_ROT_LIMIT as int, DERIVED_TRANS_LIMIT as int)
        &&& self.pose@.s >= 1
        &&& self.vel.wf()
        &&& self.ang.wf()
    }
}

/// The entity sits within `threshold` millis of the portal's clip-plane
/// centre.
pub open spec fn spec_near(entity: XF, portal: XF, threshold: int) -> bool {
    let c = clip_centre_h(portal);
    let den = entity.s * c.w;
    let off = entity.t.scale(c.w).sub(c.xyz().scale(entity.s));
    off.norm_sq() < (threshold * threshold) * (den * den)
}

/// The entity has passed beyond the portal's clip plane in the outward
/// (forward) direction.
pub open spec fn spec_outward(entity: XF, portal: XF) -> bool {
    let c = clip_centre_h(portal);
    let off = entity.t.scale(c.w).sub(c.xyz().scale(entity.s));
    off.dot(forward_dir(portal)) > 0
}

/// The entity is crossing out through the portal: near its clip-plane
/// centre and beyond the plane in the outward direction.
pub open spec fn spec_crossing(entity: XF, portal: XF, threshold: int) -> bool {
    spec_near(entity, portal, threshold) && spec_outward(entity, portal)
}

/// A velocity carried through a portal map: the rotation applies to the
/// numerator and the map's divisor joins the denominator.
pub open spec fn spec_rotated_vel(pre: Velocity, post: Velocity, map: XF) -> bool {
    &&& post.num@ == map.r.mul_v(pre.num@)
    &&& post.den == pre.den * map.s
}

/// Executable proximity test. The entity placement may be one already
/// derived by a teleport; the portal must be within the pose limits.
pub fn near_clip_centre(entity: &Xform, portal: &Xform, threshold: i128) -> (r: bool)
    requires
        entity@.bounded(DERIVED_ROT_LIMIT as int, DERIVED_TRANS_LIMIT as int),
        entity@.s >= 1,
        portal@.bounded(POSE_ROT_LIMIT as int, POSE_TRANS_LIMIT as int),
        portal@.s >= 1,
        1 <= threshold <= 4000,
    ensures
        r == spec_near(entity@, portal@, threshold as int),
{
    let ez = Vec3::new(0, 0, 1);
    let bd = mat_mul_vec(&portal.r, &ez, Ghost(32), Ghost(1));
    let nd = vec_scale(&bd, crate::params::PORTAL_MESH_DEPTH, Ghost(96), Ghost(500));
    let cv = vec_add(&portal.t, &nd, Ghost(16777216), Ghost(48000));
    let te = vec_scale(&entity.t, portal.s, Ghost(0x4000_0000_0000), Ghost(32));
    let cs = vec_scale(&cv, entity.s, Ghost(16825216), Ghost(0x100_0000));
    let off = vec_sub(&te, &cs, Ghost(0x8_0000_0000_0000), Ghost(0x60_0000_0000_0000));
    let n2 = vec_dot(&off, &off, Ghost(0x68_0000_0000_0000), Ghost(0x68_0000_0000_0000));
    proof {
        lemma_abs_mul(entity@.s, portal@.s, 0x100_0000, 32);
        lemma_abs_mul(threshold as int, threshold as int, 4000, 4000);
        lemma_abs_mul(
            (entity@.s * portal@.s) as int,
            (entity@.s * portal@.s) as int,
            0x2000_0000,
            0x2000_0000,
        );
        lemma_abs_mul(
            (threshold * threshold) as int,
            ((entity@.s * portal@.s) * (entity@.s * portal@.s)) as int,
            16000000,
            0x4_0000_0000_0000_0000,
        );
    }
    let den = entity.s * portal.s;
    let d2 = den * den;
    n2 < (threshold * threshold) * d2
}

/// Executable outward test against the portal's forward direction.
pub fn beyond_clip_plane(entity: &Xform, portal: &Xform) -> (r: bool)
    requires
        entity@.bounded(DERIVED_ROT_LIMIT as int, DERIVED_TRANS_LIMIT as int),
        entity@.s >= 1,
        portal@.bounded(POSE_ROT_LIMIT as int, POSE_TRANS_LIMIT as int),
        portal@.s >= 1,
    ensures
        r == spec_outward(entity@, portal@),
{
    let ez = Vec3::new(0, 0, 1);
    let bd = mat_mul_vec(&portal.r, &ez, Ghost(32), Ghost(1));
    let nd = vec_scale(&bd, crate::params::PORTAL_MESH_DEPTH, Ghost(96), Ghost(500));
    let cv = vec_add(&portal.t, &nd, Ghost(16777216), Ghost(48000));
    let te = vec_scale(&entity.t, portal.s, Ghost(0x4000_0000_0000), Ghost(32));
    let cs = vec_scale(&cv, entity.s, Ghost(16825216), Ghost(0x100_0000));
    let off = vec_sub(&te, &cs, Ghost(0x8_0000_0000_0000), Ghost(0x60_0000_0000_0000));
    let fwd = crate::vec::vec_neg(&bd);
    let d = vec_dot(&off, &fwd, Ghost(0x68_0000_0000_0000), Ghost(96));
    d > 0
}

/// A prop carried through a portal map: the placement is composed with
/// the map and both velocities are rotated by it.
pub open spec fn spec_teleported_prop(pre: PropState, post: PropState, map: XF) -> bool {
    &&& post.pose@ == map.compose(pre.pose@)
    &&& spec_rotated_vel(pre.vel, post.vel, map)
    &&& spec_rotated_vel(pre.ang, post.ang, map)
}

/// What one tick of the teleport pass does to a single prop: relocate it
/// through the first portal it is crossing out of, else through the
/// second, else leave it alone. A prop near the first portal but not
/// beyond its plane is left alone even if it is also crossing the second,
/// matching the order the checks run in.
pub open spec fn spec_prop_step(pre: PropState, post: PropState, a: XF, b: XF) -> bool {
    if spec_near(pre.pose@, a, PROP_PROXIMITY as int) {
        if spec_outward(pre.pose@, a) {
            spec_teleported_prop(pre, post, spec_portal_to_portal(a, b))
        } else {
            post == pre
        }
    } else if spec_crossing(pre.pose@, b, PROP_PROXIMITY as int) {
        spec_teleported_prop(pre, post, spec_portal_to_portal(b, a))
    } else {
        post == pre
    }
}

/// Rotates a velocity through a portal map.
fn rotate_velocity(map: &Xform, v: &Velocity) -> (r: Velocity)
    requires
        map@.bounded(MAP_ROT_LIMIT as int, MAP_TRANS_LIMIT as int),
        v.wf(),
    ensures
        spec_rotated_vel(*v, r, map@),
{
    let num = mat_mul_vec(&map.r, &v.num, Ghost(0x2_0000), Ghost(0x100_0000_0000));
    proof {
        lemma_abs_mul(v.den as int, map@.s, 0x10_0000, 0x2_0000);
    }
    Velocity { num, den: v.den * map.s }
}

/// One tick of the prop-teleportation pass over every teleport-eligible
/// prop: each prop crossing out through a portal is relocated through the
/// pair exactly once, everything else is untouched. The two composed maps
/// are built lazily, at most once each per tick.
pub fn teleport_props(portal_a: &Xform, portal_b: &Xform, props: &mut Vec<PropState>)
    requires
        portal_a@.wf(),
        portal_b@.wf(),
        portal_a@.bounded(POSE_ROT_LIMIT as int, POSE_TRANS_LIMIT as int),
        portal_b@.bounded(POSE_ROT_LIMIT as int, POSE_TRANS_LIMIT as int),
        forall|i: int| 0 <= i < old(props)@.len() ==> old(props)@[i].wf(),
    ensures
        final(props)@.len() == old(props)@.len(),
        forall|i: int|
            0 <= i < old(props)@.len() ==> spec_prop_step(
                old(props)@[i],
                final(props)@[i],
                portal_a@,
                portal_b@,
            ),
{
    let mut a_to_b: Option<Xform> = None;
    let mut b_to_a: Option<Xform> = None;
    let mut i: usize = 0;
    while i < props.len()
        invariant
            portal_a@.wf(),
            portal_b@.wf(),
            portal_a@.bounded(POSE_ROT_LIMIT as int, POSE_TRANS_LIMIT as int),
            portal_b@.bounded(POSE_ROT_LIMIT as int, POSE_TRANS_LIMIT as int),
            forall|j: int| 0 <= j < old(props)@.len() ==> old(props)@[j].wf(),
            props@.len() == old(props)@.len(),
            0 <= i <= props@.len(),
            forall|j: int| i <= j < props@.len() ==> props@[j] == old(props)@[j],
            forall|j: int|
                0 <= j < i ==> spec_prop_step(old(props)@[j], props@[j], portal_a@, portal_b@),
            a_to_b is Some ==> (a_to_b->0@ == spec_portal_to_portal(portal_a@, portal_b@)
                && a_to_b->0@.bounded(MAP_ROT_LIMIT as int, MAP_TRANS_LIMIT as int)),
            b_to_a is Some ==> (b_to_a->0@ == spec_portal_to_portal(portal_b@, portal_a@)
                && b_to_a->0@.bounded(MAP_ROT_LIMIT as int, MAP_TRANS_LIMIT as int)),
        decreases props@.len() - i,
    {
        let p = props[i];
        if near_clip_centre(&p.pose, &portal_a, PROP_PROXIMITY) {
            if beyond_clip_plane(&p.pose, &portal_a) {
                let map = match a_to_b {
                    Some(m) => m,
                    None => {
                        let m = portal_to_portal(&portal_a, &portal_b);
                        a_to_b = Some(m);
                        m
                    },
                };
                let np = apply_map_to_prop(&map, &p);
                props.set(i, np);
            }
        } else if near_clip_centre(&p.pose, &portal_b, PROP_PROXIMITY) && beyond_clip_plane(
            &p.pose,
            &portal_b,
        ) {
            let map = match b_to_a {
                Some(m) => m,
                None => {
                    let m = portal_to_portal(&portal_b, &portal_a);
                    b_to_a = Some(m);
                    m
                },
            };
            let np = apply_map_to_prop(&map, &p);
            props.set(i, np);
        }
        i += 1;
    }
}

/// Minimum-outbound-speed enforcement over exact rational velocities
/// given as numerator and denominator: where the component of the
/// velocity `pre` along the destination's back direction falls short of
/// the configured minimum, it is raised to exactly that minimum;
/// otherwise the velocity is untouched.
pub open spec fn spec_min_outbound(
    pre_num: V3,
    pre_den: int,
    post_num: V3,
    post_den: int,
    dest: XF,
) -> bool {
    let bd = back_dir(dest);
    let comp = pre_num.dot(bd);
    if comp < MIN_OUTBOUND_SPEED * (pre_den * dest.s) {
        &&& post_num == pre_num.scale(dest.s * dest.s).add(
            bd.scale(MIN_OUTBOUND_SPEED * (pre_den * dest.s) - comp),
        )
        &&& post_den == pre_den * (dest.s * dest.s)
    } else {
        post_num == pre_num && post_den == pre_den
    }
}

/// Executable minimum-outbound-speed enforcement against the destination
/// portal.
fn enforce_min_outbound(v: &Velocity, dest: &Xform) -> (r: Velocity)
    requires
        dest@.wf(),
        dest@.bounded(POSE_ROT_LIMIT as int, POSE_TRANS_LIMIT as int),
        v.num@.bounded(0x800_0000_0000_0000),
        1 <= v.den <= 0x40_0000_0000,
    ensures
        spec_min_outbound(v.num@, v.den as int, r.num@, r.den as int, dest@),
        r.den >= 1,
{
    let ez = Vec3::new(0, 0, 1);
    let bd = mat_mul_vec(&dest.r, &ez, Ghost(32), Ghost(1));
    let comp = vec_dot(&v.num, &bd, Ghost(0x800_0000_0000_0000), Ghost(96));
    proof {
        lemma_dot_bound(v.num@, bd@, 0x800_0000_0000_0000, 96);
        lemma_abs_mul(v.den as int, dest@.s, 0x40_0000_0000, 32);
        lemma_abs_mul(
            MIN_OUTBOUND_SPEED as int,
            (v.den * dest.s) as int,
            3000,
            0x800_0000_0000,
        );
        lemma_abs_mul(dest@.s, dest@.s, 32, 32);
    }
    let floor = MIN_OUTBOUND_SPEED * (v.den * dest.s);
    if comp < floor {
        let s2 = dest.s * dest.s;
        let sn = vec_scale(&v.num, s2, Ghost(0x800_0000_0000_0000), Ghost(1024));
        let boost = vec_scale(&bd, floor - comp, Ghost(96), Ghost(0x4000_0000_0000_0000_0000));
        let num = vec_add(&sn, &boost, Ghost(0x200_0000_0000_0000_0000),
            Ghost(0x18_0000_0000_0000_0000_0000));
        proof {
            lemma_abs_mul(v.den as int, (dest.s * dest.s) as int, 0x40_0000_0000, 1024);
            assert(v.den * (dest@.s * dest@.s) >= 1) by (nonlinear_arith)
                requires
                    v.den >= 1,
                    dest@.s >= 1,
            ;
        }
        Velocity { num, den: v.den * s2 }
    } else {
        *v
    }
}

/// Minimum-outbound-speed law: the enforced velocity's component along
/// the destination's back direction reaches the configured minimum, and a
/// velocity already fast enough outward passes through unchanged with its
/// speed preserved.
pub proof fn lemma_min_outbound_speed(
    pre_num: V3,
    pre_den: int,
    post_num: V3,
    post_den: int,
    dest: XF,
)
    requires
        dest.wf(),
        pre_den >= 1,
        spec_min_outbound(pre_num, pre_den, post_num, post_den, dest),
    ensures
        post_den >= 1,
        post_num.dot(back_dir(dest)) >= MIN_OUTBOUND_SPEED * (post_den * dest.s),
        pre_num.dot(back_dir(dest)) >= MIN_OUTBOUND_SPEED * (pre_den * dest.s) ==> (post_num
            == pre_num && post_den == pre_den),
{
    let bd = back_dir(dest);
    let comp = pre_num.dot(bd);
    let floor = MIN_OUTBOUND_SPEED * (pre_den * dest.s);
    crate::geometry::lemma_back_dir_norm(dest);
    if comp < floor {
        let delta = floor - comp;
        crate::vec::lemma_dot_comm(pre_num.scale(dest.s * dest.s).add(bd.scale(delta)), bd);
        crate::vec::lemma_dot_add(bd, pre_num.scale(dest.s * dest.s), bd.scale(delta));
        crate::vec::lemma_dot_comm(bd, pre_num.scale(dest.s * dest.s));
        crate::vec::lemma_dot_scale(pre_num, bd, dest.s * dest.s);
        crate::vec::lemma_dot_comm(bd, bd.scale(delta));
        crate::vec::lemma_dot_scale(bd, bd, delta);
        // post . bd == s^2 * comp + delta * s^2 == s^2 * floor
        assert(post_num.dot(bd) == (dest.s * dest.s) * comp + delta * (dest.s * dest.s));
        assert(post_num.dot(bd) == MIN_OUTBOUND_SPEED * (post_den * dest.s)) by (nonlinear_arith)
            requires
                post_num.dot(bd) == (dest.s * dest.s) * comp + (floor - comp) * (dest.s * dest.s),
                floor == MIN_OUTBOUND_SPEED * (pre_den * dest.s),
                post_den == pre_den * (dest.s * dest.s),
        ;
        assert(post_den >= 1) by (nonlinear_arith)
            requires
                pre_den >= 1,
                dest.s >= 1,
                post_den == pre_den * (dest.s * dest.s),
        ;
    }
}

/// Rotating a velocity through a well-formed map preserves its speed
/// exactly: the squared numerator lengths and squared denominators scale
/// by the same factor.
pub proof fn lemma_rotation_preserves_speed(num: V3, den: int, map: XF)
    requires
        map.wf(),
    ensures
        map.r.mul_v(num).norm_sq() * (den * den) == num.norm_sq() * ((den * map.s) * (den
            * map.s)),
{
    crate::mat::lemma_rot_dot(map.r, map.s, num, num);
    assert(((map.s * map.s) * num.dot(num)) * (den * den) == num.dot(num) * ((den * map.s) * (den
        * map.s))) by (nonlinear_arith);
}

/// The player's state: root placement, linear velocity, and the local
/// placement of the camera anchor under the root.
#[derive(Clone, Copy, Debug, PartialEq, Eq, Structural)]
pub struct PlayerState {
    pub pose: Xform,
    pub vel: Velocity,
    pub camera_local: Xform,
}

impl PlayerState {
    pub open spec fn wf(self) -> bool {
        &&& self.pose@.bounded(POSE_ROT_LIMIT as int, POSE_TRANS_LIMIT as int)
        &&& self.pose@.s >= 1
        &&& self.camera_local@.bounded(POSE_ROT_LIMIT as int, POSE_TRANS_LIMIT as int)
        &&& self.camera_local@.s >= 1
        &&& self.vel.wf()
    }
}

/// The player carried through a portal map toward `dest`: the root
/// placement is composed, the velocity is rotated and then held to the
/// minimum outbound speed, the camera-local placement is untouched, and
/// the returned orientation correction reports exactly whether the new
/// root is upright and, if not, the carried look direction with its
/// degeneracy guards.
pub open spec fn spec_player_teleported(
    pre: PlayerState,
    post: PlayerState,
    c: Option<OrientationCorrection>,
    map: XF,
    dest: XF,
) -> bool {
    let rn = map.r.mul_v(pre.vel.num@);
    let rd = pre.vel.den * map.s;
    &&& post.pose@ == map.compose(pre.pose@)
    &&& post.camera_local == pre.camera_local
    &&& spec_min_outbound(rn, rd, post.vel.num@, post.vel.den as int, dest)
    &&& match c {
        Some(cor) => {
            &&& (cor == OrientationCorrection::AlreadyUpright <==> spec_is_upright(post.pose@))
            &&& match cor {
                OrientationCorrection::AlreadyUpright => true,
                OrientationCorrection::Relevel { look, den, adjust_yaw, adjust_pitch } => {
                    &&& look@ == spec_carried_look(map, pre.camera_local@)
                    &&& den == map.s * pre.camera_local@.s
                    &&& adjust_yaw == spec_component_usable(look@.x, look@.z, den as int)
                    &&& adjust_pitch == spec_component_usable(look@.y, look@.z, den as int)
                },
            }
        },
        None => false,
    }
}

/// What one tick of the player-teleportation pass does: relocate the
/// player through the portal it is crossing out of, with orientation
/// correction and minimum outbound speed, or leave everything alone.
pub open spec fn spec_player_step(
    pre: PlayerState,
    post: PlayerState,
    c: Option<OrientationCorrection>,
    a: XF,
    b: XF,
) -> bool {
    if spec_near(pre.pose@, a, PLAYER_PROXIMITY as int) {
        if spec_outward(pre.pose@, a) {
            spec_player_teleported(pre, post, c, spec_portal_to_portal(a, b), b)
        } else {
            post == pre && c is None
        }
    } else if spec_near(pre.pose@, b, PLAYER_PROXIMITY as int) {
        if spec_outward(pre.pose@, b) {
            spec_player_teleported(pre, post, c, spec_portal_to_portal(b, a), a)
        } else {
            post == pre && c is None
        }
    } else {
        post == pre && c is None
    }
}

/// One tick of the player-teleportation pass.
pub fn teleport_player(portal_a: &Xform, portal_b: &Xform, player: &mut PlayerState) -> (c: Option<
    OrientationCorrection,
>)
    requires
        portal_a@.wf(),
        portal_b@.wf(),
        portal_a@.bounded(POSE_ROT_LIMIT as int, POSE_TRANS_LIMIT as int),
        portal_b@.bounded(POSE_ROT_LIMIT as int, POSE_TRANS_LIMIT as int),
        old(player).wf(),
    ensures
        spec_player_step(*old(player), *final(player), c, portal_a@, portal_b@),
{
    if near_clip_centre(&player.pose, &portal_a, PLAYER_PROXIMITY) {
        if beyond_clip_plane(&player.pose, &portal_a) {
            Some(teleport_player_through(portal_a, portal_b, player))
        } else {
            None
        }
    } else if near_clip_centre(&player.pose, &portal_b, PLAYER_PROXIMITY) {
        if beyond_clip_plane(&player.pose, &portal_b) {
            Some(teleport_player_through(portal_b, portal_a, player))
        } else {
            None
        }
    } else {
        None
    }
}

/// Relocates the player out of `src` and into `dst`.
fn teleport_player_through(src: &Xform, dst: &Xform, player: &mut PlayerState) -> (c:
    OrientationCorrection)
    requires
        src@.wf(),
        dst@.wf(),
        src@.bounded(POSE_ROT_LIMIT as int, POSE_TRANS_LIMIT as int),
        dst@.bounded(POSE_ROT_LIMIT as int, POSE_TRANS_LIMIT as int),
        old(player).wf(),
    ensures
        spec_player_teleported(
            *old(player),
            *final(player),
            Some(c),
            spec_portal_to_portal(src@, dst@),
            dst@,
        ),
{
    let map = portal_to_portal(&src, &dst);
    let pose = xform_compose(&map, &player.pose, Ghost(0x2_0000), Ghost(0x100_0000_0000),
        Ghost(32), Ghost(0x100_0000));
    let rotated = rotate_velocity(&map, &player.vel);
    proof {
        lemma_abs_mul(old(player).vel.den as int, map@.s, 0x10_0000, 0x2_0000);
        crate::mat::lemma_mul_v_bounded(map@.r, old(player).vel.num@, 0x2_0000,
            0x100_0000_0000);
        let vd = old(player).vel.den as int;
        let ms = map@.s;
        assert(vd * ms >= 1) by (nonlinear_arith)
            requires
                vd >= 1,
                ms >= 1,
        ;
    }
    let vel = enforce_min_outbound(&rotated, &dst);
    let cor = adjust_player_camera_on_teleport(&map, &player.camera_local, &pose);
    player.pose = pose;
    player.vel = vel;
    cor
}

/// Per-tick teleportation against the slot state: when either portal is
/// missing, neither props nor the player move — the expected steady state
/// before a second portal is fired, not an error.
pub fn teleport_tick(
    slots: &crate::lifecycle::PortalSlots,
    props: &mut Vec<PropState>,
    player: &mut PlayerState,
) -> (c: Option<OrientationCorrection>)
    requires
        slots.wf(),
        slots.a is Some ==> slots.a->0.pose@.wf(),
        slots.b is Some ==> slots.b->0.pose@.wf(),
        forall|i: int| 0 <= i < old(props)@.len() ==> old(props)@[i].wf(),
        old(player).wf(),
    ensures
        match (slots.a, slots.b) {
            (Some(pa), Some(pb)) => {
                &&& final(props)@.len() == old(props)@.len()
                &&& forall|i: int|
                    0 <= i < old(props)@.len() ==> spec_prop_step(
                        old(props)@[i],
                        final(props)@[i],
                        pa.pose@,
                        pb.pose@,
                    )
                &&& spec_player_step(*old(player), *final(player), c, pa.pose@, pb.pose@)
            },
            _ => {
                &&& final(props)@ == old(props)@
                &&& *final(player) == *old(player)
                &&& c is None
            },
        },
{
    match (&slots.a, &slots.b) {
        (Some(pa), Some(pb)) => {
            teleport_props(&pa.pose, &pb.pose, props);
            teleport_player(&pa.pose, &pb.pose, player)
        },
        _ => None,
    }
}

/// Carries one prop through an already-composed portal map.
fn apply_map_to_prop(map: &Xform, p: &PropState) -> (r: PropState)
    requires
        map@.bounded(MAP_ROT_LIMIT as int, MAP_TRANS_LIMIT as int),
        p.wf(),
    ensures
        spec_teleported_prop(*p, r, map@),
{
    let pose = xform_compose(&map, &p.pose, Ghost(0x2_0000), Ghost(0x100_0000_0000),
        Ghost(0x100_0000), Ghost(0x4000_0000_0000));
    let vel = rotate_velocity(&map, &p.vel);
    let ang = rotate_velocity(&map, &p.ang);
    PropState { pose, vel, ang }
}

} // verus!