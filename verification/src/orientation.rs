//! Surface-orientation classification, the portal up-axis derivation, and
//! the player orientation correction after a teleport.

use vstd::prelude::*;

use crate::mat::{M3, Mat3, mat_mul_vec};
use crate::params::{MILLI, POSE_ROT_LIMIT, POSE_TRANS_LIMIT, VERTICAL_TOLERANCE};
use crate::vec::{lemma_abs_mul, lemma_dot_bound, V3, Vec3, vec_dot, vec_scale, vec_sub};
use crate::xform::{XF, Xform};

verus! {

/// The portal's local up axis.
pub open spec fn axis_y() -> V3 {
    V3 { x: 0, y: 1, z: 0 }
}

/// How a portal hangs relative to gravity; decides which collision group
/// is relaxed while an entity passes through.
#[derive(Clone, Copy, Debug, PartialEq, Eq, Structural)]
pub enum PortalOrientation {
    /// The surface normal is within tolerance of vertical: the portal lies
    /// on the ground or on the ceiling.
    Horizontal,
    /// Any other surface: a wall or a slope.
    Other,
}

/// A surface normal counts as vertical when the sine of its angle from the
/// vertical axis is at most `VERTICAL_TOLERANCE` millis: scaled free of the
/// normal's length, `MILLI^2 * (n_x^2 + n_z^2) <= tol^2 * |n|^2`.
pub open spec fn spec_is_horizontal(n: V3) -> bool {
    (MILLI * MILLI) * (n.x * n.x + n.z * n.z) <= (VERTICAL_TOLERANCE * VERTICAL_TOLERANCE)
        * n.norm_sq()
}

/// Classifies a surface normal, exactly as `spec_is_horizontal` says; the
/// boundary normal itself classifies as horizontal.
pub fn classify_orientation(normal: &Vec3) -> (c: PortalOrientation)
    requires
        normal@.bounded(2 * MILLI as int),
    ensures
        c == PortalOrientation::Horizontal <==> spec_is_horizontal(normal@),
{
    proof {
        lemma_abs_mul(normal@.x, normal@.x, 2000, 2000);
        lemma_abs_mul(normal@.y, normal@.y, 2000, 2000);
        lemma_abs_mul(normal@.z, normal@.z, 2000, 2000);
        lemma_abs_mul(
            (MILLI * MILLI) as int,
            normal@.x * normal@.x + normal@.z * normal@.z,
            1000000,
            8000000,
        );
        lemma_abs_mul(
            (VERTICAL_TOLERANCE * VERTICAL_TOLERANCE) as int,
            normal@.norm_sq(),
            1,
            12000000,
        );
        lemma_dot_bound(normal@, normal@, 2000, 2000);
    }
    let h = normal.x * normal.x + normal.z * normal.z;
    let n2 = normal.x * normal.x + normal.y * normal.y + normal.z * normal.z;
    if (MILLI * MILLI) * h <= (VERTICAL_TOLERANCE * VERTICAL_TOLERANCE) * n2 {
        PortalOrientation::Horizontal
    } else {
        PortalOrientation::Other
    }
}

/// A normal at least forty-five degrees from vertical never classifies as
/// horizontal: the squared horizontal part reaching half the squared
/// length forces the classification to `Other`.
pub proof fn lemma_wide_angle_is_other(n: V3)
    requires
        n.norm_sq() > 0,
        2 * (n.x * n.x + n.z * n.z) >= n.norm_sq(),
    ensures
        !spec_is_horizontal(n),
{
    let h = n.x * n.x + n.z * n.z;
    assert(n.y * n.y >= 0) by (nonlinear_arith);
    assert(n.x * n.x >= 0) by (nonlinear_arith);
    assert(n.z * n.z >= 0) by (nonlinear_arith);
    if spec_is_horizontal(n) {
        assert(false) by (nonlinear_arith)
            requires
                1000000 * h <= 1 * (h + n.y * n.y),
                2 * h >= h + n.y * n.y,
                h + n.y * n.y > 0,
                h >= 0,
                n.y * n.y >= 0,
        ;
    }
}

/// The up axis of a freshly placed portal over the denominator `|n|^2`:
/// the reference direction (the shooter's forward on a near-vertical
/// surface, the world up otherwise) projected onto the impact surface,
/// left unnormalised. `None` when the projection is degenerate: shorter
/// than one milli per unit.
pub open spec fn spec_portal_up(n: V3, reference: V3) -> V3 {
    reference.scale(n.norm_sq()).sub(n.scale(reference.dot(n)))
}

/// Whether the projected up axis is long enough to orient a portal: at
/// least one milli per unit of squared normal length.
pub open spec fn spec_up_usable(n: V3, reference: V3) -> bool {
    spec_portal_up(n, reference).norm_sq() >= n.norm_sq() * n.norm_sq()
}

/// Derives the portal's unnormalised up axis from the surface normal and
/// the classification-dependent reference direction, guarding the
/// degenerate case where the reference points along the normal.
pub fn derive_portal_up(normal: &Vec3, player_forward: &Vec3, c: PortalOrientation) -> (u: Option<
    Vec3,
>)
    requires
        normal@.bounded(2 * MILLI as int),
        player_forward@.bounded(2 * MILLI as int),
    ensures
        ({
            let reference = if c == PortalOrientation::Horizontal {
                player_forward@
            } else {
                axis_y().scale(MILLI as int)
            };
            match u {
                Some(v) => v@ == spec_portal_up(normal@, reference) && spec_up_usable(
                    normal@,
                    reference,
                ),
                None => !spec_up_usable(normal@, reference),
            }
        }),
{
    let reference = if let PortalOrientation::Horizontal = c {
        *player_forward
    } else {
        Vec3::new(0, MILLI, 0)
    };
    proof {
        assert((axis_y().scale(MILLI as int)).bounded(2000));
    }
    proof {
        lemma_dot_bound(normal@, normal@, 2000, 2000);
        lemma_dot_bound(reference@, normal@, 2000, 2000);
    }
    let n2 = vec_dot(&normal, &normal, Ghost(2000), Ghost(2000));
    let rn = vec_dot(&reference, &normal, Ghost(2000), Ghost(2000));
    let a = vec_scale(&reference, n2, Ghost(2000), Ghost(12000000));
    let b = vec_scale(&normal, rn, Ghost(2000), Ghost(12000000));
    let up = vec_sub(&a, &b, Ghost(24000000000), Ghost(24000000000));
    let u2 = vec_dot(&up, &up, Ghost(48000000000), Ghost(48000000000));
    proof {
        lemma_abs_mul(n2 as int, n2 as int, 12000000, 12000000);
    }
    if u2 >= n2 * n2 {
        Some(up)
    } else {
        None
    }
}

/// The derived up axis is orthogonal to the surface normal.
pub proof fn lemma_portal_up_orthogonal(n: V3, reference: V3)
    ensures
        spec_portal_up(n, reference).dot(n) == 0,
{
    crate::vec::lemma_dot_comm(reference.scale(n.norm_sq()).sub(n.scale(reference.dot(n))), n);
    crate::vec::lemma_dot_sub(n, reference.scale(n.norm_sq()), n.scale(reference.dot(n)));
    crate::vec::lemma_dot_scale_right(n, reference, n.norm_sq());
    crate::vec::lemma_dot_scale_right(n, n, reference.dot(n));
    crate::vec::lemma_dot_comm(n, reference);
    vstd::arithmetic::mul::lemma_mul_is_commutative(n.norm_sq(), reference.dot(n));
}

/// A placement counts as upright when each component of its unit up vector
/// `r * y / s` is within one milli of the world up vector's.
pub open spec fn spec_is_upright(p: XF) -> bool {
    let u = p.r.mul_v(axis_y());
    &&& -p.s <= MILLI * u.x <= p.s
    &&& -p.s <= MILLI * u.z <= p.s
    &&& -p.s <= MILLI * (u.y - p.s) <= p.s
}

/// What the engine must do to the player's orientation after a teleport.
#[derive(Clone, Copy, Debug, PartialEq, Eq, Structural)]
pub enum OrientationCorrection {
    /// The root is already upright within tolerance: leave every rotation
    /// untouched.
    AlreadyUpright,
    /// Re-level the root and re-aim it along the carried look direction.
    Relevel {
        /// Numerator of the post-teleport look direction.
        look: Vec3,
        /// Positive denominator of the look direction.
        den: i128,
        /// Re-derive the root yaw from the look's horizontal part; false
        /// when that part is degenerate and the yaw must be left alone.
        adjust_yaw: bool,
        /// Re-derive the camera pitch from the look's vertical part; false
        /// when that part is degenerate and the pitch must be left alone.
        adjust_pitch: bool,
    },
}

/// The look direction carried through a teleport: the map's rotation
/// applied to the camera's forward axis.
pub open spec fn spec_carried_look(map: XF, camera_local: XF) -> V3 {
    map.r.mul_v(crate::geometry::forward_dir(camera_local))
}

/// A horizontal or vertical look component is usable when it is at least
/// one milli per unit: `MILLI^2` times its squared length reaches the
/// squared denominator.
pub open spec fn spec_component_usable(a: int, b: int, den: int) -> bool {
    (MILLI * MILLI) * (a * a + b * b) >= den * den
}

/// Decides the player orientation correction after a teleport: if the
/// re-oriented root is still upright nothing changes; otherwise the root
/// is re-levelled and re-aimed along the exact carried look direction,
/// skipping the yaw or pitch where the respective look component is
/// degenerate.
pub fn adjust_player_camera_on_teleport(
    map: &Xform,
    camera_local: &Xform,
    player_after: &Xform,
) -> (c: OrientationCorrection)
    requires
        map@.bounded(crate::params::MAP_ROT_LIMIT as int, crate::params::MAP_TRANS_LIMIT as int),
        camera_local@.bounded(POSE_ROT_LIMIT as int, POSE_TRANS_LIMIT as int),
        player_after@.bounded(
            crate::params::DERIVED_ROT_LIMIT as int,
            crate::params::DERIVED_TRANS_LIMIT as int,
        ),
        map@.s >= 1,
        camera_local@.s >= 1,
    ensures
        c == OrientationCorrection::AlreadyUpright <==> spec_is_upright(player_after@),
        match c {
            OrientationCorrection::AlreadyUpright => true,
            OrientationCorrection::Relevel { look, den, adjust_yaw, adjust_pitch } => {
                &&& look@ == spec_carried_look(map@, camera_local@)
                &&& den == map@.s * camera_local@.s
                &&& adjust_yaw == spec_component_usable(look@.x, look@.z, den as int)
                &&& adjust_pitch == spec_component_usable(look@.y, look@.z, den as int)
            },
        },
{
    let ey = Vec3::new(0, 1, 0);
    let u = mat_mul_vec(&player_after.r, &ey, Ghost(crate::params::DERIVED_ROT_LIMIT as int),
        Ghost(1));
    proof {
        lemma_abs_mul(MILLI as int, u@.x, 1000, 50331648);
        lemma_abs_mul(MILLI as int, u@.y, 1000, 50331648);
        lemma_abs_mul(MILLI as int, u@.z, 1000, 50331648);
    }
    let upright = -player_after.s <= MILLI * u.x && MILLI * u.x <= player_after.s
        && -player_after.s <= MILLI * u.z && MILLI * u.z <= player_after.s && -player_after.s
        <= MILLI * (u.y - player_after.s) && MILLI * (u.y - player_after.s) <= player_after.s;
    if upright {
        OrientationCorrection::AlreadyUpright
    } else {
        let ez = Vec3::new(0, 0, 1);
        let cb = mat_mul_vec(&camera_local.r, &ez, Ghost(POSE_ROT_LIMIT as int), Ghost(1));
        let cf = crate::vec::vec_neg(&cb);
        let look = mat_mul_vec(&map.r, &cf, Ghost(crate::params::MAP_ROT_LIMIT as int), Ghost(96));
        proof {
            lemma_abs_mul(map@.s, camera_local@.s, 131072, 32);
            lemma_abs_mul(look@.x, look@.x, 37748736, 37748736);
            lemma_abs_mul(look@.y, look@.y, 37748736, 37748736);
            lemma_abs_mul(look@.z, look@.z, 37748736, 37748736);
            lemma_abs_mul(
                (MILLI * MILLI) as int,
                look@.x * look@.x + look@.z * look@.z,
                1000000,
                0x10_0000_0000_0000,
            );
            lemma_abs_mul(
                (MILLI * MILLI) as int,
                look@.y * look@.y + look@.z * look@.z,
                1000000,
                0x10_0000_0000_0000,
            );
        }
        let den = map.s * camera_local.s;
        proof {
            lemma_abs_mul(den as int, den as int, 4194304, 4194304);
        }
        let d2 = den * den;
        let adjust_yaw = (MILLI * MILLI) * (look.x * look.x + look.z * look.z) >= d2;
        let adjust_pitch = (MILLI * MILLI) * (look.y * look.y + look.z * look.z) >= d2;
        OrientationCorrection::Relevel { look, den, adjust_yaw, adjust_pitch }
    }
}

} // verus!
