//! Geometry kernel: the portal-to-portal map, portal clip planes, and the
//! obstacle adjustment of a candidate portal origin.
//!
//! Conventions: a portal's local back axis is `+z`; its back direction in
//! the world is `r * z` (of length equal to the placement divisor `s`), and
//! its forward direction is the opposite. The clip plane sits
//! `PORTAL_MESH_DEPTH` millis from the origin along the back direction.

use vstd::prelude::*;

use crate::mat::{
    lemma_mul_assoc, lemma_mul_scale, lemma_mul_scaled_ident, lemma_mul_v_assoc,
    lemma_mul_v_linear, lemma_mul_v_neg, lemma_ortho_entry_bound, lemma_ortho_mul,
    lemma_ortho_scale, lemma_ortho_transpose, lemma_rot_transpose_dot, lemma_scale_collapse,
    lemma_scaled_ident_v, M3, Mat3, mat_mul, mat_mul_vec, mat_scale, mat_transpose, mat_y180,
    ortho,
};
use crate::params::{
    MAP_ROT_LIMIT, MAP_TRANS_LIMIT, MILLI, OBSTACLE_RAY_LENGTH, PLANE_LIMIT, PORTAL_MESH_DEPTH,
    POSE_ROT_LIMIT, POSE_TRANS_LIMIT,
};
use crate::vec::{
    lemma_abs_mul, lemma_dot_bound, lemma_dot_scale, lemma_dot_scale_right, lemma_dot_sub,
    lemma_scale_add, lemma_scale_neg, lemma_scale_scale, proj_eq_point, V3, V4, Vec3, Vec4,
    vec_add, vec_cross, vec_dot, vec_neg, vec_scale, vec_sub,
};
use crate::xform::{XF, Xform};

verus! {

/// The portal's local back axis.
pub open spec fn axis_z() -> V3 {
    V3 { x: 0, y: 0, z: 1 }
}

/// World back direction of a placement, of length equal to its divisor.
pub open spec fn back_dir(p: XF) -> V3 {
    p.r.mul_v(axis_z())
}

/// World forward direction of a placement, of length equal to its divisor.
pub open spec fn forward_dir(p: XF) -> V3 {
    back_dir(p).neg()
}

/// Homogeneous centre of a portal's clip plane: the origin offset by the
/// mesh depth along the back direction.
pub open spec fn clip_centre_h(p: XF) -> V4 {
    V4::from_parts(p.t.add(back_dir(p).scale(PORTAL_MESH_DEPTH as int)), p.s)
}

/// The rigid map carrying poses from `src`'s frame to `dst`'s frame, as a
/// single placement: offset from `src`'s origin to its clip plane, undo
/// `src`'s orientation, turn half a turn about the vertical axis, apply
/// `dst`'s orientation, and offset from `dst`'s clip plane back to its
/// origin.
pub open spec fn spec_portal_to_portal(src: XF, dst: XF) -> XF {
    let k = dst.r.mul(M3::y180()).mul(src.r.transpose());
    XF {
        r: k.scale(src.s),
        t: k.mul_v(src.t).neg().add(dst.t.scale(src.s * src.s)).add(
            back_dir(dst).scale((2 * PORTAL_MESH_DEPTH) * (src.s * src.s)),
        ),
        s: (src.s * src.s) * dst.s,
    }
}

/// World-space plane of a portal: normal along the back direction, passing
/// through the clip-plane centre. A homogeneous point `(v, w)` lies on the
/// plane exactly when the 4-dot of the two vanishes.
pub open spec fn spec_portal_plane(p: XF) -> V4 {
    V4::from_parts(
        back_dir(p).scale(p.s),
        -back_dir(p).dot(p.t.add(back_dir(p).scale(PORTAL_MESH_DEPTH as int))),
    )
}

/// A world plane re-expressed in a camera's local frame: the transpose of
/// the camera's matrix applied to the plane coefficients.
pub open spec fn spec_plane_to_camera(cam: XF, plane: V4) -> V4 {
    V4::from_parts(
        cam.r.transpose().mul_v(plane.xyz()),
        cam.t.dot(plane.xyz()) + cam.s * plane.w,
    )
}

/// A world point in homogeneous camera-local coordinates.
pub open spec fn camera_local_h(cam: XF, p: V4) -> V4 {
    V4::from_parts(
        cam.r.transpose().mul_v(p.xyz().scale(cam.s).sub(cam.t.scale(p.w))),
        (cam.s * cam.s) * p.w,
    )
}

/// Executable portal-to-portal map. Both placements must be well formed
/// and within the pose limits; the result is well formed and within the
/// map limits.
pub fn portal_to_portal(src: &Xform, dst: &Xform) -> (m: Xform)
    requires
        src@.wf(),
        dst@.wf(),
        src@.bounded(POSE_ROT_LIMIT as int, POSE_TRANS_LIMIT as int),
        dst@.bounded(POSE_ROT_LIMIT as int, POSE_TRANS_LIMIT as int),
    ensures
        m@ == spec_portal_to_portal(src@, dst@),
        m@.wf(),
        m@.bounded(MAP_ROT_LIMIT as int, MAP_TRANS_LIMIT as int),
{
    let y = mat_y180();
    let dy = mat_mul(&dst.r, &y, Ghost(32), Ghost(1));
    let st = mat_transpose(&src.r);
    let k = mat_mul(&dy, &st, Ghost(96), Ghost(32));
    let r = mat_scale(&k, src.s, Ghost(9216), Ghost(32));
    let kt = mat_mul_vec(&k, &src.t, Ghost(9216), Ghost(16777216));
    proof {
        lemma_abs_mul(src@.s, src@.s, 32, 32);
    }
    let s2 = src.s * src.s;
    let td = vec_scale(&dst.t, s2, Ghost(16777216), Ghost(1024));
    let ez = Vec3::new(0, 0, 1);
    let bd = mat_mul_vec(&dst.r, &ez, Ghost(32), Ghost(1));
    proof {
        lemma_abs_mul(2 * PORTAL_MESH_DEPTH as int, s2 as int, 1000, 1024);
    }
    let boost = vec_scale(&bd, (2 * PORTAL_MESH_DEPTH) * s2, Ghost(96), Ghost(1024000));
    let nkt = vec_neg(&kt);
    let t1 = vec_add(&nkt, &td, Ghost(463856467968), Ghost(17179869184));
    let t = vec_add(&t1, &boost, Ghost(481036337152), Ghost(98304000000));
    proof {
        lemma_abs_mul(s2 as int, dst@.s, 1024, 32);
    }
    let s = s2 * dst.s;
    let m = Xform { r, t, s };
    proof {
        let sp = src@.s;
        let sd = dst@.s;
        assert(ortho(M3::y180(), 1));
        vstd::arithmetic::mul::lemma_mul_basics(sd);
        lemma_ortho_mul(dst@.r, sd, M3::y180(), 1);
        lemma_ortho_transpose(src@.r, sp);
        lemma_ortho_mul(dst@.r.mul(M3::y180()), sd, src@.r.transpose(), sp);
        lemma_ortho_scale(k@, sd * sp, sp);
        assert(sp * (sd * sp) == (sp * sp) * sd) by (nonlinear_arith);
        lemma_ortho_entry_bound(m@.r, m@.s);
        assert(1 <= m@.s <= 32768) by (nonlinear_arith)
            requires
                1 <= sp <= 32,
                1 <= sd <= 32,
                m@.s == (sp * sp) * sd,
        ;
    }
    m
}

/// Executable world-space portal plane.
pub fn get_portal_plane(p: &Xform) -> (plane: Vec4)
    requires
        p@.bounded(POSE_ROT_LIMIT as int, POSE_TRANS_LIMIT as int),
    ensures
        plane@ == spec_portal_plane(p@),
        plane@.bounded(PLANE_LIMIT as int),
{
    let ez = Vec3::new(0, 0, 1);
    let n = mat_mul_vec(&p.r, &ez, Ghost(32), Ghost(1));
    let nn = vec_scale(&n, p.s, Ghost(96), Ghost(32));
    let nd = vec_scale(&n, PORTAL_MESH_DEPTH, Ghost(96), Ghost(500));
    let q = vec_add(&p.t, &nd, Ghost(16777216), Ghost(48000));
    let e = vec_dot(&n, &q, Ghost(96), Ghost(16825216));
    proof {
        lemma_dot_bound(n@, q@, 96, 16825216);
    }
    Vec4 { x: nn.x, y: nn.y, z: nn.z, w: -e }
}

/// Executable transfer of a world plane into a camera's local frame.
pub fn plane_to_camera_space(cam: &Xform, plane: &Vec4) -> (near: Vec4)
    requires
        cam@.bounded(
            crate::params::DERIVED_ROT_LIMIT as int,
            crate::params::DERIVED_TRANS_LIMIT as int,
        ),
        plane@.bounded(PLANE_LIMIT as int),
    ensures
        near@ == spec_plane_to_camera(cam@, plane@),
{
    let rt = mat_transpose(&cam.r);
    let pn = Vec3 { x: plane.x, y: plane.y, z: plane.z };
    let n = mat_mul_vec(&rt, &pn, Ghost(16777216), Ghost(274877906944));
    let d = vec_dot(&cam.t, &pn, Ghost(70368744177664), Ghost(274877906944));
    proof {
        lemma_dot_bound(cam@.t, pn@, 70368744177664, 274877906944);
        lemma_abs_mul(cam@.s, plane@.w, 16777216, 274877906944);
    }
    let w = d + cam.s * plane.w;
    Vec4 { x: n.x, y: n.y, z: n.z, w }
}

/// Distances reported by the four short obstacle-probing rays cast from a
/// candidate portal origin, in millis; `None` where the ray hit nothing
/// within its length.
#[derive(Clone, Copy, Debug, PartialEq, Eq, Structural)]
pub struct ObstacleProbes {
    /// Ray cast opposite the portal's up axis.
    pub below: Option<i128>,
    /// Ray cast along the portal's up axis.
    pub above: Option<i128>,
    /// Ray cast opposite the portal's right axis.
    pub left: Option<i128>,
    /// Ray cast along the portal's right axis.
    pub right: Option<i128>,
}

impl ObstacleProbes {
    /// Each reported distance lies within the probing ray's length.
    pub open spec fn wf(self) -> bool {
        &&& (self.below is Some ==> 0 <= self.below->0 <= OBSTACLE_RAY_LENGTH)
        &&& (self.above is Some ==> 0 <= self.above->0 <= OBSTACLE_RAY_LENGTH)
        &&& (self.left is Some ==> 0 <= self.left->0 <= OBSTACLE_RAY_LENGTH)
        &&& (self.right is Some ==> 0 <= self.right->0 <= OBSTACLE_RAY_LENGTH)
    }
}

/// A position with a common denominator, in millis.
#[derive(Clone, Copy, Debug, PartialEq, Eq, Structural)]
pub struct RatPoint {
    pub num: Vec3,
    pub den: i128,
}

/// The vertical shift of the obstacle adjustment, with denominator
/// `MILLI`: toward up by the shortfall of the ray below, else away from up
/// by the shortfall of the ray above, else nothing.
pub open spec fn spec_vertical_shift(up: V3, probes: ObstacleProbes) -> V3 {
    if probes.below is Some {
        up.scale(OBSTACLE_RAY_LENGTH - probes.below->0)
    } else if probes.above is Some {
        up.scale(probes.above->0 - OBSTACLE_RAY_LENGTH)
    } else {
        V3::zero()
    }
}

/// The lateral shift of the obstacle adjustment, with denominator
/// `MILLI * MILLI` since the right axis is the cross product of two
/// milli-unit axes.
pub open spec fn spec_lateral_shift(up: V3, normal: V3, probes: ObstacleProbes) -> V3 {
    let right = up.cross(normal);
    if probes.left is Some {
        right.scale(OBSTACLE_RAY_LENGTH - probes.left->0)
    } else if probes.right is Some {
        right.scale(probes.right->0 - OBSTACLE_RAY_LENGTH)
    } else {
        V3::zero()
    }
}

/// The adjusted portal origin over the denominator `MILLI * MILLI`.
pub open spec fn spec_adjusted_origin(
    base: V3,
    normal: V3,
    up: V3,
    probes: ObstacleProbes,
) -> V3 {
    base.scale(MILLI * MILLI).add(spec_vertical_shift(up, probes).scale(MILLI as int)).add(
        spec_lateral_shift(up, normal, probes),
    )
}

/// Shifts a candidate portal origin away from nearby obstacles: where one
/// of the four probing rays reports a hit closer than its full length, the
/// origin moves the shortfall toward the opposite direction, vertical
/// first, then lateral, each independently. `up` and `normal` are
/// milli-unit axes on the impact surface.
pub fn adjust_portal_origin_to_obstacles(
    base: &Vec3,
    normal: &Vec3,
    up: &Vec3,
    probes: &ObstacleProbes,
) -> (adjusted: RatPoint)
    requires
        probes.wf(),
        base@.bounded(POSE_TRANS_LIMIT as int),
        normal@.bounded(2 * MILLI as int),
        up@.bounded(2 * MILLI as int),
    ensures
        adjusted.num@ == spec_adjusted_origin(base@, normal@, up@, *probes),
        adjusted.den == MILLI * MILLI,
        adjusted.num@.bounded(0x1_0000_0000_0000),
{
    let vshift = match probes.below {
        Some(d) => vec_scale(&up, OBSTACLE_RAY_LENGTH - d, Ghost(2000), Ghost(1000)),
        None => match probes.above {
            Some(d) => vec_scale(&up, d - OBSTACLE_RAY_LENGTH, Ghost(2000), Ghost(1000)),
            None => Vec3::new(0, 0, 0),
        },
    };
    let right = vec_cross(&up, &normal, Ghost(2000), Ghost(2000));
    let lshift = match probes.left {
        Some(d) => vec_scale(&right, OBSTACLE_RAY_LENGTH - d, Ghost(8000000), Ghost(1000)),
        None => match probes.right {
            Some(d) => vec_scale(&right, d - OBSTACLE_RAY_LENGTH, Ghost(8000000), Ghost(1000)),
            None => Vec3::new(0, 0, 0),
        },
    };
    let sbase = vec_scale(&base, MILLI * MILLI, Ghost(16777216), Ghost(1000000));
    let svshift = vec_scale(&vshift, MILLI, Ghost(2000000), Ghost(1000));
    let t1 = vec_add(&sbase, &svshift, Ghost(16777216000000), Ghost(2000000000));
    let num = vec_add(&t1, &lshift, Ghost(16779216000000), Ghost(8000000000));
    RatPoint { num, den: MILLI * MILLI }
}

/// The lateral obstacle shift stays within the impact surface: it is
/// orthogonal to the surface normal, so the adjustment never pushes the
/// portal off its wall.
pub proof fn lemma_lateral_shift_in_surface(up: V3, normal: V3, probes: ObstacleProbes)
    ensures
        spec_lateral_shift(up, normal, probes).dot(normal) == 0,
{
    let right = up.cross(normal);
    crate::vec::lemma_cross_orthogonal(up, normal);
    if probes.left is Some {
        lemma_dot_scale(right, normal, OBSTACLE_RAY_LENGTH - probes.left->0);
    } else if probes.right is Some {
        lemma_dot_scale(right, normal, probes.right->0 - OBSTACLE_RAY_LENGTH);
    }
}

/// The rotation core of the portal-to-portal map sends the source's back
/// direction to the destination's negated back direction, scaled by the
/// source's squared divisor.
proof fn lemma_k_on_src_back(p: XF, q: XF)
    requires
        p.wf(),
        q.wf(),
    ensures
        q.r.mul(M3::y180()).mul(p.r.transpose()).mul_v(p.r.mul_v(axis_z())) == q.r.mul_v(
            axis_z(),
        ).neg().scale(p.s * p.s),
{
    let y = M3::y180();
    let qy = q.r.mul(y);
    let k = qy.mul(p.r.transpose());
    lemma_mul_v_assoc(k, p.r, axis_z());
    lemma_mul_assoc(qy, p.r.transpose(), p.r);
    lemma_mul_scaled_ident(qy, p.s * p.s);
    lemma_mul_v_linear(qy, axis_z(), axis_z(), p.s * p.s);
    lemma_mul_v_assoc(q.r, y, axis_z());
    assert(y.mul_v(axis_z()) == axis_z().neg());
    lemma_mul_v_neg(q.r, axis_z());
    assert(k.mul(p.r) == qy.scale(p.s * p.s));
    assert(k.mul(p.r).mul_v(axis_z()) == qy.mul_v(axis_z()).scale(p.s * p.s));
    crate::vec::lemma_scale_neg(q.r.mul_v(axis_z()), p.s * p.s);
}

/// The portal-to-portal map turns motion out of the source's face into
/// motion out of the destination's face: its rotation sends the source's
/// forward direction to a positive multiple of the destination's back
/// direction.
pub proof fn lemma_forward_to_back(p: XF, q: XF)
    requires
        p.wf(),
        q.wf(),
    ensures
        spec_portal_to_portal(p, q).r.mul_v(forward_dir(p)) == back_dir(q).scale(
            (p.s * p.s) * p.s,
        ),
{
    let k = q.r.mul(M3::y180()).mul(p.r.transpose());
    let bq = back_dir(q);
    lemma_mul_v_linear(k, forward_dir(p), forward_dir(p), p.s);
    lemma_mul_v_neg(k, p.r.mul_v(axis_z()));
    lemma_k_on_src_back(p, q);
    lemma_scale_neg(bq, p.s * p.s);
    lemma_scale_scale(bq, p.s * p.s, p.s);
    assert(p.s * (p.s * p.s) == (p.s * p.s) * p.s) by (nonlinear_arith);
}

/// The back direction of a well-formed placement has squared length equal
/// to the squared divisor.
pub proof fn lemma_back_dir_norm(d: XF)
    requires
        d.wf(),
    ensures
        back_dir(d).norm_sq() == d.s * d.s,
{
    assert(d.r.transpose().mul(d.r).m22 == (d.s * d.s) * 1);
    vstd::arithmetic::mul::lemma_mul_basics(d.s * d.s);
}

/// The portal plane passes through the portal's clip-plane centre.
pub proof fn lemma_plane_through_clip_centre(p: XF)
    ensures
        spec_portal_plane(p).dot(clip_centre_h(p)) == 0,
{
    let n = back_dir(p);
    let cq = p.t.add(n.scale(PORTAL_MESH_DEPTH as int));
    lemma_dot_scale(n, cq, p.s);
    assert(p.s * n.dot(cq) + (-n.dot(cq)) * p.s == 0) by (nonlinear_arith);
}

/// Scalar core of the plane-transform law.
proof fn lemma_plane_transform_scalars(s: int, w: int, a: int, b: int, e: int)
    ensures
        (s * s) * (s * a - w * b) + (b + s * e) * ((s * s) * w) == ((s * s) * s) * (a + e * w),
{
    broadcast use vstd::arithmetic::mul::group_mul_properties;

}

/// Transferring a world plane into a camera's frame is exact: the 4-dot of
/// the transferred plane with any point's camera-local homogeneous
/// coordinates is the world-space 4-dot scaled by the cube of the camera's
/// divisor. In particular a point lies on the world plane exactly when the
/// camera-local plane evaluates to zero on it.
pub proof fn lemma_plane_transform(cam: XF, plane: V4, x: V4)
    requires
        cam.wf(),
    ensures
        spec_plane_to_camera(cam, plane).dot(camera_local_h(cam, x)) == ((cam.s * cam.s) * cam.s)
            * plane.dot(x),
        plane.dot(x) == 0 ==> spec_plane_to_camera(cam, plane).dot(camera_local_h(cam, x)) == 0,
{
    let n = plane.xyz();
    let v = x.xyz();
    let u = v.scale(cam.s).sub(cam.t.scale(x.w));
    lemma_rot_transpose_dot(cam.r, cam.s, n, u);
    lemma_dot_sub(n, v.scale(cam.s), cam.t.scale(x.w));
    lemma_dot_scale_right(n, v, cam.s);
    lemma_dot_scale_right(n, cam.t, x.w);
    crate::vec::lemma_dot_comm(cam.t, n);
    lemma_plane_transform_scalars(cam.s, x.w, n.dot(v), n.dot(cam.t), plane.w);
    vstd::arithmetic::mul::lemma_mul_basics((cam.s * cam.s) * cam.s);
}

/// Scalar equalities used by the round-trip law.
proof fn lemma_round_trip_scalars(sp: int, sq: int, d: int)
    ensures
        (sp * sq) * ((sq * sq) * (sp * sp)) == ((sq * sq) * sp) * ((sp * sp) * sq),
        ((sp * sp) * sq) * (sq * sq) == sq * ((sq * sq) * (sp * sp)),
        sq * (sp * sp) == (sp * sp) * sq,
        ((sp * sp) * sq) * (d * (sq * sq)) == sq * ((d * (sp * sp)) * (sq * sq)),
{
    broadcast use vstd::arithmetic::mul::group_mul_properties;

}

/// The two rotation cores of a portal pair annihilate into a scaled
/// identity.
proof fn lemma_k_cancel(p: XF, q: XF)
    requires
        p.wf(),
        q.wf(),
    ensures
        p.r.mul(M3::y180()).mul(q.r.transpose()).mul(q.r.mul(M3::y180()).mul(p.r.transpose()))
            == M3::ident().scale((q.s * q.s) * (p.s * p.s)),
{
    let y = M3::y180();
    let py = p.r.mul(y);
    let qy = q.r.mul(y);
    let k1 = qy.mul(p.r.transpose());
    lemma_mul_assoc(py, q.r.transpose(), k1);
    lemma_mul_assoc(q.r.transpose(), qy, p.r.transpose());
    lemma_mul_assoc(q.r.transpose(), q.r, y);
    lemma_mul_scaled_ident(y, q.s * q.s);
    lemma_mul_scale(y, p.r.transpose(), q.s * q.s);
    lemma_mul_scale(py, y.mul(p.r.transpose()), q.s * q.s);
    lemma_mul_assoc(py, y, p.r.transpose());
    lemma_mul_assoc(p.r, y, y);
    assert(y.mul(y) == M3::ident());
    crate::mat::lemma_mul_ident(p.r);
    lemma_mul_scale(p.r, p.r.transpose(), 1);
    lemma_scale_collapse(M3::ident(), p.s * p.s, q.s * q.s);
}

/// Round-trip law: the map from `p` to `q` composed with the map back from
/// `q` to `p` is a positive multiple of the identity, so a pose teleported
/// through the pair and back returns exactly to where it started.
pub proof fn lemma_portal_round_trip(p: XF, q: XF, x: V4)
    requires
        p.wf(),
        q.wf(),
    ensures
        spec_portal_to_portal(q, p).compose(spec_portal_to_portal(p, q)).is_scaled_ident(),
        proj_eq_point(
            spec_portal_to_portal(q, p).compose(spec_portal_to_portal(p, q)).apply_h(x),
            x,
        ),
{
    let (sp, sq) = (p.s, q.s);
    let dd = 2 * PORTAL_MESH_DEPTH as int;
    let y = M3::y180();
    let k1 = q.r.mul(y).mul(p.r.transpose());
    let k2 = p.r.mul(y).mul(q.r.transpose());
    let t1 = spec_portal_to_portal(p, q);
    let t2 = spec_portal_to_portal(q, p);
    let rt = t2.compose(t1);
    let bp = back_dir(p);
    let bq = back_dir(q);
    let aa = (sq * sq) * (sp * sp);
    lemma_k_cancel(p, q);
    lemma_round_trip_scalars(sp, sq, dd);
    // Rotation part: (k2 sq)(k1 sp) collapses to the scaled identity.
    lemma_mul_scale(k2.scale(sq), k1, sp);
    lemma_mul_scale(k2, k1, sq);
    lemma_scale_collapse(k2.mul(k1), sq, sp);
    lemma_scale_collapse(M3::ident(), aa, sp * sq);
    assert(rt.r == M3::ident().scale(rt.s));
    assert(rt.s >= 1) by (nonlinear_arith)
        requires
            sp >= 1,
            sq >= 1,
            rt.s == ((sq * sq) * sp) * ((sp * sp) * sq),
    ;
    // Translation part: the six terms cancel pairwise.
    let xx1 = k1.mul_v(p.t).neg();
    let yy1 = q.t.scale(sp * sp);
    let zz1 = bq.scale(dd * (sp * sp));
    let xx2 = k2.mul_v(q.t).neg();
    let yy2 = p.t.scale(sq * sq);
    let zz2 = bp.scale(dd * (sq * sq));
    lemma_mul_v_linear(k2, xx1.add(yy1), zz1, 0);
    lemma_mul_v_linear(k2, xx1, yy1, 0);
    lemma_mul_v_neg(k2, k1.mul_v(p.t));
    lemma_mul_v_assoc(k2, k1, p.t);
    lemma_scaled_ident_v(aa, p.t);
    lemma_mul_v_linear(k2, q.t, q.t, sp * sp);
    lemma_mul_v_linear(k2, bq, bq, dd * (sp * sp));
    lemma_k_on_src_back(q, p);
    // k2 applied to t1's translation, term by term.
    let u1 = p.t.scale(aa).neg();
    let u2 = k2.mul_v(q.t).scale(sp * sp);
    let u3 = bp.neg().scale(sq * sq).scale(dd * (sp * sp));
    assert(k2.mul_v(t1.t) == u1.add(u2).add(u3));
    // Scale by sq and distribute.
    lemma_mul_v_linear(k2, t1.t, t1.t, sq);
    lemma_scale_add(u1.add(u2), u3, sq);
    lemma_scale_add(u1, u2, sq);
    // Scale t2's translation by t1.s and distribute.
    lemma_scale_add(xx2.add(yy2), zz2, t1.s);
    lemma_scale_add(xx2, yy2, t1.s);
    // Normalise every term to a plain scale of p.t, k2 q.t, or bp.
    lemma_scale_neg(p.t.scale(aa), sq);
    lemma_scale_collapse_v(p.t, aa, sq);
    lemma_scale_collapse_v(k2.mul_v(q.t), sp * sp, sq);
    lemma_scale_neg(bp, sq * sq);
    lemma_scale_neg(bp.scale(sq * sq), dd * (sp * sp));
    lemma_scale_collapse_v(bp, sq * sq, dd * (sp * sp));
    lemma_scale_neg(bp.scale((dd * (sp * sp)) * (sq * sq)), sq);
    lemma_scale_collapse_v(bp, (dd * (sp * sp)) * (sq * sq), sq);
    lemma_scale_neg(k2.mul_v(q.t), t1.s);
    lemma_scale_collapse_v(p.t, sq * sq, t1.s);
    lemma_scale_collapse_v(bp, dd * (sq * sq), t1.s);
    assert(rt.t == V3::zero());
    lemma_scaled_ident_fixes(rt, x);
}

/// A homogeneous point scaled uniformly denotes the same point.
proof fn lemma_scaled_point_proj_eq(y: V4, c: int)
    ensures
        proj_eq_point(V4::from_parts(y.xyz().scale(c), c * y.w), y),
{
    vstd::arithmetic::mul::lemma_mul_is_associative(y.w, c, y.x);
    vstd::arithmetic::mul::lemma_mul_is_associative(y.w, c, y.y);
    vstd::arithmetic::mul::lemma_mul_is_associative(y.w, c, y.z);
    vstd::arithmetic::mul::lemma_mul_is_commutative(y.w, c);
}

/// The portal-to-portal map carries the source portal's clip-plane centre
/// exactly onto the destination portal's clip-plane centre: the optical
/// and physical transition happens clip plane to clip plane.
pub proof fn lemma_portal_map_carries_clip_centre(p: XF, q: XF)
    requires
        p.wf(),
        q.wf(),
    ensures
        proj_eq_point(
            spec_portal_to_portal(p, q).apply_h(clip_centre_h(p)),
            clip_centre_h(q),
        ),
{
    let sp = p.s;
    let dd = PORTAL_MESH_DEPTH as int;
    let k = q.r.mul(M3::y180()).mul(p.r.transpose());
    let t = spec_portal_to_portal(p, q);
    let bp = back_dir(p);
    let bq = back_dir(q);
    let cp = p.t.add(bp.scale(dd));
    let cq = q.t.add(bq.scale(dd));
    let c = (sp * sp) * sp;
    // Rotation part applied to the clip centre.
    lemma_mul_v_linear(k, cp, cp, sp);
    lemma_mul_v_linear(k, p.t, bp.scale(dd), 0);
    lemma_mul_v_linear(k, bp, bp, dd);
    lemma_k_on_src_back(p, q);
    // t.r . cp == (k p.t).scale(sp) + (bq.neg().scale(sp^2).scale(dd)).scale(sp)
    lemma_scale_add(k.mul_v(p.t), bq.neg().scale(sp * sp).scale(dd), sp);
    // Translation part scaled by the centre's weight.
    lemma_scale_add(k.mul_v(p.t).neg().add(q.t.scale(sp * sp)), bq.scale((2 * dd) * (sp * sp)),
        sp);
    lemma_scale_add(k.mul_v(p.t).neg(), q.t.scale(sp * sp), sp);
    // Normalise each term to a plain scale of its atom.
    lemma_scale_neg(k.mul_v(p.t), sp);
    lemma_scale_neg(bq, sp * sp);
    lemma_scale_neg(bq.scale(sp * sp), dd);
    lemma_scale_collapse_v(bq, sp * sp, dd);
    lemma_scale_neg(bq.scale(dd * (sp * sp)), sp);
    lemma_scale_collapse_v(bq, dd * (sp * sp), sp);
    crate::vec::lemma_scale_opposite(bq, sp * (dd * (sp * sp)));
    lemma_scale_collapse_v(bq, (2 * dd) * (sp * sp), sp);
    lemma_scale_collapse_v(q.t, sp * sp, sp);
    crate::vec::lemma_scale_merge(bq, -(sp * (dd * (sp * sp))), sp * ((2 * dd) * (sp * sp)));
    assert(-(sp * (dd * (sp * sp))) + sp * ((2 * dd) * (sp * sp)) == dd * c) by (nonlinear_arith)
        requires
            c == (sp * sp) * sp,
    ;
    assert(sp * (sp * sp) == c) by (nonlinear_arith)
        requires
            c == (sp * sp) * sp,
    ;
    // The applied point, re-expressed.
    assert(t.apply_h(clip_centre_h(p)).xyz() == q.t.scale(c).add(bq.scale(dd * c)));
    lemma_scale_collapse_v(bq, dd, c);
    lemma_scale_add(q.t, bq.scale(dd), c);
    assert(t.apply_h(clip_centre_h(p)).xyz() == cq.scale(c));
    assert(t.apply_h(clip_centre_h(p)).w == c * q.s) by (nonlinear_arith)
        requires
            t.apply_h(clip_centre_h(p)).w == ((sp * sp) * q.s) * sp,
            c == (sp * sp) * sp,
    ;
    lemma_scaled_point_proj_eq(clip_centre_h(q), c);
    assert(t.apply_h(clip_centre_h(p)) == V4::from_parts(
        clip_centre_h(q).xyz().scale(c),
        c * clip_centre_h(q).w,
    ));
}

/// Two scalings of a vector collapse into one by the product.
proof fn lemma_scale_collapse_v(v: V3, j: int, k: int)
    ensures
        v.scale(j).scale(k) == v.scale(k * j),
{
    lemma_scale_scale(v, j, k);
}

/// Forwarding to the placement-level fixed-point lemma.
proof fn lemma_scaled_ident_fixes(a: XF, x: V4)
    requires
        a.is_scaled_ident(),
    ensures
        proj_eq_point(a.apply_h(x), x),
{
    crate::xform::lemma_scaled_ident_fixes_points(a, x);
}

} // verus!
