//! Portal camera projection: an infinite perspective projection whose near
//! clipping plane is replaced by an arbitrary oblique plane, so a portal
//! camera clips exactly against the surface of the portal it renders
//! through.
//!
//! All quantities are integers: the focal parameter carries a factor
//! `MILLI` (it is the cotangent of half the vertical field of view in
//! millis), the aspect ratio is the width-by-height pair itself, and the
//! output matrix is homogeneous — any positive common factor of its
//! entries is irrelevant — with rows scaled by `MILLI * width * MILLI`
//! times the plane factor described at `get_projection_matrix`.

use vstd::prelude::*;

use crate::params::MILLI;
use crate::vec::{lemma_abs_mul, V4, Vec4};

verus! {

/// Near-plane distance of the base projection, in millis.
pub const PROJECTION_NEAR: i128 = 500;

/// Largest focal, width and height values the projection accepts.
pub const PROJECTION_PARAM_LIMIT: i128 = 8192;

/// Largest oblique-plane coefficient magnitude the projection accepts.
pub const NEAR_PLANE_LIMIT: i128 = 0x100_0000_0000;

/// Intrinsic state of one portal camera.
#[derive(Clone, Copy, Debug, PartialEq, Eq, Structural)]
pub struct PortalCameraProjection {
    /// Cotangent of half the vertical field of view, in millis.
    pub focal: i128,
    /// Viewport width; only the ratio to `height` matters.
    pub width: i128,
    /// Viewport height.
    pub height: i128,
    /// Far-plane distance in millis; kept for culling, not used by the
    /// infinite projection matrix.
    pub far: i128,
    /// Oblique near-plane coefficients in camera space, recomputed every
    /// frame from the linked portal's plane.
    pub near: Vec4,
}

impl PortalCameraProjection {
    pub open spec fn wf(self) -> bool {
        &&& 1 <= self.focal <= PROJECTION_PARAM_LIMIT
        &&& 1 <= self.width <= PROJECTION_PARAM_LIMIT
        &&& 1 <= self.height <= PROJECTION_PARAM_LIMIT
    }

    /// Recomputes the aspect ratio on a viewport resize.
    pub fn update(&mut self, width: i128, height: i128)
        requires
            1 <= width <= PROJECTION_PARAM_LIMIT,
            1 <= height <= PROJECTION_PARAM_LIMIT,
        ensures
            *final(self) == (PortalCameraProjection { width, height, ..*old(self) }),
    {
        self.width = width;
        self.height = height;
    }

    /// Far-plane distance.
    pub fn far(&self) -> (r: i128)
        ensures
            r == self.far,
    {
        self.far
    }
}

impl Default for PortalCameraProjection {
    /// Quarter-turn vertical field of view (focal is the cotangent of
    /// one-eighth turn in millis), a sixteen-by-nine viewport, a far plane
    /// a thousand units out and an axis-aligned near plane half a unit
    /// out.
    fn default() -> (d: PortalCameraProjection)
        ensures
            d.wf(),
            d.focal == 2414,
            d.width == 16,
            d.height == 9,
            d.far == 1000000,
            d.near@ == (V4 { x: 0, y: 0, z: -(MILLI as int), w: -100 }),
    {
        PortalCameraProjection {
            focal: 2414,
            width: 16,
            height: 9,
            far: 1000000,
            near: Vec4 { x: 0, y: 0, z: -MILLI, w: -100 },
        }
    }
}

/// A homogeneous 4x4 projection matrix, by rows.
#[derive(Clone, Copy, Debug, PartialEq, Eq, Structural)]
pub struct ProjMatrix {
    pub r0: Vec4,
    pub r1: Vec4,
    pub r2: Vec4,
    pub r3: Vec4,
}

/// The sign of a plane coefficient; zero counts as positive, like the
/// floating-point sign it models.
pub open spec fn spec_sgn(x: int) -> int {
    if x >= 0 {
        1
    } else {
        -1
    }
}

/// The corner direction the oblique derivation keeps at full depth,
/// scaled by `focal * height`: the inverse base projection applied to
/// `(sgn cx, sgn cy, 1, 1)`.
pub open spec fn spec_corner_q(p: PortalCameraProjection) -> V4 {
    V4 {
        x: (MILLI * p.width) * spec_sgn(p.near@.x),
        y: (MILLI * p.height) * spec_sgn(p.near@.y),
        z: -(p.focal * p.height),
        w: 0,
    }
}

/// The scalar the oblique row divides by: the plane evaluated on the
/// corner direction. Zero means the plane is degenerate for this frustum
/// and no matrix is produced.
pub open spec fn spec_corner_dot(p: PortalCameraProjection) -> int {
    spec_corner_q(p).dot(p.near@)
}

/// The projection matrix: the base infinite perspective rows scaled by
/// the corner factor, with the third row replaced by the oblique plane
/// scaled so the corner keeps its depth. The near clipping plane of the
/// result is exactly the stored oblique plane: the third row is a scalar
/// multiple of it.
pub open spec fn spec_projection(p: PortalCameraProjection, m: ProjMatrix) -> bool {
    let cq = spec_corner_dot(p);
    let c = p.near@;
    &&& m.r0@ == (V4 { x: cq * ((p.focal * p.height) * MILLI), y: 0, z: 0, w: 0 })
    &&& m.r1@ == (V4 { x: 0, y: cq * ((p.focal * p.width) * MILLI), z: 0, w: 0 })
    &&& m.r2@ == (V4 {
        x: ((MILLI * p.width) * (MILLI * (p.focal * p.height))) * c.x,
        y: ((MILLI * p.width) * (MILLI * (p.focal * p.height))) * c.y,
        z: ((MILLI * p.width) * (MILLI * (p.focal * p.height))) * c.z,
        w: ((MILLI * p.width) * (MILLI * (p.focal * p.height))) * c.w,
    })
    &&& m.r3@ == (V4 { x: 0, y: 0, z: cq * (-((MILLI * p.width) * MILLI)), w: 0 })
}

/// Builds the oblique projection matrix; `None` exactly when the stored
/// plane is degenerate for this frustum.
pub fn get_projection_matrix(p: &PortalCameraProjection) -> (m: Option<ProjMatrix>)
    requires
        p.wf(),
        p.near@.bounded(NEAR_PLANE_LIMIT as int),
    ensures
        match m {
            Some(mm) => spec_projection(*p, mm) && spec_corner_dot(*p) != 0,
            None => spec_corner_dot(*p) == 0,
        },
{
    proof {
        lemma_abs_mul((MILLI * p.width) as int, 1, 8192000, 1);
        lemma_abs_mul((MILLI * p.height) as int, 1, 8192000, 1);
        lemma_abs_mul(p.focal as int, p.height as int, 8192, 8192);
        lemma_abs_mul((MILLI * p.width) as int, p.near@.x, 8192000, 0x100_0000_0000);
        lemma_abs_mul((MILLI * p.height) as int, p.near@.y, 8192000, 0x100_0000_0000);
        lemma_abs_mul((p.focal * p.height) as int, p.near@.z, 0x400_0000, 0x100_0000_0000);
    }
    let sx: i128 = if p.near.x >= 0 { 1 } else { -1 };
    let sy: i128 = if p.near.y >= 0 { 1 } else { -1 };
    proof {
        lemma_abs_mul((MILLI * p.width) as int, sx as int, 8192000, 1);
        lemma_abs_mul((MILLI * p.height) as int, sy as int, 8192000, 1);
    }
    let qx = (MILLI * p.width) * sx;
    let qy = (MILLI * p.height) * sy;
    let qz = -(p.focal * p.height);
    proof {
        lemma_abs_mul(qx as int, p.near@.x, 8192000, 0x100_0000_0000);
        lemma_abs_mul(qy as int, p.near@.y, 8192000, 0x100_0000_0000);
        lemma_abs_mul(qz as int, p.near@.z, 0x400_0000, 0x100_0000_0000);
        vstd::arithmetic::mul::lemma_mul_basics(spec_corner_q(*p).w);
    }
    let cq = qx * p.near.x + qy * p.near.y + qz * p.near.z;
    if cq == 0 {
        return None;
    }
    proof {
        lemma_abs_mul(p.focal as int, p.width as int, 8192, 8192);
        lemma_abs_mul((p.focal * p.height) as int, MILLI as int, 0x400_0000, 1000);
        lemma_abs_mul((p.focal * p.width) as int, MILLI as int, 0x400_0000, 1000);
        lemma_abs_mul((MILLI * p.width) as int, MILLI as int, 8192000, 1000);
        lemma_abs_mul(cq as int, ((p.focal * p.height) * MILLI) as int, 0x8_0000_0000_0000_0000,
            0x20_0000_0000);
        lemma_abs_mul(cq as int, ((p.focal * p.width) * MILLI) as int, 0x8_0000_0000_0000_0000,
            0x20_0000_0000);
        lemma_abs_mul(cq as int, (-((MILLI * p.width) * MILLI)) as int, 0x8_0000_0000_0000_0000,
            0x2_0000_0000_0000);
        lemma_abs_mul((MILLI * p.width) as int, (MILLI * (p.focal * p.height)) as int, 8192000,
            0x10_0000_0000);
        lemma_abs_mul(((MILLI * p.width) * (MILLI * (p.focal * p.height))) as int, p.near@.x,
            0x2000_0000_0000_0000, 0x100_0000_0000);
        lemma_abs_mul(((MILLI * p.width) * (MILLI * (p.focal * p.height))) as int, p.near@.y,
            0x2000_0000_0000_0000, 0x100_0000_0000);
        lemma_abs_mul(((MILLI * p.width) * (MILLI * (p.focal * p.height))) as int, p.near@.z,
            0x2000_0000_0000_0000, 0x100_0000_0000);
        lemma_abs_mul(((MILLI * p.width) * (MILLI * (p.focal * p.height))) as int, p.near@.w,
            0x2000_0000_0000_0000, 0x100_0000_0000);
        lemma_abs_mul(MILLI as int, (p.focal * p.height) as int, 1000, 0x400_0000);
    }
    let k = (MILLI * p.width) * (MILLI * (p.focal * p.height));
    let r0 = Vec4 { x: cq * ((p.focal * p.height) * MILLI), y: 0, z: 0, w: 0 };
    let r1 = Vec4 { x: 0, y: cq * ((p.focal * p.width) * MILLI), z: 0, w: 0 };
    let r2 = Vec4 { x: k * p.near.x, y: k * p.near.y, z: k * p.near.z, w: k * p.near.w };
    let r3 = Vec4 { x: 0, y: 0, z: cq * (-((MILLI * p.width) * MILLI)), w: 0 };
    Some(ProjMatrix { r0, r1, r2, r3 })
}

/// The oblique row annihilates exactly the points of the stored plane:
/// whatever lies on the near plane maps to zero depth.
pub proof fn lemma_oblique_row_kills_plane(p: PortalCameraProjection, m: ProjMatrix, x: V4)
    requires
        spec_projection(p, m),
    ensures
        p.near@.dot(x) == 0 ==> m.r2@.dot(x) == 0,
{
    let k = (MILLI * p.width) * (MILLI * (p.focal * p.height));
    let c = p.near@;
    if c.dot(x) == 0 {
        assert((k * c.x) * x.x + (k * c.y) * x.y + (k * c.z) * x.z + (k * c.w) * x.w == k * (c.x
            * x.x + c.y * x.y + c.z * x.z + c.w * x.w)) by {
            vstd::arithmetic::mul::lemma_mul_is_associative(k, c.x, x.x);
            vstd::arithmetic::mul::lemma_mul_is_associative(k, c.y, x.y);
            vstd::arithmetic::mul::lemma_mul_is_associative(k, c.z, x.z);
            vstd::arithmetic::mul::lemma_mul_is_associative(k, c.w, x.w);
            vstd::arithmetic::mul::lemma_mul_is_distributive_add(k, c.x * x.x, c.y * x.y);
            vstd::arithmetic::mul::lemma_mul_is_distributive_add(k, c.x * x.x + c.y * x.y,
                c.z * x.z);
            vstd::arithmetic::mul::lemma_mul_is_distributive_add(k,
                c.x * x.x + c.y * x.y + c.z * x.z, c.w * x.w);
        }
        vstd::arithmetic::mul::lemma_mul_basics(k);
    }
}

} // verus!
