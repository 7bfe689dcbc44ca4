//! Integer 3- and 4-vectors and their ghost-level algebra.
//!
//! Executable vectors carry `i128` components in millis. Their mathematical
//! shadows (`V3`, `V4`) carry unbounded integers, and every contract in the
//! crate is stated over those. The proof functions at the end of this file
//! are the small algebraic identities the geometry proofs lean on.

use vstd::prelude::*;

verus! {

/// Mathematical 3-vector over the unbounded integers.
pub struct V3 {
    pub x: int,
    pub y: int,
    pub z: int,
}

impl V3 {
    pub open spec fn add(self, o: V3) -> V3 {
        V3 { x: self.x + o.x, y: self.y + o.y, z: self.z + o.z }
    }

    pub open spec fn sub(self, o: V3) -> V3 {
        V3 { x: self.x - o.x, y: self.y - o.y, z: self.z - o.z }
    }

    pub open spec fn neg(self) -> V3 {
        V3 { x: -self.x, y: -self.y, z: -self.z }
    }

    pub open spec fn scale(self, k: int) -> V3 {
        V3 { x: k * self.x, y: k * self.y, z: k * self.z }
    }

    pub open spec fn dot(self, o: V3) -> int {
        self.x * o.x + self.y * o.y + self.z * o.z
    }

    pub open spec fn cross(self, o: V3) -> V3 {
        V3 {
            x: self.y * o.z - self.z * o.y,
            y: self.z * o.x - self.x * o.z,
            z: self.x * o.y - self.y * o.x,
        }
    }

    /// Squared Euclidean length.
    pub open spec fn norm_sq(self) -> int {
        self.dot(self)
    }

    pub open spec fn zero() -> V3 {
        V3 { x: 0, y: 0, z: 0 }
    }

    /// Every component within `b` of zero.
    pub open spec fn bounded(self, b: int) -> bool {
        -b <= self.x <= b && -b <= self.y <= b && -b <= self.z <= b
    }
}

/// Mathematical 4-vector; used for homogeneous points and plane equations.
pub struct V4 {
    pub x: int,
    pub y: int,
    pub z: int,
    pub w: int,
}

impl V4 {
    /// Spatial part.
    pub open spec fn xyz(self) -> V3 {
        V3 { x: self.x, y: self.y, z: self.z }
    }

    pub open spec fn dot(self, o: V4) -> int {
        self.x * o.x + self.y * o.y + self.z * o.z + self.w * o.w
    }

    pub open spec fn from_parts(v: V3, w: int) -> V4 {
        V4 { x: v.x, y: v.y, z: v.z, w: w }
    }

    pub open spec fn bounded(self, b: int) -> bool {
        -b <= self.x <= b && -b <= self.y <= b && -b <= self.z <= b && -b <= self.w <= b
    }
}

/// Two homogeneous points denote the same affine point: the spatial parts
/// cross-multiplied by the opposite weights agree. Intended for positive
/// weights.
pub open spec fn proj_eq_point(a: V4, b: V4) -> bool {
    &&& b.w * a.x == a.w * b.x
    &&& b.w * a.y == a.w * b.y
    &&& b.w * a.z == a.w * b.z
}

/// Executable 3-vector with components in millis.
#[derive(Clone, Copy, Debug, PartialEq, Eq, Structural)]
pub struct Vec3 {
    pub x: i128,
    pub y: i128,
    pub z: i128,
}

impl View for Vec3 {
    type V = V3;

    open spec fn view(&self) -> V3 {
        V3 { x: self.x as int, y: self.y as int, z: self.z as int }
    }
}

impl Vec3 {
    pub fn new(x: i128, y: i128, z: i128) -> (r: Vec3)
        ensures
            r@ == (V3 { x: x as int, y: y as int, z: z as int }),
    {
        Vec3 { x, y, z }
    }
}

/// Executable vector sum of addends bounded by `ba` and `bb`.
pub(crate) fn vec_add(a: &Vec3, b: &Vec3, ba: Ghost<int>, bb: Ghost<int>) -> (r: Vec3)
    requires
        0 <= ba@,
        0 <= bb@,
        a@.bounded(ba@),
        b@.bounded(bb@),
        ba@ + bb@ <= i128::MAX,
    ensures
        r@ == a@.add(b@),
        r@.bounded(ba@ + bb@),
{
    Vec3 { x: a.x + b.x, y: a.y + b.y, z: a.z + b.z }
}

/// Executable vector difference of operands bounded by `ba` and `bb`.
pub(crate) fn vec_sub(a: &Vec3, b: &Vec3, ba: Ghost<int>, bb: Ghost<int>) -> (r: Vec3)
    requires
        0 <= ba@,
        0 <= bb@,
        a@.bounded(ba@),
        b@.bounded(bb@),
        ba@ + bb@ <= i128::MAX,
    ensures
        r@ == a@.sub(b@),
        r@.bounded(ba@ + bb@),
{
    Vec3 { x: a.x - b.x, y: a.y - b.y, z: a.z - b.z }
}

/// Executable scaling of a vector bounded by `bv` by a factor bounded by
/// `bk`.
pub(crate) fn vec_scale(v: &Vec3, k: i128, bv: Ghost<int>, bk: Ghost<int>) -> (r: Vec3)
    requires
        0 <= bv@,
        0 <= bk@,
        v@.bounded(bv@),
        -bk@ <= k <= bk@,
        bk@ * bv@ <= i128::MAX,
    ensures
        r@ == v@.scale(k as int),
        r@.bounded(bk@ * bv@),
{
    proof {
        lemma_abs_mul(k as int, v@.x, bk@, bv@);
        lemma_abs_mul(k as int, v@.y, bk@, bv@);
        lemma_abs_mul(k as int, v@.z, bk@, bv@);
    }
    Vec3 { x: k * v.x, y: k * v.y, z: k * v.z }
}

/// Executable negation.
pub(crate) fn vec_neg(v: &Vec3) -> (r: Vec3)
    requires
        v@.bounded(i128::MAX as int),
    ensures
        r@ == v@.neg(),
{
    Vec3 { x: -v.x, y: -v.y, z: -v.z }
}

/// Executable dot product of vectors bounded by `ba` and `bb`.
pub(crate) fn vec_dot(a: &Vec3, b: &Vec3, ba: Ghost<int>, bb: Ghost<int>) -> (r: i128)
    requires
        0 <= ba@,
        0 <= bb@,
        a@.bounded(ba@),
        b@.bounded(bb@),
        3 * (ba@ * bb@) <= i128::MAX,
    ensures
        r == a@.dot(b@),
{
    proof {
        lemma_dot_bound(a@, b@, ba@, bb@);
    }
    a.x * b.x + a.y * b.y + a.z * b.z
}

/// Executable cross product of vectors bounded by `ba` and `bb`.
pub(crate) fn vec_cross(a: &Vec3, b: &Vec3, ba: Ghost<int>, bb: Ghost<int>) -> (r: Vec3)
    requires
        0 <= ba@,
        0 <= bb@,
        a@.bounded(ba@),
        b@.bounded(bb@),
        2 * (ba@ * bb@) <= i128::MAX,
    ensures
        r@ == a@.cross(b@),
        r@.bounded(2 * (ba@ * bb@)),
{
    proof {
        lemma_abs_mul(a@.y, b@.z, ba@, bb@);
        lemma_abs_mul(a@.z, b@.y, ba@, bb@);
        lemma_abs_mul(a@.z, b@.x, ba@, bb@);
        lemma_abs_mul(a@.x, b@.z, ba@, bb@);
        lemma_abs_mul(a@.x, b@.y, ba@, bb@);
        lemma_abs_mul(a@.y, b@.x, ba@, bb@);
    }
    Vec3 {
        x: a.y * b.z - a.z * b.y,
        y: a.z * b.x - a.x * b.z,
        z: a.x * b.y - a.y * b.x,
    }
}

/// Executable 4-vector; homogeneous plane coefficients or points.
#[derive(Clone, Copy, Debug, PartialEq, Eq, Structural)]
pub struct Vec4 {
    pub x: i128,
    pub y: i128,
    pub z: i128,
    pub w: i128,
}

impl View for Vec4 {
    type V = V4;

    open spec fn view(&self) -> V4 {
        V4 { x: self.x as int, y: self.y as int, z: self.z as int, w: self.w as int }
    }
}

impl Vec4 {
    pub fn new(x: i128, y: i128, z: i128, w: i128) -> (r: Vec4)
        ensures
            r@ == (V4 { x: x as int, y: y as int, z: z as int, w: w as int }),
    {
        Vec4 { x, y, z, w }
    }
}

/// The product of two integers within `bx` and `by` of zero stays within
/// `bx * by` of zero.
pub proof fn lemma_abs_mul(x: int, y: int, bx: int, by: int)
    by (nonlinear_arith)
    requires
        0 <= bx,
        0 <= by,
        -bx <= x <= bx,
        -by <= y <= by,
    ensures
        -(bx * by) <= x * y <= bx * by,
{
}

/// A dot product of vectors bounded by `ba` and `bb` is within `3 * ba * bb`
/// of zero.
pub proof fn lemma_dot_bound(a: V3, b: V3, ba: int, bb: int)
    requires
        0 <= ba,
        0 <= bb,
        a.bounded(ba),
        b.bounded(bb),
    ensures
        -(3 * (ba * bb)) <= a.dot(b) <= 3 * (ba * bb),
        -(ba * bb) <= a.x * b.x <= ba * bb,
        -(ba * bb) <= a.y * b.y <= ba * bb,
        -(ba * bb) <= a.z * b.z <= ba * bb,
{
    lemma_abs_mul(a.x, b.x, ba, bb);
    lemma_abs_mul(a.y, b.y, ba, bb);
    lemma_abs_mul(a.z, b.z, ba, bb);
}

/// Scaling one argument scales the dot product.
pub proof fn lemma_dot_scale(a: V3, b: V3, k: int)
    ensures
        a.scale(k).dot(b) == k * a.dot(b),
{
    broadcast use vstd::arithmetic::mul::group_mul_properties;

}

/// Scaling the second argument scales the dot product.
pub proof fn lemma_dot_scale_right(a: V3, b: V3, k: int)
    ensures
        a.dot(b.scale(k)) == k * a.dot(b),
{
    lemma_dot_comm(a, b.scale(k));
    lemma_dot_scale(b, a, k);
    lemma_dot_comm(a, b);
}

/// The dot product is symmetric.
pub proof fn lemma_dot_comm(a: V3, b: V3)
    ensures
        a.dot(b) == b.dot(a),
{
    let (ax, ay, az) = (a.x, a.y, a.z);
    let (bx, by, bz) = (b.x, b.y, b.z);
    assert(ax * bx + ay * by + az * bz == bx * ax + by * ay + bz * az) by (nonlinear_arith);
}

/// The dot product distributes over vector subtraction.
pub proof fn lemma_dot_sub(a: V3, b: V3, c: V3)
    ensures
        a.dot(b.sub(c)) == a.dot(b) - a.dot(c),
{
    let (ax, ay, az) = (a.x, a.y, a.z);
    let (bx, by, bz) = (b.x, b.y, b.z);
    let (cx, cy, cz) = (c.x, c.y, c.z);
    assert(ax * (bx - cx) + ay * (by - cy) + az * (bz - cz) == (ax * bx + ay * by + az * bz) - (ax
        * cx + ay * cy + az * cz)) by (nonlinear_arith);
}

/// The dot product distributes over vector addition.
pub proof fn lemma_dot_add(a: V3, b: V3, c: V3)
    ensures
        a.dot(b.add(c)) == a.dot(b) + a.dot(c),
{
    let (ax, ay, az) = (a.x, a.y, a.z);
    let (bx, by, bz) = (b.x, b.y, b.z);
    let (cx, cy, cz) = (c.x, c.y, c.z);
    assert(ax * (bx + cx) + ay * (by + cy) + az * (bz + cz) == (ax * bx + ay * by + az * bz) + (ax
        * cx + ay * cy + az * cz)) by (nonlinear_arith);
}

/// Negating the second argument negates the dot product.
pub proof fn lemma_dot_neg(a: V3, b: V3)
    ensures
        a.dot(b.neg()) == -a.dot(b),
{
    vstd::arithmetic::mul::lemma_mul_is_commutative(a.x, -b.x);
    vstd::arithmetic::mul::lemma_mul_unary_negation(b.x, a.x);
    vstd::arithmetic::mul::lemma_mul_is_commutative(b.x, a.x);
    vstd::arithmetic::mul::lemma_mul_is_commutative(a.y, -b.y);
    vstd::arithmetic::mul::lemma_mul_unary_negation(b.y, a.y);
    vstd::arithmetic::mul::lemma_mul_is_commutative(b.y, a.y);
    vstd::arithmetic::mul::lemma_mul_is_commutative(a.z, -b.z);
    vstd::arithmetic::mul::lemma_mul_unary_negation(b.z, a.z);
    vstd::arithmetic::mul::lemma_mul_is_commutative(b.z, a.z);
}

/// Scaling commutes with negation.
pub proof fn lemma_scale_neg(u: V3, k: int)
    ensures
        u.neg().scale(k) == u.scale(k).neg(),
{
    vstd::arithmetic::mul::lemma_mul_is_commutative(k, -u.x);
    vstd::arithmetic::mul::lemma_mul_unary_negation(u.x, k);
    vstd::arithmetic::mul::lemma_mul_is_commutative(u.x, k);
    vstd::arithmetic::mul::lemma_mul_is_commutative(k, -u.y);
    vstd::arithmetic::mul::lemma_mul_unary_negation(u.y, k);
    vstd::arithmetic::mul::lemma_mul_is_commutative(u.y, k);
    vstd::arithmetic::mul::lemma_mul_is_commutative(k, -u.z);
    vstd::arithmetic::mul::lemma_mul_unary_negation(u.z, k);
    vstd::arithmetic::mul::lemma_mul_is_commutative(u.z, k);
}

/// Scaling distributes over vector addition.
pub proof fn lemma_scale_add(u: V3, v: V3, k: int)
    ensures
        u.add(v).scale(k) == u.scale(k).add(v.scale(k)),
{
    broadcast use vstd::arithmetic::mul::group_mul_properties;

}

/// Two scalings collapse into one by the product.
pub proof fn lemma_scale_scale(u: V3, j: int, k: int)
    ensures
        u.scale(j).scale(k) == u.scale(k * j),
{
    broadcast use vstd::arithmetic::mul::group_mul_properties;

}

/// Two scalings of the same vector merge by adding the factors.
pub proof fn lemma_scale_merge(v: V3, a: int, b: int)
    ensures
        v.scale(a).add(v.scale(b)) == v.scale(a + b),
{
    vstd::arithmetic::mul::lemma_mul_is_distributive_add_other_way(v.x, a, b);
    vstd::arithmetic::mul::lemma_mul_is_distributive_add_other_way(v.y, a, b);
    vstd::arithmetic::mul::lemma_mul_is_distributive_add_other_way(v.z, a, b);
}

/// Negating a scaled vector negates the factor.
pub proof fn lemma_scale_opposite(v: V3, c: int)
    ensures
        v.scale(c).neg() == v.scale(-c),
{
    vstd::arithmetic::mul::lemma_mul_unary_negation(c, v.x);
    vstd::arithmetic::mul::lemma_mul_unary_negation(c, v.y);
    vstd::arithmetic::mul::lemma_mul_unary_negation(c, v.z);
}

/// The cross product of two vectors is orthogonal to both.
pub proof fn lemma_cross_orthogonal(a: V3, b: V3)
    ensures
        a.cross(b).dot(a) == 0,
        a.cross(b).dot(b) == 0,
{
    let (ax, ay, az) = (a.x, a.y, a.z);
    let (bx, by, bz) = (b.x, b.y, b.z);
    assert((ay * bz - az * by) * ax + (az * bx - ax * bz) * ay + (ax * by - ay * bx) * az == 0)
        by (nonlinear_arith);
    assert((ay * bz - az * by) * bx + (az * bx - ax * bz) * by + (ax * by - ay * bx) * bz == 0)
        by (nonlinear_arith);
}

} // verus!
