//! Integer 3x3 matrices: scaled rotations and their algebra.
//!
//! A rotation is carried as an integer matrix `r` together with a positive
//! scale `s` such that `r * transpose(r) == s^2 * identity` (and the same
//! with the factors swapped); the true orthonormal matrix is `r / s`. The
//! proof functions here establish the ring identities — associativity,
//! transposition, adjointness, preservation of dot products — that the
//! portal geometry proofs are assembled from.

use vstd::prelude::*;

use crate::vec::{
    lemma_abs_mul, lemma_dot_add, lemma_dot_bound, lemma_dot_comm, lemma_dot_scale,
    lemma_dot_scale_right, lemma_dot_sub, V3, Vec3,
};

verus! {

/// Mathematical 3x3 matrix over the unbounded integers, row-major fields.
#[verifier::ext_equal]
pub struct M3 {
    pub m00: int,
    pub m01: int,
    pub m02: int,
    pub m10: int,
    pub m11: int,
    pub m12: int,
    pub m20: int,
    pub m21: int,
    pub m22: int,
}

impl M3 {
    pub open spec fn row0(self) -> V3 {
        V3 { x: self.m00, y: self.m01, z: self.m02 }
    }

    pub open spec fn row1(self) -> V3 {
        V3 { x: self.m10, y: self.m11, z: self.m12 }
    }

    pub open spec fn row2(self) -> V3 {
        V3 { x: self.m20, y: self.m21, z: self.m22 }
    }

    pub open spec fn col0(self) -> V3 {
        V3 { x: self.m00, y: self.m10, z: self.m20 }
    }

    pub open spec fn col1(self) -> V3 {
        V3 { x: self.m01, y: self.m11, z: self.m21 }
    }

    pub open spec fn col2(self) -> V3 {
        V3 { x: self.m02, y: self.m12, z: self.m22 }
    }

    pub open spec fn ident() -> M3 {
        M3 { m00: 1, m01: 0, m02: 0, m10: 0, m11: 1, m12: 0, m20: 0, m21: 0, m22: 1 }
    }

    /// Rotation by half a turn about the vertical axis.
    pub open spec fn y180() -> M3 {
        M3 { m00: -1, m01: 0, m02: 0, m10: 0, m11: 1, m12: 0, m20: 0, m21: 0, m22: -1 }
    }

    pub open spec fn transpose(self) -> M3 {
        M3 {
            m00: self.m00,
            m01: self.m10,
            m02: self.m20,
            m10: self.m01,
            m11: self.m11,
            m12: self.m21,
            m20: self.m02,
            m21: self.m12,
            m22: self.m22,
        }
    }

    pub open spec fn scale(self, k: int) -> M3 {
        M3 {
            m00: k * self.m00,
            m01: k * self.m01,
            m02: k * self.m02,
            m10: k * self.m10,
            m11: k * self.m11,
            m12: k * self.m12,
            m20: k * self.m20,
            m21: k * self.m21,
            m22: k * self.m22,
        }
    }

    pub open spec fn mul(self, o: M3) -> M3 {
        M3 {
            m00: self.row0().dot(o.col0()),
            m01: self.row0().dot(o.col1()),
            m02: self.row0().dot(o.col2()),
            m10: self.row1().dot(o.col0()),
            m11: self.row1().dot(o.col1()),
            m12: self.row1().dot(o.col2()),
            m20: self.row2().dot(o.col0()),
            m21: self.row2().dot(o.col1()),
            m22: self.row2().dot(o.col2()),
        }
    }

    pub open spec fn mul_v(self, v: V3) -> V3 {
        V3 { x: self.row0().dot(v), y: self.row1().dot(v), z: self.row2().dot(v) }
    }

    /// Every entry within `b` of zero.
    pub open spec fn bounded(self, b: int) -> bool {
        &&& -b <= self.m00 <= b && -b <= self.m01 <= b && -b <= self.m02 <= b
        &&& -b <= self.m10 <= b && -b <= self.m11 <= b && -b <= self.m12 <= b
        &&& -b <= self.m20 <= b && -b <= self.m21 <= b && -b <= self.m22 <= b
    }
}

/// `r` is a rotation scaled by `s`: both products with its transpose give
/// the squared scale times the identity.
pub open spec fn ortho(r: M3, s: int) -> bool {
    &&& s >= 1
    &&& r.mul(r.transpose()) == M3::ident().scale(s * s)
    &&& r.transpose().mul(r) == M3::ident().scale(s * s)
}

/// A sum of three terms multiplied on the right distributes.
proof fn lemma_add3_mul(p: int, q: int, r: int, c: int)
    ensures
        (p + q + r) * c == p * c + q * c + r * c,
{
    vstd::arithmetic::mul::lemma_mul_is_distributive_add_other_way(c, p + q, r);
    vstd::arithmetic::mul::lemma_mul_is_distributive_add_other_way(c, p, q);
}

/// A factor distributes over a sum of three terms.
proof fn lemma_mul_add3(a: int, x: int, y: int, z: int)
    ensures
        a * (x + y + z) == a * x + a * y + a * z,
{
    vstd::arithmetic::mul::lemma_mul_is_distributive_add(a, x + y, z);
    vstd::arithmetic::mul::lemma_mul_is_distributive_add(a, x, y);
}

/// The two ways of summing the nine products `a_l * b_lk * c_k` agree: by
/// outer index first, as in an entry of `(A * B) * C`, or by inner index
/// first, as in an entry of `A * (B * C)`.
proof fn lemma_sum_product_swap(
    a0: int,
    a1: int,
    a2: int,
    b: M3,
    c0: int,
    c1: int,
    c2: int,
)
    ensures
        (a0 * b.m00 + a1 * b.m10 + a2 * b.m20) * c0 + (a0 * b.m01 + a1 * b.m11 + a2 * b.m21) * c1
            + (a0 * b.m02 + a1 * b.m12 + a2 * b.m22) * c2 == a0 * (b.m00 * c0 + b.m01 * c1 + b.m02
            * c2) + a1 * (b.m10 * c0 + b.m11 * c1 + b.m12 * c2) + a2 * (b.m20 * c0 + b.m21 * c1
            + b.m22 * c2),
{
    lemma_add3_mul(a0 * b.m00, a1 * b.m10, a2 * b.m20, c0);
    lemma_add3_mul(a0 * b.m01, a1 * b.m11, a2 * b.m21, c1);
    lemma_add3_mul(a0 * b.m02, a1 * b.m12, a2 * b.m22, c2);
    lemma_mul_add3(a0, b.m00 * c0, b.m01 * c1, b.m02 * c2);
    lemma_mul_add3(a1, b.m10 * c0, b.m11 * c1, b.m12 * c2);
    lemma_mul_add3(a2, b.m20 * c0, b.m21 * c1, b.m22 * c2);
    vstd::arithmetic::mul::lemma_mul_is_associative(a0, b.m00, c0);
    vstd::arithmetic::mul::lemma_mul_is_associative(a0, b.m01, c1);
    vstd::arithmetic::mul::lemma_mul_is_associative(a0, b.m02, c2);
    vstd::arithmetic::mul::lemma_mul_is_associative(a1, b.m10, c0);
    vstd::arithmetic::mul::lemma_mul_is_associative(a1, b.m11, c1);
    vstd::arithmetic::mul::lemma_mul_is_associative(a1, b.m12, c2);
    vstd::arithmetic::mul::lemma_mul_is_associative(a2, b.m20, c0);
    vstd::arithmetic::mul::lemma_mul_is_associative(a2, b.m21, c1);
    vstd::arithmetic::mul::lemma_mul_is_associative(a2, b.m22, c2);
}

/// Matrix multiplication is associative.
pub proof fn lemma_mul_assoc(a: M3, b: M3, c: M3)
    ensures
        a.mul(b).mul(c) == a.mul(b.mul(c)),
{
    lemma_sum_product_swap(a.m00, a.m01, a.m02, b, c.m00, c.m10, c.m20);
    lemma_sum_product_swap(a.m00, a.m01, a.m02, b, c.m01, c.m11, c.m21);
    lemma_sum_product_swap(a.m00, a.m01, a.m02, b, c.m02, c.m12, c.m22);
    lemma_sum_product_swap(a.m10, a.m11, a.m12, b, c.m00, c.m10, c.m20);
    lemma_sum_product_swap(a.m10, a.m11, a.m12, b, c.m01, c.m11, c.m21);
    lemma_sum_product_swap(a.m10, a.m11, a.m12, b, c.m02, c.m12, c.m22);
    lemma_sum_product_swap(a.m20, a.m21, a.m22, b, c.m00, c.m10, c.m20);
    lemma_sum_product_swap(a.m20, a.m21, a.m22, b, c.m01, c.m11, c.m21);
    lemma_sum_product_swap(a.m20, a.m21, a.m22, b, c.m02, c.m12, c.m22);
}

/// Matrix-vector application respects products.
pub proof fn lemma_mul_v_assoc(a: M3, b: M3, v: V3)
    ensures
        a.mul(b).mul_v(v) == a.mul_v(b.mul_v(v)),
{
    lemma_sum_product_swap(a.m00, a.m01, a.m02, b, v.x, v.y, v.z);
    lemma_sum_product_swap(a.m10, a.m11, a.m12, b, v.x, v.y, v.z);
    lemma_sum_product_swap(a.m20, a.m21, a.m22, b, v.x, v.y, v.z);
}

/// Applying a matrix on the left of a dot product equals applying its
/// transpose on the right.
pub proof fn lemma_dot_adjoint(m: M3, a: V3, b: V3)
    ensures
        m.mul_v(a).dot(b) == a.dot(m.transpose().mul_v(b)),
{
    lemma_sum_product_swap(a.x, a.y, a.z, m.transpose(), b.x, b.y, b.z);
    lemma_dot_comm(m.row0(), a);
    lemma_dot_comm(m.row1(), a);
    lemma_dot_comm(m.row2(), a);
}

/// Transposition reverses a product.
pub proof fn lemma_transpose_mul(a: M3, b: M3)
    ensures
        a.mul(b).transpose() == b.transpose().mul(a.transpose()),
{
    lemma_dot_comm(a.row0(), b.col0());
    lemma_dot_comm(a.row0(), b.col1());
    lemma_dot_comm(a.row0(), b.col2());
    lemma_dot_comm(a.row1(), b.col0());
    lemma_dot_comm(a.row1(), b.col1());
    lemma_dot_comm(a.row1(), b.col2());
    lemma_dot_comm(a.row2(), b.col0());
    lemma_dot_comm(a.row2(), b.col1());
    lemma_dot_comm(a.row2(), b.col2());
}

/// Transposition is an involution.
pub proof fn lemma_transpose_involution(a: M3)
    ensures
        a.transpose().transpose() == a,
{
}

/// The identity matrix is neutral on both sides.
pub proof fn lemma_mul_ident(a: M3)
    ensures
        M3::ident().mul(a) == a,
        a.mul(M3::ident()) == a,
{
}

/// A scale factor on either argument comes out of the product.
pub proof fn lemma_mul_scale(a: M3, b: M3, k: int)
    ensures
        a.scale(k).mul(b) == a.mul(b).scale(k),
        a.mul(b.scale(k)) == a.mul(b).scale(k),
{
    lemma_dot_scale(a.row0(), b.col0(), k);
    lemma_dot_scale(a.row0(), b.col1(), k);
    lemma_dot_scale(a.row0(), b.col2(), k);
    lemma_dot_scale(a.row1(), b.col0(), k);
    lemma_dot_scale(a.row1(), b.col1(), k);
    lemma_dot_scale(a.row1(), b.col2(), k);
    lemma_dot_scale(a.row2(), b.col0(), k);
    lemma_dot_scale(a.row2(), b.col1(), k);
    lemma_dot_scale(a.row2(), b.col2(), k);
    lemma_dot_scale_right(a.row0(), b.col0(), k);
    lemma_dot_scale_right(a.row0(), b.col1(), k);
    lemma_dot_scale_right(a.row0(), b.col2(), k);
    lemma_dot_scale_right(a.row1(), b.col0(), k);
    lemma_dot_scale_right(a.row1(), b.col1(), k);
    lemma_dot_scale_right(a.row1(), b.col2(), k);
    lemma_dot_scale_right(a.row2(), b.col0(), k);
    lemma_dot_scale_right(a.row2(), b.col1(), k);
    lemma_dot_scale_right(a.row2(), b.col2(), k);
    assert(a.scale(k).row0() == a.row0().scale(k));
    assert(a.scale(k).row1() == a.row1().scale(k));
    assert(a.scale(k).row2() == a.row2().scale(k));
    assert(b.scale(k).col0() == b.col0().scale(k));
    assert(b.scale(k).col1() == b.col1().scale(k));
    assert(b.scale(k).col2() == b.col2().scale(k));
}

/// Multiplying by a scaled identity scales the matrix.
pub proof fn lemma_mul_scaled_ident(a: M3, k: int)
    ensures
        M3::ident().scale(k).mul(a) == a.scale(k),
        a.mul(M3::ident().scale(k)) == a.scale(k),
{
    lemma_mul_scale(M3::ident(), a, k);
    lemma_mul_scale(a, M3::ident(), k);
    lemma_mul_ident(a);
}

/// Matrix-vector application is linear.
pub proof fn lemma_mul_v_linear(a: M3, u: V3, v: V3, k: int)
    ensures
        a.mul_v(u.add(v)) == a.mul_v(u).add(a.mul_v(v)),
        a.mul_v(u.sub(v)) == a.mul_v(u).sub(a.mul_v(v)),
        a.mul_v(u.scale(k)) == a.mul_v(u).scale(k),
        a.scale(k).mul_v(u) == a.mul_v(u).scale(k),
{
    lemma_dot_add(a.row0(), u, v);
    lemma_dot_add(a.row1(), u, v);
    lemma_dot_add(a.row2(), u, v);
    lemma_dot_sub(a.row0(), u, v);
    lemma_dot_sub(a.row1(), u, v);
    lemma_dot_sub(a.row2(), u, v);
    lemma_dot_scale_right(a.row0(), u, k);
    lemma_dot_scale_right(a.row1(), u, k);
    lemma_dot_scale_right(a.row2(), u, k);
    lemma_dot_scale(a.row0(), u, k);
    lemma_dot_scale(a.row1(), u, k);
    lemma_dot_scale(a.row2(), u, k);
    assert(a.scale(k).row0() == a.row0().scale(k));
    assert(a.scale(k).row1() == a.row1().scale(k));
    assert(a.scale(k).row2() == a.row2().scale(k));
}

/// Matrix-vector application commutes with negation.
pub proof fn lemma_mul_v_neg(a: M3, u: V3)
    ensures
        a.mul_v(u.neg()) == a.mul_v(u).neg(),
{
    crate::vec::lemma_dot_neg(a.row0(), u);
    crate::vec::lemma_dot_neg(a.row1(), u);
    crate::vec::lemma_dot_neg(a.row2(), u);
}

/// A scaled identity acts on vectors as scaling.
pub proof fn lemma_scaled_ident_v(k: int, v: V3)
    ensures
        M3::ident().scale(k).mul_v(v) == v.scale(k),
{
    lemma_mul_v_linear(M3::ident(), v, v, k);
    vstd::arithmetic::mul::lemma_mul_basics(v.x);
    vstd::arithmetic::mul::lemma_mul_basics(v.y);
    vstd::arithmetic::mul::lemma_mul_basics(v.z);
    assert(M3::ident().mul_v(v) == v);
}

/// Two scalings of a matrix collapse into one by the product.
pub proof fn lemma_scale_collapse(m: M3, j: int, k: int)
    ensures
        m.scale(j).scale(k) == m.scale(k * j),
{
    broadcast use vstd::arithmetic::mul::group_mul_properties;

}

/// The transpose of a scaled matrix is the scaled transpose.
pub proof fn lemma_transpose_scale(m: M3, k: int)
    ensures
        m.scale(k).transpose() == m.transpose().scale(k),
{
}

/// The transpose of a scaled rotation is a scaled rotation.
pub proof fn lemma_ortho_transpose(r: M3, s: int)
    requires
        ortho(r, s),
    ensures
        ortho(r.transpose(), s),
{
    lemma_transpose_involution(r);
}

/// The product of two scaled rotations is a scaled rotation with the
/// product scale.
pub proof fn lemma_ortho_mul(a: M3, sa: int, b: M3, sb: int)
    requires
        ortho(a, sa),
        ortho(b, sb),
    ensures
        ortho(a.mul(b), sa * sb),
{
    let c = a.mul(b);
    lemma_transpose_mul(a, b);
    // (a b)(a b)^T == a (b b^T) a^T == (sa sb)^2 I
    lemma_mul_assoc(a.mul(b), b.transpose(), a.transpose());
    lemma_mul_assoc(a, b, b.transpose());
    lemma_mul_scaled_ident(a, sb * sb);
    lemma_mul_scale(a, a.transpose(), sb * sb);
    lemma_scale_collapse(M3::ident(), sa * sa, sb * sb);
    // (a b)^T (a b) == b^T (a^T a) b == (sa sb)^2 I
    lemma_mul_assoc(b.transpose().mul(a.transpose()), a, b);
    lemma_mul_assoc(b.transpose(), a.transpose(), a);
    lemma_mul_scaled_ident(b.transpose(), sa * sa);
    lemma_mul_scale(b.transpose(), b, sa * sa);
    lemma_scale_collapse(M3::ident(), sb * sb, sa * sa);
    lemma_square_of_product(sa, sb);
    assert(sa * sb >= 1) by (nonlinear_arith)
        requires
            sa >= 1,
            sb >= 1,
    ;
}

/// The square of a product is the product of squares, in the association
/// orders the rotation lemmas produce.
proof fn lemma_square_of_product(sa: int, sb: int)
    ensures
        (sa * sb) * (sa * sb) == (sb * sb) * (sa * sa),
        (sa * sb) * (sa * sb) == (sa * sa) * (sb * sb),
{
    broadcast use vstd::arithmetic::mul::group_mul_properties;

}

/// An entrywise positive multiple of a scaled rotation is a scaled
/// rotation.
pub proof fn lemma_ortho_scale(r: M3, s: int, k: int)
    requires
        ortho(r, s),
        k >= 1,
    ensures
        ortho(r.scale(k), k * s),
{
    lemma_transpose_scale(r, k);
    lemma_mul_scale(r.scale(k), r.transpose(), k);
    lemma_mul_scale(r, r.transpose(), k);
    lemma_scale_collapse(r.mul(r.transpose()), k, k);
    lemma_scale_collapse(M3::ident(), s * s, k * k);
    lemma_mul_scale(r.transpose().scale(k), r, k);
    lemma_mul_scale(r.transpose(), r, k);
    lemma_scale_collapse(r.transpose().mul(r), k, k);
    lemma_square_rearrange(k, s);
    assert(k * s >= 1) by (nonlinear_arith)
        requires
            k >= 1,
            s >= 1,
    ;
}

/// Scalar rearrangement used when scaling a rotation.
proof fn lemma_square_rearrange(k: int, s: int)
    ensures
        (k * k) * (s * s) == (k * s) * (k * s),
{
    broadcast use vstd::arithmetic::mul::group_mul_properties;

}

/// The transpose of a scaled rotation preserves dot products up to the
/// squared scale.
pub proof fn lemma_rot_transpose_dot(r: M3, s: int, a: V3, b: V3)
    requires
        ortho(r, s),
    ensures
        r.transpose().mul_v(a).dot(r.transpose().mul_v(b)) == (s * s) * a.dot(b),
{
    lemma_transpose_involution(r);
    lemma_dot_adjoint(r.transpose(), a, r.transpose().mul_v(b));
    lemma_mul_v_assoc(r, r.transpose(), b);
    lemma_scaled_ident_v(s * s, b);
    lemma_dot_scale_right(a, b, s * s);
}

/// A scaled rotation itself preserves dot products up to the squared scale.
pub proof fn lemma_rot_dot(r: M3, s: int, a: V3, b: V3)
    requires
        ortho(r, s),
    ensures
        r.mul_v(a).dot(r.mul_v(b)) == (s * s) * a.dot(b),
{
    lemma_dot_adjoint(r, a, r.mul_v(b));
    lemma_transpose_involution(r);
    lemma_mul_v_assoc(r.transpose(), r, b);
    lemma_scaled_ident_v(s * s, b);
    lemma_dot_scale_right(a, b, s * s);
}

/// Entries of a product are bounded by three times the product of the
/// factors' bounds.
pub proof fn lemma_mul_bounded(a: M3, b: M3, ba: int, bb: int)
    requires
        0 <= ba,
        0 <= bb,
        a.bounded(ba),
        b.bounded(bb),
    ensures
        a.mul(b).bounded(3 * (ba * bb)),
{
    lemma_dot_bound(a.row0(), b.col0(), ba, bb);
    lemma_dot_bound(a.row0(), b.col1(), ba, bb);
    lemma_dot_bound(a.row0(), b.col2(), ba, bb);
    lemma_dot_bound(a.row1(), b.col0(), ba, bb);
    lemma_dot_bound(a.row1(), b.col1(), ba, bb);
    lemma_dot_bound(a.row1(), b.col2(), ba, bb);
    lemma_dot_bound(a.row2(), b.col0(), ba, bb);
    lemma_dot_bound(a.row2(), b.col1(), ba, bb);
    lemma_dot_bound(a.row2(), b.col2(), ba, bb);
}

/// Components of a matrix-vector product are bounded likewise.
pub proof fn lemma_mul_v_bounded(a: M3, v: V3, ba: int, bv: int)
    requires
        0 <= ba,
        0 <= bv,
        a.bounded(ba),
        v.bounded(bv),
    ensures
        a.mul_v(v).bounded(3 * (ba * bv)),
{
    lemma_dot_bound(a.row0(), v, ba, bv);
    lemma_dot_bound(a.row1(), v, ba, bv);
    lemma_dot_bound(a.row2(), v, ba, bv);
}

/// Every entry of a scaled rotation is bounded by the scale.
pub proof fn lemma_ortho_entry_bound(r: M3, s: int)
    requires
        ortho(r, s),
    ensures
        r.bounded(s),
{
    assert(r.row0().dot(r.row0()) == s * s);
    assert(r.row1().dot(r.row1()) == s * s);
    assert(r.row2().dot(r.row2()) == s * s);
    lemma_sq_sum_entry_bound(r.m00, r.m01, r.m02, s);
    lemma_sq_sum_entry_bound(r.m10, r.m11, r.m12, s);
    lemma_sq_sum_entry_bound(r.m20, r.m21, r.m22, s);
}

/// If the squares of three integers sum to `s^2`, each lies within `s` of
/// zero.
pub proof fn lemma_sq_sum_entry_bound(x: int, y: int, z: int, s: int)
    by (nonlinear_arith)
    requires
        0 <= s,
        x * x + y * y + z * z == s * s,
    ensures
        -s <= x <= s,
        -s <= y <= s,
        -s <= z <= s,
{
}

/// Executable 3x3 matrix with `i128` entries, row-major fields.
#[derive(Clone, Copy, Debug, PartialEq, Eq, Structural)]
pub struct Mat3 {
    pub m00: i128,
    pub m01: i128,
    pub m02: i128,
    pub m10: i128,
    pub m11: i128,
    pub m12: i128,
    pub m20: i128,
    pub m21: i128,
    pub m22: i128,
}

impl View for Mat3 {
    type V = M3;

    open spec fn view(&self) -> M3 {
        M3 {
            m00: self.m00 as int,
            m01: self.m01 as int,
            m02: self.m02 as int,
            m10: self.m10 as int,
            m11: self.m11 as int,
            m12: self.m12 as int,
            m20: self.m20 as int,
            m21: self.m21 as int,
            m22: self.m22 as int,
        }
    }
}

impl Mat3 {
    #[allow(clippy::too_many_arguments)]
    pub fn new(
        m00: i128,
        m01: i128,
        m02: i128,
        m10: i128,
        m11: i128,
        m12: i128,
        m20: i128,
        m21: i128,
        m22: i128,
    ) -> (r: Mat3)
        ensures
            r@ == (M3 {
                m00: m00 as int,
                m01: m01 as int,
                m02: m02 as int,
                m10: m10 as int,
                m11: m11 as int,
                m12: m12 as int,
                m20: m20 as int,
                m21: m21 as int,
                m22: m22 as int,
            }),
    {
        Mat3 { m00, m01, m02, m10, m11, m12, m20, m21, m22 }
    }

    /// The executable identity matrix.
    pub fn identity() -> (r: Mat3)
        ensures
            r@ == M3::ident(),
    {
        Mat3 { m00: 1, m01: 0, m02: 0, m10: 0, m11: 1, m12: 0, m20: 0, m21: 0, m22: 1 }
    }
}

/// The executable half-turn about the vertical axis.
pub(crate) fn mat_y180() -> (r: Mat3)
    ensures
        r@ == M3::y180(),
{
    Mat3 { m00: -1, m01: 0, m02: 0, m10: 0, m11: 1, m12: 0, m20: 0, m21: 0, m22: -1 }
}

/// Executable entrywise scaling of a matrix bounded by `ba` by a factor
/// bounded by `bk`.
pub(crate) fn mat_scale(a: &Mat3, k: i128, ba: Ghost<int>, bk: Ghost<int>) -> (r: Mat3)
    requires
        0 <= ba@,
        0 <= bk@,
        a@.bounded(ba@),
        -bk@ <= k <= bk@,
        bk@ * ba@ <= i128::MAX,
    ensures
        r@ == a@.scale(k as int),
        r@.bounded(bk@ * ba@),
{
    proof {
        lemma_abs_mul(k as int, a@.m00, bk@, ba@);
        lemma_abs_mul(k as int, a@.m01, bk@, ba@);
        lemma_abs_mul(k as int, a@.m02, bk@, ba@);
        lemma_abs_mul(k as int, a@.m10, bk@, ba@);
        lemma_abs_mul(k as int, a@.m11, bk@, ba@);
        lemma_abs_mul(k as int, a@.m12, bk@, ba@);
        lemma_abs_mul(k as int, a@.m20, bk@, ba@);
        lemma_abs_mul(k as int, a@.m21, bk@, ba@);
        lemma_abs_mul(k as int, a@.m22, bk@, ba@);
    }
    Mat3 {
        m00: k * a.m00,
        m01: k * a.m01,
        m02: k * a.m02,
        m10: k * a.m10,
        m11: k * a.m11,
        m12: k * a.m12,
        m20: k * a.m20,
        m21: k * a.m21,
        m22: k * a.m22,
    }
}

/// Executable transpose.
pub(crate) fn mat_transpose(a: &Mat3) -> (r: Mat3)
    ensures
        r@ == a@.transpose(),
{
    Mat3 {
        m00: a.m00,
        m01: a.m10,
        m02: a.m20,
        m10: a.m01,
        m11: a.m11,
        m12: a.m21,
        m20: a.m02,
        m21: a.m12,
        m22: a.m22,
    }
}

/// Executable matrix product of factors bounded by `ba` and `bb`.
pub(crate) fn mat_mul(a: &Mat3, b: &Mat3, ba: Ghost<int>, bb: Ghost<int>) -> (r: Mat3)
    requires
        0 <= ba@,
        0 <= bb@,
        a@.bounded(ba@),
        b@.bounded(bb@),
        3 * (ba@ * bb@) <= i128::MAX,
    ensures
        r@ == a@.mul(b@),
        r@.bounded(3 * (ba@ * bb@)),
{
    proof {
        lemma_dot_bound(a@.row0(), b@.col0(), ba@, bb@);
        lemma_dot_bound(a@.row0(), b@.col1(), ba@, bb@);
        lemma_dot_bound(a@.row0(), b@.col2(), ba@, bb@);
        lemma_dot_bound(a@.row1(), b@.col0(), ba@, bb@);
        lemma_dot_bound(a@.row1(), b@.col1(), ba@, bb@);
        lemma_dot_bound(a@.row1(), b@.col2(), ba@, bb@);
        lemma_dot_bound(a@.row2(), b@.col0(), ba@, bb@);
        lemma_dot_bound(a@.row2(), b@.col1(), ba@, bb@);
        lemma_dot_bound(a@.row2(), b@.col2(), ba@, bb@);
    }
    Mat3 {
        m00: a.m00 * b.m00 + a.m01 * b.m10 + a.m02 * b.m20,
        m01: a.m00 * b.m01 + a.m01 * b.m11 + a.m02 * b.m21,
        m02: a.m00 * b.m02 + a.m01 * b.m12 + a.m02 * b.m22,
        m10: a.m10 * b.m00 + a.m11 * b.m10 + a.m12 * b.m20,
        m11: a.m10 * b.m01 + a.m11 * b.m11 + a.m12 * b.m21,
        m12: a.m10 * b.m02 + a.m11 * b.m12 + a.m12 * b.m22,
        m20: a.m20 * b.m00 + a.m21 * b.m10 + a.m22 * b.m20,
        m21: a.m20 * b.m01 + a.m21 * b.m11 + a.m22 * b.m21,
        m22: a.m20 * b.m02 + a.m21 * b.m12 + a.m22 * b.m22,
    }
}

/// Executable matrix-vector product with factors bounded by `ba` and `bv`.
pub(crate) fn mat_mul_vec(a: &Mat3, v: &Vec3, ba: Ghost<int>, bv: Ghost<int>) -> (r: Vec3)
    requires
        0 <= ba@,
        0 <= bv@,
        a@.bounded(ba@),
        v@.bounded(bv@),
        3 * (ba@ * bv@) <= i128::MAX,
    ensures
        r@ == a@.mul_v(v@),
        r@.bounded(3 * (ba@ * bv@)),
{
    proof {
        lemma_dot_bound(a@.row0(), v@, ba@, bv@);
        lemma_dot_bound(a@.row1(), v@, ba@, bv@);
        lemma_dot_bound(a@.row2(), v@, ba@, bv@);
    }
    Vec3 {
        x: a.m00 * v.x + a.m01 * v.y + a.m02 * v.z,
        y: a.m10 * v.x + a.m11 * v.y + a.m12 * v.z,
        z: a.m20 * v.x + a.m21 * v.y + a.m22 * v.z,
    }
}

} // verus!
