//! Homogeneous rigid placements.
//!
//! A placement is an integer triple `(r, t, s)` standing for the affine map
//! `x |-> (r x + t) / s`. Portal poses, camera poses, entity poses and the
//! composed portal-to-portal maps are all carried in this one form; because
//! composition multiplies the triples without ever dividing, every map the
//! library builds is exact. A placement is well formed when `r` is a
//! rotation scaled by `s` (see `mat::ortho`).

use vstd::prelude::*;

use crate::mat::{
    lemma_mul_bounded, lemma_mul_v_assoc, lemma_mul_v_bounded, lemma_mul_v_linear, ortho, M3, Mat3,
    mat_mul, mat_mul_vec,
};
use crate::vec::{lemma_abs_mul, lemma_dot_bound, lemma_scale_add, lemma_scale_scale, V3, V4, Vec3};

verus! {

/// Mathematical placement: the map `x |-> (r x + t) / s`.
#[verifier::ext_equal]
pub struct XF {
    pub r: M3,
    pub t: V3,
    pub s: int,
}

impl XF {
    /// The rotation part is a rotation scaled by the divisor.
    pub open spec fn wf(self) -> bool {
        ortho(self.r, self.s)
    }

    /// Rotation entries and divisor within `rb`, translation within `tb`.
    pub open spec fn bounded(self, rb: int, tb: int) -> bool {
        &&& self.r.bounded(rb)
        &&& -rb <= self.s <= rb
        &&& self.t.bounded(tb)
    }

    pub open spec fn ident() -> XF {
        XF { r: M3::ident(), t: V3::zero(), s: 1 }
    }

    /// Composition: `self` applied after `o`.
    pub open spec fn compose(self, o: XF) -> XF {
        XF {
            r: self.r.mul(o.r),
            t: self.r.mul_v(o.t).add(self.t.scale(o.s)),
            s: self.s * o.s,
        }
    }

    /// Action on a homogeneous point `(v, w)` denoting `v / w`.
    pub open spec fn apply_h(self, p: V4) -> V4 {
        V4::from_parts(self.r.mul_v(p.xyz()).add(self.t.scale(p.w)), self.s * p.w)
    }

    /// The placement is a positive multiple of the identity, hence acts as
    /// the identity on every point.
    pub open spec fn is_scaled_ident(self) -> bool {
        &&& self.r == M3::ident().scale(self.s)
        &&& self.t == V3::zero()
        &&& self.s >= 1
    }
}

/// Composition acts as applying the second map, then the first.
pub proof fn lemma_compose_action(a: XF, b: XF, p: V4)
    ensures
        a.compose(b).apply_h(p) == a.apply_h(b.apply_h(p)),
{
    lemma_mul_v_assoc(a.r, b.r, p.xyz());
    lemma_mul_v_linear(a.r, b.r.mul_v(p.xyz()), b.t.scale(p.w), 0);
    lemma_mul_v_linear(a.r, b.t, b.t, p.w);
    lemma_scale_add(a.r.mul_v(b.t), a.t.scale(b.s), p.w);
    lemma_scale_scale(a.t, b.s, p.w);
    lemma_scale_scale(a.t, p.w, b.s);
    vstd::arithmetic::mul::lemma_mul_is_associative(a.s, b.s, p.w);
    vstd::arithmetic::mul::lemma_mul_is_commutative(p.w, b.s);
}

/// Composition of well-formed placements is well formed.
pub proof fn lemma_compose_wf(a: XF, b: XF)
    requires
        a.wf(),
        b.wf(),
    ensures
        a.compose(b).wf(),
{
    crate::mat::lemma_ortho_mul(a.r, a.s, b.r, b.s);
}

/// A scaled-identity placement fixes every homogeneous point.
pub proof fn lemma_scaled_ident_fixes_points(a: XF, p: V4)
    requires
        a.is_scaled_ident(),
    ensures
        crate::vec::proj_eq_point(a.apply_h(p), p),
{
    crate::mat::lemma_scaled_ident_v(a.s, p.xyz());
    vstd::arithmetic::mul::lemma_mul_basics(p.w);
    vstd::arithmetic::mul::lemma_mul_is_associative(p.w, a.s, p.x);
    vstd::arithmetic::mul::lemma_mul_is_associative(p.w, a.s, p.y);
    vstd::arithmetic::mul::lemma_mul_is_associative(p.w, a.s, p.z);
    vstd::arithmetic::mul::lemma_mul_is_commutative(p.w, a.s);
}

/// Executable placement; `i128` fields in millis.
#[derive(Clone, Copy, Debug, PartialEq, Eq, Structural)]
pub struct Xform {
    pub r: Mat3,
    pub t: Vec3,
    pub s: i128,
}

impl View for Xform {
    type V = XF;

    open spec fn view(&self) -> XF {
        XF { r: self.r@, t: self.t@, s: self.s as int }
    }
}

impl Xform {
    pub fn new(r: Mat3, t: Vec3, s: i128) -> (x: Xform)
        ensures
            x@ == (XF { r: r@, t: t@, s: s as int }),
    {
        Xform { r, t, s }
    }

    /// The identity placement.
    pub fn identity() -> (x: Xform)
        ensures
            x@ == XF::ident(),
            x@.wf(),
            x@.bounded(1, 0),
    {
        let x = Xform { r: Mat3::identity(), t: Vec3::new(0, 0, 0), s: 1 };
        proof {
            crate::mat::lemma_mul_ident(M3::ident());
        }
        x
    }

    /// Whether this placement is a positive multiple of the identity, and
    /// therefore moves nothing.
    pub fn is_identity_map(&self) -> (r: bool)
        ensures
            r == self@.is_scaled_ident(),
    {
        proof {
            vstd::arithmetic::mul::lemma_mul_basics(self.s as int);
        }
        self.s >= 1 && self.r.m00 == self.s && self.r.m11 == self.s && self.r.m22 == self.s
            && self.r.m01 == 0 && self.r.m02 == 0 && self.r.m10 == 0 && self.r.m12 == 0
            && self.r.m20 == 0 && self.r.m21 == 0 && self.t.x == 0 && self.t.y == 0 && self.t.z
            == 0
    }
}

/// Executable composition, `a` after `b`, with magnitude bounds supplied as
/// ghost arguments.
pub(crate) fn xform_compose(
    a: &Xform,
    b: &Xform,
    rba: Ghost<int>,
    tba: Ghost<int>,
    rbb: Ghost<int>,
    tbb: Ghost<int>,
) -> (c: Xform)
    requires
        0 <= rba@,
        0 <= tba@,
        0 <= rbb@,
        0 <= tbb@,
        a@.bounded(rba@, tba@),
        b@.bounded(rbb@, tbb@),
        3 * (rba@ * rbb@) <= i128::MAX,
        3 * (rba@ * tbb@) + tba@ * rbb@ <= i128::MAX,
    ensures
        c@ == a@.compose(b@),
        c@.bounded(3 * (rba@ * rbb@), 3 * (rba@ * tbb@) + tba@ * rbb@),
{
    proof {
        lemma_mul_bounded(a@.r, b@.r, rba@, rbb@);
        lemma_mul_v_bounded(a@.r, b@.t, rba@, tbb@);
        lemma_dot_bound(a@.r.row0(), b@.t, rba@, tbb@);
        lemma_dot_bound(a@.r.row1(), b@.t, rba@, tbb@);
        lemma_dot_bound(a@.r.row2(), b@.t, rba@, tbb@);
        lemma_abs_mul(a@.t.x, b@.s, tba@, rbb@);
        lemma_abs_mul(a@.t.y, b@.s, tba@, rbb@);
        lemma_abs_mul(a@.t.z, b@.s, tba@, rbb@);
        lemma_abs_mul(a@.s, b@.s, rba@, rbb@);
    }
    let r = mat_mul(&a.r, &b.r, rba, rbb);
    let rt = mat_mul_vec(&a.r, &b.t, rba, tbb);
    let t = Vec3 { x: rt.x + a.t.x * b.s, y: rt.y + a.t.y * b.s, z: rt.z + a.t.z * b.s };
    Xform { r, t, s: a.s * b.s }
}

/// Executable composition of two portal-to-portal maps; see `params` for
/// the bounds.
pub fn compose(a: &Xform, b: &Xform) -> (c: Xform)
    requires
        a@.bounded(crate::params::MAP_ROT_LIMIT as int, crate::params::MAP_TRANS_LIMIT as int),
        b@.bounded(crate::params::MAP_ROT_LIMIT as int, crate::params::MAP_TRANS_LIMIT as int),
    ensures
        c@ == a@.compose(b@),
        c@.bounded(crate::params::WIDE_ROT_LIMIT as int, crate::params::WIDE_TRANS_LIMIT as int),
{
    let rb: Ghost<int> = Ghost(crate::params::MAP_ROT_LIMIT as int);
    let tb: Ghost<int> = Ghost(crate::params::MAP_TRANS_LIMIT as int);
    xform_compose(a, b, rb, tb, rb, tb)
}

} // verus!
