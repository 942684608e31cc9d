//! A short Weierstrass curve y^2 = x^3 + a*x + b over the cubic extension
//! Fp3 (a cubic twist), with Jacobian-coordinate group operations and
//! scalar multiplication by the binary method and by windowed NAF.
//!
//! The identity is any point with Z = 0; its canonical representative is
//! (0, 1, 0).  The addition and doubling contracts follow the EFD
//! formulas madd-2007-bl, add-2007-bl, dbl-2007-bl and dbl-2009-l, with
//! doubling specialized by the curve's tag: AIsZero when a = 0.

use vstd::prelude::*;
use crate::fp::PrimeField;
use crate::fp3::{
    f3_add, f3_dbl, f3_mul, f3_neg, f3_norm, f3_one, f3_sq, f3_sub, f3_zero, lemma_f3_add_cong,
    lemma_f3_sub_cong, lemma_eqm3_cancel, lemma_eqm3_refl, lemma_eqm3_sym, lemma_eqm3_trans, wf3,
    Extension3, Fp3, Fp3V,
};

verus! {

/// The curve's doubling specialization tag.
#[derive(Clone, Copy, PartialEq, Eq, Structural)]
pub enum CurveType {
    Generic,
    AIsZero,
}

/// Spec-level value of a Jacobian point.
pub struct PointV {
    pub x: Fp3V,
    pub y: Fp3V,
    pub z: Fp3V,
}

pub open spec fn pt_wf(p: int, pt: PointV) -> bool {
    wf3(p, pt.x) && wf3(p, pt.y) && wf3(p, pt.z)
}

pub open spec fn pt_is_zero(pt: PointV) -> bool {
    pt.z == f3_zero()
}

/// The canonical identity representative (0, 1, 0).
pub open spec fn pt_zero() -> PointV {
    PointV { x: f3_zero(), y: f3_one(), z: f3_zero() }
}

/// The affine on-curve equation y^2 == x^3 + a*x + b, in the shape the
/// check computes it: b + a*x + x^2*x.
pub open spec fn on_curve_affine(p: int, nr: int, av: Fp3V, bv: Fp3V, pt: PointV) -> bool {
    f3_sq(p, nr, pt.y) == f3_add(
        p,
        f3_add(p, bv, f3_mul(p, nr, pt.x, av)),
        f3_mul(p, nr, f3_sq(p, nr, pt.x), pt.x),
    )
}

/// Generic Jacobian doubling, EFD dbl-2007-bl.  Doubling the identity
/// returns it unchanged.
pub open spec fn pt_double_generic(p: int, nr: int, av: Fp3V, pt: PointV) -> PointV {
    if pt_is_zero(pt) {
        pt
    } else {
        let aa = f3_sq(p, nr, pt.x);
        let bb = f3_sq(p, nr, pt.y);
        let cc = f3_sq(p, nr, bb);
        let z2 = f3_sq(p, nr, pt.z);
        let d = f3_dbl(p, f3_sub(p, f3_sub(p, f3_sq(p, nr, f3_add(p, pt.x, bb)), aa), cc));
        let e = f3_add(p, f3_add(p, f3_dbl(p, aa), aa), f3_mul(p, nr, f3_sq(p, nr, z2), av));
        let f = f3_sub(p, f3_sq(p, nr, e), f3_dbl(p, d));
        let x3 = f;
        let z3 = f3_sub(p, f3_sub(p, f3_sq(p, nr, f3_add(p, pt.z, pt.y)), bb), z2);
        let y3 = f3_sub(p, f3_mul(p, nr, f3_sub(p, d, x3), e), f3_dbl(p, f3_dbl(p, f3_dbl(p, cc))));
        PointV { x: x3, y: y3, z: z3 }
    }
}

/// Specialized doubling for a = 0, EFD dbl-2009-l.
pub open spec fn pt_double_a_is_zero(p: int, nr: int, pt: PointV) -> PointV {
    if pt_is_zero(pt) {
        pt
    } else {
        let aa = f3_sq(p, nr, pt.x);
        let bb = f3_sq(p, nr, pt.y);
        let cc = f3_sq(p, nr, bb);
        let d = f3_dbl(p, f3_sub(p, f3_sub(p, f3_sq(p, nr, f3_add(p, pt.x, bb)), aa), cc));
        let e = f3_add(p, f3_dbl(p, aa), aa);
        let f = f3_sq(p, nr, e);
        let z3 = f3_dbl(p, f3_mul(p, nr, pt.z, pt.y));
        let x3 = f3_sub(p, f, f3_dbl(p, d));
        let y3 = f3_sub(p, f3_mul(p, nr, f3_sub(p, d, x3), e), f3_dbl(p, f3_dbl(p, f3_dbl(p, cc))));
        PointV { x: x3, y: y3, z: z3 }
    }
}

/// Doubling dispatched by the curve tag.
pub open spec fn pt_double(p: int, nr: int, av: Fp3V, tag: CurveType, pt: PointV) -> PointV {
    match tag {
        CurveType::Generic => pt_double_generic(p, nr, av, pt),
        CurveType::AIsZero => pt_double_a_is_zero(p, nr, pt),
    }
}

/// Negation: the identity is fixed, otherwise Y is negated.
pub open spec fn pt_negate(p: int, pt: PointV) -> PointV {
    if pt_is_zero(pt) {
        pt
    } else {
        PointV { x: pt.x, y: f3_neg(p, pt.y), z: pt.z }
    }
}

/// Mixed addition (the right operand is affine, Z2 = 1), EFD madd-2007-bl,
/// for two non-identity operands.
pub open spec fn pt_madd_nonzero(
    p: int,
    nr: int,
    av: Fp3V,
    tag: CurveType,
    p1: PointV,
    p2: PointV,
) -> PointV {
    let z1z1 = f3_sq(p, nr, p1.z);
    let u2 = f3_mul(p, nr, p2.x, z1z1);
    let s2 = f3_mul(p, nr, f3_mul(p, nr, p2.y, p1.z), z1z1);
    if p1.x == u2 && p1.y == s2 {
        pt_double(p, nr, av, tag, p1)
    } else if p1.x == u2 {
        pt_zero()
    } else {
        let h = f3_sub(p, u2, p1.x);
        let hh = f3_sq(p, nr, h);
        let i = f3_dbl(p, f3_dbl(p, hh));
        let j = f3_mul(p, nr, h, i);
        let r = f3_dbl(p, f3_sub(p, s2, p1.y));
        let v = f3_mul(p, nr, p1.x, i);
        let x3 = f3_sub(p, f3_sub(p, f3_sq(p, nr, r), j), f3_dbl(p, v));
        let y3 = f3_sub(
            p,
            f3_mul(p, nr, f3_sub(p, v, x3), r),
            f3_dbl(p, f3_mul(p, nr, j, p1.y)),
        );
        let z3 = f3_sub(p, f3_sub(p, f3_sq(p, nr, f3_add(p, p1.z, h)), z1z1), hh);
        PointV { x: x3, y: y3, z: z3 }
    }
}

/// General Jacobian addition, EFD add-2007-bl, for two non-identity
/// operands with Z2 != 1.
pub open spec fn pt_addg_nonzero(
    p: int,
    nr: int,
    av: Fp3V,
    tag: CurveType,
    p1: PointV,
    p2: PointV,
) -> PointV {
    let z1z1 = f3_sq(p, nr, p1.z);
    let z2z2 = f3_sq(p, nr, p2.z);
    let u1 = f3_mul(p, nr, p1.x, z2z2);
    let u2 = f3_mul(p, nr, p2.x, z1z1);
    let s1 = f3_mul(p, nr, f3_mul(p, nr, p1.y, p2.z), z2z2);
    let s2 = f3_mul(p, nr, f3_mul(p, nr, p2.y, p1.z), z1z1);
    if u1 == u2 && s1 == s2 {
        pt_double(p, nr, av, tag, p1)
    } else if u1 == u2 {
        pt_zero()
    } else {
        let h = f3_sub(p, u2, u1);
        let i = f3_sq(p, nr, f3_dbl(p, h));
        let j = f3_mul(p, nr, h, i);
        let r = f3_dbl(p, f3_sub(p, s2, s1));
        let v = f3_mul(p, nr, u1, i);
        let x3 = f3_sub(p, f3_sub(p, f3_sq(p, nr, r), j), f3_dbl(p, v));
        let y3 = f3_sub(
            p,
            f3_mul(p, nr, f3_sub(p, v, x3), r),
            f3_dbl(p, f3_mul(p, nr, s1, j)),
        );
        let z3 = f3_mul(
            p,
            nr,
            f3_sub(p, f3_sub(p, f3_sq(p, nr, f3_add(p, p1.z, p2.z)), z1z1), z2z2),
            h,
        );
        PointV { x: x3, y: y3, z: z3 }
    }
}

/// Total addition: identity operands are passed through, an affine right
/// operand takes the mixed formulas, otherwise the general ones.
pub open spec fn pt_add(
    p: int,
    nr: int,
    av: Fp3V,
    tag: CurveType,
    p1: PointV,
    p2: PointV,
) -> PointV {
    if pt_is_zero(p1) {
        p2
    } else if pt_is_zero(p2) {
        p1
    } else if p2.z == f3_one() {
        pt_madd_nonzero(p, nr, av, tag, p1, p2)
    } else {
        pt_addg_nonzero(p, nr, av, tag, p1, p2)
    }
}

/// The mixed-addition entry point: as `pt_add`, but an identity right
/// operand is checked first, so that two identity operands yield the left
/// one unchanged.
pub open spec fn pt_add_mixed(
    p: int,
    nr: int,
    av: Fp3V,
    tag: CurveType,
    p1: PointV,
    p2: PointV,
) -> PointV {
    if pt_is_zero(p2) {
        p1
    } else if pt_is_zero(p1) {
        p2
    } else if p2.z == f3_one() {
        pt_madd_nonzero(p, nr, av, tag, p1, p2)
    } else {
        pt_addg_nonzero(p, nr, av, tag, p1, p2)
    }
}

/// The two addition entry points agree whenever the right operand is not
/// the identity.
pub proof fn lemma_add_entries_agree(
    p: int,
    nr: int,
    av: Fp3V,
    tag: CurveType,
    p1: PointV,
    p2: PointV,
)
    requires
        !pt_is_zero(p2),
    ensures
        pt_add_mixed(p, nr, av, tag, p1, p2) == pt_add(p, nr, av, tag, p1, p2),
{
}

/// One step of left-to-right binary scalar multiplication; `mx` selects
/// the mixed-addition entry point.
pub open spec fn pt_mul_step(
    p: int,
    nr: int,
    av: Fp3V,
    tag: CurveType,
    mx: bool,
    acc: PointV,
    base: PointV,
    bit: bool,
) -> PointV {
    let d = pt_double(p, nr, av, tag, acc);
    if bit {
        if mx {
            pt_add_mixed(p, nr, av, tag, d, base)
        } else {
            pt_add(p, nr, av, tag, d, base)
        }
    } else {
        d
    }
}

/// Left-to-right binary scalar multiplication over an MSB-first bit
/// sequence, starting from the identity.
pub open spec fn pt_mul_bits(
    p: int,
    nr: int,
    av: Fp3V,
    tag: CurveType,
    mx: bool,
    base: PointV,
    bits: Seq<bool>,
) -> PointV
    decreases bits.len(),
{
    if bits.len() == 0 {
        pt_zero()
    } else {
        pt_mul_step(
            p,
            nr,
            av,
            tag,
            mx,
            pt_mul_bits(p, nr, av, tag, mx, base, bits.drop_last()),
            base,
            bits.last(),
        )
    }
}

/// For a base that is not the identity, the mixed and the generic
/// double-and-add folds compute the same point.
pub proof fn lemma_mul_bits_agree(
    p: int,
    nr: int,
    av: Fp3V,
    tag: CurveType,
    base: PointV,
    bits: Seq<bool>,
)
    requires
        !pt_is_zero(base),
    ensures
        pt_mul_bits(p, nr, av, tag, true, base, bits) == pt_mul_bits(
            p,
            nr,
            av,
            tag,
            false,
            base,
            bits,
        ),
    decreases bits.len(),
{
    if bits.len() > 0 {
        lemma_mul_bits_agree(p, nr, av, tag, base, bits.drop_last());
    }
}

/// The MSB-first bit stream of a slice of 64-bit limbs.
pub open spec fn bits_of(limbs: Seq<u64>) -> Seq<bool> {
    Seq::new(limbs.len() * 64, |i: int| (limbs[i / 64] >> (63 - (i % 64)) as u64) & 1 == 1)
}

/// A valid windowed-NAF digit for window 3: zero or odd with magnitude
/// below 4.
pub open spec fn wnaf_digit_ok(d: i64) -> bool {
    d == 0 || d == 1 || d == -1 || d == 3 || d == -3
}

/// The odd multiple of the base selected by a nonzero wNAF digit.
pub open spec fn pt_wnaf_entry(
    p: int,
    nr: int,
    av: Fp3V,
    tag: CurveType,
    base: PointV,
    d: i64,
) -> PointV {
    let three = pt_add(p, nr, av, tag, base, pt_double(p, nr, av, tag, base));
    if d == 1 {
        base
    } else if d == 3 {
        three
    } else if d == -1 {
        pt_negate(p, base)
    } else {
        pt_negate(p, three)
    }
}

/// One step of the wNAF scan.
pub open spec fn pt_wnaf_step(
    p: int,
    nr: int,
    av: Fp3V,
    tag: CurveType,
    acc: PointV,
    base: PointV,
    d: i64,
) -> PointV {
    let dd = pt_double(p, nr, av, tag, acc);
    if d == 0 {
        dd
    } else {
        pt_add(p, nr, av, tag, dd, pt_wnaf_entry(p, nr, av, tag, base, d))
    }
}

/// wNAF scalar multiplication over least-significant-first digits,
/// scanned from the most significant end.
pub open spec fn pt_wnaf(
    p: int,
    nr: int,
    av: Fp3V,
    tag: CurveType,
    base: PointV,
    digits: Seq<i64>,
) -> PointV
    decreases digits.len(),
{
    if digits.len() == 0 {
        pt_zero()
    } else {
        pt_wnaf_step(
            p,
            nr,
            av,
            tag,
            pt_wnaf(p, nr, av, tag, base, digits.subrange(1, digits.len() as int)),
            base,
            digits[0],
        )
    }
}

/// (t - v) - v equals t - 2v; bridges the doubled subtrahend in the EFD
/// formulas to the two in-place subtractions the code performs.
pub proof fn lemma_f3_sub_twice(p: int, t: Fp3V, v: Fp3V)
    requires
        p > 0,
        wf3(p, t),
        wf3(p, v),
    ensures
        f3_sub(p, f3_sub(p, t, v), v) == f3_sub(p, t, f3_dbl(p, v)),
{
    lemma_eqm3_refl(p, t);
    lemma_eqm3_refl(p, v);
    lemma_f3_sub_cong(p, t, v, t, v);
    lemma_f3_sub_cong(p, f3_sub(p, t, v), v, crate::fp3::u3_sub(t, v), v);
    lemma_f3_add_cong(p, v, v, v, v);
    lemma_f3_sub_cong(p, t, f3_dbl(p, v), t, crate::fp3::u3_add(v, v));
    assert(crate::fp3::u3_sub(crate::fp3::u3_sub(t, v), v) == crate::fp3::u3_sub(
        t,
        crate::fp3::u3_add(v, v),
    ));
    lemma_eqm3_sym(p, f3_sub(p, t, f3_dbl(p, v)), crate::fp3::u3_sub(t, crate::fp3::u3_add(v, v)));
    lemma_eqm3_trans(
        p,
        f3_sub(p, f3_sub(p, t, v), v),
        crate::fp3::u3_sub(crate::fp3::u3_sub(t, v), v),
        f3_sub(p, t, f3_dbl(p, v)),
    );
    lemma_eqm3_cancel(p, f3_sub(p, f3_sub(p, t, v), v), f3_sub(p, t, f3_dbl(p, v)));
}

/// Descriptor of the twisted curve: coefficients a and b over Fp3, the
/// base and scalar fields, and the doubling specialization tag.
pub struct WeierstrassCurveTwist {
    pub base_field: Extension3,
    pub scalar_field: PrimeField,
    pub a: Fp3,
    pub b: Fp3,
    pub curve_type: CurveType,
}

impl WeierstrassCurveTwist {
    pub open spec fn m(&self) -> int {
        self.base_field.m()
    }

    pub open spec fn nr(&self) -> int {
        self.base_field.nr()
    }

    pub open spec fn wf(&self) -> bool {
        &&& self.base_field.wf()
        &&& self.a.wf(self.m())
        &&& self.b.wf(self.m())
        &&& (self.curve_type == CurveType::AIsZero <==> self.a.v() == f3_zero())
    }

    /// Builds the curve; the tag is AIsZero exactly when a = 0.  The b
    /// coefficient is not validated.
    pub fn new(scalar_field: PrimeField, extension_field: Extension3, a: Fp3, b: Fp3) -> (r:
        WeierstrassCurveTwist)
        requires
            extension_field.wf(),
            a.wf(extension_field.m()),
            b.wf(extension_field.m()),
        ensures
            r.wf(),
            r.base_field == extension_field,
            r.scalar_field == scalar_field,
            r.a == a,
            r.b == b,
            r.curve_type == (if a.v() == f3_zero() {
                CurveType::AIsZero
            } else {
                CurveType::Generic
            }),
    {
        let mut curve_type = CurveType::Generic;
        if a.is_zero() {
            curve_type = CurveType::AIsZero;
        }
        WeierstrassCurveTwist { base_field: extension_field, scalar_field, a, b, curve_type }
    }
}

/// A point on the twisted curve in Jacobian coordinates.
#[derive(Clone, Copy, PartialEq, Eq, Structural)]
pub struct TwistPoint {
    pub x: Fp3,
    pub y: Fp3,
    pub z: Fp3,
}

impl TwistPoint {
    pub open spec fn v(&self) -> PointV {
        PointV { x: self.x.v(), y: self.y.v(), z: self.z.v() }
    }

    pub open spec fn wf(&self, p: int) -> bool {
        pt_wf(p, self.v())
    }

    /// The identity point (0, 1, 0).
    pub fn zero(curve: &WeierstrassCurveTwist) -> (r: TwistPoint)
        requires
            curve.wf(),
        ensures
            r.wf(curve.m()),
            r.v() == pt_zero(),
    {
        TwistPoint { x: Fp3::zero(), y: Fp3::one(), z: Fp3::zero() }
    }

    pub fn is_zero(&self) -> (r: bool)
        ensures
            r <==> pt_is_zero(self.v()),
    {
        self.is_zero_generic_impl()
    }

    pub fn is_zero_generic_impl(&self) -> (r: bool)
        ensures
            r <==> pt_is_zero(self.v()),
    {
        self.z.is_zero()
    }

    /// The affine on-curve test y^2 == x^3 + a*x + b; the input is read
    /// as affine (its Z coordinate is ignored).
    pub fn check_on_curve(&self, curve: &WeierstrassCurveTwist) -> (r: bool)
        requires
            curve.wf(),
            self.wf(curve.m()),
        ensures
            r <==> on_curve_affine(curve.m(), curve.nr(), curve.a.v(), curve.b.v(), self.v()),
    {
        let e3 = &curve.base_field;
        let mut rhs = self.y;
        rhs.square(e3);
        let mut lhs = curve.b;
        let mut ax = self.x;
        ax.mul_assign(e3, &curve.a);
        lhs.add_assign(e3, &ax);
        let mut x_3 = self.x;
        x_3.square(e3);
        x_3.mul_assign(e3, &self.x);
        lhs.add_assign(e3, &x_3);
        rhs == lhs
    }

    /// A point from affine coordinates: Z is set to 1.
    pub fn point_from_xy(curve: &WeierstrassCurveTwist, x: Fp3, y: Fp3) -> (r: TwistPoint)
        requires
            curve.wf(),
            x.wf(curve.m()),
            y.wf(curve.m()),
        ensures
            r.wf(curve.m()),
            r.v() == (PointV { x: x.v(), y: y.v(), z: f3_one() }),
    {
        TwistPoint { x, y, z: Fp3::one() }
    }

    /// True for the identity and for points already in affine form.
    pub fn is_normalized(&self, curve: &WeierstrassCurveTwist) -> (r: bool)
        requires
            curve.wf(),
        ensures
            r <==> (pt_is_zero(self.v()) || self.v().z == f3_one()),
    {
        if self.is_zero() {
            return true;
        }
        let one = Fp3::one();
        self.z == one
    }

    /// Jacobian-to-affine normalization: X <- X/Z^2, Y <- Y/Z^3, Z <- 1.
    /// The identity and affine points are returned unchanged.  A finite
    /// point whose Z is not invertible (impossible over a field) is also
    /// left unchanged.
    pub fn normalize(&mut self, curve: &WeierstrassCurveTwist)
        requires
            curve.wf(),
            old(self).wf(curve.m()),
        ensures
            final(self).wf(curve.m()),
            pt_is_zero(old(self).v()) || old(self).v().z == f3_one() ==> *final(self) == *old(self),
            !pt_is_zero(old(self).v()) && old(self).v().z != f3_one() && f3_norm(
                curve.m(),
                curve.nr(),
                old(self).v().z,
            ) != 0 ==> exists|u: Fp3V|
                {
                    &&& wf3(curve.m(), u)
                    &&& f3_mul(curve.m(), curve.nr(), old(self).v().z, u) == f3_one()
                    &&& final(self).v() == (PointV {
                        x: f3_mul(curve.m(), curve.nr(), old(self).v().x, f3_sq(curve.m(), curve.nr(), u)),
                        y: f3_mul(
                            curve.m(),
                            curve.nr(),
                            old(self).v().y,
                            f3_mul(curve.m(), curve.nr(), f3_sq(curve.m(), curve.nr(), u), u),
                        ),
                        z: f3_one(),
                    })
                },
            !pt_is_zero(old(self).v()) && old(self).v().z != f3_one() && f3_norm(
                curve.m(),
                curve.nr(),
                old(self).v().z,
            ) == 0 ==> *final(self) == *old(self),
    {
        if self.is_zero() {
            return ;
        }
        let one = Fp3::one();
        if self.z == one {
            return ;
        }
        let e3 = &curve.base_field;
        match self.z.inverse(e3) {
            None => {},
            Some(z_inv) => {
                let ghost p = curve.m();
                let ghost nr = curve.nr();
                let ghost uv = z_inv.v();
                let mut zinv_powered = z_inv;
                zinv_powered.square(e3);
                self.x.mul_assign(e3, &zinv_powered);
                zinv_powered.mul_assign(e3, &z_inv);
                self.y.mul_assign(e3, &zinv_powered);
                self.z = one;
                proof {
                    assert(wf3(p, uv) && f3_mul(p, nr, old(self).v().z, uv) == f3_one()
                        && final(self).v() == (PointV {
                        x: f3_mul(p, nr, old(self).v().x, f3_sq(p, nr, uv)),
                        y: f3_mul(p, nr, old(self).v().y, f3_mul(p, nr, f3_sq(p, nr, uv), uv)),
                        z: f3_one(),
                    }));
                }
            },
        }
    }

    /// The affine coordinates by Jacobian normalization; the identity
    /// yields (0, 0).
    pub fn into_xy(&self, curve: &WeierstrassCurveTwist) -> (r: (Fp3, Fp3))
        requires
            curve.wf(),
            self.wf(curve.m()),
        ensures
            r.0.wf(curve.m()),
            r.1.wf(curve.m()),
            pt_is_zero(self.v()) ==> r.0.v() == f3_zero() && r.1.v() == f3_zero(),
            !pt_is_zero(self.v()) && self.v().z == f3_one() ==> r.0.v() == self.v().x && r.1.v()
                == self.v().y,
            !pt_is_zero(self.v()) && self.v().z != f3_one() && f3_norm(
                curve.m(),
                curve.nr(),
                self.v().z,
            ) != 0 ==> exists|u: Fp3V|
                {
                    &&& wf3(curve.m(), u)
                    &&& f3_mul(curve.m(), curve.nr(), self.v().z, u) == f3_one()
                    &&& r.0.v() == f3_mul(curve.m(), curve.nr(), self.v().x, f3_sq(curve.m(), curve.nr(), u))
                    &&& r.1.v() == f3_mul(
                        curve.m(),
                        curve.nr(),
                        self.v().y,
                        f3_mul(curve.m(), curve.nr(), f3_sq(curve.m(), curve.nr(), u), u),
                    )
                },
    {
        if self.is_zero() {
            return (Fp3::zero(), Fp3::zero());
        }
        let mut point = *self;
        point.normalize(curve);
        (point.x, point.y)
    }

    /// The affine coordinates by projective normalization: both X and Y
    /// are divided by Z once.  The identity yields (0, 0); a finite point
    /// with non-invertible Z is returned as its raw (X, Y).
    pub fn into_xy_from_homogenious(&self, curve: &WeierstrassCurveTwist) -> (r: (Fp3, Fp3))
        requires
            curve.wf(),
            self.wf(curve.m()),
        ensures
            r.0.wf(curve.m()),
            r.1.wf(curve.m()),
            pt_is_zero(self.v()) ==> r.0.v() == f3_zero() && r.1.v() == f3_zero(),
            !pt_is_zero(self.v()) && f3_norm(curve.m(), curve.nr(), self.v().z) != 0 ==> exists|
                u: Fp3V,
            |
                {
                    &&& wf3(curve.m(), u)
                    &&& f3_mul(curve.m(), curve.nr(), self.v().z, u) == f3_one()
                    &&& r.0.v() == f3_mul(curve.m(), curve.nr(), self.v().x, u)
                    &&& r.1.v() == f3_mul(curve.m(), curve.nr(), self.v().y, u)
                },
            !pt_is_zero(self.v()) && f3_norm(curve.m(), curve.nr(), self.v().z) == 0 ==> r.0.v()
                == self.v().x && r.1.v() == self.v().y,
    {
        if self.is_zero() {
            return (Fp3::zero(), Fp3::zero());
        }
        let e3 = &curve.base_field;
        match self.z.inverse(e3) {
            None => (self.x, self.y),
            Some(z_inv) => {
                let ghost p = curve.m();
                let ghost nr = curve.nr();
                let ghost uv = z_inv.v();
                let mut x = self.x;
                x.mul_assign(e3, &z_inv);
                let mut y = self.y;
                y.mul_assign(e3, &z_inv);
                proof {
                    assert(wf3(p, uv) && f3_mul(p, nr, self.v().z, uv) == f3_one() && x.v()
                        == f3_mul(p, nr, self.v().x, uv) && y.v() == f3_mul(p, nr, self.v().y, uv));
                }
                (x, y)
            },
        }
    }

    /// Negation in place: the identity is unchanged, else Y <- -Y.
    pub fn negate_impl(&mut self, curve: &WeierstrassCurveTwist)
        requires
            curve.wf(),
            old(self).wf(curve.m()),
        ensures
            final(self).wf(curve.m()),
            final(self).v() == pt_negate(curve.m(), old(self).v()),
    {
        if !self.is_zero() {
            self.y.negate(&curve.base_field);
        }
    }

    pub fn negate(&mut self, curve: &WeierstrassCurveTwist)
        requires
            curve.wf(),
            old(self).wf(curve.m()),
        ensures
            final(self).wf(curve.m()),
            final(self).v() == pt_negate(curve.m(), old(self).v()),
    {
        self.negate_impl(curve);
    }

    /// Generic-tag doubling, EFD dbl-2007-bl.
    pub fn double_generic_impl(&mut self, curve: &WeierstrassCurveTwist)
        requires
            curve.wf(),
            old(self).wf(curve.m()),
        ensures
            final(self).wf(curve.m()),
            final(self).v() == pt_double_generic(curve.m(), curve.nr(), curve.a.v(), old(self).v()),
    {
        if self.is_zero() {
            return ;
        }
        let e3 = &curve.base_field;
        let mut a = self.x;
        a.square(e3);
        let mut b = self.y;
        b.square(e3);
        let mut c = b;
        c.square(e3);
        let mut z_2 = self.z;
        z_2.square(e3);
        let mut d = self.x;
        d.add_assign(e3, &b);
        d.square(e3);
        d.sub_assign(e3, &a);
        d.sub_assign(e3, &c);
        d.double(e3);
        let mut e = a;
        e.double(e3);
        e.add_assign(e3, &a);
        let mut a_z_4 = z_2;
        a_z_4.square(e3);
        a_z_4.mul_assign(e3, &curve.a);
        e.add_assign(e3, &a_z_4);
        let mut t = d;
        t.double(e3);
        let mut f = e;
        f.square(e3);
        f.sub_assign(e3, &t);
        self.x = f;
        self.z.add_assign(e3, &self.y.clone());
        self.z.square(e3);
        self.z.sub_assign(e3, &b);
        self.z.sub_assign(e3, &z_2);
        self.y = d;
        self.y.sub_assign(e3, &self.x.clone());
        self.y.mul_assign(e3, &e);
        c.double(e3);
        c.double(e3);
        c.double(e3);
        self.y.sub_assign(e3, &c);
        proof {
            // z + y versus y + z in the Z3 formula is the same reduced sum
            assert(final(self).v() == pt_double_generic(
                curve.m(),
                curve.nr(),
                curve.a.v(),
                old(self).v(),
            ));
        }
    }

    /// AIsZero-tag doubling, EFD dbl-2009-l.
    pub fn double_a_is_zero_impl(&mut self, curve: &WeierstrassCurveTwist)
        requires
            curve.wf(),
            old(self).wf(curve.m()),
        ensures
            final(self).wf(curve.m()),
            final(self).v() == pt_double_a_is_zero(curve.m(), curve.nr(), old(self).v()),
    {
        if self.is_zero() {
            return ;
        }
        let e3 = &curve.base_field;
        let ghost p = curve.m();
        let ghost nr = curve.nr();
        let mut a = self.x;
        a.square(e3);
        let mut b = self.y;
        b.square(e3);
        let mut c = b;
        c.square(e3);
        let mut d = self.x;
        d.add_assign(e3, &b);
        d.square(e3);
        d.sub_assign(e3, &a);
        d.sub_assign(e3, &c);
        d.double(e3);
        let mut e = a;
        e.double(e3);
        e.add_assign(e3, &a);
        let mut f = e;
        f.square(e3);
        self.z.mul_assign(e3, &self.y.clone());
        self.z.double(e3);
        self.x = f;
        self.x.sub_assign(e3, &d);
        self.x.sub_assign(e3, &d);
        self.y = d;
        self.y.sub_assign(e3, &self.x.clone());
        self.y.mul_assign(e3, &e);
        c.double(e3);
        c.double(e3);
        c.double(e3);
        self.y.sub_assign(e3, &c);
        proof {
            lemma_f3_sub_twice(p, f.v(), d.v());
        }
    }

    /// Doubling dispatched by the curve's tag.
    pub fn double(&mut self, curve: &WeierstrassCurveTwist)
        requires
            curve.wf(),
            old(self).wf(curve.m()),
        ensures
            final(self).wf(curve.m()),
            final(self).v() == pt_double(
                curve.m(),
                curve.nr(),
                curve.a.v(),
                curve.curve_type,
                old(self).v(),
            ),
    {
        match curve.curve_type {
            CurveType::Generic => self.double_generic_impl(curve),
            CurveType::AIsZero => self.double_a_is_zero_impl(curve),
        }
    }

    /// Core of mixed addition for non-identity operands with Z2 = 1.
    fn madd_core(&mut self, curve: &WeierstrassCurveTwist, other: &TwistPoint)
        requires
            curve.wf(),
            old(self).wf(curve.m()),
            other.wf(curve.m()),
            !pt_is_zero(old(self).v()),
            !pt_is_zero(other.v()),
            other.v().z == f3_one(),
        ensures
            final(self).wf(curve.m()),
            final(self).v() == pt_madd_nonzero(
                curve.m(),
                curve.nr(),
                curve.a.v(),
                curve.curve_type,
                old(self).v(),
                other.v(),
            ),
    {
        let e3 = &curve.base_field;
        let ghost p = curve.m();
        let ghost nr = curve.nr();
        let mut z1z1 = self.z;
        z1z1.square(e3);
        let mut u2 = other.x;
        u2.mul_assign(e3, &z1z1);
        let mut s2 = other.y;
        s2.mul_assign(e3, &self.z.clone());
        s2.mul_assign(e3, &z1z1);
        if self.x == u2 && self.y == s2 {
            self.double(curve);
        } else if self.x == u2 {
            self.x = Fp3::zero();
            self.y = Fp3::one();
            self.z = Fp3::zero();
        } else {
            let mut h = u2;
            h.sub_assign(e3, &self.x.clone());
            let mut hh = h;
            hh.square(e3);
            let mut i = hh;
            i.double(e3);
            i.double(e3);
            let mut j = h;
            j.mul_assign(e3, &i);
            let mut r = s2;
            r.sub_assign(e3, &self.y.clone());
            r.double(e3);
            let mut v = self.x;
            v.mul_assign(e3, &i);
            let ghost jv = j.v();
            self.x = r;
            self.x.square(e3);
            self.x.sub_assign(e3, &j);
            self.x.sub_assign(e3, &v);
            self.x.sub_assign(e3, &v);
            j.mul_assign(e3, &self.y.clone());
            j.double(e3);
            self.y = v;
            self.y.sub_assign(e3, &self.x.clone());
            self.y.mul_assign(e3, &r);
            self.y.sub_assign(e3, &j);
            self.z.add_assign(e3, &h);
            self.z.square(e3);
            self.z.sub_assign(e3, &z1z1);
            self.z.sub_assign(e3, &hh);
            proof {
                lemma_f3_sub_twice(
                    p,
                    f3_sub(p, f3_sq(p, nr, r.v()), jv),
                    v.v(),
                );
            }
        }
    }

    /// Core of general addition for non-identity operands with Z2 != 1.
    fn addg_core(&mut self, curve: &WeierstrassCurveTwist, other: &TwistPoint)
        requires
            curve.wf(),
            old(self).wf(curve.m()),
            other.wf(curve.m()),
            !pt_is_zero(old(self).v()),
            !pt_is_zero(other.v()),
            other.v().z != f3_one(),
        ensures
            final(self).wf(curve.m()),
            final(self).v() == pt_addg_nonzero(
                curve.m(),
                curve.nr(),
                curve.a.v(),
                curve.curve_type,
                old(self).v(),
                other.v(),
            ),
    {
        let e3 = &curve.base_field;
        let ghost p = curve.m();
        let ghost nr = curve.nr();
        let mut z1z1 = self.z;
        z1z1.square(e3);
        let mut z2z2 = other.z;
        z2z2.square(e3);
        let mut u1 = self.x;
        u1.mul_assign(e3, &z2z2);
        let mut u2 = other.x;
        u2.mul_assign(e3, &z1z1);
        let mut s1 = self.y;
        s1.mul_assign(e3, &other.z);
        s1.mul_assign(e3, &z2z2);
        let mut s2 = other.y;
        s2.mul_assign(e3, &self.z.clone());
        s2.mul_assign(e3, &z1z1);
        if u1 == u2 && s1 == s2 {
            self.double(curve);
        } else if u1 == u2 {
            self.x = Fp3::zero();
            self.y = Fp3::one();
            self.z = Fp3::zero();
        } else {
            let mut h = u2;
            h.sub_assign(e3, &u1);
            let mut i = h;
            i.double(e3);
            i.square(e3);
            let mut j = h;
            j.mul_assign(e3, &i);
            let mut r = s2;
            r.sub_assign(e3, &s1);
            r.double(e3);
            let mut v = u1;
            v.mul_assign(e3, &i);
            self.x = r;
            self.x.square(e3);
            self.x.sub_assign(e3, &j);
            self.x.sub_assign(e3, &v);
            self.x.sub_assign(e3, &v);
            self.y = v;
            self.y.sub_assign(e3, &self.x.clone());
            self.y.mul_assign(e3, &r);
            s1.mul_assign(e3, &j);
            s1.double(e3);
            self.y.sub_assign(e3, &s1);
            self.z.add_assign(e3, &other.z);
            self.z.square(e3);
            self.z.sub_assign(e3, &z1z1);
            self.z.sub_assign(e3, &z2z2);
            self.z.mul_assign(e3, &h);
            proof {
                lemma_f3_sub_twice(
                    p,
                    f3_sub(p, f3_sq(p, nr, r.v()), j.v()),
                    v.v(),
                );
            }
        }
    }

    /// General addition with identity handling and automatic dispatch to
    /// mixed addition when the right operand is affine.
    pub fn add_assign_generic_impl(&mut self, curve: &WeierstrassCurveTwist, other: &TwistPoint)
        requires
            curve.wf(),
            old(self).wf(curve.m()),
            other.wf(curve.m()),
        ensures
            final(self).wf(curve.m()),
            final(self).v() == pt_add(
                curve.m(),
                curve.nr(),
                curve.a.v(),
                curve.curve_type,
                old(self).v(),
                other.v(),
            ),
    {
        if self.is_zero() {
            self.x = other.x;
            self.y = other.y;
            self.z = other.z;
            return ;
        }
        if other.is_zero() {
            return ;
        }
        let one = Fp3::one();
        if other.z == one {
            self.madd_core(curve, other);
        } else {
            self.addg_core(curve, other);
        }
    }

    /// Mixed addition with identity handling; falls back to the general
    /// formulas when the right operand is not affine after all.
    pub fn add_assign_mixed_generic_impl(
        &mut self,
        curve: &WeierstrassCurveTwist,
        other: &TwistPoint,
    )
        requires
            curve.wf(),
            old(self).wf(curve.m()),
            other.wf(curve.m()),
        ensures
            final(self).wf(curve.m()),
            final(self).v() == pt_add_mixed(
                curve.m(),
                curve.nr(),
                curve.a.v(),
                curve.curve_type,
                old(self).v(),
                other.v(),
            ),
    {
        if other.is_zero() {
            return ;
        }
        if self.is_zero() {
            self.x = other.x;
            self.y = other.y;
            self.z = other.z;
            return ;
        }
        let one = Fp3::one();
        if other.z != one {
            self.addg_core(curve, other);
        } else {
            self.madd_core(curve, other);
        }
    }

    pub fn add_assign(&mut self, curve: &WeierstrassCurveTwist, other: &TwistPoint)
        requires
            curve.wf(),
            old(self).wf(curve.m()),
            other.wf(curve.m()),
        ensures
            final(self).wf(curve.m()),
            final(self).v() == pt_add(
                curve.m(),
                curve.nr(),
                curve.a.v(),
                curve.curve_type,
                old(self).v(),
                other.v(),
            ),
    {
        self.add_assign_generic_impl(curve, other);
    }

    pub fn add_assign_mixed(&mut self, curve: &WeierstrassCurveTwist, other: &TwistPoint)
        requires
            curve.wf(),
            old(self).wf(curve.m()),
            other.wf(curve.m()),
        ensures
            final(self).wf(curve.m()),
            final(self).v() == pt_add_mixed(
                curve.m(),
                curve.nr(),
                curve.a.v(),
                curve.curve_type,
                old(self).v(),
                other.v(),
            ),
    {
        self.add_assign_mixed_generic_impl(curve, other);
    }

    /// Subtraction: addition of the negated operand.
    pub fn sub_assign(&mut self, curve: &WeierstrassCurveTwist, other: &TwistPoint)
        requires
            curve.wf(),
            old(self).wf(curve.m()),
            other.wf(curve.m()),
        ensures
            final(self).wf(curve.m()),
            final(self).v() == pt_add(
                curve.m(),
                curve.nr(),
                curve.a.v(),
                curve.curve_type,
                old(self).v(),
                pt_negate(curve.m(), other.v()),
            ),
    {
        let mut other_neg = *other;
        other_neg.negate(curve);
        self.add_assign(curve, &other_neg);
    }

    /// Binary double-and-add over the MSB-first bit stream of the limbs,
    /// with mixed additions when the base is affine.
    pub fn mul_impl(&self, curve: &WeierstrassCurveTwist, exp: &[u64]) -> (r: TwistPoint)
        requires
            curve.wf(),
            self.wf(curve.m()),
        ensures
            r.wf(curve.m()),
            r.v() == pt_mul_bits(
                curve.m(),
                curve.nr(),
                curve.a.v(),
                curve.curve_type,
                false,
                self.v(),
                bits_of(exp@),
            ),
    {
        let one = Fp3::one();
        if self.z == one {
            let r = self.mul_impl_mixed_addition(curve, exp);
            proof {
                lemma_mul_bits_agree(
                    curve.m(),
                    curve.nr(),
                    curve.a.v(),
                    curve.curve_type,
                    self.v(),
                    bits_of(exp@),
                );
            }
            return r;
        }
        self.mul_loop(curve, exp, false)
    }

    /// Binary double-and-add using mixed addition for the base point.
    pub fn mul_impl_mixed_addition(&self, curve: &WeierstrassCurveTwist, exp: &[u64]) -> (r:
        TwistPoint)
        requires
            curve.wf(),
            self.wf(curve.m()),
        ensures
            r.wf(curve.m()),
            r.v() == pt_mul_bits(
                curve.m(),
                curve.nr(),
                curve.a.v(),
                curve.curve_type,
                true,
                self.v(),
                bits_of(exp@),
            ),
    {
        self.mul_loop(curve, exp, true)
    }

    /// The shared double-and-add loop; `mixed` selects the addition path,
    /// which computes the same function.
    fn mul_loop(&self, curve: &WeierstrassCurveTwist, exp: &[u64], mixed: bool) -> (r: TwistPoint)
        requires
            curve.wf(),
            self.wf(curve.m()),
        ensures
            r.wf(curve.m()),
            r.v() == pt_mul_bits(
                curve.m(),
                curve.nr(),
                curve.a.v(),
                curve.curve_type,
                mixed,
                self.v(),
                bits_of(exp@),
            ),
    {
        let ghost p = curve.m();
        let ghost nr = curve.nr();
        let ghost av = curve.a.v();
        let ghost tag = curve.curve_type;
        let ghost bits = bits_of(exp@);
        let mut res = TwistPoint::zero(curve);
        let mut found_one: bool = false;
        let n: usize = exp.len();
        proof {
            assert(bits.subrange(0, 0) =~= Seq::<bool>::empty());
        }
        let mut i: usize = 0;
        while i < n
            invariant
                curve.wf(),
                self.wf(p),
                p == curve.m(),
                nr == curve.nr(),
                av == curve.a.v(),
                tag == curve.curve_type,
                bits == bits_of(exp@),
                n == exp@.len(),
                i <= n,
                res.wf(p),
                res.v() == pt_mul_bits(
                    p,
                    nr,
                    av,
                    tag,
                    mixed,
                    self.v(),
                    bits.subrange(0, i as int * 64),
                ),
                !found_one ==> res.v() == pt_zero(),
            decreases n - i,
        {
            let limb: u64 = exp[i];
            let mut j: usize = 0;
            while j < 64
                invariant
                    curve.wf(),
                    self.wf(p),
                    p == curve.m(),
                    nr == curve.nr(),
                    av == curve.a.v(),
                    tag == curve.curve_type,
                    bits == bits_of(exp@),
                    n == exp@.len(),
                    i < n,
                    limb == exp@[i as int],
                    j <= 64,
                    res.wf(p),
                    res.v() == pt_mul_bits(
                        p,
                        nr,
                        av,
                        tag,
                        mixed,
                        self.v(),
                        bits.subrange(0, i as int * 64 + j as int),
                    ),
                    !found_one ==> res.v() == pt_zero(),
                decreases 64 - j,
            {
                let ghost k = i as int * 64 + j as int;
                let bit: bool = (limb >> (63 - j) as u64) & 1 == 1;
                proof {
                    assert(0 <= k < n * 64);
                    vstd::arithmetic::div_mod::lemma_fundamental_div_mod_converse(
                        k,
                        64,
                        i as int,
                        j as int,
                    );
                    assert(bits[k] == bit);
                    assert(bits.subrange(0, k + 1) =~= bits.subrange(0, k).push(bits[k]));
                    assert(bits.subrange(0, k + 1).drop_last() =~= bits.subrange(0, k));
                }
                if found_one {
                    res.double(curve);
                } else {
                    found_one = bit;
                }
                if bit {
                    if mixed {
                        res.add_assign_mixed(curve, self);
                    } else {
                        res.add_assign(curve, self);
                    }
                }
                j += 1;
            }
            i += 1;
        }
        proof {
            assert(bits.subrange(0, n as int * 64) =~= bits);
        }
        res
    }

    /// Binary scalar multiplication.
    pub fn mul(&self, curve: &WeierstrassCurveTwist, exp: &[u64]) -> (r: TwistPoint)
        requires
            curve.wf(),
            self.wf(curve.m()),
        ensures
            r.wf(curve.m()),
            r.v() == pt_mul_bits(
                curve.m(),
                curve.nr(),
                curve.a.v(),
                curve.curve_type,
                false,
                self.v(),
                bits_of(exp@),
            ),
    {
        self.mul_impl(curve, exp)
    }

    /// Windowed-NAF scalar multiplication over precomputed odd multiples
    /// {±P, ±3P}; the digits are least-significant first, each zero or odd
    /// with magnitude below 4.
    #[verifier::rlimit(100)]
    pub fn wnaf_mul_impl(&self, curve: &WeierstrassCurveTwist, wnaf: &Vec<i64>) -> (r: TwistPoint)
        requires
            curve.wf(),
            self.wf(curve.m()),
            forall|k: int| 0 <= k < wnaf@.len() ==> wnaf_digit_ok(#[trigger] wnaf@[k]),
        ensures
            r.wf(curve.m()),
            r.v() == pt_wnaf(
                curve.m(),
                curve.nr(),
                curve.a.v(),
                curve.curve_type,
                self.v(),
                wnaf@,
            ),
    {
        let ghost p = curve.m();
        let ghost nr = curve.nr();
        let ghost av = curve.a.v();
        let ghost tag = curve.curve_type;
        let index_for_positive: usize = 2;
        let mut two_self = *self;
        two_self.double(curve);
        let mut precomp = *self;
        let mut neg_precomp = precomp;
        neg_precomp.negate(curve);
        let entry_p = precomp;
        let entry_np = neg_precomp;
        precomp.add_assign(curve, &two_self);
        let mut neg_precomp3 = precomp;
        neg_precomp3.negate(curve);
        let entry_3p = precomp;
        let entry_n3p = neg_precomp3;
        let ghost base = self.v();
        proof {
            assert(entry_p.v() == pt_wnaf_entry(p, nr, av, tag, base, 1i64));
            assert(entry_np.v() == pt_wnaf_entry(p, nr, av, tag, base, -1i64));
            assert(entry_3p.v() == pt_wnaf_entry(p, nr, av, tag, base, 3i64));
            assert(entry_n3p.v() == pt_wnaf_entry(p, nr, av, tag, base, -3i64));
        }
        let n: usize = wnaf.len();
        let mut res = TwistPoint::zero(curve);
        let mut found_nonzero: bool = false;
        let mut k: usize = 0;
        proof {
            assert(wnaf@.subrange(n as int, n as int) =~= Seq::<i64>::empty());
        }
        while k < n
            invariant
                curve.wf(),
                self.wf(p),
                p == curve.m(),
                nr == curve.nr(),
                av == curve.a.v(),
                tag == curve.curve_type,
                base == self.v(),
                n == wnaf@.len(),
                k <= n,
                forall|t: int| 0 <= t < wnaf@.len() ==> wnaf_digit_ok(#[trigger] wnaf@[t]),
                entry_p.wf(p) && entry_np.wf(p) && entry_3p.wf(p) && entry_n3p.wf(p),
                entry_p.v() == pt_wnaf_entry(p, nr, av, tag, base, 1i64),
                entry_np.v() == pt_wnaf_entry(p, nr, av, tag, base, -1i64),
                entry_3p.v() == pt_wnaf_entry(p, nr, av, tag, base, 3i64),
                entry_n3p.v() == pt_wnaf_entry(p, nr, av, tag, base, -3i64),
                res.wf(p),
                res.v() == pt_wnaf(p, nr, av, tag, base, wnaf@.subrange(n as int - k as int, n as int)),
                !found_nonzero ==> res.v() == pt_zero(),
            decreases n - k,
        {
            let idx: usize = n - 1 - k;
            let w: i64 = wnaf[idx];
            proof {
                assert(wnaf@.subrange(idx as int, n as int).len() == k + 1);
                assert(wnaf@.subrange(idx as int, n as int)[0] == wnaf@[idx as int]);
                assert(wnaf@.subrange(idx as int, n as int).subrange(
                    1,
                    k as int + 1,
                ) =~= wnaf@.subrange(n as int - k as int, n as int));
            }
            if found_nonzero {
                res.double(curve);
            }
            if w != 0 {
                found_nonzero = true;
                if w == 1 {
                    res.add_assign(curve, &entry_p);
                } else if w == 3 {
                    res.add_assign(curve, &entry_3p);
                } else if w == -1 {
                    res.add_assign(curve, &entry_np);
                } else {
                    res.add_assign(curve, &entry_n3p);
                }
            }
            k += 1;
        }
        proof {
            assert(wnaf@.subrange(0, n as int) =~= wnaf@);
        }
        res
    }

    pub fn wnaf_mul(&self, curve: &WeierstrassCurveTwist, wnaf: &Vec<i64>) -> (r: TwistPoint)
        requires
            curve.wf(),
            self.wf(curve.m()),
            forall|k: int| 0 <= k < wnaf@.len() ==> wnaf_digit_ok(#[trigger] wnaf@[k]),
        ensures
            r.wf(curve.m()),
            r.v() == pt_wnaf(
                curve.m(),
                curve.nr(),
                curve.a.v(),
                curve.curve_type,
                self.v(),
                wnaf@,
            ),
    {
        self.wnaf_mul_impl(curve, wnaf)
    }
}

} // verus!
