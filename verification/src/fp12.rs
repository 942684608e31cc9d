//! The degree-12 extension Fp12 = Fp6[w]/(w^2 - v), the target field of
//! the pairing.  An element is c0 + c1*w over Fp6.  Multiplication is
//! Karatsuba over the quadratic extension; squaring uses the complex
//! variant; the sparse multipliers mul_by_014 and mul_by_034 exploit the
//! zero slots of Miller-loop line functions; cyclotomic squaring is the
//! Granger-Scott closed form, and exponentiation is square-and-multiply
//! over most-significant-bit-first 64-bit limbs.

use vstd::prelude::*;
use crate::fp2::{
    f2_add, f2_dbl, f2_mul, f2_one, f2_sq, f2_sub, f2_zero, lemma_complex_sq, lemma_f2_three_add,
    lemma_f2_three_sub, wf2, Fp2, Fp2V,
};
use crate::fp6::{
    f6_add, f6_adj0, f6_adj1, f6_adj2, f6_dbl, f6_mul, f6_mul_by_01, f6_mul_by_1, f6_mulv, f6_neg,
    f6_norm, f6_sq, f6_sub, f6_zero, f6_one, wf6, Extension3Over2, Fp6, Fp6V,
};
use crate::fp2::f2_norm;

verus! {

/// Spec-level value of an Fp12 element.
pub struct Fp12V {
    pub c0: Fp6V,
    pub c1: Fp6V,
}

pub open spec fn wf12(p: int, x: Fp12V) -> bool {
    wf6(p, x.c0) && wf6(p, x.c1)
}

pub open spec fn f12_zero() -> Fp12V {
    Fp12V { c0: f6_zero(), c1: f6_zero() }
}

pub open spec fn f12_one() -> Fp12V {
    Fp12V { c0: f6_one(), c1: f6_zero() }
}

pub open spec fn f12_add(p: int, x: Fp12V, y: Fp12V) -> Fp12V {
    Fp12V { c0: f6_add(p, x.c0, y.c0), c1: f6_add(p, x.c1, y.c1) }
}

pub open spec fn f12_sub(p: int, x: Fp12V, y: Fp12V) -> Fp12V {
    Fp12V { c0: f6_sub(p, x.c0, y.c0), c1: f6_sub(p, x.c1, y.c1) }
}

pub open spec fn f12_dbl(p: int, x: Fp12V) -> Fp12V {
    f12_add(p, x, x)
}

pub open spec fn f12_neg(p: int, x: Fp12V) -> Fp12V {
    Fp12V { c0: f6_neg(p, x.c0), c1: f6_neg(p, x.c1) }
}

/// Conjugation over Fp6: negates the w coordinate.
pub open spec fn f12_conj(p: int, x: Fp12V) -> Fp12V {
    Fp12V { c0: x.c0, c1: f6_neg(p, x.c1) }
}

/// Karatsuba product over the quadratic extension:
/// with A = a0*b0 and B = a1*b1, the result is
/// (A + B*v, (a1 + a0)*(b0 + b1) - A - B).
pub open spec fn f12_mul(p: int, b: int, xi: Fp2V, x: Fp12V, y: Fp12V) -> Fp12V {
    let aa = f6_mul(p, b, xi, x.c0, y.c0);
    let bb = f6_mul(p, b, xi, x.c1, y.c1);
    let s = f6_sub(
        p,
        f6_sub(
            p,
            f6_mul(p, b, xi, f6_add(p, x.c1, x.c0), f6_add(p, y.c0, y.c1)),
            aa,
        ),
        bb,
    );
    Fp12V { c0: f6_add(p, f6_mulv(p, b, xi, bb), aa), c1: s }
}

/// Complex squaring: with AB = a0*a1, the low part is
/// (v*a1 + a0)*(a0 + a1) - AB - v*AB and the high part is 2*AB.
pub open spec fn f12_sq(p: int, b: int, xi: Fp2V, x: Fp12V) -> Fp12V {
    let ab = f6_mul(p, b, xi, x.c0, x.c1);
    let lo = f6_sub(
        p,
        f6_sub(
            p,
            f6_mul(p, b, xi, f6_add(p, f6_mulv(p, b, xi, x.c1), x.c0), f6_add(p, x.c0, x.c1)),
            ab,
        ),
        f6_mulv(p, b, xi, ab),
    );
    Fp12V { c0: lo, c1: f6_add(p, ab, ab) }
}

/// Sparse product with the element whose Fp6 parts are (c0 + c1*v, c4*v).
pub open spec fn f12_mul_by_014(
    p: int,
    b: int,
    xi: Fp2V,
    x: Fp12V,
    c0: Fp2V,
    c1: Fp2V,
    c4: Fp2V,
) -> Fp12V {
    let aa = f6_mul_by_01(p, b, xi, x.c0, c0, c1);
    let bb = f6_mul_by_1(p, b, xi, x.c1, c4);
    let o = f2_add(p, c1, c4);
    let t = f6_sub(
        p,
        f6_sub(p, f6_mul_by_01(p, b, xi, f6_add(p, x.c1, x.c0), c0, o), aa),
        bb,
    );
    Fp12V { c0: f6_add(p, f6_mulv(p, b, xi, bb), aa), c1: t }
}

/// Sparse product with the element (c0, c3 + c4*v).
pub open spec fn f12_mul_by_034(
    p: int,
    b: int,
    xi: Fp2V,
    x: Fp12V,
    c0: Fp2V,
    c3: Fp2V,
    c4: Fp2V,
) -> Fp12V {
    let a = Fp6V {
        c0: f2_mul(p, b, x.c0.c0, c0),
        c1: f2_mul(p, b, x.c0.c1, c0),
        c2: f2_mul(p, b, x.c0.c2, c0),
    };
    let bb = f6_mul_by_01(p, b, xi, x.c1, c3, c4);
    let t0 = f2_add(p, c0, c3);
    let e = f6_mul_by_01(p, b, xi, f6_add(p, x.c0, x.c1), t0, c4);
    Fp12V {
        c0: f6_add(p, a, f6_mulv(p, b, xi, bb)),
        c1: f6_sub(p, f6_sub(p, e, a), bb),
    }
}

/// One Granger-Scott sub-squaring: (za + zb*y)^2 = t + t'*y with
/// t = za^2 + xi*zb^2 and t' = 2*za*zb.
pub open spec fn f12_cyc_pair_lo(p: int, b: int, xi: Fp2V, za: Fp2V, zb: Fp2V) -> Fp2V {
    f2_add(p, f2_sq(p, b, za), f2_mul(p, b, xi, f2_sq(p, b, zb)))
}

pub open spec fn f12_cyc_pair_hi(p: int, b: int, xi: Fp2V, za: Fp2V, zb: Fp2V) -> Fp2V {
    f2_dbl(p, f2_mul(p, b, za, zb))
}

/// Granger-Scott cyclotomic squaring.  Writing
/// x = (z0 + z4*v + z3*v^2) + (z2 + z1*v + z5*v^2)*w, the output
/// coordinates are g0 = 3t0 - 2z0, g1 = 3t1 + 2z1, g2 = 3(xi*t5) + 2z2,
/// g3 = 3t4 - 2z3, g4 = 3t2 - 2z4, g5 = 3t3 + 2z5, repacked as
/// c0 = (g0, g4, g3) and c1 = (g2, g1, g5).
pub open spec fn f12_cyclotomic_sq(p: int, b: int, xi: Fp2V, x: Fp12V) -> Fp12V {
    let z0 = x.c0.c0;
    let z4 = x.c0.c1;
    let z3 = x.c0.c2;
    let z2 = x.c1.c0;
    let z1 = x.c1.c1;
    let z5 = x.c1.c2;
    let t0 = f12_cyc_pair_lo(p, b, xi, z0, z1);
    let t1 = f12_cyc_pair_hi(p, b, xi, z0, z1);
    let t2 = f12_cyc_pair_lo(p, b, xi, z2, z3);
    let t3 = f12_cyc_pair_hi(p, b, xi, z2, z3);
    let t4 = f12_cyc_pair_lo(p, b, xi, z4, z5);
    let t5 = f12_cyc_pair_hi(p, b, xi, z4, z5);
    let xt5 = f2_mul(p, b, xi, t5);
    let g0 = f2_sub(p, f2_add(p, f2_dbl(p, t0), t0), f2_dbl(p, z0));
    let g1 = f2_add(p, f2_add(p, f2_dbl(p, t1), t1), f2_dbl(p, z1));
    let g2 = f2_add(p, f2_add(p, f2_dbl(p, xt5), xt5), f2_dbl(p, z2));
    let g3 = f2_sub(p, f2_add(p, f2_dbl(p, t4), t4), f2_dbl(p, z3));
    let g4 = f2_sub(p, f2_add(p, f2_dbl(p, t2), t2), f2_dbl(p, z4));
    let g5 = f2_add(p, f2_add(p, f2_dbl(p, t3), t3), f2_dbl(p, z5));
    Fp12V {
        c0: Fp6V { c0: g0, c1: g4, c2: g3 },
        c1: Fp6V { c0: g2, c1: g1, c2: g5 },
    }
}

/// One step of square-and-multiply; `cyc` selects cyclotomic squaring.
pub open spec fn f12_pow_step(
    p: int,
    b: int,
    xi: Fp2V,
    cyc: bool,
    acc: Fp12V,
    base: Fp12V,
    bit: bool,
) -> Fp12V {
    let s = if cyc {
        f12_cyclotomic_sq(p, b, xi, acc)
    } else {
        f12_sq(p, b, xi, acc)
    };
    if bit {
        f12_mul(p, b, xi, s, base)
    } else {
        s
    }
}

/// Square-and-multiply over an MSB-first bit sequence, starting from one.
pub open spec fn f12_pow_bits(
    p: int,
    b: int,
    xi: Fp2V,
    cyc: bool,
    base: Fp12V,
    bits: Seq<bool>,
) -> Fp12V
    decreases bits.len(),
{
    if bits.len() == 0 {
        f12_one()
    } else {
        f12_pow_step(
            p,
            b,
            xi,
            cyc,
            f12_pow_bits(p, b, xi, cyc, base, bits.drop_last()),
            base,
            bits.last(),
        )
    }
}

/// The MSB-first bit stream of a slice of 64-bit limbs.
pub open spec fn exp_bits_of(limbs: Seq<u64>) -> Seq<bool> {
    Seq::new(limbs.len() * 64, |i: int| (limbs[i / 64] >> (63 - (i % 64)) as u64) & 1 == 1)
}

/// Squaring the identity gives the identity, so the leading-zero-skipping
/// exponentiation loop computes the same fold as the specification.
proof fn lemma_f12_sq_one(p: int, b: int, xi: Fp2V)
    requires
        p > 3,
    ensures
        f12_sq(p, b, xi, f12_one()) == f12_one(),
        f12_cyclotomic_sq(p, b, xi, f12_one()) == f12_one(),
{
    vstd::arithmetic::div_mod::lemma_small_mod(0, p as nat);
    vstd::arithmetic::div_mod::lemma_small_mod(1, p as nat);
    vstd::arithmetic::div_mod::lemma_small_mod(2, p as nat);
    vstd::arithmetic::div_mod::lemma_small_mod(3, p as nat);
    vstd::arithmetic::mul::lemma_mul_basics(0);
    vstd::arithmetic::mul::lemma_mul_basics(1);
    vstd::arithmetic::mul::lemma_mul_basics(b);
    vstd::arithmetic::mul::lemma_mul_basics(xi.c0);
    vstd::arithmetic::mul::lemma_mul_basics(xi.c1);
    assert(f2_mul(p, b, xi, f2_zero()) == f2_zero());
    assert(f2_mul(p, b, f2_zero(), f2_zero()) == f2_zero());
    assert(f2_mul(p, b, f2_one(), f2_zero()) == f2_zero());
    assert(f2_mul(p, b, f2_zero(), f2_one()) == f2_zero());
    assert(f2_mul(p, b, f2_one(), f2_one()) == f2_one());
    assert(f2_add(p, f2_zero(), f2_zero()) == f2_zero());
    assert(f2_add(p, f2_zero(), f2_one()) == f2_one());
    assert(f2_add(p, f2_one(), f2_zero()) == f2_one());
    assert(f6_mulv(p, b, xi, f6_zero()) == f6_zero());
    assert(f6_add(p, f6_zero(), f6_one()) == f6_one());
    assert(f6_add(p, f6_one(), f6_zero()) == f6_one());
    assert(f6_add(p, f6_zero(), f6_zero()) == f6_zero());
    assert(f6_mul(p, b, xi, f6_one(), f6_zero()) == f6_zero());
    assert(f6_mul(p, b, xi, f6_one(), f6_one()) == f6_one());
    assert(f6_sub(p, f6_one(), f6_zero()) == f6_one());
    assert(f12_sq(p, b, xi, f12_one()) == f12_one());
    // cyclotomic squaring of one: the three sub-squarings are (1, 0),
    // (0, 0), (0, 0), and the g-assembly returns (1, 0, ...).
    assert(f2_dbl(p, f2_one()) == (Fp2V { c0: 2, c1: 0 }));
    assert(f2_dbl(p, f2_zero()) == f2_zero());
    assert(f12_cyc_pair_lo(p, b, xi, f2_one(), f2_zero()) == f2_one());
    assert(f12_cyc_pair_hi(p, b, xi, f2_one(), f2_zero()) == f2_zero());
    assert(f12_cyc_pair_lo(p, b, xi, f2_zero(), f2_zero()) == f2_zero());
    assert(f12_cyc_pair_hi(p, b, xi, f2_zero(), f2_zero()) == f2_zero());
    assert(f2_sub(p, f2_add(p, f2_dbl(p, f2_one()), f2_one()), f2_dbl(p, f2_one()))
        == f2_one());
    assert(f2_add(p, f2_add(p, f2_dbl(p, f2_zero()), f2_zero()), f2_dbl(p, f2_zero()))
        == f2_zero());
    assert(f2_sub(p, f2_add(p, f2_dbl(p, f2_zero()), f2_zero()), f2_dbl(p, f2_zero()))
        == f2_zero());
    assert(f12_cyclotomic_sq(p, b, xi, f12_one()) == f12_one());
}

/// Descriptor of the Fp12 extension: the Fp6 layer, a structural
/// non-residue (never used arithmetically, since w^2 - v is hard-coded),
/// and the 12-entry Frobenius coefficient table over Fp2.
pub struct Extension2Over3Over2 {
    pub field: Extension3Over2,
    pub non_residue: Fp6,
    pub frobenius_coeffs_c1: [Fp2; 12],
}

impl Extension2Over3Over2 {
    pub open spec fn m(&self) -> int {
        self.field.m()
    }

    pub open spec fn nr(&self) -> int {
        self.field.nr()
    }

    pub open spec fn xi(&self) -> Fp2V {
        self.field.xi()
    }

    pub open spec fn frob(&self, power: int) -> Fp2V {
        self.frobenius_coeffs_c1[power % 12].v()
    }

    pub open spec fn wf(&self) -> bool {
        &&& self.field.wf()
        &&& self.non_residue.wf(self.m())
        &&& forall|k: int|
            0 <= k < 12 ==> (#[trigger] self.frobenius_coeffs_c1[k]).wf(self.m())
        &&& self.frobenius_coeffs_c1[0].v() == f2_one()
    }

    pub fn new(field: Extension3Over2, non_residue: Fp6, frobenius_coeffs_c1: [Fp2; 12]) -> (r:
        Extension2Over3Over2)
        requires
            field.wf(),
            non_residue.wf(field.m()),
            forall|k: int| 0 <= k < 12 ==> (#[trigger] frobenius_coeffs_c1[k]).wf(field.m()),
            frobenius_coeffs_c1[0].v() == f2_one(),
        ensures
            r.wf(),
            r == (Extension2Over3Over2 { field, non_residue, frobenius_coeffs_c1 }),
    {
        Extension2Over3Over2 { field, non_residue, frobenius_coeffs_c1 }
    }

    /// Multiplication of an Fp6 element by the non-residue v, as the
    /// cyclic shift; valid because the reduction polynomial is w^2 - v.
    pub fn multiply_by_non_residue(&self, el: &mut Fp6)
        requires
            self.wf(),
            old(el).wf(self.m()),
        ensures
            final(el).wf(self.m()),
            final(el).v() == f6_mulv(self.m(), self.nr(), self.xi(), old(el).v()),
    {
        el.mul_by_nonresidue(&self.field);
    }
}

/// An element of Fp12: c0 + c1*w over Fp6.
#[derive(Clone, Copy, PartialEq, Eq, Structural)]
pub struct Fp12 {
    pub c0: Fp6,
    pub c1: Fp6,
}

impl Fp12 {
    pub open spec fn v(&self) -> Fp12V {
        Fp12V { c0: self.c0.v(), c1: self.c1.v() }
    }

    pub open spec fn wf(&self, p: int) -> bool {
        wf12(p, self.v())
    }

    pub fn zero(extension_field: &Extension2Over3Over2) -> (r: Fp12)
        requires
            extension_field.wf(),
        ensures
            r.wf(extension_field.m()),
            r.v() == f12_zero(),
    {
        Fp12 { c0: Fp6::zero(), c1: Fp6::zero() }
    }

    pub fn one(extension_field: &Extension2Over3Over2) -> (r: Fp12)
        requires
            extension_field.wf(),
        ensures
            r.wf(extension_field.m()),
            r.v() == f12_one(),
    {
        Fp12 { c0: Fp6::one(), c1: Fp6::zero() }
    }

    pub fn is_zero(&self) -> (r: bool)
        ensures
            r <==> self.v() == f12_zero(),
    {
        self.c0.is_zero() && self.c1.is_zero()
    }

    pub fn add_assign(&mut self, ext: &Extension2Over3Over2, other: &Fp12)
        requires
            ext.wf(),
            old(self).wf(ext.m()),
            other.wf(ext.m()),
        ensures
            final(self).wf(ext.m()),
            final(self).v() == f12_add(ext.m(), old(self).v(), other.v()),
    {
        self.c0.add_assign(&ext.field, &other.c0);
        self.c1.add_assign(&ext.field, &other.c1);
    }

    pub fn sub_assign(&mut self, ext: &Extension2Over3Over2, other: &Fp12)
        requires
            ext.wf(),
            old(self).wf(ext.m()),
            other.wf(ext.m()),
        ensures
            final(self).wf(ext.m()),
            final(self).v() == f12_sub(ext.m(), old(self).v(), other.v()),
    {
        self.c0.sub_assign(&ext.field, &other.c0);
        self.c1.sub_assign(&ext.field, &other.c1);
    }

    pub fn double(&mut self, ext: &Extension2Over3Over2)
        requires
            ext.wf(),
            old(self).wf(ext.m()),
        ensures
            final(self).wf(ext.m()),
            final(self).v() == f12_dbl(ext.m(), old(self).v()),
    {
        self.c0.double(&ext.field);
        self.c1.double(&ext.field);
    }

    pub fn negate(&mut self, ext: &Extension2Over3Over2)
        requires
            ext.wf(),
            old(self).wf(ext.m()),
        ensures
            final(self).wf(ext.m()),
            final(self).v() == f12_neg(ext.m(), old(self).v()),
    {
        self.c0.negate(&ext.field);
        self.c1.negate(&ext.field);
    }

    /// Conjugation: negates the w coordinate.
    pub fn conjugate(&mut self, ext: &Extension2Over3Over2)
        requires
            ext.wf(),
            old(self).wf(ext.m()),
        ensures
            final(self).wf(ext.m()),
            final(self).v() == f12_conj(ext.m(), old(self).v()),
    {
        self.c1.negate(&ext.field);
    }

    /// Karatsuba multiplication over the quadratic extension.
    pub fn mul_assign(&mut self, ext: &Extension2Over3Over2, other: &Fp12)
        requires
            ext.wf(),
            old(self).wf(ext.m()),
            other.wf(ext.m()),
        ensures
            final(self).wf(ext.m()),
            final(self).v() == f12_mul(ext.m(), ext.nr(), ext.xi(), old(self).v(), other.v()),
    {
        let e6 = &ext.field;
        let mut aa = self.c0;
        aa.mul_assign(e6, &other.c0);
        let mut bb = self.c1;
        bb.mul_assign(e6, &other.c1);
        let mut o = other.c0;
        o.add_assign(e6, &other.c1);
        self.c1.add_assign(e6, &self.c0.clone());
        self.c1.mul_assign(e6, &o);
        self.c1.sub_assign(e6, &aa);
        self.c1.sub_assign(e6, &bb);
        self.c0 = bb;
        self.c0.mul_by_nonresidue(e6);
        self.c0.add_assign(e6, &aa);
    }

    /// Complex squaring: the same result as a self-multiplication, with
    /// four fewer Fp6 multiplications.
    pub fn square(&mut self, ext: &Extension2Over3Over2)
        requires
            ext.wf(),
            old(self).wf(ext.m()),
        ensures
            final(self).wf(ext.m()),
            final(self).v() == f12_sq(ext.m(), ext.nr(), ext.xi(), old(self).v()),
    {
        let e6 = &ext.field;
        let mut ab = self.c0;
        ab.mul_assign(e6, &self.c1);
        let mut c0c1 = self.c0;
        c0c1.add_assign(e6, &self.c1);
        let mut c0 = self.c1;
        c0.mul_by_nonresidue(e6);
        c0.add_assign(e6, &self.c0.clone());
        c0.mul_assign(e6, &c0c1);
        c0.sub_assign(e6, &ab);
        self.c1 = ab;
        self.c1.add_assign(e6, &ab);
        ab.mul_by_nonresidue(e6);
        c0.sub_assign(e6, &ab);
        self.c0 = c0;
    }

    /// Inversion: with t = a0^2 - v*a1^2, the inverse is
    /// (a0*u, -(a1*u)) for u the Fp6 inverse of t; it fails exactly when
    /// t is not invertible.
    pub fn inverse(&self, ext: &Extension2Over3Over2) -> (r: Option<Fp12>)
        requires
            ext.wf(),
            self.wf(ext.m()),
        ensures
            ({
                let p = ext.m();
                let b = ext.nr();
                let xi = ext.xi();
                let t = f6_sub(
                    p,
                    f6_sq(p, b, xi, self.v().c0),
                    f6_mulv(p, b, xi, f6_sq(p, b, xi, self.v().c1)),
                );
                match r {
                    Some(inv) => {
                        &&& inv.wf(p)
                        &&& exists|u: Fp6V|
                            {
                                &&& wf6(p, u)
                                &&& crate::fp6::f6_inv_rel(p, b, xi, t, u)
                                &&& inv.v() == (Fp12V {
                                    c0: f6_mul(p, b, xi, u, self.v().c0),
                                    c1: f6_neg(p, f6_mul(p, b, xi, u, self.v().c1)),
                                })
                            }
                        &&& f2_norm(p, b, f6_norm(p, b, xi, t)) != 0
                    },
                    None => f2_norm(p, b, f6_norm(p, b, xi, t)) == 0,
                }
            }),
    {
        let e6 = &ext.field;
        let mut c0s = self.c0;
        c0s.square(e6);
        let mut c1s = self.c1;
        c1s.square(e6);
        c1s.mul_by_nonresidue(e6);
        c0s.sub_assign(e6, &c1s);
        match c0s.inverse(e6) {
            None => None,
            Some(t) => {
                let mut new_c0 = t;
                new_c0.mul_assign(e6, &self.c0);
                let mut new_c1 = t;
                new_c1.mul_assign(e6, &self.c1);
                new_c1.negate(e6);
                let result = Fp12 { c0: new_c0, c1: new_c1 };
                proof {
                    let p = ext.m();
                    let b = ext.nr();
                    let xi = ext.xi();
                    let tv = f6_sub(
                        p,
                        f6_sq(p, b, xi, self.v().c0),
                        f6_mulv(p, b, xi, f6_sq(p, b, xi, self.v().c1)),
                    );
                    let uv = t.v();
                    assert(wf6(p, uv) && crate::fp6::f6_inv_rel(p, b, xi, tv, uv) && result.v()
                        == (Fp12V {
                        c0: f6_mul(p, b, xi, uv, self.v().c0),
                        c1: f6_neg(p, f6_mul(p, b, xi, uv, self.v().c1)),
                    }));
                }
                Some(result)
            },
        }
    }

    /// Sparse multiplication by (c0 + c1*v) + (c4*v)*w.
    pub fn mul_by_014(&mut self, ext: &Extension2Over3Over2, c0: &Fp2, c1: &Fp2, c4: &Fp2)
        requires
            ext.wf(),
            old(self).wf(ext.m()),
            c0.wf(ext.m()),
            c1.wf(ext.m()),
            c4.wf(ext.m()),
        ensures
            final(self).wf(ext.m()),
            final(self).v() == f12_mul_by_014(
                ext.m(),
                ext.nr(),
                ext.xi(),
                old(self).v(),
                c0.v(),
                c1.v(),
                c4.v(),
            ),
    {
        let e6 = &ext.field;
        let e2 = &ext.field.field;
        let mut aa = self.c0;
        aa.mul_by_01(e6, c0, c1);
        let mut bb = self.c1;
        bb.mul_by_1(e6, c4);
        let mut o = *c1;
        o.add_assign(e2, c4);
        self.c1.add_assign(e6, &self.c0.clone());
        self.c1.mul_by_01(e6, c0, &o);
        self.c1.sub_assign(e6, &aa);
        self.c1.sub_assign(e6, &bb);
        self.c0 = bb;
        self.c0.mul_by_nonresidue(e6);
        self.c0.add_assign(e6, &aa);
    }

    /// Sparse multiplication by c0 + (c3 + c4*v)*w.
    pub fn mul_by_034(&mut self, ext: &Extension2Over3Over2, c0: &Fp2, c3: &Fp2, c4: &Fp2)
        requires
            ext.wf(),
            old(self).wf(ext.m()),
            c0.wf(ext.m()),
            c3.wf(ext.m()),
            c4.wf(ext.m()),
        ensures
            final(self).wf(ext.m()),
            final(self).v() == f12_mul_by_034(
                ext.m(),
                ext.nr(),
                ext.xi(),
                old(self).v(),
                c0.v(),
                c3.v(),
                c4.v(),
            ),
    {
        let e6 = &ext.field;
        let e2 = &ext.field.field;
        let mut a = self.c0;
        a.c0.mul_assign(e2, c0);
        a.c1.mul_assign(e2, c0);
        a.c2.mul_assign(e2, c0);
        let mut b = self.c1;
        b.mul_by_01(e6, c3, c4);
        let mut t0 = *c0;
        t0.add_assign(e2, c3);
        let mut e = self.c0;
        e.add_assign(e6, &self.c1);
        e.mul_by_01(e6, &t0, c4);
        self.c1 = e;
        self.c1.sub_assign(e6, &a);
        self.c1.sub_assign(e6, &b);
        let mut t1 = b;
        t1.mul_by_nonresidue(e6);
        self.c0 = a;
        self.c0.add_assign(e6, &t1);
    }

    /// Granger-Scott cyclotomic squaring: for elements of the cyclotomic
    /// subgroup this computes the square with three Fp2 sub-squarings.
    pub fn cyclotomic_square(&mut self, ext: &Extension2Over3Over2)
        requires
            ext.wf(),
            old(self).wf(ext.m()),
        ensures
            final(self).wf(ext.m()),
            final(self).v() == f12_cyclotomic_sq(ext.m(), ext.nr(), ext.xi(), old(self).v()),
    {
        let e2 = &ext.field.field;
        let xi = ext.field.non_residue;
        let ghost p = ext.m();
        let ghost b = ext.nr();
        let ghost xiv = ext.xi();
        let z0 = self.c0.c0;
        let z4 = self.c0.c1;
        let z3 = self.c0.c2;
        let z2 = self.c1.c0;
        let z1 = self.c1.c1;
        let z5 = self.c1.c2;
        // t0 + t1*y = (z0 + z1*y)^2
        let mut tmp = z0;
        tmp.mul_assign(e2, &z1);
        let mut a0 = z0;
        a0.add_assign(e2, &z1);
        let mut a1 = xi;
        a1.mul_assign(e2, &z1);
        a1.add_assign(e2, &z0);
        let mut a2 = xi;
        a2.mul_assign(e2, &tmp);
        let mut t0 = a0;
        t0.mul_assign(e2, &a1);
        t0.sub_assign(e2, &tmp);
        t0.sub_assign(e2, &a2);
        let mut t1 = tmp;
        t1.double(e2);
        proof {
            lemma_complex_sq(p, b, xiv, z0.v(), z1.v());
        }
        // t2 + t3*y = (z2 + z3*y)^2
        let mut tmp2 = z2;
        tmp2.mul_assign(e2, &z3);
        let mut b0 = z2;
        b0.add_assign(e2, &z3);
        let mut b1 = xi;
        b1.mul_assign(e2, &z3);
        b1.add_assign(e2, &z2);
        let mut b2 = xi;
        b2.mul_assign(e2, &tmp2);
        let mut t2 = b0;
        t2.mul_assign(e2, &b1);
        t2.sub_assign(e2, &tmp2);
        t2.sub_assign(e2, &b2);
        let mut t3 = tmp2;
        t3.double(e2);
        proof {
            lemma_complex_sq(p, b, xiv, z2.v(), z3.v());
        }
        // t4 + t5*y = (z4 + z5*y)^2
        let mut tmp3 = z4;
        tmp3.mul_assign(e2, &z5);
        let mut d0 = z4;
        d0.add_assign(e2, &z5);
        let mut d1 = xi;
        d1.mul_assign(e2, &z5);
        d1.add_assign(e2, &z4);
        let mut d2 = xi;
        d2.mul_assign(e2, &tmp3);
        let mut t4 = d0;
        t4.mul_assign(e2, &d1);
        t4.sub_assign(e2, &tmp3);
        t4.sub_assign(e2, &d2);
        let mut t5 = tmp3;
        t5.double(e2);
        proof {
            lemma_complex_sq(p, b, xiv, z4.v(), z5.v());
        }
        // g0 = 3*t0 - 2*z0
        let mut g0 = t0;
        g0.sub_assign(e2, &z0);
        g0.double(e2);
        g0.add_assign(e2, &t0);
        proof {
            lemma_f2_three_sub(p, t0.v(), z0.v());
        }
        self.c0.c0 = g0;
        // g1 = 3*t1 + 2*z1
        let mut g1 = t1;
        g1.add_assign(e2, &z1);
        g1.double(e2);
        g1.add_assign(e2, &t1);
        proof {
            lemma_f2_three_add(p, t1.v(), z1.v());
        }
        self.c1.c1 = g1;
        // g2 = 3*(xi*t5) + 2*z2
        let mut xt5 = xi;
        xt5.mul_assign(e2, &t5);
        let mut g2 = xt5;
        g2.add_assign(e2, &z2);
        g2.double(e2);
        g2.add_assign(e2, &xt5);
        proof {
            lemma_f2_three_add(p, xt5.v(), z2.v());
        }
        self.c1.c0 = g2;
        // g3 = 3*t4 - 2*z3
        let mut g3 = t4;
        g3.sub_assign(e2, &z3);
        g3.double(e2);
        g3.add_assign(e2, &t4);
        proof {
            lemma_f2_three_sub(p, t4.v(), z3.v());
        }
        self.c0.c2 = g3;
        // g4 = 3*t2 - 2*z4
        let mut g4 = t2;
        g4.sub_assign(e2, &z4);
        g4.double(e2);
        g4.add_assign(e2, &t2);
        proof {
            lemma_f2_three_sub(p, t2.v(), z4.v());
        }
        self.c0.c1 = g4;
        // g5 = 3*t3 + 2*z5
        let mut g5 = t3;
        g5.add_assign(e2, &z5);
        g5.double(e2);
        g5.add_assign(e2, &t3);
        proof {
            lemma_f2_three_add(p, t3.v(), z5.v());
        }
        self.c1.c2 = g5;
    }

    /// Square-and-multiply exponentiation; the limbs are read most
    /// significant bit first.
    pub fn pow(&self, ext: &Extension2Over3Over2, exp: &[u64]) -> (r: Fp12)
        requires
            ext.wf(),
            self.wf(ext.m()),
        ensures
            r.wf(ext.m()),
            r.v() == f12_pow_bits(
                ext.m(),
                ext.nr(),
                ext.xi(),
                false,
                self.v(),
                exp_bits_of(exp@),
            ),
    {
        self.pow_loop(ext, exp, false)
    }

    /// Exponentiation with cyclotomic squaring in place of generic
    /// squaring; the loop shape is identical to `pow`.
    pub fn cyclotomic_exp(&self, ext: &Extension2Over3Over2, exp: &[u64]) -> (r: Fp12)
        requires
            ext.wf(),
            self.wf(ext.m()),
        ensures
            r.wf(ext.m()),
            r.v() == f12_pow_bits(
                ext.m(),
                ext.nr(),
                ext.xi(),
                true,
                self.v(),
                exp_bits_of(exp@),
            ),
    {
        self.pow_loop(ext, exp, true)
    }

    /// The shared exponentiation loop; leading zero bits are skipped, and
    /// after the first set bit the accumulator is squared each step and
    /// multiplied by the base on set bits.
    fn pow_loop(&self, ext: &Extension2Over3Over2, exp: &[u64], cyc: bool) -> (r: Fp12)
        requires
            ext.wf(),
            self.wf(ext.m()),
        ensures
            r.wf(ext.m()),
            r.v() == f12_pow_bits(ext.m(), ext.nr(), ext.xi(), cyc, self.v(), exp_bits_of(exp@)),
    {
        let ghost p = ext.m();
        let ghost b = ext.nr();
        let ghost xiv = ext.xi();
        let ghost bits = exp_bits_of(exp@);
        let mut res = Fp12::one(ext);
        let mut found_one: bool = false;
        let n: usize = exp.len();
        proof {
            assert(bits.subrange(0, 0) =~= Seq::<bool>::empty());
        }
        let mut i: usize = 0;
        while i < n
            invariant
                ext.wf(),
                self.wf(p),
                p == ext.m(),
                b == ext.nr(),
                xiv == ext.xi(),
                bits == exp_bits_of(exp@),
                n == exp@.len(),
                i <= n,
                res.wf(p),
                res.v() == f12_pow_bits(p, b, xiv, cyc, self.v(), bits.subrange(0, i as int * 64)),
                !found_one ==> res.v() == f12_one(),
            decreases n - i,
        {
            let limb: u64 = exp[i];
            let mut j: usize = 0;
            while j < 64
                invariant
                    ext.wf(),
                    self.wf(p),
                    p == ext.m(),
                    b == ext.nr(),
                    xiv == ext.xi(),
                    bits == exp_bits_of(exp@),
                    n == exp@.len(),
                    i < n,
                    limb == exp@[i as int],
                    j <= 64,
                    res.wf(p),
                    res.v() == f12_pow_bits(
                        p,
                        b,
                        xiv,
                        cyc,
                        self.v(),
                        bits.subrange(0, i as int * 64 + j as int),
                    ),
                    !found_one ==> res.v() == f12_one(),
                decreases 64 - j,
            {
                let ghost k = i as int * 64 + j as int;
                let bit: bool = (limb >> (63 - j) as u64) & 1 == 1;
                proof {
                    assert(0 <= k < n * 64);
                    vstd::arithmetic::div_mod::lemma_fundamental_div_mod_converse(
                        k,
                        64,
                        i as int,
                        j as int,
                    );
                    assert(bits[k] == bit);
                    assert(bits.subrange(0, k + 1) =~= bits.subrange(0, k).push(bits[k]));
                    assert(bits.subrange(0, k + 1).drop_last() =~= bits.subrange(0, k));
                    if !found_one {
                        lemma_f12_sq_one(p, b, xiv);
                    }
                }
                if found_one {
                    if cyc {
                        res.cyclotomic_square(ext);
                    } else {
                        res.square(ext);
                    }
                } else {
                    found_one = bit;
                }
                if bit {
                    res.mul_assign(ext, self);
                }
                j += 1;
            }
            i += 1;
        }
        proof {
            assert(bits.subrange(0, n as int * 64) =~= bits);
        }
        res
    }

    /// Frobenius endomorphism: Fp6 Frobenius on both coordinates, then
    /// each Fp2 component of c1 is scaled by the table entry for the
    /// power, taken modulo 12.
    pub fn frobenius_map(&mut self, ext: &Extension2Over3Over2, power: usize)
        requires
            ext.wf(),
            old(self).wf(ext.m()),
        ensures
            final(self).wf(ext.m()),
            ({
                let p = ext.m();
                let b = ext.nr();
                let co = ext.frob(power as int);
                let f1 = crate::fp6::f6_frob_spec(
                    p,
                    b,
                    ext.field.field.frob(power as int),
                    ext.field.frob1(power as int),
                    ext.field.frob2(power as int),
                    old(self).v().c1,
                );
                final(self).v() == (Fp12V {
                    c0: crate::fp6::f6_frob_spec(
                        p,
                        b,
                        ext.field.field.frob(power as int),
                        ext.field.frob1(power as int),
                        ext.field.frob2(power as int),
                        old(self).v().c0,
                    ),
                    c1: Fp6V {
                        c0: f2_mul(p, b, f1.c0, co),
                        c1: f2_mul(p, b, f1.c1, co),
                        c2: f2_mul(p, b, f1.c2, co),
                    },
                })
            }),
    {
        let idx: usize = power % 12;
        self.c0.frobenius_map(&ext.field, power);
        self.c1.frobenius_map(&ext.field, power);
        let co: Fp2 = ext.frobenius_coeffs_c1[idx];
        self.c1.c0.mul_assign(&ext.field.field, &co);
        self.c1.c1.mul_assign(&ext.field.field, &co);
        self.c1.c2.mul_assign(&ext.field.field, &co);
    }
}

} // verus!
