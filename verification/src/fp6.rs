//! The sextic extension Fp6 = Fp2[v]/(v^3 - xi), built as a cubic
//! extension of Fp2.  An element is c0 + c1*v + c2*v^2 with Fp2
//! coordinates.  Multiplication by the non-residue v, used by the Fp12
//! layer above, is the cyclic shift (c0, c1, c2) -> (xi*c2, c0, c1).

use vstd::prelude::*;
use crate::fp2::{
    eqm2, f2_add, f2_dbl, f2_mul, f2_neg, f2_norm, f2_one, f2_sq, f2_sub, f2_zero, wf2, Extension2,
    Fp2, Fp2V,
};

verus! {

/// Spec-level value of an Fp6 element.
pub struct Fp6V {
    pub c0: Fp2V,
    pub c1: Fp2V,
    pub c2: Fp2V,
}

pub open spec fn eqm6(p: int, x: Fp6V, y: Fp6V) -> bool {
    eqm2(p, x.c0, y.c0) && eqm2(p, x.c1, y.c1) && eqm2(p, x.c2, y.c2)
}

pub open spec fn wf6(p: int, x: Fp6V) -> bool {
    wf2(p, x.c0) && wf2(p, x.c1) && wf2(p, x.c2)
}

pub open spec fn f6_zero() -> Fp6V {
    Fp6V { c0: f2_zero(), c1: f2_zero(), c2: f2_zero() }
}

pub open spec fn f6_one() -> Fp6V {
    Fp6V { c0: f2_one(), c1: f2_zero(), c2: f2_zero() }
}

pub open spec fn f6_add(p: int, x: Fp6V, y: Fp6V) -> Fp6V {
    Fp6V {
        c0: f2_add(p, x.c0, y.c0),
        c1: f2_add(p, x.c1, y.c1),
        c2: f2_add(p, x.c2, y.c2),
    }
}

pub open spec fn f6_sub(p: int, x: Fp6V, y: Fp6V) -> Fp6V {
    Fp6V {
        c0: f2_sub(p, x.c0, y.c0),
        c1: f2_sub(p, x.c1, y.c1),
        c2: f2_sub(p, x.c2, y.c2),
    }
}

pub open spec fn f6_dbl(p: int, x: Fp6V) -> Fp6V {
    f6_add(p, x, x)
}

pub open spec fn f6_neg(p: int, x: Fp6V) -> Fp6V {
    Fp6V { c0: f2_neg(p, x.c0), c1: f2_neg(p, x.c1), c2: f2_neg(p, x.c2) }
}

/// Schoolbook cubic-extension product with v^3 = xi.
pub open spec fn f6_mul(p: int, b: int, xi: Fp2V, x: Fp6V, y: Fp6V) -> Fp6V {
    Fp6V {
        c0: f2_add(
            p,
            f2_mul(p, b, x.c0, y.c0),
            f2_mul(p, b, xi, f2_add(p, f2_mul(p, b, x.c1, y.c2), f2_mul(p, b, x.c2, y.c1))),
        ),
        c1: f2_add(
            p,
            f2_add(p, f2_mul(p, b, x.c0, y.c1), f2_mul(p, b, x.c1, y.c0)),
            f2_mul(p, b, xi, f2_mul(p, b, x.c2, y.c2)),
        ),
        c2: f2_add(
            p,
            f2_add(p, f2_mul(p, b, x.c0, y.c2), f2_mul(p, b, x.c1, y.c1)),
            f2_mul(p, b, x.c2, y.c0),
        ),
    }
}

pub open spec fn f6_sq(p: int, b: int, xi: Fp2V, x: Fp6V) -> Fp6V {
    f6_mul(p, b, xi, x, x)
}

/// Product with the sparse element c0 + c1*v.
pub open spec fn f6_mul_by_01(p: int, b: int, xi: Fp2V, x: Fp6V, y0: Fp2V, y1: Fp2V) -> Fp6V {
    Fp6V {
        c0: f2_add(p, f2_mul(p, b, x.c0, y0), f2_mul(p, b, xi, f2_mul(p, b, x.c2, y1))),
        c1: f2_add(p, f2_mul(p, b, x.c0, y1), f2_mul(p, b, x.c1, y0)),
        c2: f2_add(p, f2_mul(p, b, x.c1, y1), f2_mul(p, b, x.c2, y0)),
    }
}

/// Product with the sparse element c1*v.
pub open spec fn f6_mul_by_1(p: int, b: int, xi: Fp2V, x: Fp6V, y1: Fp2V) -> Fp6V {
    Fp6V {
        c0: f2_mul(p, b, xi, f2_mul(p, b, x.c2, y1)),
        c1: f2_mul(p, b, x.c0, y1),
        c2: f2_mul(p, b, x.c1, y1),
    }
}

/// Multiplication by the non-residue v: the cyclic shift with xi on wrap.
pub open spec fn f6_mulv(p: int, b: int, xi: Fp2V, x: Fp6V) -> Fp6V {
    Fp6V { c0: f2_mul(p, b, xi, x.c2), c1: x.c0, c2: x.c1 }
}

/// The adjugate cofactors for cubic inversion.
pub open spec fn f6_adj0(p: int, b: int, xi: Fp2V, x: Fp6V) -> Fp2V {
    f2_sub(p, f2_sq(p, b, x.c0), f2_mul(p, b, xi, f2_mul(p, b, x.c1, x.c2)))
}

pub open spec fn f6_adj1(p: int, b: int, xi: Fp2V, x: Fp6V) -> Fp2V {
    f2_sub(p, f2_mul(p, b, xi, f2_sq(p, b, x.c2)), f2_mul(p, b, x.c0, x.c1))
}

pub open spec fn f6_adj2(p: int, b: int, xi: Fp2V, x: Fp6V) -> Fp2V {
    f2_sub(p, f2_sq(p, b, x.c1), f2_mul(p, b, x.c0, x.c2))
}

/// The norm-like Fp2 element whose invertibility decides Fp6 inversion.
pub open spec fn f6_norm(p: int, b: int, xi: Fp2V, x: Fp6V) -> Fp2V {
    f2_add(
        p,
        f2_mul(p, b, x.c0, f6_adj0(p, b, xi, x)),
        f2_add(
            p,
            f2_mul(p, b, xi, f2_mul(p, b, x.c2, f6_adj1(p, b, xi, x))),
            f2_mul(p, b, xi, f2_mul(p, b, x.c1, f6_adj2(p, b, xi, x))),
        ),
    )
}

/// u is the adjugate-based inverse of x: each cofactor scaled by an Fp2
/// inverse w of the norm.
pub open spec fn f6_inv_rel(p: int, b: int, xi: Fp2V, x: Fp6V, u: Fp6V) -> bool {
    exists|w: Fp2V|
        {
            &&& wf2(p, w)
            &&& f2_mul(p, b, f6_norm(p, b, xi, x), w) == f2_one()
            &&& u == (Fp6V {
                c0: f2_mul(p, b, f6_adj0(p, b, xi, x), w),
                c1: f2_mul(p, b, f6_adj1(p, b, xi, x), w),
                c2: f2_mul(p, b, f6_adj2(p, b, xi, x), w),
            })
        }
}

/// The Fp6 Frobenius: Fp2 Frobenius on each coordinate (scaling the c1
/// half by `fr`), then the c1 and c2 coordinates scaled by their table
/// entries.
pub open spec fn f6_frob_spec(p: int, b: int, fr: int, co1: Fp2V, co2: Fp2V, x: Fp6V) -> Fp6V {
    Fp6V {
        c0: Fp2V { c0: x.c0.c0, c1: crate::fp::fmul(p, x.c0.c1, fr) },
        c1: f2_mul(p, b, Fp2V { c0: x.c1.c0, c1: crate::fp::fmul(p, x.c1.c1, fr) }, co1),
        c2: f2_mul(p, b, Fp2V { c0: x.c2.c0, c1: crate::fp::fmul(p, x.c2.c1, fr) }, co2),
    }
}

/// Descriptor of the sextic extension: the Fp2 layer, the non-residue
/// xi in Fp2, and Frobenius coefficient tables for the c1 and c2
/// coordinates.
pub struct Extension3Over2 {
    pub field: Extension2,
    pub non_residue: Fp2,
    pub frobenius_coeffs_c1: [Fp2; 6],
    pub frobenius_coeffs_c2: [Fp2; 6],
}

impl Extension3Over2 {
    pub open spec fn m(&self) -> int {
        self.field.m()
    }

    pub open spec fn nr(&self) -> int {
        self.field.nr()
    }

    pub open spec fn xi(&self) -> Fp2V {
        self.non_residue.v()
    }

    pub open spec fn frob1(&self, power: int) -> Fp2V {
        self.frobenius_coeffs_c1[power % 6].v()
    }

    pub open spec fn frob2(&self, power: int) -> Fp2V {
        self.frobenius_coeffs_c2[power % 6].v()
    }

    pub open spec fn wf(&self) -> bool {
        &&& self.field.wf()
        &&& self.non_residue.wf(self.m())
        &&& self.non_residue.v() != f2_zero()
        &&& forall|k: int|
            0 <= k < 6 ==> (#[trigger] self.frobenius_coeffs_c1[k]).wf(self.m())
        &&& forall|k: int|
            0 <= k < 6 ==> (#[trigger] self.frobenius_coeffs_c2[k]).wf(self.m())
        &&& self.frobenius_coeffs_c1[0].v() == f2_one()
        &&& self.frobenius_coeffs_c2[0].v() == f2_one()
    }

    pub fn new(
        field: Extension2,
        non_residue: Fp2,
        frobenius_coeffs_c1: [Fp2; 6],
        frobenius_coeffs_c2: [Fp2; 6],
    ) -> (r: Extension3Over2)
        requires
            field.wf(),
            non_residue.wf(field.m()),
            non_residue.v() != f2_zero(),
            forall|k: int| 0 <= k < 6 ==> (#[trigger] frobenius_coeffs_c1[k]).wf(field.m()),
            forall|k: int| 0 <= k < 6 ==> (#[trigger] frobenius_coeffs_c2[k]).wf(field.m()),
            frobenius_coeffs_c1[0].v() == f2_one(),
            frobenius_coeffs_c2[0].v() == f2_one(),
        ensures
            r.wf(),
            r == (Extension3Over2 { field, non_residue, frobenius_coeffs_c1, frobenius_coeffs_c2 }),
    {
        Extension3Over2 { field, non_residue, frobenius_coeffs_c1, frobenius_coeffs_c2 }
    }
}

/// An element of Fp6: c0 + c1*v + c2*v^2 over Fp2.
#[derive(Clone, Copy, PartialEq, Eq, Structural)]
pub struct Fp6 {
    pub c0: Fp2,
    pub c1: Fp2,
    pub c2: Fp2,
}

impl Fp6 {
    pub open spec fn v(&self) -> Fp6V {
        Fp6V { c0: self.c0.v(), c1: self.c1.v(), c2: self.c2.v() }
    }

    pub open spec fn wf(&self, p: int) -> bool {
        wf6(p, self.v())
    }

    pub fn zero() -> (r: Fp6)
        ensures
            r.v() == f6_zero(),
            forall|p: int| p > 0 ==> r.wf(p),
    {
        Fp6 { c0: Fp2::zero(), c1: Fp2::zero(), c2: Fp2::zero() }
    }

    pub fn one() -> (r: Fp6)
        ensures
            r.v() == f6_one(),
            forall|p: int| p > 1 ==> r.wf(p),
    {
        Fp6 { c0: Fp2::one(), c1: Fp2::zero(), c2: Fp2::zero() }
    }

    pub fn is_zero(&self) -> (r: bool)
        ensures
            r <==> self.v() == f6_zero(),
    {
        self.c0.is_zero() && self.c1.is_zero() && self.c2.is_zero()
    }

    pub fn add_assign(&mut self, ext: &Extension3Over2, other: &Fp6)
        requires
            ext.wf(),
            old(self).wf(ext.m()),
            other.wf(ext.m()),
        ensures
            final(self).wf(ext.m()),
            final(self).v() == f6_add(ext.m(), old(self).v(), other.v()),
    {
        self.c0.add_assign(&ext.field, &other.c0);
        self.c1.add_assign(&ext.field, &other.c1);
        self.c2.add_assign(&ext.field, &other.c2);
    }

    pub fn sub_assign(&mut self, ext: &Extension3Over2, other: &Fp6)
        requires
            ext.wf(),
            old(self).wf(ext.m()),
            other.wf(ext.m()),
        ensures
            final(self).wf(ext.m()),
            final(self).v() == f6_sub(ext.m(), old(self).v(), other.v()),
    {
        self.c0.sub_assign(&ext.field, &other.c0);
        self.c1.sub_assign(&ext.field, &other.c1);
        self.c2.sub_assign(&ext.field, &other.c2);
    }

    pub fn double(&mut self, ext: &Extension3Over2)
        requires
            ext.wf(),
            old(self).wf(ext.m()),
        ensures
            final(self).wf(ext.m()),
            final(self).v() == f6_dbl(ext.m(), old(self).v()),
    {
        let other = *self;
        self.add_assign(ext, &other);
    }

    pub fn negate(&mut self, ext: &Extension3Over2)
        requires
            ext.wf(),
            old(self).wf(ext.m()),
        ensures
            final(self).wf(ext.m()),
            final(self).v() == f6_neg(ext.m(), old(self).v()),
    {
        self.c0.negate(&ext.field);
        self.c1.negate(&ext.field);
        self.c2.negate(&ext.field);
    }

    pub fn mul_assign(&mut self, ext: &Extension3Over2, other: &Fp6)
        requires
            ext.wf(),
            old(self).wf(ext.m()),
            other.wf(ext.m()),
        ensures
            final(self).wf(ext.m()),
            final(self).v() == f6_mul(ext.m(), ext.nr(), ext.xi(), old(self).v(), other.v()),
    {
        let e2 = &ext.field;
        let x0 = self.c0;
        let x1 = self.c1;
        let x2 = self.c2;
        // c0 = x0*y0 + xi*(x1*y2 + x2*y1)
        let mut t0 = x1;
        t0.mul_assign(e2, &other.c2);
        let mut t1 = x2;
        t1.mul_assign(e2, &other.c1);
        t0.add_assign(e2, &t1);
        let mut c0 = ext.non_residue;
        c0.mul_assign(e2, &t0);
        let mut m00 = x0;
        m00.mul_assign(e2, &other.c0);
        let mut new_c0 = m00;
        new_c0.add_assign(e2, &c0);
        // c1 = x0*y1 + x1*y0 + xi*(x2*y2)
        let mut m01 = x0;
        m01.mul_assign(e2, &other.c1);
        let mut m10 = x1;
        m10.mul_assign(e2, &other.c0);
        let mut new_c1 = m01;
        new_c1.add_assign(e2, &m10);
        let mut m22 = x2;
        m22.mul_assign(e2, &other.c2);
        let mut xm22 = ext.non_residue;
        xm22.mul_assign(e2, &m22);
        new_c1.add_assign(e2, &xm22);
        // c2 = x0*y2 + x1*y1 + x2*y0
        let mut m02 = x0;
        m02.mul_assign(e2, &other.c2);
        let mut m11 = x1;
        m11.mul_assign(e2, &other.c1);
        let mut new_c2 = m02;
        new_c2.add_assign(e2, &m11);
        let mut m20 = x2;
        m20.mul_assign(e2, &other.c0);
        new_c2.add_assign(e2, &m20);
        self.c0 = new_c0;
        self.c1 = new_c1;
        self.c2 = new_c2;
    }

    pub fn square(&mut self, ext: &Extension3Over2)
        requires
            ext.wf(),
            old(self).wf(ext.m()),
        ensures
            final(self).wf(ext.m()),
            final(self).v() == f6_sq(ext.m(), ext.nr(), ext.xi(), old(self).v()),
    {
        let other = *self;
        self.mul_assign(ext, &other);
    }

    /// Sparse product with c0 + c1*v.
    pub fn mul_by_01(&mut self, ext: &Extension3Over2, y0: &Fp2, y1: &Fp2)
        requires
            ext.wf(),
            old(self).wf(ext.m()),
            y0.wf(ext.m()),
            y1.wf(ext.m()),
        ensures
            final(self).wf(ext.m()),
            final(self).v() == f6_mul_by_01(
                ext.m(),
                ext.nr(),
                ext.xi(),
                old(self).v(),
                y0.v(),
                y1.v(),
            ),
    {
        let e2 = &ext.field;
        let x0 = self.c0;
        let x1 = self.c1;
        let x2 = self.c2;
        let mut t = x2;
        t.mul_assign(e2, y1);
        let mut xt = ext.non_residue;
        xt.mul_assign(e2, &t);
        let mut new_c0 = x0;
        new_c0.mul_assign(e2, y0);
        new_c0.add_assign(e2, &xt);
        let mut new_c1 = x0;
        new_c1.mul_assign(e2, y1);
        let mut m10 = x1;
        m10.mul_assign(e2, y0);
        new_c1.add_assign(e2, &m10);
        let mut new_c2 = x1;
        new_c2.mul_assign(e2, y1);
        let mut m20 = x2;
        m20.mul_assign(e2, y0);
        new_c2.add_assign(e2, &m20);
        self.c0 = new_c0;
        self.c1 = new_c1;
        self.c2 = new_c2;
    }

    /// Sparse product with c1*v.
    pub fn mul_by_1(&mut self, ext: &Extension3Over2, y1: &Fp2)
        requires
            ext.wf(),
            old(self).wf(ext.m()),
            y1.wf(ext.m()),
        ensures
            final(self).wf(ext.m()),
            final(self).v() == f6_mul_by_1(ext.m(), ext.nr(), ext.xi(), old(self).v(), y1.v()),
    {
        let e2 = &ext.field;
        let x0 = self.c0;
        let x1 = self.c1;
        let x2 = self.c2;
        let mut t = x2;
        t.mul_assign(e2, y1);
        let mut new_c0 = ext.non_residue;
        new_c0.mul_assign(e2, &t);
        let mut new_c1 = x0;
        new_c1.mul_assign(e2, y1);
        let mut new_c2 = x1;
        new_c2.mul_assign(e2, y1);
        self.c0 = new_c0;
        self.c1 = new_c1;
        self.c2 = new_c2;
    }

    /// Multiplication by the non-residue v: (c0, c1, c2) -> (xi*c2, c0, c1).
    pub fn mul_by_nonresidue(&mut self, ext: &Extension3Over2)
        requires
            ext.wf(),
            old(self).wf(ext.m()),
        ensures
            final(self).wf(ext.m()),
            final(self).v() == f6_mulv(ext.m(), ext.nr(), ext.xi(), old(self).v()),
    {
        let mut new_c0 = ext.non_residue;
        new_c0.mul_assign(&ext.field, &self.c2);
        self.c2 = self.c1;
        self.c1 = self.c0;
        self.c0 = new_c0;
    }

    /// Frobenius endomorphism: Fp2 Frobenius on each coordinate, then the
    /// c1 and c2 coordinates are scaled by their table entries.
    pub fn frobenius_map(&mut self, ext: &Extension3Over2, power: usize)
        requires
            ext.wf(),
            old(self).wf(ext.m()),
        ensures
            final(self).wf(ext.m()),
            final(self).v() == f6_frob_spec(
                ext.m(),
                ext.nr(),
                ext.field.frob(power as int),
                ext.frob1(power as int),
                ext.frob2(power as int),
                old(self).v(),
            ),
    {
        let idx: usize = power % 6;
        self.c0.frobenius_map(&ext.field, power);
        self.c1.frobenius_map(&ext.field, power);
        self.c2.frobenius_map(&ext.field, power);
        let co1: Fp2 = ext.frobenius_coeffs_c1[idx];
        let co2: Fp2 = ext.frobenius_coeffs_c2[idx];
        self.c1.mul_assign(&ext.field, &co1);
        self.c2.mul_assign(&ext.field, &co2);
    }

    /// Inversion by the cubic adjugate; succeeds exactly when the norm-like
    /// Fp2 element is invertible.
    pub fn inverse(&self, ext: &Extension3Over2) -> (r: Option<Fp6>)
        requires
            ext.wf(),
            self.wf(ext.m()),
        ensures
            match r {
                Some(inv) => {
                    &&& inv.wf(ext.m())
                    &&& f6_inv_rel(ext.m(), ext.nr(), ext.xi(), self.v(), inv.v())
                    &&& f2_norm(
                        ext.m(),
                        ext.nr(),
                        f6_norm(ext.m(), ext.nr(), ext.xi(), self.v()),
                    ) != 0
                },
                None => f2_norm(ext.m(), ext.nr(), f6_norm(ext.m(), ext.nr(), ext.xi(), self.v()))
                    == 0,
            },
    {
        let e2 = &ext.field;
        let x0 = self.c0;
        let x1 = self.c1;
        let x2 = self.c2;
        // n0 = x0^2 - xi*(x1*x2)
        let mut n0 = x0;
        n0.square(e2);
        let mut t = x1;
        t.mul_assign(e2, &x2);
        let mut xt = ext.non_residue;
        xt.mul_assign(e2, &t);
        n0.sub_assign(e2, &xt);
        // n1 = xi*x2^2 - x0*x1
        let mut n1 = x2;
        n1.square(e2);
        let mut xs = ext.non_residue;
        xs.mul_assign(e2, &n1);
        n1 = xs;
        let mut m01 = x0;
        m01.mul_assign(e2, &x1);
        n1.sub_assign(e2, &m01);
        // n2 = x1^2 - x0*x2
        let mut n2 = x1;
        n2.square(e2);
        let mut m02 = x0;
        m02.mul_assign(e2, &x2);
        n2.sub_assign(e2, &m02);
        // t = x0*n0 + xi*(x2*n1) + xi*(x1*n2)
        let mut u0 = x0;
        u0.mul_assign(e2, &n0);
        let mut u1 = x2;
        u1.mul_assign(e2, &n1);
        let mut xu1 = ext.non_residue;
        xu1.mul_assign(e2, &u1);
        let mut u2 = x1;
        u2.mul_assign(e2, &n2);
        let mut xu2 = ext.non_residue;
        xu2.mul_assign(e2, &u2);
        let mut tn = xu1;
        tn.add_assign(e2, &xu2);
        let mut norm = u0;
        norm.add_assign(e2, &tn);
        match norm.inverse(e2) {
            None => None,
            Some(w) => {
                let mut r0 = n0;
                r0.mul_assign(e2, &w);
                let mut r1 = n1;
                r1.mul_assign(e2, &w);
                let mut r2 = n2;
                r2.mul_assign(e2, &w);
                let result = Fp6 { c0: r0, c1: r1, c2: r2 };
                proof {
                    let p = ext.m();
                    let b = ext.nr();
                    let xi = ext.xi();
                    let xv = self.v();
                    let wv = w.v();
                    assert(norm.v() == f6_norm(p, b, xi, xv));
                    assert(f6_inv_rel(p, b, xi, xv, result.v())) by {
                        assert(wf2(p, wv) && f2_mul(p, b, f6_norm(p, b, xi, xv), wv) == f2_one()
                            && result.v() == (Fp6V {
                            c0: f2_mul(p, b, f6_adj0(p, b, xi, xv), wv),
                            c1: f2_mul(p, b, f6_adj1(p, b, xi, xv), wv),
                            c2: f2_mul(p, b, f6_adj2(p, b, xi, xv), wv),
                        }));
                    }
                }
                Some(result)
            },
        }
    }
}

} // verus!
