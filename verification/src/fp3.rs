//! The cubic extension Fp3 = Fp[v]/(v^3 - beta), the base field of the
//! twisted Weierstrass curve.  An element is c0 + c1*v + c2*v^2 with
//! canonical residue coordinates.
//!
//! As in `fp2`, reduced spec operations (`f3_*`) are connected to plain
//! integer polynomials (`u3_*`) by congruence lemmas.

use vstd::prelude::*;
use crate::fp::{
    eqm, fadd, fneg, fsub, inv_mod, is_res, lemma_eqm_add, lemma_eqm_cancel, lemma_eqm_mod,
    lemma_eqm_mul, lemma_eqm_reduce, lemma_eqm_refl, lemma_eqm_sub, lemma_eqm_sym, lemma_eqm_trans,
    add_mod, addmul_mod, mul_mod, muladd_mod, neg_mod, sub_mod, PrimeField,
};

verus! {

/// Spec-level value of an Fp3 element: its three integer coordinates.
pub struct Fp3V {
    pub c0: int,
    pub c1: int,
    pub c2: int,
}

pub open spec fn eqm3(p: int, x: Fp3V, y: Fp3V) -> bool {
    eqm(p, x.c0, y.c0) && eqm(p, x.c1, y.c1) && eqm(p, x.c2, y.c2)
}

pub open spec fn wf3(p: int, x: Fp3V) -> bool {
    is_res(p, x.c0) && is_res(p, x.c1) && is_res(p, x.c2)
}

pub open spec fn f3_zero() -> Fp3V {
    Fp3V { c0: 0, c1: 0, c2: 0 }
}

pub open spec fn f3_one() -> Fp3V {
    Fp3V { c0: 1, c1: 0, c2: 0 }
}

// Unreduced arithmetic.
pub open spec fn u3_add(x: Fp3V, y: Fp3V) -> Fp3V {
    Fp3V { c0: x.c0 + y.c0, c1: x.c1 + y.c1, c2: x.c2 + y.c2 }
}

pub open spec fn u3_sub(x: Fp3V, y: Fp3V) -> Fp3V {
    Fp3V { c0: x.c0 - y.c0, c1: x.c1 - y.c1, c2: x.c2 - y.c2 }
}

pub open spec fn u3_mul(b: int, x: Fp3V, y: Fp3V) -> Fp3V {
    Fp3V {
        c0: x.c0 * y.c0 + b * (x.c1 * y.c2 + x.c2 * y.c1),
        c1: x.c0 * y.c1 + x.c1 * y.c0 + b * (x.c2 * y.c2),
        c2: x.c0 * y.c2 + x.c1 * y.c1 + x.c2 * y.c0,
    }
}

// Reduced arithmetic.
pub open spec fn f3_add(p: int, x: Fp3V, y: Fp3V) -> Fp3V {
    Fp3V { c0: fadd(p, x.c0, y.c0), c1: fadd(p, x.c1, y.c1), c2: fadd(p, x.c2, y.c2) }
}

pub open spec fn f3_sub(p: int, x: Fp3V, y: Fp3V) -> Fp3V {
    Fp3V { c0: fsub(p, x.c0, y.c0), c1: fsub(p, x.c1, y.c1), c2: fsub(p, x.c2, y.c2) }
}

pub open spec fn f3_neg(p: int, x: Fp3V) -> Fp3V {
    Fp3V { c0: fneg(p, x.c0), c1: fneg(p, x.c1), c2: fneg(p, x.c2) }
}

pub open spec fn f3_dbl(p: int, x: Fp3V) -> Fp3V {
    f3_add(p, x, x)
}

pub open spec fn f3_mul(p: int, b: int, x: Fp3V, y: Fp3V) -> Fp3V {
    Fp3V {
        c0: (x.c0 * y.c0 + b * (x.c1 * y.c2 + x.c2 * y.c1)) % p,
        c1: (x.c0 * y.c1 + x.c1 * y.c0 + b * (x.c2 * y.c2)) % p,
        c2: (x.c0 * y.c2 + x.c1 * y.c1 + x.c2 * y.c0) % p,
    }
}

pub open spec fn f3_sq(p: int, b: int, x: Fp3V) -> Fp3V {
    f3_mul(p, b, x, x)
}

/// The three adjugate cofactors of x, unreduced.
pub open spec fn u3_adj0(b: int, x: Fp3V) -> int {
    x.c0 * x.c0 - b * (x.c1 * x.c2)
}

pub open spec fn u3_adj1(b: int, x: Fp3V) -> int {
    b * (x.c2 * x.c2) - x.c0 * x.c1
}

pub open spec fn u3_adj2(b: int, x: Fp3V) -> int {
    x.c1 * x.c1 - x.c0 * x.c2
}

/// The norm of x, reduced; zero exactly when inversion fails.
pub open spec fn f3_norm(p: int, b: int, x: Fp3V) -> int {
    (x.c0 * u3_adj0(b, x) + b * (x.c2 * u3_adj1(b, x)) + b * (x.c1 * u3_adj2(b, x))) % p
}

/// The adjugate cofactors cancel against the element in the first and
/// second convolution coordinates.
proof fn lemma_adj_cancel1(b: int, a0: int, a1: int, a2: int)
    ensures
        a0 * (b * (a2 * a2) - a0 * a1) + a1 * (a0 * a0 - b * (a1 * a2)) + b * (a2 * (a1 * a1 - a0
            * a2)) == 0,
{
    vstd::arithmetic::mul::lemma_mul_is_distributive_sub(a0, b * (a2 * a2), a0 * a1);
    vstd::arithmetic::mul::lemma_mul_is_distributive_sub(a1, a0 * a0, b * (a1 * a2));
    vstd::arithmetic::mul::lemma_mul_is_distributive_sub(a2, a1 * a1, a0 * a2);
    vstd::arithmetic::mul::lemma_mul_is_distributive_sub(b, a2 * (a1 * a1), a2 * (a0 * a2));
    assert(a0 * (b * (a2 * a2)) == b * (a2 * (a0 * a2))) by (nonlinear_arith);
    assert(a0 * (a0 * a1) == a1 * (a0 * a0)) by (nonlinear_arith);
    assert(a1 * (b * (a1 * a2)) == b * (a2 * (a1 * a1))) by (nonlinear_arith);
}

proof fn lemma_adj_cancel2(b: int, a0: int, a1: int, a2: int)
    ensures
        a0 * (a1 * a1 - a0 * a2) + a1 * (b * (a2 * a2) - a0 * a1) + a2 * (a0 * a0 - b * (a1 * a2))
            == 0,
{
    vstd::arithmetic::mul::lemma_mul_is_distributive_sub(a0, a1 * a1, a0 * a2);
    vstd::arithmetic::mul::lemma_mul_is_distributive_sub(a1, b * (a2 * a2), a0 * a1);
    vstd::arithmetic::mul::lemma_mul_is_distributive_sub(a2, a0 * a0, b * (a1 * a2));
    assert(a0 * (a1 * a1) == a1 * (a0 * a1)) by (nonlinear_arith);
    assert(a0 * (a0 * a2) == a2 * (a0 * a0)) by (nonlinear_arith);
    assert(a1 * (b * (a2 * a2)) == a2 * (b * (a1 * a2))) by (nonlinear_arith);
}

/// Regroups q * (n * w) + r * (m * w) + b * (s * (k * w)) as a single
/// product with w.
proof fn lemma_mul_regroup(q: int, n: int, r: int, m: int, b: int, s: int, k: int, w: int)
    ensures
        q * (n * w) + r * (m * w) + b * (s * (k * w)) == (q * n + r * m + b * (s * k)) * w,
{
    vstd::arithmetic::mul::lemma_mul_is_associative(q, n, w);
    vstd::arithmetic::mul::lemma_mul_is_associative(r, m, w);
    vstd::arithmetic::mul::lemma_mul_is_associative(s, k, w);
    vstd::arithmetic::mul::lemma_mul_is_associative(b, s * k, w);
    vstd::arithmetic::mul::lemma_mul_is_distributive_add_other_way(w, q * n, r * m);
    vstd::arithmetic::mul::lemma_mul_is_distributive_add_other_way(w, q * n + r * m, b * (s * k));
}

pub proof fn lemma_eqm3_refl(p: int, x: Fp3V)
    requires
        p > 0,
    ensures
        eqm3(p, x, x),
{
    lemma_eqm_refl(p, x.c0);
    lemma_eqm_refl(p, x.c1);
    lemma_eqm_refl(p, x.c2);
}

pub proof fn lemma_eqm3_trans(p: int, x: Fp3V, y: Fp3V, z: Fp3V)
    requires
        p > 0,
        eqm3(p, x, y),
        eqm3(p, y, z),
    ensures
        eqm3(p, x, z),
{
    lemma_eqm_trans(p, x.c0, y.c0, z.c0);
    lemma_eqm_trans(p, x.c1, y.c1, z.c1);
    lemma_eqm_trans(p, x.c2, y.c2, z.c2);
}

pub proof fn lemma_eqm3_sym(p: int, x: Fp3V, y: Fp3V)
    requires
        p > 0,
        eqm3(p, x, y),
    ensures
        eqm3(p, y, x),
{
    lemma_eqm_sym(p, x.c0, y.c0);
    lemma_eqm_sym(p, x.c1, y.c1);
    lemma_eqm_sym(p, x.c2, y.c2);
}

pub proof fn lemma_eqm3_cancel(p: int, x: Fp3V, y: Fp3V)
    requires
        p > 0,
        eqm3(p, x, y),
        wf3(p, x),
        wf3(p, y),
    ensures
        x == y,
{
    lemma_eqm_cancel(p, x.c0, y.c0);
    lemma_eqm_cancel(p, x.c1, y.c1);
    lemma_eqm_cancel(p, x.c2, y.c2);
}

pub proof fn lemma_f3_add_cong(p: int, x: Fp3V, y: Fp3V, xr: Fp3V, yr: Fp3V)
    requires
        p > 0,
        eqm3(p, x, xr),
        eqm3(p, y, yr),
    ensures
        eqm3(p, f3_add(p, x, y), u3_add(xr, yr)),
{
    lemma_eqm_mod(p, x.c0 + y.c0);
    lemma_eqm_mod(p, x.c1 + y.c1);
    lemma_eqm_mod(p, x.c2 + y.c2);
    lemma_eqm_add(p, x.c0, xr.c0, y.c0, yr.c0);
    lemma_eqm_add(p, x.c1, xr.c1, y.c1, yr.c1);
    lemma_eqm_add(p, x.c2, xr.c2, y.c2, yr.c2);
    lemma_eqm_trans(p, fadd(p, x.c0, y.c0), x.c0 + y.c0, xr.c0 + yr.c0);
    lemma_eqm_trans(p, fadd(p, x.c1, y.c1), x.c1 + y.c1, xr.c1 + yr.c1);
    lemma_eqm_trans(p, fadd(p, x.c2, y.c2), x.c2 + y.c2, xr.c2 + yr.c2);
}

pub proof fn lemma_f3_sub_cong(p: int, x: Fp3V, y: Fp3V, xr: Fp3V, yr: Fp3V)
    requires
        p > 0,
        eqm3(p, x, xr),
        eqm3(p, y, yr),
    ensures
        eqm3(p, f3_sub(p, x, y), u3_sub(xr, yr)),
{
    lemma_eqm_mod(p, x.c0 - y.c0);
    lemma_eqm_mod(p, x.c1 - y.c1);
    lemma_eqm_mod(p, x.c2 - y.c2);
    lemma_eqm_sub(p, x.c0, xr.c0, y.c0, yr.c0);
    lemma_eqm_sub(p, x.c1, xr.c1, y.c1, yr.c1);
    lemma_eqm_sub(p, x.c2, xr.c2, y.c2, yr.c2);
    lemma_eqm_trans(p, fsub(p, x.c0, y.c0), x.c0 - y.c0, xr.c0 - yr.c0);
    lemma_eqm_trans(p, fsub(p, x.c1, y.c1), x.c1 - y.c1, xr.c1 - yr.c1);
    lemma_eqm_trans(p, fsub(p, x.c2, y.c2), x.c2 - y.c2, xr.c2 - yr.c2);
}

pub proof fn lemma_f3_mul_cong(p: int, b: int, x: Fp3V, y: Fp3V, xr: Fp3V, yr: Fp3V)
    requires
        p > 0,
        eqm3(p, x, xr),
        eqm3(p, y, yr),
    ensures
        eqm3(p, f3_mul(p, b, x, y), u3_mul(b, xr, yr)),
{
    lemma_eqm_refl(p, b);
    lemma_eqm_mul(p, x.c0, xr.c0, y.c0, yr.c0);
    lemma_eqm_mul(p, x.c0, xr.c0, y.c1, yr.c1);
    lemma_eqm_mul(p, x.c0, xr.c0, y.c2, yr.c2);
    lemma_eqm_mul(p, x.c1, xr.c1, y.c0, yr.c0);
    lemma_eqm_mul(p, x.c1, xr.c1, y.c1, yr.c1);
    lemma_eqm_mul(p, x.c1, xr.c1, y.c2, yr.c2);
    lemma_eqm_mul(p, x.c2, xr.c2, y.c0, yr.c0);
    lemma_eqm_mul(p, x.c2, xr.c2, y.c1, yr.c1);
    lemma_eqm_mul(p, x.c2, xr.c2, y.c2, yr.c2);
    lemma_eqm_add(p, x.c1 * y.c2, xr.c1 * yr.c2, x.c2 * y.c1, xr.c2 * yr.c1);
    lemma_eqm_mul(p, b, b, x.c1 * y.c2 + x.c2 * y.c1, xr.c1 * yr.c2 + xr.c2 * yr.c1);
    lemma_eqm_add(
        p,
        x.c0 * y.c0,
        xr.c0 * yr.c0,
        b * (x.c1 * y.c2 + x.c2 * y.c1),
        b * (xr.c1 * yr.c2 + xr.c2 * yr.c1),
    );
    lemma_eqm_mul(p, b, b, x.c2 * y.c2, xr.c2 * yr.c2);
    lemma_eqm_add(p, x.c0 * y.c1, xr.c0 * yr.c1, x.c1 * y.c0, xr.c1 * yr.c0);
    lemma_eqm_add(
        p,
        x.c0 * y.c1 + x.c1 * y.c0,
        xr.c0 * yr.c1 + xr.c1 * yr.c0,
        b * (x.c2 * y.c2),
        b * (xr.c2 * yr.c2),
    );
    lemma_eqm_add(p, x.c0 * y.c2, xr.c0 * yr.c2, x.c1 * y.c1, xr.c1 * yr.c1);
    lemma_eqm_add(
        p,
        x.c0 * y.c2 + x.c1 * y.c1,
        xr.c0 * yr.c2 + xr.c1 * yr.c1,
        x.c2 * y.c0,
        xr.c2 * yr.c0,
    );
    lemma_eqm_mod(p, x.c0 * y.c0 + b * (x.c1 * y.c2 + x.c2 * y.c1));
    lemma_eqm_mod(p, x.c0 * y.c1 + x.c1 * y.c0 + b * (x.c2 * y.c2));
    lemma_eqm_mod(p, x.c0 * y.c2 + x.c1 * y.c1 + x.c2 * y.c0);
    lemma_eqm_trans(
        p,
        f3_mul(p, b, x, y).c0,
        x.c0 * y.c0 + b * (x.c1 * y.c2 + x.c2 * y.c1),
        xr.c0 * yr.c0 + b * (xr.c1 * yr.c2 + xr.c2 * yr.c1),
    );
    lemma_eqm_trans(
        p,
        f3_mul(p, b, x, y).c1,
        x.c0 * y.c1 + x.c1 * y.c0 + b * (x.c2 * y.c2),
        xr.c0 * yr.c1 + xr.c1 * yr.c0 + b * (xr.c2 * yr.c2),
    );
    lemma_eqm_trans(
        p,
        f3_mul(p, b, x, y).c2,
        x.c0 * y.c2 + x.c1 * y.c1 + x.c2 * y.c0,
        xr.c0 * yr.c2 + xr.c1 * yr.c1 + xr.c2 * yr.c0,
    );
}

/// Descriptor of the cubic extension: the base field and the non-residue.
pub struct Extension3 {
    pub field: PrimeField,
    pub non_residue: u64,
}

impl Extension3 {
    pub open spec fn m(&self) -> int {
        self.field.m()
    }

    pub open spec fn nr(&self) -> int {
        self.non_residue as int
    }

    pub open spec fn wf(&self) -> bool {
        &&& self.field.wf()
        &&& self.non_residue < self.field.modulus
        &&& self.non_residue != 0
    }

    pub fn new(field: PrimeField, non_residue: u64) -> (r: Extension3)
        requires
            field.wf(),
            0 < non_residue < field.modulus,
        ensures
            r.wf(),
            r == (Extension3 { field, non_residue }),
    {
        Extension3 { field, non_residue }
    }
}

/// An element of Fp3: c0 + c1*v + c2*v^2.
#[derive(Clone, Copy, PartialEq, Eq, Structural)]
pub struct Fp3 {
    pub c0: u64,
    pub c1: u64,
    pub c2: u64,
}

impl Fp3 {
    pub open spec fn v(&self) -> Fp3V {
        Fp3V { c0: self.c0 as int, c1: self.c1 as int, c2: self.c2 as int }
    }

    pub open spec fn wf(&self, p: int) -> bool {
        wf3(p, self.v())
    }

    pub fn zero() -> (r: Fp3)
        ensures
            r.v() == f3_zero(),
            forall|p: int| p > 0 ==> r.wf(p),
    {
        Fp3 { c0: 0, c1: 0, c2: 0 }
    }

    pub fn one() -> (r: Fp3)
        ensures
            r.v() == f3_one(),
            forall|p: int| p > 1 ==> r.wf(p),
    {
        Fp3 { c0: 1, c1: 0, c2: 0 }
    }

    pub fn is_zero(&self) -> (r: bool)
        ensures
            r <==> self.v() == f3_zero(),
    {
        self.c0 == 0 && self.c1 == 0 && self.c2 == 0
    }

    pub fn add_assign(&mut self, ext: &Extension3, other: &Fp3)
        requires
            ext.wf(),
            old(self).wf(ext.m()),
            other.wf(ext.m()),
        ensures
            final(self).wf(ext.m()),
            final(self).v() == f3_add(ext.m(), old(self).v(), other.v()),
    {
        self.c0 = add_mod(&ext.field, self.c0, other.c0);
        self.c1 = add_mod(&ext.field, self.c1, other.c1);
        self.c2 = add_mod(&ext.field, self.c2, other.c2);
    }

    pub fn sub_assign(&mut self, ext: &Extension3, other: &Fp3)
        requires
            ext.wf(),
            old(self).wf(ext.m()),
            other.wf(ext.m()),
        ensures
            final(self).wf(ext.m()),
            final(self).v() == f3_sub(ext.m(), old(self).v(), other.v()),
    {
        self.c0 = sub_mod(&ext.field, self.c0, other.c0);
        self.c1 = sub_mod(&ext.field, self.c1, other.c1);
        self.c2 = sub_mod(&ext.field, self.c2, other.c2);
    }

    pub fn double(&mut self, ext: &Extension3)
        requires
            ext.wf(),
            old(self).wf(ext.m()),
        ensures
            final(self).wf(ext.m()),
            final(self).v() == f3_dbl(ext.m(), old(self).v()),
    {
        let other = *self;
        self.add_assign(ext, &other);
    }

    pub fn negate(&mut self, ext: &Extension3)
        requires
            ext.wf(),
            old(self).wf(ext.m()),
        ensures
            final(self).wf(ext.m()),
            final(self).v() == f3_neg(ext.m(), old(self).v()),
    {
        self.c0 = neg_mod(&ext.field, self.c0);
        self.c1 = neg_mod(&ext.field, self.c1);
        self.c2 = neg_mod(&ext.field, self.c2);
    }

    pub fn mul_assign(&mut self, ext: &Extension3, other: &Fp3)
        requires
            ext.wf(),
            old(self).wf(ext.m()),
            other.wf(ext.m()),
        ensures
            final(self).wf(ext.m()),
            final(self).v() == f3_mul(ext.m(), ext.nr(), old(self).v(), other.v()),
    {
        let p = &ext.field;
        let ghost pi = ext.m();
        let b = ext.non_residue;
        let x0 = self.c0;
        let x1 = self.c1;
        let x2 = self.c2;
        let y0 = other.c0;
        let y1 = other.c1;
        let y2 = other.c2;
        let s12: u64 = muladd_mod(p, x1, y2, x2, y1);
        let c0: u64 = muladd_mod(p, x0, y0, b, s12);
        let t01: u64 = muladd_mod(p, x0, y1, x1, y0);
        let m22: u64 = mul_mod(p, x2, y2);
        let c1: u64 = addmul_mod(p, t01, b, m22);
        let t02: u64 = muladd_mod(p, x0, y2, x1, y1);
        let c2: u64 = addmul_mod(p, t02, x2, y0);
        proof {
            let bi = b as int;
            let x0i = x0 as int;
            let x1i = x1 as int;
            let x2i = x2 as int;
            let y0i = y0 as int;
            let y1i = y1 as int;
            let y2i = y2 as int;
            lemma_eqm_refl(pi, bi);
            lemma_eqm_refl(pi, x0i * y0i);
            // c0
            lemma_eqm_mod(pi, x1i * y2i + x2i * y1i);
            lemma_eqm_mul(pi, bi, bi, s12 as int, x1i * y2i + x2i * y1i);
            lemma_eqm_add(
                pi,
                x0i * y0i,
                x0i * y0i,
                bi * s12 as int,
                bi * (x1i * y2i + x2i * y1i),
            );
            lemma_eqm_mod(pi, x0i * y0i + bi * s12 as int);
            lemma_eqm_trans(
                pi,
                c0 as int,
                x0i * y0i + bi * s12 as int,
                x0i * y0i + bi * (x1i * y2i + x2i * y1i),
            );
            lemma_eqm_reduce(pi, c0 as int, x0i * y0i + bi * (x1i * y2i + x2i * y1i));
            // c1
            lemma_eqm_mod(pi, x0i * y1i + x1i * y0i);
            lemma_eqm_refl(pi, bi * (x2i * y2i));
            lemma_eqm_mod(pi, x2i * y2i);
            lemma_eqm_mul(pi, bi, bi, m22 as int, x2i * y2i);
            lemma_eqm_add(
                pi,
                t01 as int,
                x0i * y1i + x1i * y0i,
                bi * m22 as int,
                bi * (x2i * y2i),
            );
            lemma_eqm_mod(pi, t01 as int + bi * m22 as int);
            lemma_eqm_trans(
                pi,
                c1 as int,
                t01 as int + bi * m22 as int,
                x0i * y1i + x1i * y0i + bi * (x2i * y2i),
            );
            lemma_eqm_reduce(pi, c1 as int, x0i * y1i + x1i * y0i + bi * (x2i * y2i));
            // c2
            lemma_eqm_mod(pi, x0i * y2i + x1i * y1i);
            lemma_eqm_refl(pi, x2i * y0i);
            lemma_eqm_add(
                pi,
                t02 as int,
                x0i * y2i + x1i * y1i,
                x2i * y0i,
                x2i * y0i,
            );
            lemma_eqm_mod(pi, t02 as int + x2i * y0i);
            lemma_eqm_trans(
                pi,
                c2 as int,
                t02 as int + x2i * y0i,
                x0i * y2i + x1i * y1i + x2i * y0i,
            );
            lemma_eqm_reduce(pi, c2 as int, x0i * y2i + x1i * y1i + x2i * y0i);
        }
        self.c0 = c0;
        self.c1 = c1;
        self.c2 = c2;
    }

    pub fn square(&mut self, ext: &Extension3)
        requires
            ext.wf(),
            old(self).wf(ext.m()),
        ensures
            final(self).wf(ext.m()),
            final(self).v() == f3_sq(ext.m(), ext.nr(), old(self).v()),
    {
        let other = *self;
        self.mul_assign(ext, &other);
    }

    /// Inversion by the adjugate and the norm; fails exactly when the norm
    /// reduces to zero, which for a genuine non-residue happens only at zero.
    pub fn inverse(&self, ext: &Extension3) -> (r: Option<Fp3>)
        requires
            ext.wf(),
            self.wf(ext.m()),
        ensures
            match r {
                Some(inv) => {
                    &&& inv.wf(ext.m())
                    &&& f3_mul(ext.m(), ext.nr(), self.v(), inv.v()) == f3_one()
                    &&& f3_norm(ext.m(), ext.nr(), self.v()) != 0
                },
                None => f3_norm(ext.m(), ext.nr(), self.v()) == 0,
            },
    {
        let p = &ext.field;
        let ghost pi = ext.m();
        let b = ext.non_residue;
        let a0 = self.c0;
        let a1 = self.c1;
        let a2 = self.c2;
        let ghost bi = b as int;
        let ghost a0i = a0 as int;
        let ghost a1i = a1 as int;
        let ghost a2i = a2 as int;
        let m12: u64 = mul_mod(p, a1, a2);
        let n0: u64 = sub_mod(p, mul_mod(p, a0, a0), mul_mod(p, b, m12));
        let m22: u64 = mul_mod(p, a2, a2);
        let n1: u64 = sub_mod(p, mul_mod(p, b, m22), mul_mod(p, a0, a1));
        let n2: u64 = sub_mod(p, mul_mod(p, a1, a1), mul_mod(p, a0, a2));
        let u1: u64 = mul_mod(p, a2, n1);
        let u2: u64 = mul_mod(p, a1, n2);
        let t: u64 = add_mod(p, mul_mod(p, a0, n0), add_mod(p, mul_mod(p, b, u1), mul_mod(p, b, u2)));
        let ghost x = self.v();
        proof {
            lemma_eqm_refl(pi, bi);
            lemma_eqm_refl(pi, a0i);
            lemma_eqm_refl(pi, a1i);
            lemma_eqm_refl(pi, a2i);
            // the reduced cofactors are congruent to the unreduced ones
            lemma_eqm_mod(pi, a1i * a2i);
            lemma_eqm_mul(pi, bi, bi, m12 as int, a1i * a2i);
            lemma_eqm_mod(pi, a0i * a0i);
            lemma_eqm_mod(pi, bi * m12 as int);
            lemma_eqm_trans(pi, (bi * m12 as int) % pi, bi * m12 as int, bi * (a1i * a2i));
            lemma_eqm_sub(pi, (a0i * a0i) % pi, a0i * a0i, (bi * m12 as int) % pi, bi * (a1i * a2i));
            lemma_eqm_mod(pi, (a0i * a0i) % pi - (bi * m12 as int) % pi);
            lemma_eqm_trans(
                pi,
                n0 as int,
                (a0i * a0i) % pi - (bi * m12 as int) % pi,
                u3_adj0(bi, x),
            );
            lemma_eqm_mod(pi, a2i * a2i);
            lemma_eqm_mul(pi, bi, bi, m22 as int, a2i * a2i);
            lemma_eqm_mod(pi, bi * m22 as int);
            lemma_eqm_trans(pi, (bi * m22 as int) % pi, bi * m22 as int, bi * (a2i * a2i));
            lemma_eqm_mod(pi, a0i * a1i);
            lemma_eqm_sub(pi, (bi * m22 as int) % pi, bi * (a2i * a2i), (a0i * a1i) % pi, a0i * a1i);
            lemma_eqm_mod(pi, (bi * m22 as int) % pi - (a0i * a1i) % pi);
            lemma_eqm_trans(
                pi,
                n1 as int,
                (bi * m22 as int) % pi - (a0i * a1i) % pi,
                u3_adj1(bi, x),
            );
            lemma_eqm_mod(pi, a1i * a1i);
            lemma_eqm_mod(pi, a0i * a2i);
            lemma_eqm_sub(pi, (a1i * a1i) % pi, a1i * a1i, (a0i * a2i) % pi, a0i * a2i);
            lemma_eqm_mod(pi, (a1i * a1i) % pi - (a0i * a2i) % pi);
            lemma_eqm_trans(
                pi,
                n2 as int,
                (a1i * a1i) % pi - (a0i * a2i) % pi,
                u3_adj2(bi, x),
            );
            // t is congruent to the unreduced norm
            lemma_eqm_mul(pi, a0i, a0i, n0 as int, u3_adj0(bi, x));
            lemma_eqm_mod(pi, a0i * n0 as int);
            lemma_eqm_trans(pi, (a0i * n0 as int) % pi, a0i * n0 as int, a0i * u3_adj0(bi, x));
            lemma_eqm_mul(pi, a2i, a2i, n1 as int, u3_adj1(bi, x));
            lemma_eqm_mod(pi, a2i * n1 as int);
            lemma_eqm_trans(pi, u1 as int, a2i * n1 as int, a2i * u3_adj1(bi, x));
            lemma_eqm_mul(pi, bi, bi, u1 as int, a2i * u3_adj1(bi, x));
            lemma_eqm_mod(pi, bi * u1 as int);
            lemma_eqm_trans(pi, (bi * u1 as int) % pi, bi * u1 as int, bi * (a2i * u3_adj1(bi, x)));
            lemma_eqm_mul(pi, a1i, a1i, n2 as int, u3_adj2(bi, x));
            lemma_eqm_mod(pi, a1i * n2 as int);
            lemma_eqm_trans(pi, u2 as int, a1i * n2 as int, a1i * u3_adj2(bi, x));
            lemma_eqm_mul(pi, bi, bi, u2 as int, a1i * u3_adj2(bi, x));
            lemma_eqm_mod(pi, bi * u2 as int);
            lemma_eqm_trans(pi, (bi * u2 as int) % pi, bi * u2 as int, bi * (a1i * u3_adj2(bi, x)));
            lemma_eqm_add(
                pi,
                (bi * u1 as int) % pi,
                bi * (a2i * u3_adj1(bi, x)),
                (bi * u2 as int) % pi,
                bi * (a1i * u3_adj2(bi, x)),
            );
            lemma_eqm_mod(pi, (bi * u1 as int) % pi + (bi * u2 as int) % pi);
            lemma_eqm_trans(
                pi,
                ((bi * u1 as int) % pi + (bi * u2 as int) % pi) % pi,
                (bi * u1 as int) % pi + (bi * u2 as int) % pi,
                bi * (a2i * u3_adj1(bi, x)) + bi * (a1i * u3_adj2(bi, x)),
            );
            lemma_eqm_add(
                pi,
                (a0i * n0 as int) % pi,
                a0i * u3_adj0(bi, x),
                ((bi * u1 as int) % pi + (bi * u2 as int) % pi) % pi,
                bi * (a2i * u3_adj1(bi, x)) + bi * (a1i * u3_adj2(bi, x)),
            );
            lemma_eqm_mod(
                pi,
                (a0i * n0 as int) % pi + ((bi * u1 as int) % pi + (bi * u2 as int) % pi) % pi,
            );
            lemma_eqm_trans(
                pi,
                t as int,
                (a0i * n0 as int) % pi + ((bi * u1 as int) % pi + (bi * u2 as int) % pi) % pi,
                a0i * u3_adj0(bi, x) + (bi * (a2i * u3_adj1(bi, x)) + bi * (a1i * u3_adj2(bi, x))),
            );
            assert(a0i * u3_adj0(bi, x) + (bi * (a2i * u3_adj1(bi, x)) + bi * (a1i * u3_adj2(
                bi,
                x,
            ))) == a0i * u3_adj0(bi, x) + bi * (a2i * u3_adj1(bi, x)) + bi * (a1i * u3_adj2(bi, x)));
            lemma_eqm_reduce(
                pi,
                t as int,
                a0i * u3_adj0(bi, x) + bi * (a2i * u3_adj1(bi, x)) + bi * (a1i * u3_adj2(bi, x)),
            );
        }
        match inv_mod(p, t) {
            None => None,
            Some(w) => {
                let r0: u64 = mul_mod(p, n0, w);
                let r1: u64 = mul_mod(p, n1, w);
                let r2: u64 = mul_mod(p, n2, w);
                let inv = Fp3 { c0: r0, c1: r1, c2: r2 };
                proof {
                    let wi = w as int;
                    let ti = t as int;
                    let rep = Fp3V {
                        c0: u3_adj0(bi, x) * wi,
                        c1: u3_adj1(bi, x) * wi,
                        c2: u3_adj2(bi, x) * wi,
                    };
                    lemma_eqm_refl(pi, wi);
                    lemma_eqm_mul(pi, n0 as int, u3_adj0(bi, x), wi, wi);
                    lemma_eqm_mod(pi, n0 as int * wi);
                    lemma_eqm_trans(pi, r0 as int, n0 as int * wi, rep.c0);
                    lemma_eqm_mul(pi, n1 as int, u3_adj1(bi, x), wi, wi);
                    lemma_eqm_mod(pi, n1 as int * wi);
                    lemma_eqm_trans(pi, r1 as int, n1 as int * wi, rep.c1);
                    lemma_eqm_mul(pi, n2 as int, u3_adj2(bi, x), wi, wi);
                    lemma_eqm_mod(pi, n2 as int * wi);
                    lemma_eqm_trans(pi, r2 as int, n2 as int * wi, rep.c2);
                    lemma_eqm3_refl(pi, x);
                    lemma_f3_mul_cong(pi, bi, x, inv.v(), x, rep);
                    let prod = f3_mul(pi, bi, x, inv.v());
                    let n0u = a0i * a0i - bi * (a1i * a2i);
                    let n1u = bi * (a2i * a2i) - a0i * a1i;
                    let n2u = a1i * a1i - a0i * a2i;
                    let norm = a0i * n0u + bi * (a2i * n1u) + bi * (a1i * n2u);
                    lemma_adj_cancel1(bi, a0i, a1i, a2i);
                    lemma_adj_cancel2(bi, a0i, a1i, a2i);
                    // regroup the c0 coordinate of the product as norm * w
                    vstd::arithmetic::mul::lemma_mul_is_distributive_add(
                        bi,
                        a1i * (n2u * wi),
                        a2i * (n1u * wi),
                    );
                    vstd::arithmetic::mul::lemma_mul_is_associative(a0i, n0u, wi);
                    vstd::arithmetic::mul::lemma_mul_is_associative(a1i, n2u, wi);
                    vstd::arithmetic::mul::lemma_mul_is_associative(bi, a1i * n2u, wi);
                    vstd::arithmetic::mul::lemma_mul_is_associative(a2i, n1u, wi);
                    vstd::arithmetic::mul::lemma_mul_is_associative(bi, a2i * n1u, wi);
                    vstd::arithmetic::mul::lemma_mul_is_distributive_add_other_way(
                        wi,
                        a0i * n0u,
                        bi * (a1i * n2u),
                    );
                    vstd::arithmetic::mul::lemma_mul_is_distributive_add_other_way(
                        wi,
                        a0i * n0u + bi * (a1i * n2u),
                        bi * (a2i * n1u),
                    );
                    assert(u3_mul(bi, x, rep).c0 == norm * wi);
                    // the c1 and c2 coordinates vanish
                    lemma_mul_regroup(a0i, n1u, a1i, n0u, bi, a2i, n2u, wi);
                    assert(u3_mul(bi, x, rep).c1 == (a0i * n1u + a1i * n0u + bi * (a2i * n2u))
                        * wi);
                    assert(u3_mul(bi, x, rep).c1 == 0);
                    lemma_mul_regroup(a0i, n2u, a1i, n1u, 1, a2i, n0u, wi);
                    assert(u3_mul(bi, x, rep).c2 == (a0i * n2u + a1i * n1u + 1 * (a2i * n0u))
                        * wi);
                    assert(u3_mul(bi, x, rep).c2 == 0);
                    // the c0 coordinate reduces to t * w mod p, which is 1
                    lemma_eqm_sym(pi, ti, norm);
                    lemma_eqm_mul(pi, norm, ti, wi, wi);
                    lemma_eqm_trans(pi, prod.c0, norm * wi, ti * wi);
                    lemma_eqm_mod(pi, ti * wi);
                    lemma_eqm_sym(pi, (ti * wi) % pi, ti * wi);
                    lemma_eqm_trans(pi, prod.c0, ti * wi, (ti * wi) % pi);
                    lemma_eqm_cancel(pi, prod.c0, 1);
                    lemma_eqm_cancel(pi, prod.c1, 0);
                    lemma_eqm_cancel(pi, prod.c2, 0);
                }
                Some(inv)
            },
        }
    }
}

} // verus!
