//! The quadratic extension Fp2 = Fp[u]/(u^2 - beta), with beta a
//! non-residue of the base field.  An element is c0 + c1*u with both
//! coordinates canonical residues.
//!
//! Spec arithmetic comes in two forms: the reduced operations (`f2_*`),
//! which reduce each coordinate once, and the unreduced ones (`u2_*`),
//! plain integer polynomials.  The congruence lemmas connect the two, so
//! that algebraic identities can be settled on unreduced polynomials by
//! nonlinear arithmetic and then transported to the reduced world.

use vstd::prelude::*;
use crate::fp::{
    eqm, fadd, fmul, fneg, fsub, inv_mod, is_res, lemma_eqm_add, lemma_eqm_cancel, lemma_eqm_mod,
    lemma_eqm_mul, lemma_eqm_reduce, lemma_eqm_refl, lemma_eqm_sub, lemma_eqm_sym, lemma_eqm_trans,
    add_mod, mul_mod, muladd_mod, neg_mod, sub_mod, PrimeField,
};

verus! {

/// Spec-level value of an Fp2 element: its two integer coordinates.
pub struct Fp2V {
    pub c0: int,
    pub c1: int,
}

/// Componentwise congruence modulo p.
pub open spec fn eqm2(p: int, x: Fp2V, y: Fp2V) -> bool {
    eqm(p, x.c0, y.c0) && eqm(p, x.c1, y.c1)
}

/// Both coordinates are canonical residues.
pub open spec fn wf2(p: int, x: Fp2V) -> bool {
    is_res(p, x.c0) && is_res(p, x.c1)
}

pub open spec fn f2_zero() -> Fp2V {
    Fp2V { c0: 0, c1: 0 }
}

pub open spec fn f2_one() -> Fp2V {
    Fp2V { c0: 1, c1: 0 }
}

// Unreduced (plain integer) arithmetic.
pub open spec fn u2_add(x: Fp2V, y: Fp2V) -> Fp2V {
    Fp2V { c0: x.c0 + y.c0, c1: x.c1 + y.c1 }
}

pub open spec fn u2_sub(x: Fp2V, y: Fp2V) -> Fp2V {
    Fp2V { c0: x.c0 - y.c0, c1: x.c1 - y.c1 }
}

pub open spec fn u2_mul(b: int, x: Fp2V, y: Fp2V) -> Fp2V {
    Fp2V { c0: x.c0 * y.c0 + b * (x.c1 * y.c1), c1: x.c0 * y.c1 + x.c1 * y.c0 }
}

// Reduced arithmetic: one reduction per coordinate.
pub open spec fn f2_add(p: int, x: Fp2V, y: Fp2V) -> Fp2V {
    Fp2V { c0: fadd(p, x.c0, y.c0), c1: fadd(p, x.c1, y.c1) }
}

pub open spec fn f2_sub(p: int, x: Fp2V, y: Fp2V) -> Fp2V {
    Fp2V { c0: fsub(p, x.c0, y.c0), c1: fsub(p, x.c1, y.c1) }
}

pub open spec fn f2_neg(p: int, x: Fp2V) -> Fp2V {
    Fp2V { c0: fneg(p, x.c0), c1: fneg(p, x.c1) }
}

pub open spec fn f2_dbl(p: int, x: Fp2V) -> Fp2V {
    f2_add(p, x, x)
}

pub open spec fn f2_mul(p: int, b: int, x: Fp2V, y: Fp2V) -> Fp2V {
    Fp2V {
        c0: (x.c0 * y.c0 + b * (x.c1 * y.c1)) % p,
        c1: (x.c0 * y.c1 + x.c1 * y.c0) % p,
    }
}

pub open spec fn f2_sq(p: int, b: int, x: Fp2V) -> Fp2V {
    f2_mul(p, b, x, x)
}

/// The norm form a0^2 - beta * a1^2, reduced; zero exactly when inversion fails.
pub open spec fn f2_norm(p: int, b: int, x: Fp2V) -> int {
    (x.c0 * x.c0 - b * (x.c1 * x.c1)) % p
}

pub proof fn lemma_eqm2_refl(p: int, x: Fp2V)
    requires
        p > 0,
    ensures
        eqm2(p, x, x),
{
    lemma_eqm_refl(p, x.c0);
    lemma_eqm_refl(p, x.c1);
}

pub proof fn lemma_eqm2_trans(p: int, x: Fp2V, y: Fp2V, z: Fp2V)
    requires
        p > 0,
        eqm2(p, x, y),
        eqm2(p, y, z),
    ensures
        eqm2(p, x, z),
{
    lemma_eqm_trans(p, x.c0, y.c0, z.c0);
    lemma_eqm_trans(p, x.c1, y.c1, z.c1);
}

pub proof fn lemma_eqm2_sym(p: int, x: Fp2V, y: Fp2V)
    requires
        p > 0,
        eqm2(p, x, y),
    ensures
        eqm2(p, y, x),
{
    lemma_eqm_sym(p, x.c0, y.c0);
    lemma_eqm_sym(p, x.c1, y.c1);
}

/// Congruent well-formed values are equal.
pub proof fn lemma_eqm2_cancel(p: int, x: Fp2V, y: Fp2V)
    requires
        p > 0,
        eqm2(p, x, y),
        wf2(p, x),
        wf2(p, y),
    ensures
        x == y,
{
    lemma_eqm_cancel(p, x.c0, y.c0);
    lemma_eqm_cancel(p, x.c1, y.c1);
}

/// Reduced addition is congruent to unreduced addition of congruent arguments.
pub proof fn lemma_f2_add_cong(p: int, x: Fp2V, y: Fp2V, xr: Fp2V, yr: Fp2V)
    requires
        p > 0,
        eqm2(p, x, xr),
        eqm2(p, y, yr),
    ensures
        eqm2(p, f2_add(p, x, y), u2_add(xr, yr)),
{
    lemma_eqm_mod(p, x.c0 + y.c0);
    lemma_eqm_mod(p, x.c1 + y.c1);
    lemma_eqm_add(p, x.c0, xr.c0, y.c0, yr.c0);
    lemma_eqm_add(p, x.c1, xr.c1, y.c1, yr.c1);
    lemma_eqm_trans(p, fadd(p, x.c0, y.c0), x.c0 + y.c0, xr.c0 + yr.c0);
    lemma_eqm_trans(p, fadd(p, x.c1, y.c1), x.c1 + y.c1, xr.c1 + yr.c1);
}

pub proof fn lemma_f2_sub_cong(p: int, x: Fp2V, y: Fp2V, xr: Fp2V, yr: Fp2V)
    requires
        p > 0,
        eqm2(p, x, xr),
        eqm2(p, y, yr),
    ensures
        eqm2(p, f2_sub(p, x, y), u2_sub(xr, yr)),
{
    lemma_eqm_mod(p, x.c0 - y.c0);
    lemma_eqm_mod(p, x.c1 - y.c1);
    lemma_eqm_sub(p, x.c0, xr.c0, y.c0, yr.c0);
    lemma_eqm_sub(p, x.c1, xr.c1, y.c1, yr.c1);
    lemma_eqm_trans(p, fsub(p, x.c0, y.c0), x.c0 - y.c0, xr.c0 - yr.c0);
    lemma_eqm_trans(p, fsub(p, x.c1, y.c1), x.c1 - y.c1, xr.c1 - yr.c1);
}

pub proof fn lemma_f2_mul_cong(p: int, b: int, x: Fp2V, y: Fp2V, xr: Fp2V, yr: Fp2V)
    requires
        p > 0,
        eqm2(p, x, xr),
        eqm2(p, y, yr),
    ensures
        eqm2(p, f2_mul(p, b, x, y), u2_mul(b, xr, yr)),
{
    lemma_eqm_refl(p, b);
    lemma_eqm_mul(p, x.c0, xr.c0, y.c0, yr.c0);
    lemma_eqm_mul(p, x.c1, xr.c1, y.c1, yr.c1);
    lemma_eqm_mul(p, x.c0, xr.c0, y.c1, yr.c1);
    lemma_eqm_mul(p, x.c1, xr.c1, y.c0, yr.c0);
    lemma_eqm_mul(p, b, b, x.c1 * y.c1, xr.c1 * yr.c1);
    lemma_eqm_add(p, x.c0 * y.c0, xr.c0 * yr.c0, b * (x.c1 * y.c1), b * (xr.c1 * yr.c1));
    lemma_eqm_add(p, x.c0 * y.c1, xr.c0 * yr.c1, x.c1 * y.c0, xr.c1 * yr.c0);
    lemma_eqm_mod(p, x.c0 * y.c0 + b * (x.c1 * y.c1));
    lemma_eqm_mod(p, x.c0 * y.c1 + x.c1 * y.c0);
    lemma_eqm_trans(
        p,
        f2_mul(p, b, x, y).c0,
        x.c0 * y.c0 + b * (x.c1 * y.c1),
        xr.c0 * yr.c0 + b * (xr.c1 * yr.c1),
    );
    lemma_eqm_trans(
        p,
        f2_mul(p, b, x, y).c1,
        x.c0 * y.c1 + x.c1 * y.c0,
        xr.c0 * yr.c1 + xr.c1 * yr.c0,
    );
}

/// Unreduced product of a sum on the left: (x + y) * z.
proof fn lemma_u2_mul_distrib_l(b: int, x: Fp2V, y: Fp2V, z: Fp2V)
    ensures
        u2_mul(b, u2_add(x, y), z) == u2_add(u2_mul(b, x, z), u2_mul(b, y, z)),
{
    vstd::arithmetic::mul::lemma_mul_is_distributive_add_other_way(z.c0, x.c0, y.c0);
    vstd::arithmetic::mul::lemma_mul_is_distributive_add_other_way(z.c1, x.c1, y.c1);
    vstd::arithmetic::mul::lemma_mul_is_distributive_add_other_way(z.c1, x.c0, y.c0);
    vstd::arithmetic::mul::lemma_mul_is_distributive_add_other_way(z.c0, x.c1, y.c1);
    vstd::arithmetic::mul::lemma_mul_is_distributive_add(b, x.c1 * z.c1, y.c1 * z.c1);
}

/// Unreduced product of a sum on the right: x * (y + z).
proof fn lemma_u2_mul_distrib_r(b: int, x: Fp2V, y: Fp2V, z: Fp2V)
    ensures
        u2_mul(b, x, u2_add(y, z)) == u2_add(u2_mul(b, x, y), u2_mul(b, x, z)),
{
    vstd::arithmetic::mul::lemma_mul_is_distributive_add(x.c0, y.c0, z.c0);
    vstd::arithmetic::mul::lemma_mul_is_distributive_add(x.c1, y.c1, z.c1);
    vstd::arithmetic::mul::lemma_mul_is_distributive_add(x.c0, y.c1, z.c1);
    vstd::arithmetic::mul::lemma_mul_is_distributive_add(x.c1, y.c0, z.c0);
    vstd::arithmetic::mul::lemma_mul_is_distributive_add(b, x.c1 * y.c1, x.c1 * z.c1);
}

/// Unreduced multiplication is commutative.
proof fn lemma_u2_mul_comm(b: int, x: Fp2V, y: Fp2V)
    ensures
        u2_mul(b, x, y) == u2_mul(b, y, x),
{
    vstd::arithmetic::mul::lemma_mul_is_commutative(x.c0, y.c0);
    vstd::arithmetic::mul::lemma_mul_is_commutative(x.c1, y.c1);
    vstd::arithmetic::mul::lemma_mul_is_commutative(x.c0, y.c1);
    vstd::arithmetic::mul::lemma_mul_is_commutative(x.c1, y.c0);
}

/// The constant xi can be pulled out of an unreduced product:
/// x * (xi * y) == xi * (x * y).
proof fn lemma_u2_mul_xi_assoc(b: int, xi: Fp2V, x: Fp2V, y: Fp2V)
    ensures
        u2_mul(b, x, u2_mul(b, xi, y)) == u2_mul(b, xi, u2_mul(b, x, y)),
{
    let x0 = x.c0;
    let x1 = x.c1;
    let y0 = y.c0;
    let y1 = y.c1;
    let w0 = xi.c0;
    let w1 = xi.c1;
    vstd::arithmetic::mul::lemma_mul_is_distributive_add(x0, w0 * y0, b * (w1 * y1));
    vstd::arithmetic::mul::lemma_mul_is_distributive_add(x1, w0 * y1, w1 * y0);
    vstd::arithmetic::mul::lemma_mul_is_distributive_add(b, x1 * (w0 * y1), x1 * (w1 * y0));
    vstd::arithmetic::mul::lemma_mul_is_distributive_add(w0, x0 * y0, b * (x1 * y1));
    vstd::arithmetic::mul::lemma_mul_is_distributive_add(w1, x0 * y1, x1 * y0);
    vstd::arithmetic::mul::lemma_mul_is_distributive_add(b, w1 * (x0 * y1), w1 * (x1 * y0));
    assert(x0 * (w0 * y0) == w0 * (x0 * y0)) by (nonlinear_arith);
    assert(x0 * (b * (w1 * y1)) == b * (w1 * (x0 * y1))) by (nonlinear_arith);
    assert(b * (x1 * (w0 * y1)) == w0 * (b * (x1 * y1))) by (nonlinear_arith);
    assert(b * (x1 * (w1 * y0)) == b * (w1 * (x1 * y0))) by (nonlinear_arith);
    vstd::arithmetic::mul::lemma_mul_is_distributive_add(x0, w0 * y1, w1 * y0);
    vstd::arithmetic::mul::lemma_mul_is_distributive_add(x1, w0 * y0, b * (w1 * y1));
    vstd::arithmetic::mul::lemma_mul_is_distributive_add(w0, x0 * y1, x1 * y0);
    vstd::arithmetic::mul::lemma_mul_is_distributive_add(w1, x0 * y0, b * (x1 * y1));
    assert(x0 * (w0 * y1) == w0 * (x0 * y1)) by (nonlinear_arith);
    assert(x0 * (w1 * y0) == w1 * (x0 * y0)) by (nonlinear_arith);
    assert(x1 * (w0 * y0) == w0 * (x1 * y0)) by (nonlinear_arith);
    assert(x1 * (b * (w1 * y1)) == w1 * (b * (x1 * y1))) by (nonlinear_arith);
    assert(u2_mul(b, x, u2_mul(b, xi, y)).c0 == u2_mul(b, xi, u2_mul(b, x, y)).c0);
    assert(u2_mul(b, x, u2_mul(b, xi, y)).c1 == u2_mul(b, xi, u2_mul(b, x, y)).c1);
}

/// The complex-squaring identity over Fp2 with constant xi:
/// (za + zb)(xi*zb + za) - za*zb - xi*(za*zb) == za^2 + xi*zb^2.
pub proof fn lemma_complex_sq(p: int, b: int, xi: Fp2V, za: Fp2V, zb: Fp2V)
    requires
        p > 0,
        wf2(p, xi),
        wf2(p, za),
        wf2(p, zb),
    ensures
        f2_sub(
            p,
            f2_sub(
                p,
                f2_mul(p, b, f2_add(p, za, zb), f2_add(p, f2_mul(p, b, xi, zb), za)),
                f2_mul(p, b, za, zb),
            ),
            f2_mul(p, b, xi, f2_mul(p, b, za, zb)),
        ) == f2_add(p, f2_sq(p, b, za), f2_mul(p, b, xi, f2_sq(p, b, zb))),
{
    lemma_eqm2_refl(p, xi);
    lemma_eqm2_refl(p, za);
    lemma_eqm2_refl(p, zb);
    // unfold the left side to unreduced arithmetic
    let s = f2_add(p, za, zb);
    let t = f2_add(p, f2_mul(p, b, xi, zb), za);
    let m = f2_mul(p, b, za, zb);
    let su = u2_add(za, zb);
    let tu = u2_add(u2_mul(b, xi, zb), za);
    let mu = u2_mul(b, za, zb);
    lemma_f2_add_cong(p, za, zb, za, zb);
    lemma_f2_mul_cong(p, b, xi, zb, xi, zb);
    lemma_f2_add_cong(p, f2_mul(p, b, xi, zb), za, u2_mul(b, xi, zb), za);
    lemma_f2_mul_cong(p, b, za, zb, za, zb);
    lemma_f2_mul_cong(p, b, s, t, su, tu);
    lemma_f2_mul_cong(p, b, xi, m, xi, mu);
    lemma_f2_sub_cong(p, f2_mul(p, b, s, t), m, u2_mul(b, su, tu), mu);
    lemma_f2_sub_cong(
        p,
        f2_sub(p, f2_mul(p, b, s, t), m),
        f2_mul(p, b, xi, m),
        u2_sub(u2_mul(b, su, tu), mu),
        u2_mul(b, xi, mu),
    );
    let lu = u2_sub(u2_sub(u2_mul(b, su, tu), mu), u2_mul(b, xi, mu));
    // unfold the right side
    lemma_f2_mul_cong(p, b, za, za, za, za);
    lemma_f2_mul_cong(p, b, zb, zb, zb, zb);
    lemma_f2_mul_cong(p, b, xi, f2_sq(p, b, zb), xi, u2_mul(b, zb, zb));
    lemma_f2_add_cong(
        p,
        f2_sq(p, b, za),
        f2_mul(p, b, xi, f2_sq(p, b, zb)),
        u2_mul(b, za, za),
        u2_mul(b, xi, u2_mul(b, zb, zb)),
    );
    let ru = u2_add(u2_mul(b, za, za), u2_mul(b, xi, u2_mul(b, zb, zb)));
    // the unreduced sides are equal
    lemma_u2_mul_distrib_l(b, za, zb, tu);
    lemma_u2_mul_distrib_r(b, za, u2_mul(b, xi, zb), za);
    lemma_u2_mul_distrib_r(b, zb, u2_mul(b, xi, zb), za);
    lemma_u2_mul_xi_assoc(b, xi, za, zb);
    lemma_u2_mul_xi_assoc(b, xi, zb, zb);
    lemma_u2_mul_comm(b, zb, za);
    assert(lu == ru);
    // transport back to the reduced world
    lemma_eqm2_sym(p, f2_add(p, f2_sq(p, b, za), f2_mul(p, b, xi, f2_sq(p, b, zb))), ru);
    lemma_eqm2_trans(
        p,
        f2_sub(p, f2_sub(p, f2_mul(p, b, s, t), m), f2_mul(p, b, xi, m)),
        lu,
        f2_add(p, f2_sq(p, b, za), f2_mul(p, b, xi, f2_sq(p, b, zb))),
    );
    lemma_eqm2_cancel(
        p,
        f2_sub(p, f2_sub(p, f2_mul(p, b, s, t), m), f2_mul(p, b, xi, m)),
        f2_add(p, f2_sq(p, b, za), f2_mul(p, b, xi, f2_sq(p, b, zb))),
    );
}

/// 2*(t - z) + t equals 3t - 2z.
pub proof fn lemma_f2_three_sub(p: int, t: Fp2V, z: Fp2V)
    requires
        p > 0,
        wf2(p, t),
        wf2(p, z),
    ensures
        f2_add(p, f2_dbl(p, f2_sub(p, t, z)), t) == f2_sub(p, f2_add(p, f2_dbl(p, t), t), f2_dbl(p, z)),
{
    lemma_eqm2_refl(p, t);
    lemma_eqm2_refl(p, z);
    lemma_f2_sub_cong(p, t, z, t, z);
    lemma_f2_add_cong(p, f2_sub(p, t, z), f2_sub(p, t, z), u2_sub(t, z), u2_sub(t, z));
    lemma_f2_add_cong(
        p,
        f2_dbl(p, f2_sub(p, t, z)),
        t,
        u2_add(u2_sub(t, z), u2_sub(t, z)),
        t,
    );
    lemma_f2_add_cong(p, t, t, t, t);
    lemma_f2_add_cong(p, f2_dbl(p, t), t, u2_add(t, t), t);
    lemma_f2_add_cong(p, z, z, z, z);
    lemma_f2_sub_cong(
        p,
        f2_add(p, f2_dbl(p, t), t),
        f2_dbl(p, z),
        u2_add(u2_add(t, t), t),
        u2_add(z, z),
    );
    lemma_eqm2_sym(
        p,
        f2_sub(p, f2_add(p, f2_dbl(p, t), t), f2_dbl(p, z)),
        u2_sub(u2_add(u2_add(t, t), t), u2_add(z, z)),
    );
    lemma_eqm2_trans(
        p,
        f2_add(p, f2_dbl(p, f2_sub(p, t, z)), t),
        u2_add(u2_add(u2_sub(t, z), u2_sub(t, z)), t),
        f2_sub(p, f2_add(p, f2_dbl(p, t), t), f2_dbl(p, z)),
    );
    lemma_eqm2_cancel(
        p,
        f2_add(p, f2_dbl(p, f2_sub(p, t, z)), t),
        f2_sub(p, f2_add(p, f2_dbl(p, t), t), f2_dbl(p, z)),
    );
}

/// 2*(t + z) + t equals 3t + 2z.
pub proof fn lemma_f2_three_add(p: int, t: Fp2V, z: Fp2V)
    requires
        p > 0,
        wf2(p, t),
        wf2(p, z),
    ensures
        f2_add(p, f2_dbl(p, f2_add(p, t, z)), t) == f2_add(p, f2_add(p, f2_dbl(p, t), t), f2_dbl(p, z)),
{
    lemma_eqm2_refl(p, t);
    lemma_eqm2_refl(p, z);
    lemma_f2_add_cong(p, t, z, t, z);
    lemma_f2_add_cong(p, f2_add(p, t, z), f2_add(p, t, z), u2_add(t, z), u2_add(t, z));
    lemma_f2_add_cong(
        p,
        f2_dbl(p, f2_add(p, t, z)),
        t,
        u2_add(u2_add(t, z), u2_add(t, z)),
        t,
    );
    lemma_f2_add_cong(p, t, t, t, t);
    lemma_f2_add_cong(p, f2_dbl(p, t), t, u2_add(t, t), t);
    lemma_f2_add_cong(p, z, z, z, z);
    lemma_f2_add_cong(
        p,
        f2_add(p, f2_dbl(p, t), t),
        f2_dbl(p, z),
        u2_add(u2_add(t, t), t),
        u2_add(z, z),
    );
    lemma_eqm2_sym(
        p,
        f2_add(p, f2_add(p, f2_dbl(p, t), t), f2_dbl(p, z)),
        u2_add(u2_add(u2_add(t, t), t), u2_add(z, z)),
    );
    lemma_eqm2_trans(
        p,
        f2_add(p, f2_dbl(p, f2_add(p, t, z)), t),
        u2_add(u2_add(u2_add(t, z), u2_add(t, z)), t),
        f2_add(p, f2_add(p, f2_dbl(p, t), t), f2_dbl(p, z)),
    );
    lemma_eqm2_cancel(
        p,
        f2_add(p, f2_dbl(p, f2_add(p, t, z)), t),
        f2_add(p, f2_add(p, f2_dbl(p, t), t), f2_dbl(p, z)),
    );
}

/// Descriptor of the quadratic extension: the base field, the non-residue
/// beta, and the two Frobenius coefficients for the c1 coordinate.
pub struct Extension2 {
    pub field: PrimeField,
    pub non_residue: u64,
    pub frobenius_coeffs_c1: [u64; 2],
}

impl Extension2 {
    pub open spec fn m(&self) -> int {
        self.field.m()
    }

    /// The non-residue as an integer.
    pub open spec fn nr(&self) -> int {
        self.non_residue as int
    }

    pub open spec fn frob(&self, power: int) -> int {
        self.frobenius_coeffs_c1[power % 2] as int
    }

    pub open spec fn wf(&self) -> bool {
        &&& self.field.wf()
        &&& self.non_residue < self.field.modulus
        &&& self.non_residue != 0
        &&& self.frobenius_coeffs_c1[0] == 1
        &&& self.frobenius_coeffs_c1[1] < self.field.modulus
    }

    pub fn new(field: PrimeField, non_residue: u64, frobenius_coeffs_c1: [u64; 2]) -> (r:
        Extension2)
        requires
            field.wf(),
            0 < non_residue < field.modulus,
            frobenius_coeffs_c1[0] == 1,
            frobenius_coeffs_c1[1] < field.modulus,
        ensures
            r.wf(),
            r == (Extension2 { field, non_residue, frobenius_coeffs_c1 }),
    {
        Extension2 { field, non_residue, frobenius_coeffs_c1 }
    }
}

/// An element of Fp2: c0 + c1*u.
#[derive(Clone, Copy, PartialEq, Eq, Structural)]
pub struct Fp2 {
    pub c0: u64,
    pub c1: u64,
}

impl Fp2 {
    /// Mathematical value of this element.
    pub open spec fn v(&self) -> Fp2V {
        Fp2V { c0: self.c0 as int, c1: self.c1 as int }
    }

    pub open spec fn wf(&self, p: int) -> bool {
        wf2(p, self.v())
    }

    pub fn zero() -> (r: Fp2)
        ensures
            r.v() == f2_zero(),
            forall|p: int| p > 0 ==> r.wf(p),
    {
        Fp2 { c0: 0, c1: 0 }
    }

    pub fn one() -> (r: Fp2)
        ensures
            r.v() == f2_one(),
            forall|p: int| p > 1 ==> r.wf(p),
    {
        Fp2 { c0: 1, c1: 0 }
    }

    pub fn is_zero(&self) -> (r: bool)
        ensures
            r <==> self.v() == f2_zero(),
    {
        self.c0 == 0 && self.c1 == 0
    }

    pub fn add_assign(&mut self, ext: &Extension2, other: &Fp2)
        requires
            ext.wf(),
            old(self).wf(ext.m()),
            other.wf(ext.m()),
        ensures
            final(self).wf(ext.m()),
            final(self).v() == f2_add(ext.m(), old(self).v(), other.v()),
    {
        self.c0 = add_mod(&ext.field, self.c0, other.c0);
        self.c1 = add_mod(&ext.field, self.c1, other.c1);
    }

    pub fn sub_assign(&mut self, ext: &Extension2, other: &Fp2)
        requires
            ext.wf(),
            old(self).wf(ext.m()),
            other.wf(ext.m()),
        ensures
            final(self).wf(ext.m()),
            final(self).v() == f2_sub(ext.m(), old(self).v(), other.v()),
    {
        self.c0 = sub_mod(&ext.field, self.c0, other.c0);
        self.c1 = sub_mod(&ext.field, self.c1, other.c1);
    }

    pub fn double(&mut self, ext: &Extension2)
        requires
            ext.wf(),
            old(self).wf(ext.m()),
        ensures
            final(self).wf(ext.m()),
            final(self).v() == f2_dbl(ext.m(), old(self).v()),
    {
        let c0 = self.c0;
        let c1 = self.c1;
        self.c0 = add_mod(&ext.field, c0, c0);
        self.c1 = add_mod(&ext.field, c1, c1);
    }

    pub fn negate(&mut self, ext: &Extension2)
        requires
            ext.wf(),
            old(self).wf(ext.m()),
        ensures
            final(self).wf(ext.m()),
            final(self).v() == f2_neg(ext.m(), old(self).v()),
    {
        self.c0 = neg_mod(&ext.field, self.c0);
        self.c1 = neg_mod(&ext.field, self.c1);
    }

    pub fn mul_assign(&mut self, ext: &Extension2, other: &Fp2)
        requires
            ext.wf(),
            old(self).wf(ext.m()),
            other.wf(ext.m()),
        ensures
            final(self).wf(ext.m()),
            final(self).v() == f2_mul(ext.m(), ext.nr(), old(self).v(), other.v()),
    {
        let p = &ext.field;
        let ghost pi = ext.m();
        let a0 = self.c0;
        let a1 = self.c1;
        let b0 = other.c0;
        let b1 = other.c1;
        let m11: u64 = mul_mod(p, a1, b1);
        let c0: u64 = muladd_mod(p, a0, b0, ext.non_residue, m11);
        let c1: u64 = muladd_mod(p, a0, b1, a1, b0);
        proof {
            // fold the inner reduction of a1*b1 into the outer one
            lemma_eqm_mod(pi, a1 as int * b1 as int);
            lemma_eqm_refl(pi, ext.nr());
            lemma_eqm_refl(pi, a0 as int * b0 as int);
            lemma_eqm_mul(pi, ext.nr(), ext.nr(), m11 as int, a1 as int * b1 as int);
            lemma_eqm_add(
                pi,
                a0 as int * b0 as int,
                a0 as int * b0 as int,
                ext.nr() * m11 as int,
                ext.nr() * (a1 as int * b1 as int),
            );
            lemma_eqm_mod(pi, a0 as int * b0 as int + ext.nr() * m11 as int);
            lemma_eqm_trans(
                pi,
                c0 as int,
                a0 as int * b0 as int + ext.nr() * m11 as int,
                a0 as int * b0 as int + ext.nr() * (a1 as int * b1 as int),
            );
            lemma_eqm_reduce(
                pi,
                c0 as int,
                a0 as int * b0 as int + ext.nr() * (a1 as int * b1 as int),
            );
        }
        self.c0 = c0;
        self.c1 = c1;
    }

    pub fn square(&mut self, ext: &Extension2)
        requires
            ext.wf(),
            old(self).wf(ext.m()),
        ensures
            final(self).wf(ext.m()),
            final(self).v() == f2_sq(ext.m(), ext.nr(), old(self).v()),
    {
        let other = *self;
        self.mul_assign(ext, &other);
    }

    /// Inversion by the norm: fails exactly when a0^2 - beta*a1^2 reduces
    /// to zero, which for a genuine non-residue beta happens only at zero.
    pub fn inverse(&self, ext: &Extension2) -> (r: Option<Fp2>)
        requires
            ext.wf(),
            self.wf(ext.m()),
        ensures
            match r {
                Some(inv) => {
                    &&& inv.wf(ext.m())
                    &&& f2_mul(ext.m(), ext.nr(), self.v(), inv.v()) == f2_one()
                    &&& f2_norm(ext.m(), ext.nr(), self.v()) != 0
                },
                None => f2_norm(ext.m(), ext.nr(), self.v()) == 0,
            },
    {
        let p = &ext.field;
        let ghost pi = ext.m();
        let a0 = self.c0;
        let a1 = self.c1;
        let m11: u64 = mul_mod(p, a1, a1);
        let bm: u64 = mul_mod(p, ext.non_residue, m11);
        let s0: u64 = mul_mod(p, a0, a0);
        let t: u64 = sub_mod(p, s0, bm);
        proof {
            // t equals the reduced norm
            lemma_eqm_mod(pi, a1 as int * a1 as int);
            lemma_eqm_refl(pi, ext.nr());
            lemma_eqm_mul(pi, ext.nr(), ext.nr(), m11 as int, a1 as int * a1 as int);
            lemma_eqm_mod(pi, ext.nr() * m11 as int);
            lemma_eqm_trans(
                pi,
                bm as int,
                ext.nr() * m11 as int,
                ext.nr() * (a1 as int * a1 as int),
            );
            lemma_eqm_mod(pi, a0 as int * a0 as int);
            lemma_eqm_sub(
                pi,
                s0 as int,
                a0 as int * a0 as int,
                bm as int,
                ext.nr() * (a1 as int * a1 as int),
            );
            lemma_eqm_mod(pi, s0 as int - bm as int);
            lemma_eqm_trans(
                pi,
                t as int,
                s0 as int - bm as int,
                a0 as int * a0 as int - ext.nr() * (a1 as int * a1 as int),
            );
            lemma_eqm_reduce(
                pi,
                t as int,
                a0 as int * a0 as int - ext.nr() * (a1 as int * a1 as int),
            );
        }
        match inv_mod(p, t) {
            None => None,
            Some(w) => {
                let r0: u64 = mul_mod(p, a0, w);
                let n: u64 = mul_mod(p, a1, w);
                let r1: u64 = neg_mod(p, n);
                let inv = Fp2 { c0: r0, c1: r1 };
                proof {
                    let b = ext.nr();
                    let x = self.v();
                    let iv = inv.v();
                    let a0i = a0 as int;
                    let a1i = a1 as int;
                    let wi = w as int;
                    let ti = t as int;
                    // unreduced representatives of the inverse coordinates
                    lemma_eqm_mod(pi, a0i * wi);
                    lemma_eqm_mod(pi, a1i * wi);
                    lemma_eqm_mod(pi, -(n as int));
                    lemma_eqm_sub(pi, 0, 0, n as int, a1i * wi);
                    lemma_eqm_trans(pi, iv.c1, -(n as int), -(a1i * wi));
                    lemma_eqm2_refl(pi, x);
                    assert(eqm2(pi, iv, Fp2V { c0: a0i * wi, c1: -(a1i * wi) }));
                    lemma_f2_mul_cong(
                        pi,
                        b,
                        x,
                        iv,
                        x,
                        Fp2V { c0: a0i * wi, c1: -(a1i * wi) },
                    );
                    let prod = f2_mul(pi, b, x, iv);
                    assert(a0i * (a0i * wi) + b * (a1i * -(a1i * wi)) == (a0i * a0i - b * (a1i
                        * a1i)) * wi) by (nonlinear_arith);
                    assert(a0i * -(a1i * wi) + a1i * (a0i * wi) == 0) by (nonlinear_arith);
                    // the c0 coordinate is congruent to t * w, which reduces to 1
                    lemma_eqm_sym(pi, ti, a0i * a0i - b * (a1i * a1i));
                    lemma_eqm_refl(pi, wi);
                    lemma_eqm_mul(pi, a0i * a0i - b * (a1i * a1i), ti, wi, wi);
                    lemma_eqm_trans(pi, prod.c0, (a0i * a0i - b * (a1i * a1i)) * wi, ti * wi);
                    lemma_eqm_mod(pi, ti * wi);
                    lemma_eqm_sym(pi, (ti * wi) % pi, ti * wi);
                    lemma_eqm_trans(pi, prod.c0, ti * wi, (ti * wi) % pi);
                    lemma_eqm_cancel(pi, prod.c0, 1);
                    lemma_eqm_cancel(pi, prod.c1, 0);
                }
                Some(inv)
            },
        }
    }

    /// Frobenius endomorphism: scales the c1 coordinate by the table entry
    /// for the given power; even powers leave the element unchanged.
    pub fn frobenius_map(&mut self, ext: &Extension2, power: usize)
        requires
            ext.wf(),
            old(self).wf(ext.m()),
        ensures
            final(self).wf(ext.m()),
            final(self).v() == (Fp2V {
                c0: old(self).v().c0,
                c1: fmul(ext.m(), old(self).v().c1, ext.frob(power as int)),
            }),
    {
        let idx: usize = power % 2;
        let coeff: u64 = ext.frobenius_coeffs_c1[idx];
        self.c1 = mul_mod(&ext.field, self.c1, coeff);
    }
}

} // verus!
