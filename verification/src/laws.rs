//! Algebraic laws of the library, proved against the same specification
//! functions that the executable operations are verified against:
//! the additive group laws of Fp12, commutativity and the multiplicative
//! identity of the Fp12 product, the Frobenius map at powers divisible by
//! twelve, and the agreement of point addition with doubling on equal
//! operands.

use vstd::prelude::*;
use crate::fp::{
    fmul, is_res, lemma_fadd_assoc, lemma_fadd_neg, lemma_fadd_sub_cancel, lemma_fadd_zero,
    lemma_fmul_comm, lemma_fmul_one, lemma_fsub_zero,
};
use crate::fp2::{f2_add, f2_mul, f2_one, f2_zero, wf2, Fp2V};
use crate::fp6::{
    f6_add, f6_frob_spec, f6_mul, f6_mulv, f6_one, f6_sub, f6_zero, wf6, Fp6V,
};
use crate::fp12::{
    f12_add, f12_mul, f12_neg, f12_one, f12_zero, wf12, Fp12V,
};
use crate::curve::{
    pt_add, pt_double, pt_is_zero, pt_wf, pt_zero, CurveType, PointV,
};
use crate::fp3::{f3_mul, f3_one, f3_sq, wf3, Fp3V};

verus! {

proof fn lemma_f2_add_assoc(p: int, x: Fp2V, y: Fp2V, z: Fp2V)
    requires
        p > 0,
    ensures
        f2_add(p, f2_add(p, x, y), z) == f2_add(p, x, f2_add(p, y, z)),
{
    lemma_fadd_assoc(p, x.c0, y.c0, z.c0);
    lemma_fadd_assoc(p, x.c1, y.c1, z.c1);
}

proof fn lemma_f6_add_assoc(p: int, x: Fp6V, y: Fp6V, z: Fp6V)
    requires
        p > 0,
    ensures
        f6_add(p, f6_add(p, x, y), z) == f6_add(p, x, f6_add(p, y, z)),
{
    lemma_f2_add_assoc(p, x.c0, y.c0, z.c0);
    lemma_f2_add_assoc(p, x.c1, y.c1, z.c1);
    lemma_f2_add_assoc(p, x.c2, y.c2, z.c2);
}

/// Addition in Fp12 is associative: (x + y) + z == x + (y + z).
pub proof fn lemma_fp12_add_associative(p: int, x: Fp12V, y: Fp12V, z: Fp12V)
    requires
        p > 0,
    ensures
        f12_add(p, f12_add(p, x, y), z) == f12_add(p, x, f12_add(p, y, z)),
{
    lemma_f6_add_assoc(p, x.c0, y.c0, z.c0);
    lemma_f6_add_assoc(p, x.c1, y.c1, z.c1);
}

proof fn lemma_f2_add_zero(p: int, x: Fp2V)
    requires
        p > 0,
        wf2(p, x),
    ensures
        f2_add(p, x, f2_zero()) == x,
        f2_add(p, f2_zero(), x) == x,
{
    lemma_fadd_zero(p, x.c0);
    lemma_fadd_zero(p, x.c1);
}

proof fn lemma_f6_add_zero(p: int, x: Fp6V)
    requires
        p > 0,
        wf6(p, x),
    ensures
        f6_add(p, x, f6_zero()) == x,
        f6_add(p, f6_zero(), x) == x,
{
    lemma_f2_add_zero(p, x.c0);
    lemma_f2_add_zero(p, x.c1);
    lemma_f2_add_zero(p, x.c2);
}

/// The additive identity of Fp12: x + 0 == x.
pub proof fn lemma_fp12_add_zero(p: int, x: Fp12V)
    requires
        p > 0,
        wf12(p, x),
    ensures
        f12_add(p, x, f12_zero()) == x,
{
    lemma_f6_add_zero(p, x.c0);
    lemma_f6_add_zero(p, x.c1);
}

/// Additive inverses in Fp12: x + (-x) == 0.
pub proof fn lemma_fp12_add_neg(p: int, x: Fp12V)
    requires
        p > 0,
    ensures
        f12_add(p, x, f12_neg(p, x)) == f12_zero(),
{
    lemma_fadd_neg(p, x.c0.c0.c0);
    lemma_fadd_neg(p, x.c0.c0.c1);
    lemma_fadd_neg(p, x.c0.c1.c0);
    lemma_fadd_neg(p, x.c0.c1.c1);
    lemma_fadd_neg(p, x.c0.c2.c0);
    lemma_fadd_neg(p, x.c0.c2.c1);
    lemma_fadd_neg(p, x.c1.c0.c0);
    lemma_fadd_neg(p, x.c1.c0.c1);
    lemma_fadd_neg(p, x.c1.c1.c0);
    lemma_fadd_neg(p, x.c1.c1.c1);
    lemma_fadd_neg(p, x.c1.c2.c0);
    lemma_fadd_neg(p, x.c1.c2.c1);
}

proof fn lemma_f2_mul_comm(p: int, b: int, x: Fp2V, y: Fp2V)
    requires
        p > 0,
    ensures
        f2_mul(p, b, x, y) == f2_mul(p, b, y, x),
{
    lemma_fmul_comm(p, x.c0, y.c0);
    vstd::arithmetic::mul::lemma_mul_is_commutative(x.c0, y.c0);
    vstd::arithmetic::mul::lemma_mul_is_commutative(x.c1, y.c1);
    vstd::arithmetic::mul::lemma_mul_is_commutative(x.c0, y.c1);
    vstd::arithmetic::mul::lemma_mul_is_commutative(x.c1, y.c0);
}

proof fn lemma_f2_add_comm(p: int, x: Fp2V, y: Fp2V)
    ensures
        f2_add(p, x, y) == f2_add(p, y, x),
{
}

proof fn lemma_f6_mul_comm(p: int, b: int, xi: Fp2V, x: Fp6V, y: Fp6V)
    requires
        p > 0,
    ensures
        f6_mul(p, b, xi, x, y) == f6_mul(p, b, xi, y, x),
{
    lemma_f2_add_comm(p, f2_mul(p, b, x.c1, y.c2), f2_mul(p, b, x.c2, y.c1));
    lemma_f2_add_comm(p, f2_mul(p, b, x.c0, y.c1), f2_mul(p, b, x.c1, y.c0));
    crate::fp::lemma_fadd_comm3(
        p,
        f2_mul(p, b, x.c0, y.c2).c0,
        f2_mul(p, b, x.c1, y.c1).c0,
        f2_mul(p, b, x.c2, y.c0).c0,
    );
    crate::fp::lemma_fadd_comm3(
        p,
        f2_mul(p, b, x.c0, y.c2).c1,
        f2_mul(p, b, x.c1, y.c1).c1,
        f2_mul(p, b, x.c2, y.c0).c1,
    );
    lemma_f2_mul_comm(p, b, x.c0, y.c0);
    lemma_f2_mul_comm(p, b, x.c0, y.c1);
    lemma_f2_mul_comm(p, b, x.c0, y.c2);
    lemma_f2_mul_comm(p, b, x.c1, y.c0);
    lemma_f2_mul_comm(p, b, x.c1, y.c1);
    lemma_f2_mul_comm(p, b, x.c1, y.c2);
    lemma_f2_mul_comm(p, b, x.c2, y.c0);
    lemma_f2_mul_comm(p, b, x.c2, y.c1);
    lemma_f2_mul_comm(p, b, x.c2, y.c2);
}

/// Multiplication in Fp12 is commutative: x * y == y * x.
pub proof fn lemma_fp12_mul_commutative(p: int, b: int, xi: Fp2V, x: Fp12V, y: Fp12V)
    requires
        p > 0,
    ensures
        f12_mul(p, b, xi, x, y) == f12_mul(p, b, xi, y, x),
{
    lemma_f6_mul_comm(p, b, xi, x.c0, y.c0);
    lemma_f6_mul_comm(p, b, xi, x.c1, y.c1);
    lemma_f6_mul_comm(p, b, xi, f6_add(p, x.c1, x.c0), f6_add(p, y.c0, y.c1));
}

proof fn lemma_f2_mul_one(p: int, b: int, x: Fp2V)
    requires
        p > 0,
        wf2(p, x),
    ensures
        f2_mul(p, b, x, f2_one()) == x,
{
    vstd::arithmetic::mul::lemma_mul_basics(x.c0);
    vstd::arithmetic::mul::lemma_mul_basics(x.c1);
    vstd::arithmetic::mul::lemma_mul_basics(b);
    vstd::arithmetic::div_mod::lemma_small_mod(x.c0 as nat, p as nat);
    vstd::arithmetic::div_mod::lemma_small_mod(x.c1 as nat, p as nat);
}

proof fn lemma_f2_mul_zero(p: int, b: int, x: Fp2V)
    requires
        p > 0,
    ensures
        f2_mul(p, b, x, f2_zero()) == f2_zero(),
{
    vstd::arithmetic::mul::lemma_mul_basics(x.c0);
    vstd::arithmetic::mul::lemma_mul_basics(x.c1);
    vstd::arithmetic::mul::lemma_mul_basics(b);
    vstd::arithmetic::div_mod::lemma_small_mod(0, p as nat);
}

proof fn lemma_f6_mul_one(p: int, b: int, xi: Fp2V, x: Fp6V)
    requires
        p > 0,
        wf6(p, x),
    ensures
        f6_mul(p, b, xi, x, f6_one()) == x,
{
    lemma_f2_mul_one(p, b, x.c0);
    lemma_f2_mul_one(p, b, x.c1);
    lemma_f2_mul_one(p, b, x.c2);
    lemma_f2_mul_zero(p, b, x.c0);
    lemma_f2_mul_zero(p, b, x.c1);
    lemma_f2_mul_zero(p, b, x.c2);
    lemma_f2_mul_zero(p, b, xi);
    lemma_f2_add_zero(p, x.c0);
    lemma_f2_add_zero(p, x.c1);
    lemma_f2_add_zero(p, x.c2);
    assert(f2_add(p, f2_mul(p, b, x.c1, f2_zero()), f2_mul(p, b, x.c2, f2_zero()))
        == f2_zero()) by {
        vstd::arithmetic::div_mod::lemma_small_mod(0, p as nat);
    }
    lemma_f2_add_zero(p, f2_zero());
}

proof fn lemma_f6_mul_zero(p: int, b: int, xi: Fp2V, x: Fp6V)
    requires
        p > 0,
    ensures
        f6_mul(p, b, xi, x, f6_zero()) == f6_zero(),
{
    lemma_f2_mul_zero(p, b, x.c0);
    lemma_f2_mul_zero(p, b, x.c1);
    lemma_f2_mul_zero(p, b, x.c2);
    lemma_f2_mul_zero(p, b, xi);
    vstd::arithmetic::div_mod::lemma_small_mod(0, p as nat);
}

proof fn lemma_f6_sub_zero(p: int, x: Fp6V)
    requires
        p > 0,
        wf6(p, x),
    ensures
        f6_sub(p, x, f6_zero()) == x,
{
    lemma_fsub_zero(p, x.c0.c0);
    lemma_fsub_zero(p, x.c0.c1);
    lemma_fsub_zero(p, x.c1.c0);
    lemma_fsub_zero(p, x.c1.c1);
    lemma_fsub_zero(p, x.c2.c0);
    lemma_fsub_zero(p, x.c2.c1);
}

proof fn lemma_f6_add_sub_cancel(p: int, x: Fp6V, y: Fp6V)
    requires
        p > 0,
        wf6(p, x),
    ensures
        f6_sub(p, f6_add(p, x, y), y) == x,
{
    lemma_fadd_sub_cancel(p, x.c0.c0, y.c0.c0);
    lemma_fadd_sub_cancel(p, x.c0.c1, y.c0.c1);
    lemma_fadd_sub_cancel(p, x.c1.c0, y.c1.c0);
    lemma_fadd_sub_cancel(p, x.c1.c1, y.c1.c1);
    lemma_fadd_sub_cancel(p, x.c2.c0, y.c2.c0);
    lemma_fadd_sub_cancel(p, x.c2.c1, y.c2.c1);
}

/// The multiplicative identity of Fp12: x * 1 == x.
pub proof fn lemma_fp12_mul_one(p: int, b: int, xi: Fp2V, x: Fp12V)
    requires
        p > 1,
        wf12(p, x),
    ensures
        f12_mul(p, b, xi, x, f12_one()) == x,
{
    lemma_f6_mul_one(p, b, xi, x.c0);
    lemma_f6_mul_zero(p, b, xi, x.c1);
    lemma_f6_add_zero(p, f6_one());
    lemma_f6_mul_one(p, b, xi, f6_add(p, x.c1, x.c0));
    lemma_f6_add_sub_cancel(p, x.c1, x.c0);
    assert(f6_add(p, x.c1, x.c0) == f6_add(p, f6_add(p, x.c1, x.c0), f6_zero())) by {
        lemma_f6_add_zero(p, f6_add(p, x.c1, x.c0));
    }
    lemma_f6_sub_zero(p, x.c1);
    lemma_f2_mul_zero(p, b, xi);
    assert(f6_mulv(p, b, xi, f6_zero()) == f6_zero());
    lemma_f6_add_zero(p, x.c0);
}

/// The Frobenius map at a power divisible by twelve is the identity:
/// every coefficient table entry involved is one.
pub proof fn lemma_frobenius_power_zero(
    p: int,
    b: int,
    fr: int,
    co1: Fp2V,
    co2: Fp2V,
    co: Fp2V,
    x: Fp12V,
)
    requires
        p > 0,
        fr == 1,
        co1 == f2_one(),
        co2 == f2_one(),
        co == f2_one(),
        wf12(p, x),
    ensures
        ({
            let f1 = f6_frob_spec(p, b, fr, co1, co2, x.c1);
            Fp12V {
                c0: f6_frob_spec(p, b, fr, co1, co2, x.c0),
                c1: Fp6V {
                    c0: f2_mul(p, b, f1.c0, co),
                    c1: f2_mul(p, b, f1.c1, co),
                    c2: f2_mul(p, b, f1.c2, co),
                },
            }
        }) == x,
{
    lemma_fmul_one(p, x.c0.c0.c1);
    lemma_fmul_one(p, x.c0.c1.c1);
    lemma_fmul_one(p, x.c0.c2.c1);
    lemma_fmul_one(p, x.c1.c0.c1);
    lemma_fmul_one(p, x.c1.c1.c1);
    lemma_fmul_one(p, x.c1.c2.c1);
    lemma_f2_mul_one(p, b, x.c0.c1);
    lemma_f2_mul_one(p, b, x.c0.c2);
    lemma_f2_mul_one(p, b, x.c1.c0);
    lemma_f2_mul_one(p, b, x.c1.c1);
    lemma_f2_mul_one(p, b, x.c1.c2);
}

/// A full product with (y0, y1, 0) collapses to the sparse 01-product.
proof fn lemma_f6_mul_sparse01(p: int, b: int, xi: Fp2V, x: Fp6V, y0: Fp2V, y1: Fp2V)
    requires
        p > 0,
    ensures
        f6_mul(p, b, xi, x, Fp6V { c0: y0, c1: y1, c2: f2_zero() }) == crate::fp6::f6_mul_by_01(
            p,
            b,
            xi,
            x,
            y0,
            y1,
        ),
{
    lemma_f2_mul_zero(p, b, x.c0);
    lemma_f2_mul_zero(p, b, x.c1);
    lemma_f2_mul_zero(p, b, x.c2);
    lemma_f2_add_zero(p, f2_mul(p, b, x.c2, y1));
    lemma_f2_add_comm(p, f2_zero(), f2_mul(p, b, x.c2, y1));
    lemma_f2_add_zero(p, f2_add(p, f2_mul(p, b, x.c0, y1), f2_mul(p, b, x.c1, y0)));
    lemma_f2_mul_zero(p, b, xi);
    lemma_f2_add_zero(p, f2_mul(p, b, x.c1, y1));
    lemma_f2_add_comm(p, f2_zero(), f2_mul(p, b, x.c1, y1));
}

/// A full product with (0, y1, 0) collapses to the sparse 1-product.
proof fn lemma_f6_mul_sparse1(p: int, b: int, xi: Fp2V, x: Fp6V, y1: Fp2V)
    requires
        p > 0,
    ensures
        f6_mul(p, b, xi, x, Fp6V { c0: f2_zero(), c1: y1, c2: f2_zero() }) == crate::fp6::f6_mul_by_1(
            p,
            b,
            xi,
            x,
            y1,
        ),
{
    lemma_f2_mul_zero(p, b, x.c0);
    lemma_f2_mul_zero(p, b, x.c1);
    lemma_f2_mul_zero(p, b, x.c2);
    lemma_f2_mul_zero(p, b, xi);
    lemma_f2_add_zero(p, f2_mul(p, b, x.c2, y1));
    lemma_f2_add_zero(p, f2_mul(p, b, xi, f2_mul(p, b, x.c2, y1)));
    lemma_f2_add_zero(p, f2_mul(p, b, x.c0, y1));
    lemma_f2_add_zero(p, f2_mul(p, b, x.c1, y1));
}

/// A full product with the scalar embedding (y0, 0, 0) scales each
/// coordinate of x by y0.
proof fn lemma_f6_mul_sparse_scalar(p: int, b: int, xi: Fp2V, x: Fp6V, y0: Fp2V)
    requires
        p > 0,
    ensures
        f6_mul(p, b, xi, x, Fp6V { c0: y0, c1: f2_zero(), c2: f2_zero() }) == (Fp6V {
            c0: f2_mul(p, b, x.c0, y0),
            c1: f2_mul(p, b, x.c1, y0),
            c2: f2_mul(p, b, x.c2, y0),
        }),
{
    lemma_f2_mul_zero(p, b, x.c0);
    lemma_f2_mul_zero(p, b, x.c1);
    lemma_f2_mul_zero(p, b, x.c2);
    lemma_f2_mul_zero(p, b, xi);
    lemma_f2_add_zero(p, f2_mul(p, b, x.c0, y0));
    lemma_f2_add_zero(p, f2_mul(p, b, x.c1, y0));
    lemma_f2_add_comm(p, f2_zero(), f2_mul(p, b, x.c1, y0));
    lemma_f2_add_zero(p, f2_add(p, f2_zero(), f2_mul(p, b, x.c1, y0)));
    lemma_f2_add_zero(p, f2_zero());
    lemma_f2_add_comm(p, f2_zero(), f2_mul(p, b, x.c2, y0));
    lemma_f2_add_zero(p, f2_mul(p, b, x.c2, y0));
    lemma_f2_add_comm(
        p,
        f2_add(p, f2_zero(), f2_zero()),
        f2_mul(p, b, x.c2, y0),
    );
    lemma_f2_add_zero(p, f2_add(p, f2_zero(), f2_zero()));
}

/// The sparse multiplier mul_by_014 computes the full product with the
/// dense embedding (c0 + c1*v, c4*v) of its line function.
pub proof fn lemma_fp12_mul_by_014_matches_mul(
    p: int,
    b: int,
    xi: Fp2V,
    x: Fp12V,
    c0: Fp2V,
    c1: Fp2V,
    c4: Fp2V,
)
    requires
        p > 0,
        wf2(p, c0),
        wf2(p, c1),
        wf2(p, c4),
    ensures
        crate::fp12::f12_mul_by_014(p, b, xi, x, c0, c1, c4) == crate::fp12::f12_mul(
            p,
            b,
            xi,
            x,
            Fp12V {
                c0: Fp6V { c0, c1, c2: f2_zero() },
                c1: Fp6V { c0: f2_zero(), c1: c4, c2: f2_zero() },
            },
        ),
{
    lemma_f6_mul_sparse01(p, b, xi, x.c0, c0, c1);
    lemma_f6_mul_sparse1(p, b, xi, x.c1, c4);
    lemma_f2_add_zero(p, c0);
    lemma_f2_add_zero(p, f2_zero());
    lemma_f6_mul_sparse01(p, b, xi, f6_add(p, x.c1, x.c0), c0, f2_add(p, c1, c4));
}

/// The sparse multiplier mul_by_034 computes the full product with the
/// dense embedding (c0, c3 + c4*v) of its line function.
pub proof fn lemma_fp12_mul_by_034_matches_mul(
    p: int,
    b: int,
    xi: Fp2V,
    x: Fp12V,
    c0: Fp2V,
    c3: Fp2V,
    c4: Fp2V,
)
    requires
        p > 0,
        wf2(p, c3),
        wf2(p, c4),
    ensures
        crate::fp12::f12_mul_by_034(p, b, xi, x, c0, c3, c4) == crate::fp12::f12_mul(
            p,
            b,
            xi,
            x,
            Fp12V {
                c0: Fp6V { c0, c1: f2_zero(), c2: f2_zero() },
                c1: Fp6V { c0: c3, c1: c4, c2: f2_zero() },
            },
        ),
{
    lemma_f6_mul_sparse_scalar(p, b, xi, x.c0, c0);
    lemma_f6_mul_sparse01(p, b, xi, x.c1, c3, c4);
    lemma_f2_add_comm(p, f2_zero(), c4);
    lemma_f2_add_zero(p, c4);
    lemma_f2_add_zero(p, f2_zero());
    lemma_f6_mul_sparse01(p, b, xi, f6_add(p, x.c0, x.c1), f2_add(p, c0, c3), c4);
}

proof fn lemma_f3_mul_one(p: int, nr: int, x: Fp3V)
    requires
        p > 0,
        wf3(p, x),
    ensures
        f3_mul(p, nr, x, f3_one()) == x,
{
    vstd::arithmetic::mul::lemma_mul_basics(x.c0);
    vstd::arithmetic::mul::lemma_mul_basics(x.c1);
    vstd::arithmetic::mul::lemma_mul_basics(x.c2);
    vstd::arithmetic::mul::lemma_mul_basics(nr);
    vstd::arithmetic::div_mod::lemma_small_mod(x.c0 as nat, p as nat);
    vstd::arithmetic::div_mod::lemma_small_mod(x.c1 as nat, p as nat);
    vstd::arithmetic::div_mod::lemma_small_mod(x.c2 as nat, p as nat);
}

proof fn lemma_f3_sq_one(p: int, nr: int)
    requires
        p > 1,
    ensures
        f3_sq(p, nr, f3_one()) == f3_one(),
{
    vstd::arithmetic::mul::lemma_mul_basics(nr);
    vstd::arithmetic::div_mod::lemma_small_mod(0, p as nat);
    vstd::arithmetic::div_mod::lemma_small_mod(1, p as nat);
}

/// Point addition with both operands equal agrees with doubling, on
/// either curve tag: the equal-operand comparisons inside the addition
/// formulas always take the doubling branch.
pub proof fn lemma_point_add_self_is_double(
    p: int,
    nr: int,
    av: Fp3V,
    tag: CurveType,
    pt: PointV,
)
    requires
        p > 1,
        pt_wf(p, pt),
    ensures
        pt_add(p, nr, av, tag, pt, pt) == pt_double(p, nr, av, tag, pt),
{
    if !pt_is_zero(pt) {
        if pt.z == f3_one() {
            lemma_f3_sq_one(p, nr);
            lemma_f3_mul_one(p, nr, pt.x);
            lemma_f3_mul_one(p, nr, pt.y);
        }
    }
}

/// The identity is neutral for point addition: 0 + P == P, and
/// P + 0 == P for finite P (with any representative of the identity on
/// the right).
pub proof fn lemma_point_add_identity(
    p: int,
    nr: int,
    av: Fp3V,
    tag: CurveType,
    pt: PointV,
    z: PointV,
)
    requires
        pt_is_zero(z),
    ensures
        pt_add(p, nr, av, tag, z, pt) == pt,
        !pt_is_zero(pt) ==> pt_add(p, nr, av, tag, pt, z) == pt,
{
}

} // verus!
