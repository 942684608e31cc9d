//! The base prime field Fp: residues modulo an odd prime held in a `u64`,
//! with modular addition, subtraction, negation, multiplication and
//! inversion by the extended Euclidean algorithm.
//!
//! Spec-level arithmetic works over `int`: a field element is its residue
//! in `[0, p)`, and each operation is the integer operation followed by a
//! single reduction.  The congruence helpers (`eqm`) at the bottom let the
//! extension towers reason about composite expressions modulo p.

use vstd::prelude::*;
use vstd::arithmetic::div_mod::{
    lemma_add_mod_noop, lemma_fundamental_div_mod, lemma_mod_equivalence,
    lemma_mod_multiples_basic, lemma_mod_self_0, lemma_mod_twice, lemma_mul_mod_noop,
    lemma_mul_mod_noop_left, lemma_small_mod, lemma_sub_mod_noop,
};
use vstd::arithmetic::mul::{
    lemma_mul_is_commutative, lemma_mul_is_distributive_add, lemma_mul_is_distributive_sub,
    lemma_mul_upper_bound,
};

verus! {

/// n is prime: at least 2 and with no divisor strictly between 1 and itself.
pub open spec fn is_prime(n: int) -> bool {
    n >= 2 && forall|k: int| 2 <= k < n ==> #[trigger] (n % k) != 0
}

/// Descriptor of the base prime field: the modulus p.
pub struct PrimeField {
    pub modulus: u64,
}

impl PrimeField {
    /// The modulus as a mathematical integer.
    pub open spec fn m(&self) -> int {
        self.modulus as int
    }

    /// A well-formed base field has a prime modulus of characteristic
    /// greater than 3, as the short Weierstrass formulas assume.
    pub open spec fn wf(&self) -> bool {
        is_prime(self.m()) && self.modulus > 3
    }

    pub fn new(modulus: u64) -> (r: PrimeField)
        requires
            is_prime(modulus as int),
            modulus > 3,
        ensures
            r.wf(),
            r.m() == modulus as int,
    {
        PrimeField { modulus }
    }
}

/// A residue is a canonical field element: an integer in [0, p).
pub open spec fn is_res(p: int, a: int) -> bool {
    0 <= a < p
}

/// Field addition: reduce the integer sum.
pub open spec fn fadd(p: int, a: int, b: int) -> int {
    (a + b) % p
}

/// Field subtraction: reduce the integer difference.
pub open spec fn fsub(p: int, a: int, b: int) -> int {
    (a - b) % p
}

/// Field negation: reduce the integer negation.
pub open spec fn fneg(p: int, a: int) -> int {
    (-a) % p
}

/// Field multiplication: reduce the integer product.
pub open spec fn fmul(p: int, a: int, b: int) -> int {
    (a * b) % p
}

/// a and b are congruent modulo p.
pub open spec fn eqm(p: int, a: int, b: int) -> bool {
    (a - b) % p == 0
}

pub proof fn lemma_eqm_refl(p: int, a: int)
    requires
        p > 0,
    ensures
        eqm(p, a, a),
{
    lemma_small_mod(0, p as nat);
}

pub proof fn lemma_eqm_sym(p: int, a: int, b: int)
    requires
        p > 0,
        eqm(p, a, b),
    ensures
        eqm(p, b, a),
{
    lemma_mod_equivalence(a, b, p);
    lemma_mod_equivalence(b, a, p);
}

pub proof fn lemma_eqm_trans(p: int, a: int, b: int, c: int)
    requires
        p > 0,
        eqm(p, a, b),
        eqm(p, b, c),
    ensures
        eqm(p, a, c),
{
    lemma_mod_equivalence(a, b, p);
    lemma_mod_equivalence(b, c, p);
    lemma_mod_equivalence(a, c, p);
}

/// An integer is congruent to its own reduction.
pub proof fn lemma_eqm_mod(p: int, a: int)
    requires
        p > 0,
    ensures
        eqm(p, a % p, a),
{
    lemma_mod_twice(a, p);
    lemma_mod_equivalence(a % p, a, p);
}

/// Congruent canonical residues are equal.
pub proof fn lemma_eqm_cancel(p: int, a: int, b: int)
    requires
        p > 0,
        eqm(p, a, b),
        is_res(p, a),
        is_res(p, b),
    ensures
        a == b,
{
    lemma_mod_equivalence(a, b, p);
    lemma_small_mod(a as nat, p as nat);
    lemma_small_mod(b as nat, p as nat);
}

/// A canonical residue congruent to x is the reduction of x.
pub proof fn lemma_eqm_reduce(p: int, a: int, x: int)
    requires
        p > 0,
        eqm(p, a, x),
        is_res(p, a),
    ensures
        a == x % p,
{
    lemma_eqm_mod(p, x);
    lemma_eqm_sym(p, x % p, x);
    lemma_eqm_trans(p, a, x, x % p);
    lemma_eqm_cancel(p, a, x % p);
}

pub proof fn lemma_eqm_add(p: int, a: int, b: int, c: int, d: int)
    requires
        p > 0,
        eqm(p, a, b),
        eqm(p, c, d),
    ensures
        eqm(p, a + c, b + d),
{
    lemma_mod_equivalence(a, b, p);
    lemma_mod_equivalence(c, d, p);
    lemma_add_mod_noop(a, c, p);
    lemma_add_mod_noop(b, d, p);
    lemma_mod_equivalence(a + c, b + d, p);
}

pub proof fn lemma_eqm_sub(p: int, a: int, b: int, c: int, d: int)
    requires
        p > 0,
        eqm(p, a, b),
        eqm(p, c, d),
    ensures
        eqm(p, a - c, b - d),
{
    lemma_mod_equivalence(a, b, p);
    lemma_mod_equivalence(c, d, p);
    lemma_sub_mod_noop(a, c, p);
    lemma_sub_mod_noop(b, d, p);
    lemma_mod_equivalence(a - c, b - d, p);
}

pub proof fn lemma_eqm_mul(p: int, a: int, b: int, c: int, d: int)
    requires
        p > 0,
        eqm(p, a, b),
        eqm(p, c, d),
    ensures
        eqm(p, a * c, b * d),
{
    lemma_mod_equivalence(a, b, p);
    lemma_mod_equivalence(c, d, p);
    lemma_mul_mod_noop(a, c, p);
    lemma_mul_mod_noop(b, d, p);
    lemma_mod_equivalence(a * c, b * d, p);
}

/// Reduced addition is associative.
pub proof fn lemma_fadd_assoc(p: int, a: int, b: int, c: int)
    requires
        p > 0,
    ensures
        fadd(p, fadd(p, a, b), c) == fadd(p, a, fadd(p, b, c)),
{
    lemma_eqm_refl(p, c);
    lemma_eqm_refl(p, a);
    lemma_eqm_mod(p, a + b);
    lemma_eqm_mod(p, b + c);
    lemma_eqm_add(p, fadd(p, a, b), a + b, c, c);
    lemma_eqm_add(p, a, a, fadd(p, b, c), b + c);
    lemma_eqm_mod(p, fadd(p, a, b) + c);
    lemma_eqm_mod(p, a + fadd(p, b, c));
    lemma_eqm_trans(p, fadd(p, fadd(p, a, b), c), fadd(p, a, b) + c, a + b + c);
    lemma_eqm_trans(p, fadd(p, a, fadd(p, b, c)), a + fadd(p, b, c), a + b + c);
    lemma_eqm_sym(p, fadd(p, a, fadd(p, b, c)), a + b + c);
    lemma_eqm_trans(
        p,
        fadd(p, fadd(p, a, b), c),
        a + b + c,
        fadd(p, a, fadd(p, b, c)),
    );
    lemma_eqm_cancel(p, fadd(p, fadd(p, a, b), c), fadd(p, a, fadd(p, b, c)));
}

/// The outer operands of a reduced double sum may be exchanged.
pub proof fn lemma_fadd_comm3(p: int, a: int, b: int, c: int)
    requires
        p > 0,
    ensures
        fadd(p, fadd(p, a, b), c) == fadd(p, fadd(p, c, b), a),
{
    lemma_eqm_refl(p, c);
    lemma_eqm_refl(p, a);
    lemma_eqm_mod(p, a + b);
    lemma_eqm_mod(p, c + b);
    lemma_eqm_add(p, fadd(p, a, b), a + b, c, c);
    lemma_eqm_add(p, fadd(p, c, b), c + b, a, a);
    lemma_eqm_mod(p, fadd(p, a, b) + c);
    lemma_eqm_mod(p, fadd(p, c, b) + a);
    lemma_eqm_trans(p, fadd(p, fadd(p, a, b), c), fadd(p, a, b) + c, a + b + c);
    lemma_eqm_trans(p, fadd(p, fadd(p, c, b), a), fadd(p, c, b) + a, a + b + c);
    lemma_eqm_sym(p, fadd(p, fadd(p, c, b), a), a + b + c);
    lemma_eqm_trans(
        p,
        fadd(p, fadd(p, a, b), c),
        a + b + c,
        fadd(p, fadd(p, c, b), a),
    );
    lemma_eqm_cancel(p, fadd(p, fadd(p, a, b), c), fadd(p, fadd(p, c, b), a));
}

/// Adding the additive identity is the identity map on residues.
pub proof fn lemma_fadd_zero(p: int, a: int)
    requires
        p > 0,
        is_res(p, a),
    ensures
        fadd(p, a, 0) == a,
        fadd(p, 0, a) == a,
{
    lemma_small_mod(a as nat, p as nat);
}

/// A residue plus its negation reduces to zero.
pub proof fn lemma_fadd_neg(p: int, a: int)
    requires
        p > 0,
    ensures
        fadd(p, a, fneg(p, a)) == 0,
{
    vstd::arithmetic::div_mod::lemma_add_mod_noop_right(a, -a, p);
    lemma_small_mod(0, p as nat);
}

/// Reduced multiplication is commutative.
pub proof fn lemma_fmul_comm(p: int, a: int, b: int)
    requires
        p > 0,
    ensures
        fmul(p, a, b) == fmul(p, b, a),
{
    lemma_mul_is_commutative(a, b);
}

/// Multiplying a residue by one is the identity map.
pub proof fn lemma_fmul_one(p: int, a: int)
    requires
        p > 0,
        is_res(p, a),
    ensures
        fmul(p, a, 1) == a,
        fmul(p, 1, a) == a,
{
    vstd::arithmetic::mul::lemma_mul_basics(a);
    lemma_small_mod(a as nat, p as nat);
}

/// (a + b) - b reduces back to a for residues.
pub proof fn lemma_fadd_sub_cancel(p: int, a: int, b: int)
    requires
        p > 0,
        is_res(p, a),
    ensures
        fsub(p, fadd(p, a, b), b) == a,
{
    lemma_eqm_refl(p, b);
    lemma_eqm_mod(p, a + b);
    lemma_eqm_sub(p, fadd(p, a, b), a + b, b, b);
    lemma_eqm_mod(p, fadd(p, a, b) - b);
    lemma_eqm_trans(p, fsub(p, fadd(p, a, b), b), fadd(p, a, b) - b, a);
    lemma_eqm_cancel(p, fsub(p, fadd(p, a, b), b), a);
}

/// Subtracting zero is the identity map on residues.
pub proof fn lemma_fsub_zero(p: int, a: int)
    requires
        p > 0,
        is_res(p, a),
    ensures
        fsub(p, a, 0) == a,
{
    lemma_small_mod(a as nat, p as nat);
}

/// Exec addition of two canonical residues.
pub fn add_mod(f: &PrimeField, a: u64, b: u64) -> (r: u64)
    requires
        f.modulus > 0,
        a < f.modulus,
        b < f.modulus,
    ensures
        r as int == fadd(f.m(), a as int, b as int),
{
    let p: u128 = f.modulus as u128;
    let s: u128 = a as u128 + b as u128;
    let r: u128 = if s >= p {
        s - p
    } else {
        s
    };
    proof {
        let pi = f.m();
        if s >= p {
            lemma_mod_self_0(pi);
            lemma_mod_equivalence(a as int + b as int, r as int, pi);
            lemma_small_mod(r as nat, pi as nat);
        } else {
            lemma_small_mod(s as nat, pi as nat);
        }
    }
    r as u64
}

/// Exec subtraction of two canonical residues.
pub fn sub_mod(f: &PrimeField, a: u64, b: u64) -> (r: u64)
    requires
        f.modulus > 0,
        a < f.modulus,
        b < f.modulus,
    ensures
        r as int == fsub(f.m(), a as int, b as int),
{
    let r: u64 = if a >= b {
        a - b
    } else {
        a + (f.modulus - b)
    };
    proof {
        let pi = f.m();
        if a >= b {
            lemma_small_mod((a - b) as nat, pi as nat);
        } else {
            lemma_mod_multiples_basic(-1, pi);
            lemma_mod_equivalence(a as int - b as int, r as int, pi);
            lemma_small_mod(r as nat, pi as nat);
        }
    }
    r
}

/// Exec negation of a canonical residue.
pub fn neg_mod(f: &PrimeField, a: u64) -> (r: u64)
    requires
        f.modulus > 0,
        a < f.modulus,
    ensures
        r as int == fneg(f.m(), a as int),
{
    let r: u64 = if a == 0 {
        0
    } else {
        f.modulus - a
    };
    proof {
        let pi = f.m();
        if a == 0 {
            lemma_small_mod(0, pi as nat);
        } else {
            lemma_mod_multiples_basic(-1, pi);
            lemma_mod_equivalence(-(a as int), r as int, pi);
            lemma_small_mod(r as nat, pi as nat);
        }
    }
    r
}

/// Exec multiplication of two canonical residues.
pub fn mul_mod(f: &PrimeField, a: u64, b: u64) -> (r: u64)
    requires
        f.modulus > 0,
        a < f.modulus,
        b < f.modulus,
    ensures
        r as int == fmul(f.m(), a as int, b as int),
{
    proof {
        lemma_mul_upper_bound(a as int, 0xffff_ffff_ffff_ffff, b as int, 0xffff_ffff_ffff_ffff);
    }
    let prod: u128 = (a as u128) * (b as u128);
    let r: u128 = prod % (f.modulus as u128);
    r as u64
}

/// Fused multiply-add: (a * b + c * d) mod p, for canonical residues.
pub fn muladd_mod(f: &PrimeField, a: u64, b: u64, c: u64, d: u64) -> (r: u64)
    requires
        f.modulus > 0,
        a < f.modulus,
        b < f.modulus,
        c < f.modulus,
        d < f.modulus,
    ensures
        r as int == (a as int * b as int + c as int * d as int) % f.m(),
{
    let ab: u64 = mul_mod(f, a, b);
    let cd: u64 = mul_mod(f, c, d);
    let r: u64 = add_mod(f, ab, cd);
    proof {
        lemma_add_mod_noop(a as int * b as int, c as int * d as int, f.m());
    }
    r
}

/// Fused add-multiply: (a + c * d) mod p, for canonical residues.
pub fn addmul_mod(f: &PrimeField, a: u64, c: u64, d: u64) -> (r: u64)
    requires
        f.modulus > 0,
        a < f.modulus,
        c < f.modulus,
        d < f.modulus,
    ensures
        r as int == (a as int + c as int * d as int) % f.m(),
{
    let cd: u64 = mul_mod(f, c, d);
    let r: u64 = add_mod(f, a, cd);
    proof {
        lemma_small_mod(a as nat, f.modulus as nat);
        lemma_add_mod_noop(a as int, c as int * d as int, f.m());
    }
    r
}

/// Euclidean greatest common divisor.
pub open spec fn gcd(a: nat, b: nat) -> nat
    decreases b,
{
    if b == 0 {
        a
    } else {
        gcd(b, a % b)
    }
}

/// d divides n.
pub open spec fn divides(d: int, n: int) -> bool {
    d > 0 && n % d == 0
}

/// The gcd of two numbers, the first positive, is positive and divides both.
pub proof fn lemma_gcd_divides(a: nat, b: nat)
    requires
        a > 0,
    ensures
        gcd(a, b) > 0,
        divides(gcd(a, b) as int, a as int),
        divides(gcd(a, b) as int, b as int),
    decreases b,
{
    if b == 0 {
        lemma_mod_self_0(a as int);
        assert(0int % (a as int) == 0) by {
            lemma_small_mod(0, a);
        }
    } else {
        lemma_gcd_divides(b, a % b);
        let g = gcd(b, a % b) as int;
        // a == b * (a / b) + a % b, and g divides both summands.
        lemma_fundamental_div_mod(a as int, b as int);
        let q = a as int / b as int;
        lemma_mul_mod_noop_left(b as int, q, g);
        assert((b as int % g) * q == 0) by {
            lemma_mul_is_commutative(b as int % g, q);
        }
        lemma_small_mod(0, g as nat);
        lemma_add_mod_noop(b as int * q, (a % b) as int, g);
    }
}

/// A positive divisor of a positive number is at most that number.
pub proof fn lemma_divides_bound(d: int, n: int)
    requires
        divides(d, n),
        n > 0,
    ensures
        d <= n,
{
    if d > n {
        lemma_small_mod(n as nat, d as nat);
    }
}

/// For a prime p and 0 < a < p, the gcd of p and a is 1.
pub proof fn lemma_prime_gcd_one(p: nat, a: nat)
    requires
        is_prime(p as int),
        0 < a < p,
    ensures
        gcd(p, a) == 1,
{
    lemma_gcd_divides(p, a);
    let g = gcd(p, a) as int;
    lemma_divides_bound(g, a as int);
    if g >= 2 {
        assert(p as int % g != 0);
    }
}

/// Modular inverse by the extended Euclidean algorithm, tracking the
/// Bezout coefficient of `a` modulo p.  For a prime modulus it succeeds
/// exactly on the nonzero residues.
pub fn inv_mod(f: &PrimeField, a: u64) -> (r: Option<u64>)
    requires
        f.wf(),
        a < f.modulus,
    ensures
        match r {
            Some(u) => a != 0 && (u as int) < f.m() && fmul(f.m(), a as int, u as int) == 1,
            None => a == 0,
        },
{
    if a == 0 {
        return None;
    }
    let p: u64 = f.modulus;
    let ghost pi: int = f.m();
    let mut r0: u64 = p;
    let mut r1: u64 = a;
    let mut s0: u64 = 0;
    let mut s1: u64 = 1;
    proof {
        assert(eqm(pi, r0 as int, s0 as int * a as int)) by {
            lemma_mod_self_0(pi);
        }
        lemma_eqm_refl(pi, a as int);
    }
    while r1 != 0
        invariant
            f.wf(),
            pi == f.m(),
            p == f.modulus,
            0 < a < p,
            r0 >= 1,
            r1 < r0,
            r0 <= p,
            s0 < p,
            s1 < p,
            eqm(pi, r0 as int, s0 as int * a as int),
            eqm(pi, r1 as int, s1 as int * a as int),
            gcd(r0 as nat, r1 as nat) == gcd(p as nat, a as nat),
        decreases r1,
    {
        let q: u64 = r0 / r1;
        let r2: u64 = r0 % r1;
        // t == q * s1 reduced mod p
        let qr: u64 = (q as u128 % p as u128) as u64;
        proof {
            lemma_mul_upper_bound(
                qr as int,
                0xffff_ffff_ffff_ffff,
                s1 as int,
                0xffff_ffff_ffff_ffff,
            );
        }
        let t: u64 = ((qr as u128 * s1 as u128) % p as u128) as u64;
        let s2: u64 = if s0 >= t {
            s0 - t
        } else {
            s0 + (p - t)
        };
        proof {
            // r2 == r0 - q * r1
            lemma_fundamental_div_mod(r0 as int, r1 as int);
            // t is congruent to q * s1
            lemma_eqm_mod(pi, q as int);
            lemma_eqm_refl(pi, s1 as int);
            lemma_eqm_mul(pi, qr as int, q as int, s1 as int, s1 as int);
            lemma_eqm_mod(pi, qr as int * s1 as int);
            lemma_eqm_trans(pi, t as int, qr as int * s1 as int, q as int * s1 as int);
            // s2 is congruent to s0 - q * s1
            lemma_eqm_refl(pi, s0 as int);
            lemma_eqm_sub(pi, s0 as int, s0 as int, t as int, q as int * s1 as int);
            if s0 >= t {
                assert(eqm(pi, s2 as int, s0 as int - t as int)) by {
                    lemma_eqm_refl(pi, s2 as int);
                }
            } else {
                assert(eqm(pi, s2 as int, s0 as int - t as int)) by {
                    lemma_mod_multiples_basic(1, pi);
                    lemma_mod_equivalence(s2 as int, s0 as int - t as int, pi);
                }
            }
            lemma_eqm_trans(pi, s2 as int, s0 as int - t as int, s0 as int - q as int * s1 as int);
            // r2 is congruent to s2 * a
            lemma_eqm_refl(pi, q as int);
            lemma_eqm_mul(pi, q as int, q as int, r1 as int, s1 as int * a as int);
            lemma_eqm_sub(
                pi,
                r0 as int,
                s0 as int * a as int,
                q as int * r1 as int,
                q as int * (s1 as int * a as int),
            );
            assert(s0 as int * a as int - q as int * (s1 as int * a as int) == (s0 as int - q as int
                * s1 as int) * a as int) by {
                lemma_mul_is_distributive_sub(a as int, s0 as int, q as int * s1 as int);
                lemma_mul_is_commutative(a as int, s0 as int);
                lemma_mul_is_commutative(a as int, s0 as int - q as int * s1 as int);
                lemma_mul_is_commutative(q as int * s1 as int, a as int);
                vstd::arithmetic::mul::lemma_mul_is_associative(q as int, s1 as int, a as int);
            }
            lemma_eqm_sym(pi, s2 as int, s0 as int - q as int * s1 as int);
            lemma_eqm_refl(pi, a as int);
            lemma_eqm_mul(
                pi,
                s0 as int - q as int * s1 as int,
                s2 as int,
                a as int,
                a as int,
            );
            lemma_eqm_trans(
                pi,
                r2 as int,
                (s0 as int - q as int * s1 as int) * a as int,
                s2 as int * a as int,
            );
        }
        r0 = r1;
        r1 = r2;
        s0 = s1;
        s1 = s2;
    }
    proof {
        assert(gcd(r0 as nat, 0) == r0 as nat);
        lemma_prime_gcd_one(p as nat, a as nat);
        // r0 == 1 and 1 is congruent to s0 * a
        lemma_eqm_sym(pi, r0 as int, s0 as int * a as int);
        lemma_eqm_mod(pi, s0 as int * a as int);
        assert((s0 as int * a as int) % pi == 1) by {
            lemma_mod_equivalence(s0 as int * a as int, 1, pi);
            lemma_small_mod(1, pi as nat);
        }
        lemma_mul_is_commutative(s0 as int, a as int);
    }
    Some(s0)
}

} // verus!
