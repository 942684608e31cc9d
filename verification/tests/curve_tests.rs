// Tests of the twisted Weierstrass curve over Fp3 with p = 19 and
// non-residue 2.  The generic curve is y^2 = x^3 + x + 3, on which the
// chosen generator has order 6860; the specialized curve is y^2 = x^3 + 4.

use pairing_core::curve::{CurveType, TwistPoint, WeierstrassCurveTwist};
use pairing_core::fp::PrimeField;
use pairing_core::fp3::{Extension3, Fp3};

const P: u64 = 19;
const ORDER_GENERIC: u64 = 6860;

fn base() -> PrimeField {
    PrimeField::new(P)
}

fn ext3() -> Extension3 {
    Extension3::new(base(), 2)
}

fn fp3(c0: u64, c1: u64, c2: u64) -> Fp3 {
    Fp3 { c0, c1, c2 }
}

fn curve_generic() -> WeierstrassCurveTwist {
    WeierstrassCurveTwist::new(base(), ext3(), fp3(1, 0, 0), fp3(3, 0, 0))
}

fn curve_a_zero() -> WeierstrassCurveTwist {
    WeierstrassCurveTwist::new(base(), ext3(), fp3(0, 0, 0), fp3(4, 0, 0))
}

fn gen_generic(c: &WeierstrassCurveTwist) -> TwistPoint {
    TwistPoint::point_from_xy(c, fp3(0, 0, 1), fp3(1, 15, 2))
}

fn gen_a_zero(c: &WeierstrassCurveTwist) -> TwistPoint {
    TwistPoint::point_from_xy(c, fp3(0, 0, 2), fp3(6, 0, 0))
}

// Signed window-3 NAF digits, least significant first: each digit is
// zero or odd with magnitude below 4.
fn wnaf3(mut n: u64) -> Vec<i64> {
    let mut digits: Vec<i64> = Vec::new();
    while n > 0 {
        if n % 2 == 1 {
            let mut d: i64 = (n % 8) as i64;
            if d > 4 {
                d -= 8;
            }
            n = (n as i64 - d) as u64;
            digits.push(d);
        } else {
            digits.push(0);
        }
        n >>= 1;
    }
    digits
}

#[test]
fn curve_tags_follow_a() {
    assert!(curve_generic().curve_type == CurveType::Generic);
    assert!(curve_a_zero().curve_type == CurveType::AIsZero);
}

#[test]
fn generator_is_on_curve() {
    let c = curve_generic();
    let g = gen_generic(&c);
    assert!(g.check_on_curve(&c));
    let cz = curve_a_zero();
    let gz = gen_a_zero(&cz);
    assert!(gz.check_on_curve(&cz));
}

#[test]
fn scalar_multiples_stay_on_curve() {
    let c = curve_generic();
    let g = gen_generic(&c);
    for k in [2u64, 3, 7, 100, 1234] {
        let mut m = g.mul(&c, &[k]);
        assert!(!m.is_zero());
        m.normalize(&c);
        assert!(m.is_normalized(&c));
        assert!(m.check_on_curve(&c));
    }
}

#[test]
fn identity_is_neutral() {
    let c = curve_generic();
    let g = gen_generic(&c);
    let zero = TwistPoint::zero(&c);
    let mut l = g;
    l.add_assign(&c, &zero);
    assert!(l.into_xy(&c) == g.into_xy(&c));
    let mut r = zero;
    r.add_assign(&c, &g);
    assert!(r.into_xy(&c) == g.into_xy(&c));
}

#[test]
fn adding_the_negation_gives_identity() {
    let c = curve_generic();
    let g = gen_generic(&c);
    let mut ng = g;
    ng.negate(&c);
    let mut s = g;
    s.add_assign(&c, &ng);
    assert!(s.is_zero());
}

#[test]
fn addition_is_associative() {
    let c = curve_generic();
    let g = gen_generic(&c);
    let p1 = g.mul(&c, &[5u64]);
    let p2 = g.mul(&c, &[11u64]);
    let p3 = g.mul(&c, &[23u64]);
    let mut l = p1;
    l.add_assign(&c, &p2);
    l.add_assign(&c, &p3);
    let mut r23 = p2;
    r23.add_assign(&c, &p3);
    let mut r = p1;
    r.add_assign(&c, &r23);
    assert!(l.into_xy(&c) == r.into_xy(&c));
}

#[test]
fn double_matches_add_self() {
    let c = curve_generic();
    let g = gen_generic(&c);
    for k in [1u64, 2, 9, 55] {
        let p = g.mul(&c, &[k]);
        let mut d = p;
        d.double(&c);
        let mut s = p;
        s.add_assign(&c, &p);
        assert!(d.into_xy(&c) == s.into_xy(&c));
    }
    let cz = curve_a_zero();
    let gz = gen_a_zero(&cz);
    let mut d = gz;
    d.double(&cz);
    let mut s = gz;
    s.add_assign(&cz, &gz);
    assert!(d.into_xy(&cz) == s.into_xy(&cz));
}

#[test]
fn group_order_kills_the_generator() {
    let c = curve_generic();
    let g = gen_generic(&c);
    let m = g.mul(&c, &[ORDER_GENERIC]);
    assert!(m.is_zero());
    // 2G - G == G
    let mut two_g = g.mul(&c, &[2u64]);
    two_g.sub_assign(&c, &g);
    assert!(two_g.into_xy(&c) == g.into_xy(&c));
}

#[test]
fn multiplication_distributes_over_scalar_sums() {
    let c = curve_generic();
    let g = gen_generic(&c);
    let cases: [(u64, u64); 3] = [(3, 4), (120, 85), (6000, 861)];
    for (s1, s2) in cases {
        let l = g.mul(&c, &[s1 + s2]);
        let mut r = g.mul(&c, &[s1]);
        let r2 = g.mul(&c, &[s2]);
        r.add_assign(&c, &r2);
        assert!(l.into_xy(&c) == r.into_xy(&c));
    }
}

#[test]
fn wnaf_matches_binary_multiplication() {
    let c = curve_generic();
    let g = gen_generic(&c);
    for s in [1u64, 2, 3, 7, 15, 31, 100, 255, 1023, 4097, 6860] {
        let a = g.mul(&c, &[s]);
        let b = g.wnaf_mul(&c, &wnaf3(s));
        let mut an = a;
        an.normalize(&c);
        let mut bn = b;
        bn.normalize(&c);
        assert!(an.into_xy(&c) == bn.into_xy(&c));
    }
}

#[test]
fn double_specializations_agree_when_a_is_zero() {
    let cz = curve_a_zero();
    let gz = gen_a_zero(&cz);
    for k in [1u64, 3, 8, 77, 500] {
        let p = gz.mul(&cz, &[k]);
        if p.is_zero() {
            continue;
        }
        let mut da = p;
        da.double_a_is_zero_impl(&cz);
        let mut dg = p;
        dg.double_generic_impl(&cz);
        assert!(da.into_xy(&cz) == dg.into_xy(&cz));
    }
}

#[test]
fn mixed_and_full_addition_agree() {
    let c = curve_generic();
    let g = gen_generic(&c);
    let p = g.mul(&c, &[57u64]);
    // q is affine; q_scaled is the same point with z = 2
    let q = {
        let mut t = g.mul(&c, &[9u64]);
        t.normalize(&c);
        t
    };
    let two = fp3(2, 0, 0);
    let mut z2 = two;
    z2.mul_assign(&ext3(), &two);
    let mut z3 = z2;
    z3.mul_assign(&ext3(), &two);
    let mut qx = q.x;
    qx.mul_assign(&ext3(), &z2);
    let mut qy = q.y;
    qy.mul_assign(&ext3(), &z3);
    let q_scaled = TwistPoint { x: qx, y: qy, z: two };
    let mut l = p;
    l.add_assign_mixed(&c, &q);
    let mut r = p;
    r.add_assign(&c, &q_scaled);
    assert!(l.into_xy(&c) == r.into_xy(&c));
}

#[test]
fn projective_and_jacobian_readouts() {
    let c = curve_generic();
    let g = gen_generic(&c);
    // on an affine point both conventions return the raw coordinates
    assert!(g.into_xy(&c) == (g.x, g.y));
    assert!(g.into_xy_from_homogenious(&c) == (g.x, g.y));
    let zero = TwistPoint::zero(&c);
    assert!(zero.into_xy(&c) == (Fp3::zero(), Fp3::zero()));
    assert!(zero.into_xy_from_homogenious(&c) == (Fp3::zero(), Fp3::zero()));
}
