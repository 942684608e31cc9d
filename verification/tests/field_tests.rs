// Tests of the Fp12 tower over the small pairing-style field p = 19,
// beta = 2, xi = 1 + 3u, with Frobenius coefficient tables matching
// xi^((p^k - 1) / d) for the appropriate d at each layer.

use pairing_core::fp::PrimeField;
use pairing_core::fp2::{Extension2, Fp2};
use pairing_core::fp6::{Extension3Over2, Fp6};
use pairing_core::fp12::{Extension2Over3Over2, Fp12};

const P: u64 = 19;

fn base() -> PrimeField {
    PrimeField::new(P)
}

fn fp2(c0: u64, c1: u64) -> Fp2 {
    Fp2 { c0, c1 }
}

fn ext2() -> Extension2 {
    Extension2::new(base(), 2, [1, 18])
}

fn ext6() -> Extension3Over2 {
    Extension3Over2::new(
        ext2(),
        fp2(1, 3),
        [fp2(1, 0), fp2(0, 14), fp2(7, 0), fp2(0, 3), fp2(11, 0), fp2(0, 2)],
        [fp2(1, 0), fp2(12, 0), fp2(11, 0), fp2(18, 0), fp2(7, 0), fp2(8, 0)],
    )
}

fn ext12() -> Extension2Over3Over2 {
    let v = Fp6 { c0: Fp2::zero(), c1: Fp2::one(), c2: Fp2::zero() };
    Extension2Over3Over2::new(
        ext6(),
        v,
        [
            fp2(1, 0),
            fp2(17, 6),
            fp2(8, 0),
            fp2(3, 10),
            fp2(7, 0),
            fp2(5, 4),
            fp2(18, 0),
            fp2(2, 13),
            fp2(11, 0),
            fp2(16, 9),
            fp2(12, 0),
            fp2(14, 15),
        ],
    )
}

fn fp6_el(a: [u64; 6]) -> Fp6 {
    Fp6 { c0: fp2(a[0], a[1]), c1: fp2(a[2], a[3]), c2: fp2(a[4], a[5]) }
}

fn fp12_el(a: [u64; 12]) -> Fp12 {
    Fp12 {
        c0: fp6_el([a[0], a[1], a[2], a[3], a[4], a[5]]),
        c1: fp6_el([a[6], a[7], a[8], a[9], a[10], a[11]]),
    }
}

fn sample_x() -> Fp12 {
    fp12_el([2, 1, 3, 0, 1, 4, 0, 2, 5, 1, 7, 3])
}

fn sample_y() -> Fp12 {
    fp12_el([5, 7, 0, 11, 2, 1, 8, 3, 4, 0, 6, 9])
}

fn sample_z() -> Fp12 {
    fp12_el([1, 0, 9, 2, 0, 13, 4, 4, 0, 18, 5, 6])
}

#[test]
fn one_is_self_inverse() {
    let e = ext12();
    let one = Fp12::one(&e);
    let inv = one.inverse(&e).unwrap();
    assert!(inv == one);
    let mut f = one;
    f.frobenius_map(&e, 1);
    assert!(f == one);
    let r = one.pow(&e, &[6861u64]);
    assert!(r == one);
}

#[test]
fn addition_laws() {
    let e = ext12();
    let (x, y, z) = (sample_x(), sample_y(), sample_z());
    let mut l = x;
    l.add_assign(&e, &y);
    l.add_assign(&e, &z);
    let mut r = y;
    r.add_assign(&e, &z);
    r.add_assign(&e, &x);
    assert!(l == r);
    let mut xz = x;
    xz.add_assign(&e, &Fp12::zero(&e));
    assert!(xz == x);
    let mut n = x;
    n.negate(&e);
    n.add_assign(&e, &x);
    assert!(n.is_zero());
}

#[test]
fn multiplication_laws() {
    let e = ext12();
    let (x, y, z) = (sample_x(), sample_y(), sample_z());
    let mut xy = x;
    xy.mul_assign(&e, &y);
    let mut yx = y;
    yx.mul_assign(&e, &x);
    assert!(xy == yx);
    let mut x1 = x;
    x1.mul_assign(&e, &Fp12::one(&e));
    assert!(x1 == x);
    let mut lhs = xy;
    lhs.mul_assign(&e, &z);
    let mut yz = y;
    yz.mul_assign(&e, &z);
    let mut rhs = x;
    rhs.mul_assign(&e, &yz);
    assert!(lhs == rhs);
}

#[test]
fn square_is_mul_self() {
    let e = ext12();
    for x in [sample_x(), sample_y(), sample_z()] {
        let mut s = x;
        s.square(&e);
        let mut m = x;
        m.mul_assign(&e, &x);
        assert!(s == m);
        let mut d = x;
        d.double(&e);
        let mut a = x;
        a.add_assign(&e, &x);
        assert!(d == a);
    }
}

#[test]
fn inverse_round_trip() {
    let e = ext12();
    for x in [sample_x(), sample_y(), sample_z()] {
        let inv = x.inverse(&e).unwrap();
        let mut prod = x;
        prod.mul_assign(&e, &inv);
        assert!(prod == Fp12::one(&e));
        let back = inv.inverse(&e).unwrap();
        assert!(back == x);
    }
}

#[test]
fn inverse_of_zero_fails() {
    let e = ext12();
    assert!(Fp12::zero(&e).inverse(&e).is_none());
}

#[test]
fn conjugate_negates_w_part() {
    let e = ext12();
    let x = sample_x();
    let mut c = x;
    c.conjugate(&e);
    assert!(c.c0 == x.c0);
    let mut n = x.c1;
    n.negate(&ext6());
    assert!(c.c1 == n);
}

#[test]
fn mul_by_014_matches_dense() {
    let e = ext12();
    let cases = [
        (fp2(3, 1), fp2(0, 7), fp2(5, 5)),
        (fp2(1, 0), fp2(2, 2), fp2(0, 0)),
        (fp2(0, 11), fp2(6, 1), fp2(13, 4)),
    ];
    for (c0, c1, c4) in cases {
        for x in [sample_x(), sample_y()] {
            let mut sparse = x;
            sparse.mul_by_014(&e, &c0, &c1, &c4);
            let dense = Fp12 {
                c0: Fp6 { c0, c1, c2: Fp2::zero() },
                c1: Fp6 { c0: Fp2::zero(), c1: c4, c2: Fp2::zero() },
            };
            let mut full = x;
            full.mul_assign(&e, &dense);
            assert!(sparse == full);
        }
    }
}

#[test]
fn mul_by_034_matches_dense() {
    let e = ext12();
    let cases = [
        (fp2(3, 1), fp2(0, 7), fp2(5, 5)),
        (fp2(7, 2), fp2(1, 1), fp2(0, 9)),
    ];
    for (c0, c3, c4) in cases {
        for x in [sample_x(), sample_z()] {
            let mut sparse = x;
            sparse.mul_by_034(&e, &c0, &c3, &c4);
            let dense = Fp12 {
                c0: Fp6 { c0, c1: Fp2::zero(), c2: Fp2::zero() },
                c1: Fp6 { c0: c3, c1: c4, c2: Fp2::zero() },
            };
            let mut full = x;
            full.mul_assign(&e, &dense);
            assert!(sparse == full);
        }
    }
}

// p^6 - 1 = 47045880 and p^2 + 1 = 362: x^((p^6-1)(p^2+1)) lies in the
// cyclotomic subgroup of order p^4 - p^2 + 1.
fn cyclotomic_element() -> Fp12 {
    let e = ext12();
    let x = sample_x();
    let y = x.pow(&e, &[47045880u64]);
    y.pow(&e, &[362u64])
}

#[test]
fn cyclotomic_square_matches_square() {
    let e = ext12();
    let z = cyclotomic_element();
    assert!(!z.is_zero());
    assert!(z != Fp12::one(&e));
    let mut c = z;
    c.cyclotomic_square(&e);
    let mut s = z;
    s.square(&e);
    assert!(c == s);
}

#[test]
fn cyclotomic_exp_matches_pow() {
    let e = ext12();
    let z = cyclotomic_element();
    for exp in [1u64, 2, 3, 5, 97, 6861, 123456789] {
        let a = z.cyclotomic_exp(&e, &[exp]);
        let b = z.pow(&e, &[exp]);
        assert!(a == b);
    }
}

#[test]
fn frobenius_is_pow_p() {
    let e = ext12();
    // p^k for k = 1, 2, 3, 6, 12
    let powers: [(usize, u64); 5] = [
        (1, 19),
        (2, 361),
        (3, 6859),
        (6, 47045881),
        (12, 2213314919066161),
    ];
    for x in [sample_x(), sample_y()] {
        for (k, pk) in powers {
            let mut f = x;
            f.frobenius_map(&e, k);
            let r = x.pow(&e, &[pk]);
            assert!(f == r);
        }
        let mut f12 = x;
        f12.frobenius_map(&e, 12);
        assert!(f12 == x);
    }
}

#[test]
fn pow_splits_over_exponent_sums() {
    let e = ext12();
    let x = sample_y();
    let cases: [(u64, u64); 3] = [(3, 4), (100, 261), (6800, 61)];
    for (a, b) in cases {
        let l = x.pow(&e, &[a + b]);
        let mut r = x.pow(&e, &[a]);
        let rb = x.pow(&e, &[b]);
        r.mul_assign(&e, &rb);
        assert!(l == r);
    }
}

#[test]
fn pow_ignores_leading_zero_limbs() {
    let e = ext12();
    let x = sample_x();
    let a = x.pow(&e, &[0u64, 97u64]);
    let b = x.pow(&e, &[97u64]);
    assert!(a == b);
}

#[test]
fn multiply_by_non_residue_shifts() {
    let e6 = ext6();
    let e12 = ext12();
    let a = fp6_el([1, 2, 3, 4, 5, 6]);
    let mut shifted = a;
    e12.multiply_by_non_residue(&mut shifted);
    // (c0, c1, c2) -> (xi * c2, c0, c1)
    let mut xc2 = fp2(1, 3);
    xc2.mul_assign(&ext2(), &a.c2);
    assert!(shifted.c0 == xc2);
    assert!(shifted.c1 == a.c0);
    assert!(shifted.c2 == a.c1);
    let mut direct = a;
    direct.mul_by_nonresidue(&e6);
    assert!(direct == shifted);
}
