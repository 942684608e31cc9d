//! Arithmetic core for pairing-friendly elliptic-curve cryptography:
//! a degree-12 extension field tower Fp -> Fp2 -> Fp6 -> Fp12 with
//! Fp12 = Fp6[w]/(w^2 - v), and a short Weierstrass curve over a cubic
//! extension Fp3 (a cubic twist) with its Jacobian group law and scalar
//! multiplication by binary and windowed-NAF methods.

pub mod fp;
pub mod fp2;
pub mod fp3;
pub mod fp6;
pub mod curve;
pub mod fp12;
pub mod laws;
