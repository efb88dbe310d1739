//! Bilinear pairings over BLS12 curves whose parameters arrive in the request.
//!
//! A request is one self-describing byte string: the base field modulus, the
//! curve coefficients, the group order, the non-residues of the extension
//! tower, the twist type, the loop parameter and the operand points.  The
//! library decodes it, builds the tower `Fp -> Fp2 -> Fp6 -> Fp12`, validates
//! every operand point and answers with one byte that says whether the
//! product of the pairings is the identity.
pub mod errors;
pub mod constants;
pub mod bigint;
pub mod bits;
pub mod fp;
pub mod fp2;
pub mod fp2_laws;
pub mod fp6;
pub mod fp12;
pub mod sliding_window_exp;
pub mod frobenius;
pub mod weierstrass_curve;
pub mod weierstrass_twist;
pub mod bls12;
pub mod limbs;
pub mod decode_utils;
pub mod decode_fp;
pub mod decode_g1;
pub mod decode_g2;
pub mod pairing_ops;
pub mod harness;
pub mod laws;
pub mod prefix_laws;
pub mod length_laws;
