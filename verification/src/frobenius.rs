//! The Frobenius coefficients of the three tower levels.
//!
//! The coefficients of a level are powers of the non-residue below it, the
//! exponents being `(p^k - 1) / d` for the degree `d` of the level over `Fp2`
//! (or over `Fp`, for `Fp2` itself).  Where `d` does not divide `p^k - 1`
//! there are no coefficients and the request cannot be served.
use vstd::prelude::*;
use crate::bigint::{be_value, big_div, big_lt, big_mul, big_rem, big_sub};
use crate::fp::{fp_neg, fp_one, Fp};
use crate::fp2::{fp2_mul, fp2_one, fp2_pow, fp2_zero, Ext2V, Extension2, Fp2, Fp2V};
use crate::fp6::{fp2_values, Extension3Over2};
use crate::fp12::Extension2Over3Over2;
use crate::sliding_window_exp::WindowExpBase;

verus! {

/// The exponent `(q - 1) / d`, where `d` divides `q - 1`.
pub open spec fn frobenius_exponent(q: nat, d: nat) -> Option<nat> {
    if q >= 1 && (q - 1) % (d as int) == 0 {
        Some(((q - 1) / (d as int)) as nat)
    } else {
        None
    }
}

/// The two Frobenius coefficients of `Fp2`: the non-residue to the powers
/// `0` and `(p - 1) / 2`, which for a non-residue are `1` and `-1`.
pub open spec fn fp2_frobenius_coeffs(p: nat) -> Seq<nat> {
    seq![fp_one(p), fp_neg(p, fp_one(p))]
}

/// The Frobenius coefficients of `Fp6`, of the first and of the second rank:
/// `xi^((p^k - 1) / 3)` and its square for `k` from 0 to 3, and zeros in the
/// two places that no map of this library reads.
pub open spec fn fp6_frobenius_coeffs(e: Ext2V, xi: Fp2V) -> Option<(Seq<Fp2V>, Seq<Fp2V>)> {
    let p = e.p;
    match (
        frobenius_exponent(p, 3),
        frobenius_exponent(p * p, 3),
        frobenius_exponent(p * p * p, 3),
    ) {
        (Some(k1), Some(k2), Some(k3)) => {
            let f1 = fp2_pow(e, xi, k1);
            let f2 = fp2_pow(e, xi, k2);
            let f3 = fp2_pow(e, xi, k3);
            Some(
                (
                    seq![fp2_one(p), f1, f2, f3, fp2_zero(), fp2_zero()],
                    seq![
                        fp2_one(p),
                        fp2_mul(e, f1, f1),
                        fp2_mul(e, f2, f2),
                        fp2_mul(e, f3, f3),
                        fp2_zero(),
                        fp2_zero(),
                    ],
                ),
            )
        },
        _ => None,
    }
}

/// The Frobenius coefficients of `Fp12`: `xi^((p^k - 1) / 6)` for `k` in
/// 0, 1, 2, 3 and 6, and zeros in the places that no map of this library reads.
pub open spec fn fp12_frobenius_coeffs(e: Ext2V, xi: Fp2V) -> Option<Seq<Fp2V>> {
    let p = e.p;
    match (
        frobenius_exponent(p, 6),
        frobenius_exponent(p * p, 6),
        frobenius_exponent(p * p * p, 6),
        frobenius_exponent((p * p * p) * (p * p * p), 6),
    ) {
        (Some(k1), Some(k2), Some(k3), Some(k6)) => Some(
            seq![
                fp2_one(p),
                fp2_pow(e, xi, k1),
                fp2_pow(e, xi, k2),
                fp2_pow(e, xi, k3),
                fp2_zero(),
                fp2_zero(),
                fp2_pow(e, xi, k6),
                fp2_zero(),
                fp2_zero(),
                fp2_zero(),
                fp2_zero(),
                fp2_zero(),
            ],
        ),
        _ => None,
    }
}

/// The number that one byte denotes, as a big-endian number.
pub fn small_number(b: u8) -> (r: Vec<u8>)
    ensures
        be_value(r@) == b,
{
    let mut v: Vec<u8> = Vec::new();
    v.push(b);
    proof {
        assert(v@.drop_last() =~= Seq::<u8>::empty());
        assert(be_value(v@.drop_last()) == 0);
    }
    v
}

/// The big-endian exponent `(q - 1) / d`; `None` where `d` does not divide `q - 1`.
pub fn frobenius_exponent_of(q: &[u8], d: u8) -> (r: Option<Vec<u8>>)
    requires
        be_value(q@) >= 1,
        d > 0,
    ensures
        match r {
            Some(k) => frobenius_exponent(be_value(q@), d as nat) == Some(be_value(k@)),
            None => frobenius_exponent(be_value(q@), d as nat) is None,
        },
{
    let one = small_number(1);
    let divisor = small_number(d);
    let zero = small_number(0);
    let power = big_sub(q, one.as_slice());
    let rest = big_rem(power.as_slice(), divisor.as_slice());
    if big_lt(zero.as_slice(), rest.as_slice()) {
        None
    } else {
        Some(big_div(power.as_slice(), divisor.as_slice()))
    }
}

/// Computes the two Frobenius coefficients of `Fp2`.
pub fn frobenius_calculator_fp2(extension: &Extension2) -> (r: (Fp, Fp))
    requires
        extension.wf(),
    ensures
        seq![r.0@, r.1@] == fp2_frobenius_coeffs(extension@.p),
        extension.field.has(&r.0),
        extension.field.has(&r.1),
{
    let f_0 = extension.field.one();
    let f_1 = extension.field.neg(&f_0);
    (f_0, f_1)
}

/// Computes the Frobenius coefficients of `Fp6` of both ranks with the
/// table of the non-residue's powers; `None` where there are none.
pub fn frobenius_calculator_fp6_as_3_over_2_using_sliding_window(
    modulus: &[u8],
    base: &WindowExpBase,
    extension: &Extension3Over2,
) -> (r: Option<(Vec<Fp2>, Vec<Fp2>)>)
    requires
        extension.wf(),
        base.wf(extension@.e2),
        base.base@ == extension@.non_residue,
        be_value(modulus@) == extension@.e2.p,
    ensures
        match r {
            Some((c1, c2)) => {
                &&& fp6_frobenius_coeffs(extension@.e2, extension@.non_residue) == Some(
                    (fp2_values(c1@), fp2_values(c2@)),
                )
                &&& c1.len() == 6
                &&& c2.len() == 6
                &&& forall|i: int| 0 <= i < 6 ==> extension@.e2.has(#[trigger] fp2_values(c1@)[i])
                &&& forall|i: int| 0 <= i < 6 ==> extension@.e2.has(#[trigger] fp2_values(c2@)[i])
            },
            None => fp6_frobenius_coeffs(extension@.e2, extension@.non_residue) is None,
        },
{
    let ext2 = extension.field;
    let ghost e = ext2@;
    let ghost p = e.p;
    let q1 = modulus;
    let k1 = match frobenius_exponent_of(q1, 3) {
        Some(k) => k,
        None => { return None; },
    };
    let q2 = big_mul(q1, modulus);
    proof {
        lemma_product_positive(p, p);
    }
    let k2 = match frobenius_exponent_of(q2.as_slice(), 3) {
        Some(k) => k,
        None => { return None; },
    };
    let q3 = big_mul(q2.as_slice(), modulus);
    proof {
        lemma_product_positive(p * p, p);
    }
    let k3 = match frobenius_exponent_of(q3.as_slice(), 3) {
        Some(k) => k,
        None => { return None; },
    };
    let f_1 = base.exponentiate(ext2, k1.as_slice());
    let f_2 = base.exponentiate(ext2, k2.as_slice());
    let f_3 = base.exponentiate(ext2, k3.as_slice());
    let g_1 = ext2.square(&f_1);
    let g_2 = ext2.square(&f_2);
    let g_3 = ext2.square(&f_3);
    let mut c1: Vec<Fp2> = Vec::new();
    c1.push(ext2.one());
    c1.push(f_1);
    c1.push(f_2);
    c1.push(f_3);
    c1.push(ext2.zero());
    c1.push(ext2.zero());
    let mut c2: Vec<Fp2> = Vec::new();
    c2.push(ext2.one());
    c2.push(g_1);
    c2.push(g_2);
    c2.push(g_3);
    c2.push(ext2.zero());
    c2.push(ext2.zero());
    proof {
        let xi = extension@.non_residue;
        let both = fp6_frobenius_coeffs(e, xi).unwrap();
        assert(fp2_values(c1@) =~= both.0);
        assert(fp2_values(c2@) =~= both.1);
    }
    Some((c1, c2))
}

/// Computes the Frobenius coefficients of `Fp12` with the table of the
/// non-residue's powers; `None` where there are none.
pub fn frobenius_calculator_fp12_using_sliding_window(
    modulus: &[u8],
    base: &WindowExpBase,
    extension: &Extension2Over3Over2,
) -> (r: Option<Vec<Fp2>>)
    requires
        extension.wf(),
        base.wf(extension@.e6.e2),
        base.base@ == extension@.e6.non_residue,
        be_value(modulus@) == extension@.e6.e2.p,
    ensures
        match r {
            Some(c1) => {
                &&& fp12_frobenius_coeffs(extension@.e6.e2, extension@.e6.non_residue) == Some(
                    fp2_values(c1@),
                )
                &&& c1.len() == 12
                &&& forall|i: int|
                    0 <= i < 12 ==> extension@.e6.e2.has(#[trigger] fp2_values(c1@)[i])
            },
            None => fp12_frobenius_coeffs(extension@.e6.e2, extension@.e6.non_residue) is None,
        },
{
    let ext2 = extension.field.field;
    let ghost e = ext2@;
    let ghost p = e.p;
    let q1 = modulus;
    let k1 = match frobenius_exponent_of(q1, 6) {
        Some(k) => k,
        None => { return None; },
    };
    let q2 = big_mul(q1, modulus);
    proof {
        lemma_product_positive(p, p);
    }
    let k2 = match frobenius_exponent_of(q2.as_slice(), 6) {
        Some(k) => k,
        None => { return None; },
    };
    let q3 = big_mul(q2.as_slice(), modulus);
    proof {
        lemma_product_positive(p * p, p);
    }
    let k3 = match frobenius_exponent_of(q3.as_slice(), 6) {
        Some(k) => k,
        None => { return None; },
    };
    let q6 = big_mul(q3.as_slice(), q3.as_slice());
    proof {
        lemma_product_positive(p * p * p, p * p * p);
    }
    let k6 = match frobenius_exponent_of(q6.as_slice(), 6) {
        Some(k) => k,
        None => { return None; },
    };
    let mut c1: Vec<Fp2> = Vec::new();
    c1.push(ext2.one());
    c1.push(base.exponentiate(ext2, k1.as_slice()));
    c1.push(base.exponentiate(ext2, k2.as_slice()));
    c1.push(base.exponentiate(ext2, k3.as_slice()));
    c1.push(ext2.zero());
    c1.push(ext2.zero());
    c1.push(base.exponentiate(ext2, k6.as_slice()));
    c1.push(ext2.zero());
    c1.push(ext2.zero());
    c1.push(ext2.zero());
    c1.push(ext2.zero());
    c1.push(ext2.zero());
    proof {
        let xi = extension@.e6.non_residue;
        assert(fp2_values(c1@) =~= fp12_frobenius_coeffs(e, xi).unwrap());
    }
    Some(c1)
}

/// A product of positive numbers is positive.
pub proof fn lemma_product_positive(a: nat, b: nat)
    by (nonlinear_arith)
    requires
        a > 0,
        b > 0,
    ensures
        a * b > 0,
{
}

} // verus!
