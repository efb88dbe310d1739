//! The pairing of the BLS12 family: the Miller loop over the loop parameter
//! and the final exponentiation.
//!
//! For operand pairs `(P_i, Q_i)` the engine computes the product of the
//! Miller functions `f_{|x|, Q_i}(P_i)`, conjugates it where `x` is negative,
//! and raises it to `(p^6 - 1)(p^2 + 1)` and then to
//! `(x - 1)^2 (x + p)(x^2 + p^2 - 1) + 3`, which for the parameters of a
//! BLS12 curve is three times `(p^4 - p^2 + 1) / r`.
use vstd::prelude::*;
use crate::bigint::be_value;
use crate::bits::{bits_be, bits_value, lemma_bits_take_ends, lemma_bits_take_step};
use crate::fp::{fp_add, fp_inv, fp_one, Fp};
use crate::fp2::{
    fp2_add, fp2_mul, fp2_mul_by_fp, fp2_neg, fp2_one, fp2_sub, fp2_zero, Extension2, Fp2, Fp2V,
};
use crate::fp6::{Fp6, Fp6V};
use crate::fp12::{
    fp12_conjugate, fp12_frobenius, fp12_inv, fp12_mul, fp12_one, fp12_pow, fp12_square, Ext12V,
    Extension2Over3Over2, Fp12, Fp12V,
};
use crate::fp::PrimeField;
use crate::fp6::Extension3Over2;
use crate::weierstrass_curve::{CurvePoint, PointV, WeierstrassCurve};
use crate::weierstrass_twist::{
    fp2_double, fp2_triple, TwistPoint, TwistPointV, WeierstrassCurveTwist,
};

verus! {

/// How the coefficient of the twist derives from that of the base curve.
#[derive(Clone, Copy, Debug, PartialEq, Eq, Structural)]
pub enum TwistType {
    /// The base coefficient divided by the non-residue.
    D,
    /// The base coefficient times the non-residue.
    M,
}

/// The value of a pairing instance: what the computation reads of it.
pub struct Bls12V {
    /// The magnitude of the loop parameter.
    pub x: nat,
    pub x_is_negative: bool,
    pub twist_type: TwistType,
    /// The tower.
    pub e12: Ext12V,
    /// The coefficient `b` of the twist.
    pub twist_b: Fp2V,
}

/// The value of a point of the twist in homogeneous projective coordinates.
pub struct ProjV {
    pub x: Fp2V,
    pub y: Fp2V,
    pub z: Fp2V,
}

/// The value of the three coefficients of a line.
pub struct EllV {
    pub c0: Fp2V,
    pub c1: Fp2V,
    pub c2: Fp2V,
}

/// The value of a running point with the coefficients of the line through it.
pub struct StepV {
    pub r: ProjV,
    pub line: EllV,
}

/// The value of the state of a Miller loop: the function value so far and
/// the running point.
pub struct MillerV {
    pub f: Fp12V,
    pub r: ProjV,
}

/// The coefficients of a line in the order the twist type asks for.
pub open spec fn ell_coeffs(t: TwistType, low: Fp2V, mid: Fp2V, high: Fp2V) -> EllV {
    match t {
        TwistType::M => EllV { c0: low, c1: mid, c2: high },
        TwistType::D => EllV { c0: high, c1: mid, c2: low },
    }
}

/// Twice the running point, with the tangent at it.
#[verifier::opaque]
pub open spec fn doubling_step(inst: Bls12V, r: ProjV, two_inv: nat) -> StepV {
    let e = inst.e12.e6.e2;
    let p = e.p;
    let a = fp2_mul_by_fp(p, fp2_mul(e, r.x, r.y), two_inv);
    let b = fp2_mul(e, r.y, r.y);
    let c = fp2_mul(e, r.z, r.z);
    let e3 = fp2_mul(e, inst.twist_b, fp2_triple(p, c));
    let f = fp2_triple(p, e3);
    let g = fp2_mul_by_fp(p, fp2_add(p, b, f), two_inv);
    let yz = fp2_add(p, r.y, r.z);
    let h = fp2_sub(p, fp2_mul(e, yz, yz), fp2_add(p, b, c));
    let i = fp2_sub(p, e3, b);
    let j = fp2_mul(e, r.x, r.x);
    let ee = fp2_mul(e, e3, e3);
    StepV {
        r: ProjV {
            x: fp2_mul(e, a, fp2_sub(p, b, f)),
            y: fp2_sub(p, fp2_mul(e, g, g), fp2_triple(p, ee)),
            z: fp2_mul(e, b, h),
        },
        line: ell_coeffs(inst.twist_type, i, fp2_triple(p, j), fp2_neg(p, h)),
    }
}

/// The sum of the running point and the operand, with the line through both.
#[verifier::opaque]
pub open spec fn addition_step(inst: Bls12V, r: ProjV, q: TwistPointV) -> StepV {
    let e = inst.e12.e6.e2;
    let p = e.p;
    let theta = fp2_sub(p, r.y, fp2_mul(e, q.y, r.z));
    let lambda = fp2_sub(p, r.x, fp2_mul(e, q.x, r.z));
    let c = fp2_mul(e, theta, theta);
    let d = fp2_mul(e, lambda, lambda);
    let e3 = fp2_mul(e, lambda, d);
    let f = fp2_mul(e, r.z, c);
    let g = fp2_mul(e, r.x, d);
    let h = fp2_sub(p, fp2_add(p, e3, f), fp2_double(p, g));
    let j = fp2_sub(p, fp2_mul(e, theta, q.x), fp2_mul(e, lambda, q.y));
    StepV {
        r: ProjV {
            x: fp2_mul(e, lambda, h),
            y: fp2_sub(p, fp2_mul(e, theta, fp2_sub(p, g, h)), fp2_mul(e, e3, r.y)),
            z: fp2_mul(e, r.z, e3),
        },
        line: ell_coeffs(inst.twist_type, j, fp2_neg(p, theta), lambda),
    }
}

/// The value of a line at a point of the first group, as an element of `Fp12`.
#[verifier::opaque]
pub open spec fn ell(inst: Bls12V, line: EllV, pt: PointV) -> Fp12V {
    let p = inst.e12.p();
    let z = fp2_zero();
    match inst.twist_type {
        TwistType::M => Fp12V {
            c0: Fp6V { c0: line.c0, c1: fp2_mul_by_fp(p, line.c1, pt.x), c2: z },
            c1: Fp6V { c0: z, c1: fp2_mul_by_fp(p, line.c2, pt.y), c2: z },
        },
        TwistType::D => Fp12V {
            c0: Fp6V { c0: fp2_mul_by_fp(p, line.c0, pt.y), c1: z, c2: z },
            c1: Fp6V { c0: fp2_mul_by_fp(p, line.c1, pt.x), c1: line.c2, c2: z },
        },
    }
}

/// The state before the loop: the identity, and the operand itself.
pub open spec fn miller_start(inst: Bls12V, q: TwistPointV) -> MillerV {
    let p = inst.e12.p();
    MillerV { f: fp12_one(p), r: ProjV { x: q.x, y: q.y, z: fp2_one(p) } }
}

/// One round of the loop: square and double, and where the bit is set,
/// multiply and add.
pub open spec fn miller_round(
    inst: Bls12V,
    two_inv: nat,
    pt: PointV,
    q: TwistPointV,
    s: MillerV,
    bit: bool,
) -> MillerV {
    let e = inst.e12;
    let d = doubling_step(inst, s.r, two_inv);
    let f = fp12_mul(e, fp12_square(e, s.f), ell(inst, d.line, pt));
    if bit {
        let a = addition_step(inst, d.r, q);
        MillerV { f: fp12_mul(e, f, ell(inst, a.line, pt)), r: a.r }
    } else {
        MillerV { f, r: d.r }
    }
}

/// The Miller loop of one operand pair over the bits of `n` below its highest.
pub open spec fn miller_loop(inst: Bls12V, two_inv: nat, pt: PointV, q: TwistPointV, n: nat)
    -> MillerV
    decreases n,
{
    if n <= 1 {
        miller_start(inst, q)
    } else {
        miller_round(inst, two_inv, pt, q, miller_loop(inst, two_inv, pt, q, n / 2), n % 2 == 1)
    }
}

/// The product of the Miller functions of the first `k` operand pairs.
pub open spec fn miller_product(
    inst: Bls12V,
    two_inv: nat,
    ps: Seq<PointV>,
    qs: Seq<TwistPointV>,
    k: nat,
) -> Fp12V
    decreases k,
{
    if k == 0 {
        fp12_one(inst.e12.p())
    } else {
        fp12_mul(
            inst.e12,
            miller_product(inst, two_inv, ps, qs, (k - 1) as nat),
            miller_loop(inst, two_inv, ps[k - 1], qs[k - 1], inst.x).f,
        )
    }
}

/// The conjugate where the loop parameter is negative, the element itself where it is not.
pub open spec fn conjugate_if_negative(inst: Bls12V, f: Fp12V) -> Fp12V {
    if inst.x_is_negative {
        fp12_conjugate(inst.e12, f)
    } else {
        f
    }
}

/// The power `f^x`, the inverse being the conjugate.
pub open spec fn exp_by_x(inst: Bls12V, f: Fp12V) -> Fp12V {
    conjugate_if_negative(inst, fp12_pow(inst.e12, f, inst.x))
}

/// The hard part of the final exponentiation: the power
/// `l0 + l1 p + l2 p^2 + l3 p^3` with `l3 = (x - 1)^2`, `l2 = x l3`,
/// `l1 = x l2 - l3` and `l0 = x l1 + 3`.
#[verifier::opaque]
pub open spec fn final_exponentiation_hard(inst: Bls12V, r: Fp12V) -> Fp12V {
    let e = inst.e12;
    let a = fp12_mul(e, exp_by_x(inst, r), fp12_conjugate(e, r));
    let t3 = fp12_mul(e, exp_by_x(inst, a), fp12_conjugate(e, a));
    let t2 = exp_by_x(inst, t3);
    let t1 = fp12_mul(e, exp_by_x(inst, t2), fp12_conjugate(e, t3));
    let t0 = fp12_mul(e, exp_by_x(inst, t1), fp12_mul(e, fp12_square(e, r), r));
    fp12_mul(
        e,
        fp12_mul(e, fp12_mul(e, t0, fp12_frobenius(e, t1, 1)), fp12_frobenius(e, t2, 2)),
        fp12_frobenius(e, t3, 3),
    )
}

/// The final exponentiation; `None` where `f` has no inverse.
pub open spec fn final_exponentiation(inst: Bls12V, f: Fp12V) -> Option<Fp12V> {
    let e = inst.e12;
    match fp12_inv(e, f) {
        Some(inv) => {
            let r0 = fp12_mul(e, fp12_frobenius(e, f, 6), inv);
            let r = fp12_mul(e, fp12_frobenius(e, r0, 2), r0);
            Some(final_exponentiation_hard(inst, r))
        },
        None => None,
    }
}

/// The inverse of 2 in the base field, where there is one.
pub open spec fn half(p: nat) -> Option<nat> {
    fp_inv(p, fp_add(p, fp_one(p), fp_one(p)))
}

/// The pairing product of the operand pairs; `None` where the lists differ
/// in length, where 2 has no inverse in the base field, or where the
/// product of the Miller functions has no inverse.
pub open spec fn bls12_pair(inst: Bls12V, ps: Seq<PointV>, qs: Seq<TwistPointV>) -> Option<
    Fp12V,
> {
    if ps.len() != qs.len() {
        None
    } else {
        match half(inst.e12.p()) {
            Some(two_inv) => final_exponentiation(
                inst,
                conjugate_if_negative(inst, miller_product(inst, two_inv, ps, qs, ps.len())),
            ),
            None => None,
        }
    }
}

/// The values of a list of points of the first group.
pub open spec fn point_values(v: Seq<CurvePoint>) -> Seq<PointV> {
    v.map_values(|q: CurvePoint| q@)
}

/// The values of a list of points of the second group.
pub open spec fn twist_point_values(v: Seq<TwistPoint>) -> Seq<TwistPointV> {
    v.map_values(|q: TwistPoint| q@)
}

/// A point of the twist in homogeneous projective coordinates.
pub struct Proj {
    pub x: Fp2,
    pub y: Fp2,
    pub z: Fp2,
}

impl View for Proj {
    type V = ProjV;

    open spec fn view(&self) -> ProjV {
        ProjV { x: self.x@, y: self.y@, z: self.z@ }
    }
}

/// The three coefficients of a line.
pub struct EllCoeffs {
    pub c0: Fp2,
    pub c1: Fp2,
    pub c2: Fp2,
}

impl View for EllCoeffs {
    type V = EllV;

    open spec fn view(&self) -> EllV {
        EllV { c0: self.c0@, c1: self.c1@, c2: self.c2@ }
    }
}

/// A pairing instance: the loop parameter with its sign, the twist type,
/// and the fields and curves the computation works in.
pub struct Bls12Instance<'a> {
    /// The magnitude of the loop parameter, big-endian.
    pub x: Vec<u8>,
    pub x_is_negative: bool,
    pub twist_type: TwistType,
    pub base_field: &'a PrimeField,
    pub curve: &'a WeierstrassCurve<'a>,
    pub curve_twist: &'a WeierstrassCurveTwist<'a>,
    pub fp2_extension: &'a Extension2<'a>,
    pub fp6_extension: &'a Extension3Over2<'a>,
    pub fp12_extension: &'a Extension2Over3Over2<'a>,
}

impl<'a> View for Bls12Instance<'a> {
    type V = Bls12V;

    open spec fn view(&self) -> Bls12V {
        Bls12V {
            x: be_value(self.x@),
            x_is_negative: self.x_is_negative,
            twist_type: self.twist_type,
            e12: self.fp12_extension@,
            twist_b: self.curve_twist.b@,
        }
    }
}

/// Three times an element of `Fp2`.
pub fn triple(e: &Extension2, a: &Fp2) -> (r: Fp2)
    requires
        e.wf(),
        e.has(a),
    ensures
        r@ == fp2_triple(e@.p, a@),
        e.has(&r),
{
    e.add(&e.double(a), a)
}

impl<'a> Bls12Instance<'a> {
    /// The tower is well formed and the curves lie over its levels.
    pub open spec fn wf(&self) -> bool {
        &&& self.fp12_extension.wf()
        &&& self.fp6_extension@ == self.fp12_extension@.e6
        &&& self.fp2_extension@ == self.fp12_extension@.e6.e2
        &&& self.base_field.modulus() == self.fp12_extension@.p()
        &&& self.curve.wf()
        &&& self.curve@.p == self.fp12_extension@.p()
        &&& self.curve_twist.wf()
        &&& self.curve_twist@.e == self.fp12_extension@.e6.e2
    }

    /// Whether the coordinates of `r` are reduced.
    pub open spec fn has(&self, r: &Proj) -> bool {
        let e = self.fp12_extension@.e6.e2;
        e.has(r.x@) && e.has(r.y@) && e.has(r.z@)
    }

    /// The coefficients of a line in the order the twist type asks for.
    fn order_coeffs(&self, low: Fp2, mid: Fp2, high: Fp2) -> (r: EllCoeffs)
        ensures
            r@ == ell_coeffs(self.twist_type, low@, mid@, high@),
    {
        match self.twist_type {
            TwistType::M => EllCoeffs { c0: low, c1: mid, c2: high },
            TwistType::D => EllCoeffs { c0: high, c1: mid, c2: low },
        }
    }

    /// Twice the running point, with the tangent at it.
    pub fn doubling_step(&self, r: &Proj, two_inv: &Fp) -> (s: (Proj, EllCoeffs))
        requires
            self.wf(),
            self.has(r),
        ensures
            (StepV { r: s.0@, line: s.1@ }) == doubling_step(self@, r@, two_inv@),
            self.has(&s.0),
    {
        proof {
            reveal(doubling_step);
        }
        let e = self.fp12_extension.field.field;
        let a = e.mul_by_fp(&e.mul(&r.x, &r.y), two_inv);
        let b = e.mul(&r.y, &r.y);
        let c = e.mul(&r.z, &r.z);
        let e3 = e.mul(&self.curve_twist.b, &triple(e, &c));
        let f = triple(e, &e3);
        let g = e.mul_by_fp(&e.add(&b, &f), two_inv);
        let yz = e.add(&r.y, &r.z);
        let h = e.sub(&e.mul(&yz, &yz), &e.add(&b, &c));
        let i = e.sub(&e3, &b);
        let j = e.mul(&r.x, &r.x);
        let ee = e.mul(&e3, &e3);
        let x3 = e.mul(&a, &e.sub(&b, &f));
        let y3 = e.sub(&e.mul(&g, &g), &triple(e, &ee));
        let z3 = e.mul(&b, &h);
        let line = self.order_coeffs(i, triple(e, &j), e.neg(&h));
        (Proj { x: x3, y: y3, z: z3 }, line)
    }

    /// The sum of the running point and the operand, with the line through both.
    pub fn addition_step(&self, r: &Proj, q: &TwistPoint) -> (s: (Proj, EllCoeffs))
        requires
            self.wf(),
            self.has(r),
        ensures
            (StepV { r: s.0@, line: s.1@ }) == addition_step(self@, r@, q@),
            self.has(&s.0),
    {
        proof {
            reveal(addition_step);
        }
        let e = self.fp12_extension.field.field;
        let theta = e.sub(&r.y, &e.mul(&q.y, &r.z));
        let lambda = e.sub(&r.x, &e.mul(&q.x, &r.z));
        let c = e.mul(&theta, &theta);
        let d = e.mul(&lambda, &lambda);
        let e3 = e.mul(&lambda, &d);
        let f = e.mul(&r.z, &c);
        let g = e.mul(&r.x, &d);
        let h = e.sub(&e.add(&e3, &f), &e.double(&g));
        let j = e.sub(&e.mul(&theta, &q.x), &e.mul(&lambda, &q.y));
        let x3 = e.mul(&lambda, &h);
        let y3 = e.sub(&e.mul(&theta, &e.sub(&g, &h)), &e.mul(&e3, &r.y));
        let z3 = e.mul(&r.z, &e3);
        let line = self.order_coeffs(j, e.neg(&theta), lambda);
        (Proj { x: x3, y: y3, z: z3 }, line)
    }

    /// The value of a line at a point of the first group.
    pub fn ell(&self, line: &EllCoeffs, pt: &CurvePoint) -> (r: Fp12)
        requires
            self.wf(),
        ensures
            r@ == ell(self@, line@, pt@),
    {
        proof {
            reveal(ell);
        }
        let e = self.fp12_extension.field.field;
        match self.twist_type {
            TwistType::M => Fp12 {
                c0: Fp6 { c0: line.c0.clone(), c1: e.mul_by_fp(&line.c1, &pt.x), c2: e.zero() },
                c1: Fp6 { c0: e.zero(), c1: e.mul_by_fp(&line.c2, &pt.y), c2: e.zero() },
            },
            TwistType::D => Fp12 {
                c0: Fp6 { c0: e.mul_by_fp(&line.c0, &pt.y), c1: e.zero(), c2: e.zero() },
                c1: Fp6 { c0: e.mul_by_fp(&line.c1, &pt.x), c1: line.c2.clone(), c2: e.zero() },
            },
        }
    }

    /// The Miller function of one operand pair, `bits` being the bits of the
    /// loop parameter.
    pub fn miller_loop(&self, pt: &CurvePoint, q: &TwistPoint, two_inv: &Fp, bits: &Vec<bool>)
        -> (f: Fp12)
        requires
            self.wf(),
            self.fp12_extension@.e6.e2.has(q.x@),
            self.fp12_extension@.e6.e2.has(q.y@),
            bits_value(bits@) == self@.x,
        ensures
            f@ == miller_loop(self@, two_inv@, pt@, q@, self@.x).f,
            self.fp12_extension.has(&f),
    {
        let e12 = self.fp12_extension;
        let e = e12.field.field;
        let n = bits.len();
        let mut f = e12.one();
        let mut r = Proj { x: q.x.clone(), y: q.y.clone(), z: e.one() };
        let mut started = false;
        let mut i: usize = 0;
        proof {
            lemma_bits_take_ends(bits@);
        }
        while i < n
            invariant
                self.wf(),
                e12 == self.fp12_extension,
                e == e12.field.field,
                n == bits.len(),
                i <= n,
                started == (bits_value(bits@.take(i as int)) >= 1),
                (MillerV { f: f@, r: r@ }) == miller_loop(
                    self@,
                    two_inv@,
                    pt@,
                    q@,
                    bits_value(bits@.take(i as int)),
                ),
                e12.has(&f),
                self.has(&r),
            decreases n - i,
        {
            proof {
                lemma_bits_take_step(bits@, i as int);
            }
            if started {
                let (r2, tangent) = self.doubling_step(&r, two_inv);
                f = e12.mul(&e12.square(&f), &self.ell(&tangent, pt));
                r = r2;
                if bits[i] {
                    let (r3, chord) = self.addition_step(&r, q);
                    f = e12.mul(&f, &self.ell(&chord, pt));
                    r = r3;
                }
            } else if bits[i] {
                started = true;
            }
            i = i + 1;
        }
        f
    }

    /// The power of `f` to the magnitude of the loop parameter, conjugated
    /// where the parameter is negative.
    pub fn exp_by_x(&self, f: &Fp12, bits: &Vec<bool>) -> (r: Fp12)
        requires
            self.wf(),
            bits_value(bits@) == self@.x,
        ensures
            r@ == exp_by_x(self@, f@),
            self.fp12_extension.has(&r),
    {
        let e12 = self.fp12_extension;
        let n = bits.len();
        let mut acc = e12.one();
        let mut started = false;
        let mut i: usize = 0;
        proof {
            lemma_bits_take_ends(bits@);
        }
        while i < n
            invariant
                self.wf(),
                e12 == self.fp12_extension,
                n == bits.len(),
                i <= n,
                started == (bits_value(bits@.take(i as int)) >= 1),
                acc@ == fp12_pow(e12@, f@, bits_value(bits@.take(i as int))),
                e12.has(&acc),
            decreases n - i,
        {
            proof {
                lemma_bits_take_step(bits@, i as int);
            }
            if started || bits[i] {
                acc = e12.square(&acc);
                if bits[i] {
                    acc = e12.mul(&acc, f);
                }
                started = true;
            }
            i = i + 1;
        }
        if self.x_is_negative {
            e12.conjugate(&acc)
        } else {
            acc
        }
    }

    /// The final exponentiation; `None` where `f` has no inverse.
    pub fn final_exponentiation(&self, f: &Fp12, bits: &Vec<bool>) -> (r: Option<Fp12>)
        requires
            self.wf(),
            self.fp12_extension.has(f),
            bits_value(bits@) == self@.x,
        ensures
            r is Some <==> final_exponentiation(self@, f@) is Some,
            r is Some ==> Some(r->0@) == final_exponentiation(self@, f@),
    {
        proof {
            reveal(final_exponentiation_hard);
        }
        let e = self.fp12_extension;
        let inv = match e.inverse(f) {
            Some(inv) => inv,
            None => { return None; },
        };
        let r0 = e.mul(&e.frobenius_map(f, 6), &inv);
        let r = e.mul(&e.frobenius_map(&r0, 2), &r0);
        let a = e.mul(&self.exp_by_x(&r, bits), &e.conjugate(&r));
        let t3 = e.mul(&self.exp_by_x(&a, bits), &e.conjugate(&a));
        let t2 = self.exp_by_x(&t3, bits);
        let t1 = e.mul(&self.exp_by_x(&t2, bits), &e.conjugate(&t3));
        let t0 = e.mul(&self.exp_by_x(&t1, bits), &e.mul(&e.square(&r), &r));
        let u = e.mul(&e.mul(&t0, &e.frobenius_map(&t1, 1)), &e.frobenius_map(&t2, 2));
        Some(e.mul(&u, &e.frobenius_map(&t3, 3)))
    }

    /// The pairing product of the operand pairs; `None` where the engine
    /// cannot evaluate it.
    pub fn pair(&self, points: &Vec<CurvePoint>, twists: &Vec<TwistPoint>) -> (r: Option<Fp12>)
        requires
            self.wf(),
            forall|i: int|
                0 <= i < twists.len() ==> self.fp12_extension@.e6.e2.has((#[trigger] twists[i]).x@)
                    && self.fp12_extension@.e6.e2.has(twists[i].y@),
        ensures
            r is Some <==> bls12_pair(
                self@,
                point_values(points@),
                twist_point_values(twists@),
            ) is Some,
            r is Some ==> Some(r->0@) == bls12_pair(
                self@,
                point_values(points@),
                twist_point_values(twists@),
            ),
    {
        if points.len() != twists.len() {
            return None;
        }
        let e12 = self.fp12_extension;
        let field = e12.field.field.field;
        let one = field.one();
        let two_inv = match field.inverse(&field.add(&one, &one)) {
            Some(t) => t,
            None => { return None; },
        };
        let bits = bits_be(self.x.as_slice());
        let ghost ps = point_values(points@);
        let ghost qs = twist_point_values(twists@);
        let mut f = e12.one();
        let mut k: usize = 0;
        while k < points.len()
            invariant
                self.wf(),
                e12 == self.fp12_extension,
                points.len() == twists.len(),
                k <= points.len(),
                ps == point_values(points@),
                qs == twist_point_values(twists@),
                bits_value(bits@) == self@.x,
                forall|i: int|
                    0 <= i < twists.len() ==> self.fp12_extension@.e6.e2.has(
                        (#[trigger] twists[i]).x@,
                    ) && self.fp12_extension@.e6.e2.has(twists[i].y@),
                f@ == miller_product(self@, two_inv@, ps, qs, k as nat),
                e12.has(&f),
            decreases points.len() - k,
        {
            let m = self.miller_loop(&points[k], &twists[k], &two_inv, &bits);
            f = e12.mul(&f, &m);
            k = k + 1;
        }
        if self.x_is_negative {
            f = e12.conjugate(&f);
        }
        self.final_exponentiation(&f, &bits)
    }
}

} // verus!
