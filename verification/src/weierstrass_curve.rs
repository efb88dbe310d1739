//! The curve `y^2 = x^3 + a x + b` over the base field: the first group.
use vstd::prelude::*;
use crate::bigint::be_value;
use crate::bits::{bits_be, bits_value, lemma_bits_take_ends, lemma_bits_take_step};
use crate::fp::{fp_add, fp_mul, fp_one, fp_sub, Fp, PrimeField};

verus! {

/// The value of a curve over the base field.
pub struct CurveV {
    /// The modulus of the base field.
    pub p: nat,
    pub a: nat,
    pub b: nat,
    /// The order of the subgroup that the operands have to lie in.
    pub order: nat,
}

/// The value of a point in affine coordinates.
pub struct PointV {
    pub x: nat,
    pub y: nat,
}

/// The value of a point in Jacobian coordinates: the affine point
/// `(x / z^2, y / z^3)`, or the point at infinity where `z` is 0.
pub struct JacobianV {
    pub x: nat,
    pub y: nat,
    pub z: nat,
}

/// Twice a field element.
pub open spec fn fp_double(p: nat, a: nat) -> nat {
    fp_add(p, a, a)
}

/// Three times a field element.
pub open spec fn fp_triple(p: nat, a: nat) -> nat {
    fp_add(p, fp_double(p, a), a)
}

/// Whether a point satisfies the curve's equation.
#[verifier::opaque]
pub open spec fn g1_on_curve(c: CurveV, q: PointV) -> bool {
    fp_mul(c.p, q.y, q.y) == fp_add(
        c.p,
        fp_add(c.p, fp_mul(c.p, fp_mul(c.p, q.x, q.x), q.x), fp_mul(c.p, c.a, q.x)),
        c.b,
    )
}

/// The point at infinity.
pub open spec fn g1_infinity(p: nat) -> JacobianV {
    JacobianV { x: fp_one(p), y: fp_one(p), z: 0 }
}

/// Twice a point.
#[verifier::opaque]
pub open spec fn g1_double(c: CurveV, r: JacobianV) -> JacobianV {
    let p = c.p;
    let xx = fp_mul(p, r.x, r.x);
    let yy = fp_mul(p, r.y, r.y);
    let yyyy = fp_mul(p, yy, yy);
    let zz = fp_mul(p, r.z, r.z);
    let s = fp_double(p, fp_double(p, fp_mul(p, r.x, yy)));
    let m = fp_add(p, fp_triple(p, xx), fp_mul(p, c.a, fp_mul(p, zz, zz)));
    let x3 = fp_sub(p, fp_mul(p, m, m), fp_double(p, s));
    let y3 = fp_sub(
        p,
        fp_mul(p, m, fp_sub(p, s, x3)),
        fp_double(p, fp_double(p, fp_double(p, yyyy))),
    );
    let z3 = fp_double(p, fp_mul(p, r.y, r.z));
    JacobianV { x: x3, y: y3, z: z3 }
}

/// The sum of a point and a point in affine coordinates.
#[verifier::opaque]
pub open spec fn g1_add_mixed(c: CurveV, r: JacobianV, q: PointV) -> JacobianV {
    let p = c.p;
    if r.z == 0 {
        JacobianV { x: q.x, y: q.y, z: fp_one(p) }
    } else {
        let zz = fp_mul(p, r.z, r.z);
        let u2 = fp_mul(p, q.x, zz);
        let s2 = fp_mul(p, fp_mul(p, q.y, r.z), zz);
        if u2 == r.x {
            if s2 == r.y {
                g1_double(c, r)
            } else {
                g1_infinity(p)
            }
        } else {
            let h = fp_sub(p, u2, r.x);
            let t = fp_sub(p, s2, r.y);
            let hh = fp_mul(p, h, h);
            let hhh = fp_mul(p, h, hh);
            let v = fp_mul(p, r.x, hh);
            let x3 = fp_sub(p, fp_sub(p, fp_mul(p, t, t), hhh), fp_double(p, v));
            let y3 = fp_sub(p, fp_mul(p, t, fp_sub(p, v, x3)), fp_mul(p, r.y, hhh));
            let z3 = fp_mul(p, r.z, h);
            JacobianV { x: x3, y: y3, z: z3 }
        }
    }
}

/// The point `q` added to itself `n` times, by doubling and adding along
/// the bits of `n`.
pub open spec fn g1_mul(c: CurveV, q: PointV, n: nat) -> JacobianV
    decreases n,
{
    if n == 0 {
        g1_infinity(c.p)
    } else {
        let h = g1_double(c, g1_mul(c, q, n / 2));
        if n % 2 == 1 {
            g1_add_mixed(c, h, q)
        } else {
            h
        }
    }
}

/// Whether the order of the subgroup takes the point to the point at infinity.
#[verifier::opaque]
pub open spec fn g1_in_subgroup(c: CurveV, q: PointV) -> bool {
    g1_mul(c, q, c.order).z == 0
}

/// A curve over the base field with the order of its subgroup.
pub struct WeierstrassCurve<'a> {
    pub field: &'a PrimeField,
    pub a: Fp,
    pub b: Fp,
    /// The order of the subgroup, big-endian.
    pub order: Vec<u8>,
}

impl<'a> View for WeierstrassCurve<'a> {
    type V = CurveV;

    open spec fn view(&self) -> CurveV {
        CurveV {
            p: self.field.modulus(),
            a: self.a@,
            b: self.b@,
            order: be_value(self.order@),
        }
    }
}

/// A point of the first group in affine coordinates, with its curve.
pub struct CurvePoint<'a> {
    pub curve: &'a WeierstrassCurve<'a>,
    pub x: Fp,
    pub y: Fp,
}

impl<'a> View for CurvePoint<'a> {
    type V = PointV;

    open spec fn view(&self) -> PointV {
        PointV { x: self.x@, y: self.y@ }
    }
}

/// A point of the first group in Jacobian coordinates.
pub struct Jacobian {
    pub x: Fp,
    pub y: Fp,
    pub z: Fp,
}

impl View for Jacobian {
    type V = JacobianV;

    open spec fn view(&self) -> JacobianV {
        JacobianV { x: self.x@, y: self.y@, z: self.z@ }
    }
}

impl<'a> WeierstrassCurve<'a> {
    /// The field is well formed and the coefficients are reduced.
    pub open spec fn wf(&self) -> bool {
        self.field.wf() && self.field.has(&self.a) && self.field.has(&self.b)
    }

    /// Whether the coordinates of `r` are reduced.
    pub open spec fn has(&self, r: &Jacobian) -> bool {
        self.field.has(&r.x) && self.field.has(&r.y) && self.field.has(&r.z)
    }

    /// The curve with the given coefficients and subgroup order.
    pub fn new(field: &'a PrimeField, order: Vec<u8>, a: Fp, b: Fp) -> (r: WeierstrassCurve<'a>)
        requires
            field.wf(),
            field.has(&a),
            field.has(&b),
        ensures
            r.wf(),
            r@ == (CurveV { p: field.modulus(), a: a@, b: b@, order: be_value(order@) }),
            r.field == field,
    {
        WeierstrassCurve { field, a, b, order }
    }

    /// The point at infinity.
    pub fn infinity(&self) -> (r: Jacobian)
        requires
            self.wf(),
        ensures
            r@ == g1_infinity(self@.p),
            self.has(&r),
    {
        Jacobian { x: self.field.one(), y: self.field.one(), z: self.field.zero() }
    }

    /// Twice a point.
    pub fn double(&self, r: &Jacobian) -> (d: Jacobian)
        requires
            self.wf(),
            self.has(r),
        ensures
            d@ == g1_double(self@, r@),
            self.has(&d),
    {
        proof {
            reveal(g1_double);
        }
        let f = self.field;
        let xx = f.mul(&r.x, &r.x);
        let yy = f.mul(&r.y, &r.y);
        let yyyy = f.mul(&yy, &yy);
        let zz = f.mul(&r.z, &r.z);
        let xyy = f.mul(&r.x, &yy);
        let s = f.double(&f.double(&xyy));
        let xx3 = f.add(&f.double(&xx), &xx);
        let zzzz = f.mul(&zz, &zz);
        let m = f.add(&xx3, &f.mul(&self.a, &zzzz));
        let x3 = f.sub(&f.mul(&m, &m), &f.double(&s));
        let y8 = f.double(&f.double(&f.double(&yyyy)));
        let y3 = f.sub(&f.mul(&m, &f.sub(&s, &x3)), &y8);
        let z3 = f.double(&f.mul(&r.y, &r.z));
        Jacobian { x: x3, y: y3, z: z3 }
    }

    /// The sum of a point and a point in affine coordinates.
    pub fn add_mixed(&self, r: &Jacobian, q: &CurvePoint) -> (s: Jacobian)
        requires
            self.wf(),
            self.has(r),
            self.field.has(&q.x),
            self.field.has(&q.y),
        ensures
            s@ == g1_add_mixed(self@, r@, q@),
            self.has(&s),
    {
        proof {
            reveal(g1_add_mixed);
        }
        let f = self.field;
        if f.is_zero(&r.z) {
            return Jacobian { x: q.x.clone(), y: q.y.clone(), z: f.one() };
        }
        let zz = f.mul(&r.z, &r.z);
        let u2 = f.mul(&q.x, &zz);
        let s2 = f.mul(&f.mul(&q.y, &r.z), &zz);
        if f.eq(&u2, &r.x) {
            if f.eq(&s2, &r.y) {
                return self.double(r);
            } else {
                return self.infinity();
            }
        }
        let h = f.sub(&u2, &r.x);
        let t = f.sub(&s2, &r.y);
        let hh = f.mul(&h, &h);
        let hhh = f.mul(&h, &hh);
        let v = f.mul(&r.x, &hh);
        let x3 = f.sub(&f.sub(&f.mul(&t, &t), &hhh), &f.double(&v));
        let y3 = f.sub(&f.mul(&t, &f.sub(&v, &x3)), &f.mul(&r.y, &hhh));
        let z3 = f.mul(&r.z, &h);
        Jacobian { x: x3, y: y3, z: z3 }
    }

    /// The point `q` added to itself as often as the big-endian `scalar` says.
    pub fn mul(&self, q: &CurvePoint, scalar: &[u8]) -> (r: Jacobian)
        requires
            self.wf(),
            self.field.has(&q.x),
            self.field.has(&q.y),
        ensures
            r@ == g1_mul(self@, q@, be_value(scalar@)),
            self.has(&r),
    {
        let bits = bits_be(scalar);
        let n = bits.len();
        let mut acc = self.infinity();
        let mut started = false;
        let mut i: usize = 0;
        proof {
            lemma_bits_take_ends(bits@);
        }
        while i < n
            invariant
                self.wf(),
                self.field.has(&q.x),
                self.field.has(&q.y),
                n == bits.len(),
                i <= n,
                started == (bits_value(bits@.take(i as int)) > 0),
                acc@ == g1_mul(self@, q@, bits_value(bits@.take(i as int))),
                self.has(&acc),
            decreases n - i,
        {
            proof {
                lemma_bits_take_step(bits@, i as int);
            }
            if started || bits[i] {
                acc = self.double(&acc);
                if bits[i] {
                    acc = self.add_mixed(&acc, q);
                }
                started = true;
            }
            i = i + 1;
        }
        acc
    }
}

impl<'a> CurvePoint<'a> {
    /// The curve is well formed and the coordinates are reduced.
    pub open spec fn wf(&self) -> bool {
        self.curve.wf() && self.curve.field.has(&self.x) && self.curve.field.has(&self.y)
    }

    /// The point of `curve` with the given affine coordinates.
    pub fn point_from_xy(curve: &'a WeierstrassCurve<'a>, x: Fp, y: Fp) -> (r: CurvePoint<'a>)
        requires
            curve.wf(),
            curve.field.has(&x),
            curve.field.has(&y),
        ensures
            r.wf(),
            r.curve == curve,
            r@ == (PointV { x: x@, y: y@ }),
    {
        CurvePoint { curve, x, y }
    }

    /// Whether the point satisfies the curve's equation.
    pub fn check_on_curve(&self) -> (r: bool)
        requires
            self.wf(),
        ensures
            r == g1_on_curve(self.curve@, self@),
    {
        proof {
            reveal(g1_on_curve);
        }
        let f = self.curve.field;
        let lhs = f.mul(&self.y, &self.y);
        let x3 = f.mul(&f.mul(&self.x, &self.x), &self.x);
        let ax = f.mul(&self.curve.a, &self.x);
        let rhs = f.add(&f.add(&x3, &ax), &self.curve.b);
        f.eq(&lhs, &rhs)
    }

    /// Whether the order of the subgroup takes the point to the point at infinity.
    pub fn check_correct_subgroup(&self) -> (r: bool)
        requires
            self.wf(),
        ensures
            r == g1_in_subgroup(self.curve@, self@),
    {
        proof {
            reveal(g1_in_subgroup);
        }
        let f = self.curve.field;
        let m = self.curve.mul(self, self.curve.order.as_slice());
        f.is_zero(&m.z)
    }
}

} // verus!
