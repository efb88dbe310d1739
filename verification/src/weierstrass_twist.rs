//! The curve `y^2 = x^3 + a x + b` over `Fp2`: the twist, which holds the
//! second group.
use vstd::prelude::*;
use crate::bigint::be_value;
use crate::bits::{bits_be, bits_value, lemma_bits_take_ends, lemma_bits_take_step};
use crate::fp2::{fp2_add, fp2_mul, fp2_one, fp2_sub, fp2_zero, Ext2V, Extension2, Fp2, Fp2V};

verus! {

/// The value of a curve over `Fp2`.
pub struct TwistV {
    /// The field of the coordinates.
    pub e: Ext2V,
    pub a: Fp2V,
    pub b: Fp2V,
    /// The order of the subgroup that the operands have to lie in.
    pub order: nat,
}

/// The value of a point in affine coordinates.
pub struct TwistPointV {
    pub x: Fp2V,
    pub y: Fp2V,
}

/// The value of a point in Jacobian coordinates: the affine point
/// `(x / z^2, y / z^3)`, or the point at infinity where `z` is 0.
pub struct TwistJacobianV {
    pub x: Fp2V,
    pub y: Fp2V,
    pub z: Fp2V,
}

/// Twice an element of `Fp2`.
pub open spec fn fp2_double(p: nat, a: Fp2V) -> Fp2V {
    fp2_add(p, a, a)
}

/// Three times an element of `Fp2`.
pub open spec fn fp2_triple(p: nat, a: Fp2V) -> Fp2V {
    fp2_add(p, fp2_double(p, a), a)
}

/// Whether a point satisfies the curve's equation.
#[verifier::opaque]
pub open spec fn g2_on_curve(c: TwistV, q: TwistPointV) -> bool {
    fp2_mul(c.e, q.y, q.y) == fp2_add(
        c.e.p,
        fp2_add(c.e.p, fp2_mul(c.e, fp2_mul(c.e, q.x, q.x), q.x), fp2_mul(c.e, c.a, q.x)),
        c.b,
    )
}

/// The point at infinity.
pub open spec fn g2_infinity(p: nat) -> TwistJacobianV {
    TwistJacobianV { x: fp2_one(p), y: fp2_one(p), z: fp2_zero() }
}

/// Twice a point.
#[verifier::opaque]
pub open spec fn g2_double(c: TwistV, r: TwistJacobianV) -> TwistJacobianV {
    let p = c.e.p;
    let xx = fp2_mul(c.e, r.x, r.x);
    let yy = fp2_mul(c.e, r.y, r.y);
    let yyyy = fp2_mul(c.e, yy, yy);
    let zz = fp2_mul(c.e, r.z, r.z);
    let s = fp2_double(p, fp2_double(p, fp2_mul(c.e, r.x, yy)));
    let m = fp2_add(p, fp2_triple(p, xx), fp2_mul(c.e, c.a, fp2_mul(c.e, zz, zz)));
    let x3 = fp2_sub(p, fp2_mul(c.e, m, m), fp2_double(p, s));
    let y3 = fp2_sub(
        p,
        fp2_mul(c.e, m, fp2_sub(p, s, x3)),
        fp2_double(p, fp2_double(p, fp2_double(p, yyyy))),
    );
    let z3 = fp2_double(p, fp2_mul(c.e, r.y, r.z));
    TwistJacobianV { x: x3, y: y3, z: z3 }
}

/// The sum of a point and a point in affine coordinates.
#[verifier::opaque]
pub open spec fn g2_add_mixed(c: TwistV, r: TwistJacobianV, q: TwistPointV) -> TwistJacobianV {
    let p = c.e.p;
    if r.z == fp2_zero() {
        TwistJacobianV { x: q.x, y: q.y, z: fp2_one(p) }
    } else {
        let zz = fp2_mul(c.e, r.z, r.z);
        let u2 = fp2_mul(c.e, q.x, zz);
        let s2 = fp2_mul(c.e, fp2_mul(c.e, q.y, r.z), zz);
        if u2 == r.x {
            if s2 == r.y {
                g2_double(c, r)
            } else {
                g2_infinity(p)
            }
        } else {
            let h = fp2_sub(p, u2, r.x);
            let t = fp2_sub(p, s2, r.y);
            let hh = fp2_mul(c.e, h, h);
            let hhh = fp2_mul(c.e, h, hh);
            let v = fp2_mul(c.e, r.x, hh);
            let x3 = fp2_sub(p, fp2_sub(p, fp2_mul(c.e, t, t), hhh), fp2_double(p, v));
            let y3 = fp2_sub(p, fp2_mul(c.e, t, fp2_sub(p, v, x3)), fp2_mul(c.e, r.y, hhh));
            let z3 = fp2_mul(c.e, r.z, h);
            TwistJacobianV { x: x3, y: y3, z: z3 }
        }
    }
}

/// The point `q` added to itself `n` times, by doubling and adding along
/// the bits of `n`.
pub open spec fn g2_mul(c: TwistV, q: TwistPointV, n: nat) -> TwistJacobianV
    decreases n,
{
    if n == 0 {
        g2_infinity(c.e.p)
    } else {
        let h = g2_double(c, g2_mul(c, q, n / 2));
        if n % 2 == 1 {
            g2_add_mixed(c, h, q)
        } else {
            h
        }
    }
}

/// Whether the order of the subgroup takes the point to the point at infinity.
#[verifier::opaque]
pub open spec fn g2_in_subgroup(c: TwistV, q: TwistPointV) -> bool {
    g2_mul(c, q, c.order).z == fp2_zero()
}

/// A curve over `Fp2` with the order of its subgroup.
pub struct WeierstrassCurveTwist<'a> {
    pub field: &'a Extension2<'a>,
    pub a: Fp2,
    pub b: Fp2,
    /// The order of the subgroup, big-endian.
    pub order: Vec<u8>,
}

impl<'a> View for WeierstrassCurveTwist<'a> {
    type V = TwistV;

    open spec fn view(&self) -> TwistV {
        TwistV {
            e: self.field@,
            a: self.a@,
            b: self.b@,
            order: be_value(self.order@),
        }
    }
}

/// A point of the second group in affine coordinates, with its curve.
pub struct TwistPoint<'a> {
    pub curve: &'a WeierstrassCurveTwist<'a>,
    pub x: Fp2,
    pub y: Fp2,
}

impl<'a> View for TwistPoint<'a> {
    type V = TwistPointV;

    open spec fn view(&self) -> TwistPointV {
        TwistPointV { x: self.x@, y: self.y@ }
    }
}

/// A point of the second group in Jacobian coordinates.
pub struct TwistJacobian {
    pub x: Fp2,
    pub y: Fp2,
    pub z: Fp2,
}

impl View for TwistJacobian {
    type V = TwistJacobianV;

    open spec fn view(&self) -> TwistJacobianV {
        TwistJacobianV { x: self.x@, y: self.y@, z: self.z@ }
    }
}

impl<'a> WeierstrassCurveTwist<'a> {
    /// The field is well formed and the coefficients are reduced.
    pub open spec fn wf(&self) -> bool {
        self.field.wf() && self.field.has(&self.a) && self.field.has(&self.b)
    }

    /// Whether the coordinates of `r` are reduced.
    pub open spec fn has(&self, r: &TwistJacobian) -> bool {
        self.field.has(&r.x) && self.field.has(&r.y) && self.field.has(&r.z)
    }

    /// The curve with the given coefficients and subgroup order.
    pub fn new(field: &'a Extension2<'a>, order: Vec<u8>, a: Fp2, b: Fp2) -> (r: WeierstrassCurveTwist<'a>)
        requires
            field.wf(),
            field.has(&a),
            field.has(&b),
        ensures
            r.wf(),
            r@ == (TwistV { e: field@, a: a@, b: b@, order: be_value(order@) }),
            r.field == field,
    {
        WeierstrassCurveTwist { field, a, b, order }
    }

    /// The point at infinity.
    pub fn infinity(&self) -> (r: TwistJacobian)
        requires
            self.wf(),
        ensures
            r@ == g2_infinity(self@.e.p),
            self.has(&r),
    {
        TwistJacobian { x: self.field.one(), y: self.field.one(), z: self.field.zero() }
    }

    /// Twice a point.
    pub fn double(&self, r: &TwistJacobian) -> (d: TwistJacobian)
        requires
            self.wf(),
            self.has(r),
        ensures
            d@ == g2_double(self@, r@),
            self.has(&d),
    {
        proof {
            reveal(g2_double);
        }
        let f = self.field;
        let xx = f.mul(&r.x, &r.x);
        let yy = f.mul(&r.y, &r.y);
        let yyyy = f.mul(&yy, &yy);
        let zz = f.mul(&r.z, &r.z);
        let xyy = f.mul(&r.x, &yy);
        let s = f.double(&f.double(&xyy));
        let xx3 = f.add(&f.double(&xx), &xx);
        let zzzz = f.mul(&zz, &zz);
        let m = f.add(&xx3, &f.mul(&self.a, &zzzz));
        let x3 = f.sub(&f.mul(&m, &m), &f.double(&s));
        let y8 = f.double(&f.double(&f.double(&yyyy)));
        let y3 = f.sub(&f.mul(&m, &f.sub(&s, &x3)), &y8);
        let z3 = f.double(&f.mul(&r.y, &r.z));
        TwistJacobian { x: x3, y: y3, z: z3 }
    }

    /// The sum of a point and a point in affine coordinates.
    pub fn add_mixed(&self, r: &TwistJacobian, q: &TwistPoint) -> (s: TwistJacobian)
        requires
            self.wf(),
            self.has(r),
            self.field.has(&q.x),
            self.field.has(&q.y),
        ensures
            s@ == g2_add_mixed(self@, r@, q@),
            self.has(&s),
    {
        proof {
            reveal(g2_add_mixed);
        }
        let f = self.field;
        if f.is_zero(&r.z) {
            return TwistJacobian { x: q.x.clone(), y: q.y.clone(), z: f.one() };
        }
        let zz = f.mul(&r.z, &r.z);
        let u2 = f.mul(&q.x, &zz);
        let s2 = f.mul(&f.mul(&q.y, &r.z), &zz);
        if f.eq(&u2, &r.x) {
            if f.eq(&s2, &r.y) {
                return self.double(r);
            } else {
                return self.infinity();
            }
        }
        let h = f.sub(&u2, &r.x);
        let t = f.sub(&s2, &r.y);
        let hh = f.mul(&h, &h);
        let hhh = f.mul(&h, &hh);
        let v = f.mul(&r.x, &hh);
        let x3 = f.sub(&f.sub(&f.mul(&t, &t), &hhh), &f.double(&v));
        let y3 = f.sub(&f.mul(&t, &f.sub(&v, &x3)), &f.mul(&r.y, &hhh));
        let z3 = f.mul(&r.z, &h);
        TwistJacobian { x: x3, y: y3, z: z3 }
    }

    /// The point `q` added to itself as often as the big-endian `scalar` says.
    pub fn mul(&self, q: &TwistPoint, scalar: &[u8]) -> (r: TwistJacobian)
        requires
            self.wf(),
            self.field.has(&q.x),
            self.field.has(&q.y),
        ensures
            r@ == g2_mul(self@, q@, be_value(scalar@)),
            self.has(&r),
    {
        let bits = bits_be(scalar);
        let n = bits.len();
        let mut acc = self.infinity();
        let mut started = false;
        let mut i: usize = 0;
        proof {
            lemma_bits_take_ends(bits@);
        }
        while i < n
            invariant
                self.wf(),
                self.field.has(&q.x),
                self.field.has(&q.y),
                n == bits.len(),
                i <= n,
                started == (bits_value(bits@.take(i as int)) > 0),
                acc@ == g2_mul(self@, q@, bits_value(bits@.take(i as int))),
                self.has(&acc),
            decreases n - i,
        {
            proof {
                lemma_bits_take_step(bits@, i as int);
            }
            if started || bits[i] {
                acc = self.double(&acc);
                if bits[i] {
                    acc = self.add_mixed(&acc, q);
                }
                started = true;
            }
            i = i + 1;
        }
        acc
    }
}

impl<'a> TwistPoint<'a> {
    /// The curve is well formed and the coordinates are reduced.
    pub open spec fn wf(&self) -> bool {
        self.curve.wf() && self.curve.field.has(&self.x) && self.curve.field.has(&self.y)
    }

    /// The point of `curve` with the given affine coordinates.
    pub fn point_from_xy(curve: &'a WeierstrassCurveTwist<'a>, x: Fp2, y: Fp2) -> (r: TwistPoint<'a>)
        requires
            curve.wf(),
            curve.field.has(&x),
            curve.field.has(&y),
        ensures
            r.wf(),
            r.curve == curve,
            r@ == (TwistPointV { x: x@, y: y@ }),
    {
        TwistPoint { curve, x, y }
    }

    /// Whether the point satisfies the curve's equation.
    pub fn check_on_curve(&self) -> (r: bool)
        requires
            self.wf(),
        ensures
            r == g2_on_curve(self.curve@, self@),
    {
        proof {
            reveal(g2_on_curve);
        }
        let f = self.curve.field;
        let lhs = f.mul(&self.y, &self.y);
        let x3 = f.mul(&f.mul(&self.x, &self.x), &self.x);
        let ax = f.mul(&self.curve.a, &self.x);
        let rhs = f.add(&f.add(&x3, &ax), &self.curve.b);
        f.eq(&lhs, &rhs)
    }

    /// Whether the order of the subgroup takes the point to the point at infinity.
    pub fn check_correct_subgroup(&self) -> (r: bool)
        requires
            self.wf(),
        ensures
            r == g2_in_subgroup(self.curve@, self@),
    {
        proof {
            reveal(g2_in_subgroup);
        }
        let f = self.curve.field;
        let m = self.curve.mul(self, self.curve.order.as_slice());
        f.is_zero(&m.z)
    }
}

} // verus!
