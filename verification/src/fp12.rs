//! The top of the tower: `Fp12 = Fp6[w] / (w^2 - v)`.
use vstd::prelude::*;
use crate::fp2::{fp2_zero, Fp2, Fp2V};
use crate::fp6::{
    fp2_values, fp6_add, fp6_frobenius, fp6_inv, fp6_mul, fp6_mul_by_fp2, fp6_mul_by_v, fp6_neg,
    fp6_one, fp6_sub, fp6_zero, Ext6V, Extension3Over2, Fp6, Fp6V,
};

verus! {

/// The value of an element `c0 + c1 * w` of `Fp12`.
pub struct Fp12V {
    pub c0: Fp6V,
    pub c1: Fp6V,
}

/// The value of the description of `Fp12`.
pub struct Ext12V {
    /// The field that is extended.
    pub e6: Ext6V,
    /// What the second coordinate is multiplied by under the Frobenius map.
    pub frobenius_coeffs_c1: Seq<Fp2V>,
}

impl Ext12V {
    /// The description below is well formed and there are twelve reduced
    /// Frobenius coefficients.
    pub open spec fn wf(self) -> bool {
        &&& self.e6.wf()
        &&& self.frobenius_coeffs_c1.len() == 12
        &&& forall|i: int| 0 <= i < 12 ==> self.e6.e2.has(#[trigger] self.frobenius_coeffs_c1[i])
    }

    /// Whether all coordinates of `a` are reduced.
    pub open spec fn has(self, a: Fp12V) -> bool {
        self.e6.has(a.c0) && self.e6.has(a.c1)
    }

    /// The modulus of the base field.
    pub open spec fn p(self) -> nat {
        self.e6.e2.p
    }
}

/// The multiplicative identity of `Fp12`.
pub open spec fn fp12_one(p: nat) -> Fp12V {
    Fp12V { c0: fp6_one(p), c1: fp6_zero() }
}

/// The product of two elements of `Fp12`, with `w^2 = v`:
/// `(a0 + a1 w)(b0 + b1 w) = (a0 b0 + v a1 b1) + (a0 b1 + a1 b0) w`.
#[verifier::opaque]
pub open spec fn fp12_mul(e: Ext12V, a: Fp12V, b: Fp12V) -> Fp12V {
    let p = e.p();
    Fp12V {
        c0: fp6_add(p, fp6_mul(e.e6, a.c0, b.c0), fp6_mul_by_v(e.e6, fp6_mul(e.e6, a.c1, b.c1))),
        c1: fp6_add(p, fp6_mul(e.e6, a.c0, b.c1), fp6_mul(e.e6, a.c1, b.c0)),
    }
}

/// The square of an element of `Fp12`.
pub open spec fn fp12_square(e: Ext12V, a: Fp12V) -> Fp12V {
    fp12_mul(e, a, a)
}

/// The conjugate `c0 - c1 * w`.
pub open spec fn fp12_conjugate(e: Ext12V, a: Fp12V) -> Fp12V {
    Fp12V { c0: a.c0, c1: fp6_neg(e.p(), a.c1) }
}

/// The norm `c0^2 - v * c1^2`, an element of `Fp6`.
pub open spec fn fp12_norm(e: Ext12V, a: Fp12V) -> Fp6V {
    fp6_sub(e.p(), fp6_mul(e.e6, a.c0, a.c0), fp6_mul_by_v(e.e6, fp6_mul(e.e6, a.c1, a.c1)))
}

/// The multiplicative inverse, the conjugate divided by the norm, where the
/// norm has an inverse.
#[verifier::opaque]
pub open spec fn fp12_inv(e: Ext12V, a: Fp12V) -> Option<Fp12V> {
    match fp6_inv(e.e6, fp12_norm(e, a)) {
        Some(n) => Some(
            Fp12V { c0: fp6_mul(e.e6, a.c0, n), c1: fp6_neg(e.p(), fp6_mul(e.e6, a.c1, n)) },
        ),
        None => None,
    }
}

/// The image under the Frobenius map applied `power` times.
#[verifier::opaque]
pub open spec fn fp12_frobenius(e: Ext12V, a: Fp12V, power: nat) -> Fp12V {
    Fp12V {
        c0: fp6_frobenius(e.e6, a.c0, power),
        c1: fp6_mul_by_fp2(
            e.e6,
            fp6_frobenius(e.e6, a.c1, power),
            e.frobenius_coeffs_c1[(power % 12) as int],
        ),
    }
}

/// The power `f^n`, by squaring and multiplying along the bits of `n`.
pub open spec fn fp12_pow(e: Ext12V, f: Fp12V, n: nat) -> Fp12V
    decreases n,
{
    if n == 0 {
        fp12_one(e.p())
    } else {
        let h = fp12_square(e, fp12_pow(e, f, n / 2));
        if n % 2 == 1 {
            fp12_mul(e, h, f)
        } else {
            h
        }
    }
}

/// An element `c0 + c1 * w` of `Fp12`.
pub struct Fp12 {
    pub c0: Fp6,
    pub c1: Fp6,
}

impl View for Fp12 {
    type V = Fp12V;

    open spec fn view(&self) -> Fp12V {
        Fp12V { c0: self.c0@, c1: self.c1@ }
    }
}

impl Clone for Fp12 {
    fn clone(&self) -> (r: Self)
        ensures
            r@ == self@,
    {
        Fp12 { c0: self.c0.clone(), c1: self.c1.clone() }
    }
}

/// The description of `Fp12`: the field below, its non-residue (zero by
/// the convention of this family: the product with `v` is taken instead) and
/// the Frobenius coefficients.
pub struct Extension2Over3Over2<'a> {
    pub field: &'a Extension3Over2<'a>,
    pub non_residue: Fp6,
    pub frobenius_coeffs_c1: Vec<Fp2>,
}

impl<'a> View for Extension2Over3Over2<'a> {
    type V = Ext12V;

    open spec fn view(&self) -> Ext12V {
        Ext12V { e6: self.field@, frobenius_coeffs_c1: fp2_values(self.frobenius_coeffs_c1@) }
    }
}

impl<'a> Extension2Over3Over2<'a> {
    /// The description is well formed.
    pub open spec fn wf(&self) -> bool {
        self@.wf()
    }

    /// Whether `a` is an element of this field.
    pub open spec fn has(&self, a: &Fp12) -> bool {
        self@.has(a@)
    }

    /// The description of `Fp12` over `field` with zeros in place of the
    /// Frobenius coefficients.
    pub fn new(field: &'a Extension3Over2<'a>) -> (r: Extension2Over3Over2<'a>)
        requires
            field.wf(),
        ensures
            r.wf(),
            r@.e6 == field@,
            r@.frobenius_coeffs_c1 == Seq::new(12, |i: int| fp2_zero()),
            r.non_residue@ == fp6_zero(),
    {
        let mut v: Vec<Fp2> = Vec::new();
        while v.len() < 12
            invariant
                field.wf(),
                v.len() <= 12,
                forall|i: int| 0 <= i < v.len() ==> (#[trigger] v[i])@ == fp2_zero(),
            decreases 12 - v.len(),
        {
            v.push(field.field.zero());
        }
        assert(fp2_values(v@) =~= Seq::new(12, |i: int| fp2_zero()));
        Extension2Over3Over2 { field, non_residue: field.zero(), frobenius_coeffs_c1: v }
    }

    /// Puts the Frobenius coefficients in the place of the present ones.
    pub fn set_frobenius_coeffs(&mut self, c1: Vec<Fp2>)
        requires
            old(self).wf(),
            c1.len() == 12,
            forall|i: int| 0 <= i < 12 ==> old(self)@.e6.e2.has(#[trigger] fp2_values(c1@)[i]),
        ensures
            final(self).wf(),
            final(self)@.e6 == old(self)@.e6,
            final(self)@.frobenius_coeffs_c1 == fp2_values(c1@),
            final(self).non_residue@ == old(self).non_residue@,
            final(self).field == old(self).field,
    {
        self.frobenius_coeffs_c1 = c1;
    }

    /// The multiplicative identity.
    pub fn one(&self) -> (r: Fp12)
        requires
            self.wf(),
        ensures
            r@ == fp12_one(self@.p()),
            self.has(&r),
    {
        Fp12 { c0: self.field.one(), c1: self.field.zero() }
    }

    /// Whether two elements are the same.
    pub fn eq(&self, a: &Fp12, b: &Fp12) -> (r: bool)
        ensures
            r == (a@ == b@),
    {
        self.field.eq(&a.c0, &b.c0) && self.field.eq(&a.c1, &b.c1)
    }

    /// The product of two elements.
    pub fn mul(&self, a: &Fp12, b: &Fp12) -> (r: Fp12)
        requires
            self.wf(),
        ensures
            r@ == fp12_mul(self@, a@, b@),
            self.has(&r),
    {
        proof {
            reveal(fp12_mul);
        }
        let f = self.field;
        let t00 = f.mul(&a.c0, &b.c0);
        let t11 = f.mul(&a.c1, &b.c1);
        let v11 = f.mul_by_v(&t11);
        let c0 = f.add(&t00, &v11);
        let t01 = f.mul(&a.c0, &b.c1);
        let t10 = f.mul(&a.c1, &b.c0);
        let c1 = f.add(&t01, &t10);
        Fp12 { c0, c1 }
    }

    /// The square of an element.
    pub fn square(&self, a: &Fp12) -> (r: Fp12)
        requires
            self.wf(),
        ensures
            r@ == fp12_square(self@, a@),
            self.has(&r),
    {
        self.mul(a, a)
    }

    /// The conjugate of an element.
    pub fn conjugate(&self, a: &Fp12) -> (r: Fp12)
        requires
            self.wf(),
            self.has(a),
        ensures
            r@ == fp12_conjugate(self@, a@),
            self.has(&r),
    {
        Fp12 { c0: a.c0.clone(), c1: self.field.neg(&a.c1) }
    }

    /// The multiplicative inverse; `None` where the norm has no inverse.
    pub fn inverse(&self, a: &Fp12) -> (r: Option<Fp12>)
        requires
            self.wf(),
        ensures
            r is Some <==> fp12_inv(self@, a@) is Some,
            r is Some ==> Some(r->0@) == fp12_inv(self@, a@) && self.has(&r->0),
    {
        proof {
            reveal(fp12_inv);
        }
        let f = self.field;
        let v0 = f.mul(&a.c0, &a.c0);
        let v1 = f.mul(&a.c1, &a.c1);
        let v2 = f.mul_by_v(&v1);
        let norm = f.sub(&v0, &v2);
        match f.inverse(&norm) {
            Some(n) => {
                let c0 = f.mul(&a.c0, &n);
                let t = f.mul(&a.c1, &n);
                Some(Fp12 { c0, c1: f.neg(&t) })
            },
            None => None,
        }
    }

    /// The image under the Frobenius map applied `power` times.
    pub fn frobenius_map(&self, a: &Fp12, power: usize) -> (r: Fp12)
        requires
            self.wf(),
            self.has(a),
        ensures
            r@ == fp12_frobenius(self@, a@, power as nat),
            self.has(&r),
    {
        proof {
            reveal(fp12_frobenius);
        }
        let f = self.field;
        let c0 = f.frobenius_map(&a.c0, power);
        let d1 = f.frobenius_map(&a.c1, power);
        let c1 = f.mul_by_fp2(&d1, &self.frobenius_coeffs_c1[power % 12]);
        Fp12 { c0, c1 }
    }
}

} // verus!
