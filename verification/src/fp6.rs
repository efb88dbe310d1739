//! The cubic extension `Fp6 = Fp2[v] / (v^3 - xi)`, `xi` being the
//! non-residue of `Fp2` that the request names.
use vstd::prelude::*;
use crate::fp2::{
    fp2_add, fp2_frobenius, fp2_inv, fp2_mul, fp2_neg, fp2_one, fp2_sub, fp2_zero, Ext2V,
    Extension2, Fp2, Fp2V,
};

verus! {

/// The value of an element `c0 + c1 * v + c2 * v^2` of `Fp6`.
pub struct Fp6V {
    pub c0: Fp2V,
    pub c1: Fp2V,
    pub c2: Fp2V,
}

/// The value of the description of `Fp6`.
pub struct Ext6V {
    /// The field that is extended.
    pub e2: Ext2V,
    /// The element `xi` of `Fp2` whose cube root `v` is adjoined.
    pub non_residue: Fp2V,
    /// What the second coordinate is multiplied by under the Frobenius map.
    pub frobenius_coeffs_c1: Seq<Fp2V>,
    /// What the third coordinate is multiplied by under the Frobenius map.
    pub frobenius_coeffs_c2: Seq<Fp2V>,
}

impl Ext6V {
    /// The description below is well formed, the non-residue is reduced, and
    /// there are six reduced Frobenius coefficients of either rank.
    pub open spec fn wf(self) -> bool {
        &&& self.e2.wf()
        &&& self.e2.has(self.non_residue)
        &&& self.frobenius_coeffs_c1.len() == 6
        &&& self.frobenius_coeffs_c2.len() == 6
        &&& forall|i: int| 0 <= i < 6 ==> self.e2.has(#[trigger] self.frobenius_coeffs_c1[i])
        &&& forall|i: int| 0 <= i < 6 ==> self.e2.has(#[trigger] self.frobenius_coeffs_c2[i])
    }

    /// Whether all coordinates of `a` are reduced.
    pub open spec fn has(self, a: Fp6V) -> bool {
        self.e2.has(a.c0) && self.e2.has(a.c1) && self.e2.has(a.c2)
    }
}

/// The additive identity of `Fp6`.
pub open spec fn fp6_zero() -> Fp6V {
    Fp6V { c0: fp2_zero(), c1: fp2_zero(), c2: fp2_zero() }
}

/// The multiplicative identity of `Fp6`.
pub open spec fn fp6_one(p: nat) -> Fp6V {
    Fp6V { c0: fp2_one(p), c1: fp2_zero(), c2: fp2_zero() }
}

/// The sum of two elements of `Fp6`.
pub open spec fn fp6_add(p: nat, a: Fp6V, b: Fp6V) -> Fp6V {
    Fp6V { c0: fp2_add(p, a.c0, b.c0), c1: fp2_add(p, a.c1, b.c1), c2: fp2_add(p, a.c2, b.c2) }
}

/// The difference of two elements of `Fp6`.
pub open spec fn fp6_sub(p: nat, a: Fp6V, b: Fp6V) -> Fp6V {
    Fp6V { c0: fp2_sub(p, a.c0, b.c0), c1: fp2_sub(p, a.c1, b.c1), c2: fp2_sub(p, a.c2, b.c2) }
}

/// The additive inverse of an element of `Fp6`.
pub open spec fn fp6_neg(p: nat, a: Fp6V) -> Fp6V {
    Fp6V { c0: fp2_neg(p, a.c0), c1: fp2_neg(p, a.c1), c2: fp2_neg(p, a.c2) }
}

/// The product of two elements of `Fp6`, with `v^3 = xi`:
/// `c0 = a0 b0 + xi (a1 b2 + a2 b1)`, `c1 = a0 b1 + a1 b0 + xi a2 b2`,
/// `c2 = a0 b2 + a1 b1 + a2 b0`.
#[verifier::opaque]
pub open spec fn fp6_mul(e: Ext6V, a: Fp6V, b: Fp6V) -> Fp6V {
    let p = e.e2.p;
    let xi = e.non_residue;
    Fp6V {
        c0: fp2_add(
            p,
            fp2_mul(e.e2, a.c0, b.c0),
            fp2_mul(e.e2, xi, fp2_add(p, fp2_mul(e.e2, a.c1, b.c2), fp2_mul(e.e2, a.c2, b.c1))),
        ),
        c1: fp2_add(
            p,
            fp2_add(p, fp2_mul(e.e2, a.c0, b.c1), fp2_mul(e.e2, a.c1, b.c0)),
            fp2_mul(e.e2, xi, fp2_mul(e.e2, a.c2, b.c2)),
        ),
        c2: fp2_add(
            p,
            fp2_add(p, fp2_mul(e.e2, a.c0, b.c2), fp2_mul(e.e2, a.c1, b.c1)),
            fp2_mul(e.e2, a.c2, b.c0),
        ),
    }
}

/// The product of an element of `Fp6` and `v`.
pub open spec fn fp6_mul_by_v(e: Ext6V, a: Fp6V) -> Fp6V {
    Fp6V { c0: fp2_mul(e.e2, e.non_residue, a.c2), c1: a.c0, c2: a.c1 }
}

/// The product of an element of `Fp6` and an element of `Fp2`.
pub open spec fn fp6_mul_by_fp2(e: Ext6V, a: Fp6V, k: Fp2V) -> Fp6V {
    Fp6V { c0: fp2_mul(e.e2, a.c0, k), c1: fp2_mul(e.e2, a.c1, k), c2: fp2_mul(e.e2, a.c2, k) }
}

/// The first cofactor of an element: `a0^2 - xi a1 a2`.
pub open spec fn fp6_cofactor0(e: Ext6V, a: Fp6V) -> Fp2V {
    fp2_sub(
        e.e2.p,
        fp2_mul(e.e2, a.c0, a.c0),
        fp2_mul(e.e2, e.non_residue, fp2_mul(e.e2, a.c1, a.c2)),
    )
}

/// The second cofactor of an element: `xi a2^2 - a0 a1`.
pub open spec fn fp6_cofactor1(e: Ext6V, a: Fp6V) -> Fp2V {
    fp2_sub(
        e.e2.p,
        fp2_mul(e.e2, e.non_residue, fp2_mul(e.e2, a.c2, a.c2)),
        fp2_mul(e.e2, a.c0, a.c1),
    )
}

/// The third cofactor of an element: `a1^2 - a0 a2`.
pub open spec fn fp6_cofactor2(e: Ext6V, a: Fp6V) -> Fp2V {
    fp2_sub(e.e2.p, fp2_mul(e.e2, a.c1, a.c1), fp2_mul(e.e2, a.c0, a.c2))
}

/// The norm of an element over `Fp2`: `a0 t0 + xi (a2 t1 + a1 t2)`, the `t`
/// being the cofactors.
#[verifier::opaque]
pub open spec fn fp6_norm(e: Ext6V, a: Fp6V) -> Fp2V {
    let p = e.e2.p;
    fp2_add(
        p,
        fp2_mul(e.e2, a.c0, fp6_cofactor0(e, a)),
        fp2_mul(
            e.e2,
            e.non_residue,
            fp2_add(
                p,
                fp2_mul(e.e2, a.c2, fp6_cofactor1(e, a)),
                fp2_mul(e.e2, a.c1, fp6_cofactor2(e, a)),
            ),
        ),
    )
}

/// The multiplicative inverse, the cofactors divided by the norm, where the
/// norm has an inverse.
#[verifier::opaque]
pub open spec fn fp6_inv(e: Ext6V, a: Fp6V) -> Option<Fp6V> {
    match fp2_inv(e.e2, fp6_norm(e, a)) {
        Some(n) => Some(
            Fp6V {
                c0: fp2_mul(e.e2, fp6_cofactor0(e, a), n),
                c1: fp2_mul(e.e2, fp6_cofactor1(e, a), n),
                c2: fp2_mul(e.e2, fp6_cofactor2(e, a), n),
            },
        ),
        None => None,
    }
}

/// The image under the Frobenius map applied `power` times.
#[verifier::opaque]
pub open spec fn fp6_frobenius(e: Ext6V, a: Fp6V, power: nat) -> Fp6V {
    Fp6V {
        c0: fp2_frobenius(e.e2, a.c0, power),
        c1: fp2_mul(
            e.e2,
            fp2_frobenius(e.e2, a.c1, power),
            e.frobenius_coeffs_c1[(power % 6) as int],
        ),
        c2: fp2_mul(
            e.e2,
            fp2_frobenius(e.e2, a.c2, power),
            e.frobenius_coeffs_c2[(power % 6) as int],
        ),
    }
}

/// An element `c0 + c1 * v + c2 * v^2` of `Fp6`.
pub struct Fp6 {
    pub c0: Fp2,
    pub c1: Fp2,
    pub c2: Fp2,
}

impl View for Fp6 {
    type V = Fp6V;

    open spec fn view(&self) -> Fp6V {
        Fp6V { c0: self.c0@, c1: self.c1@, c2: self.c2@ }
    }
}

impl Clone for Fp6 {
    fn clone(&self) -> (r: Self)
        ensures
            r@ == self@,
    {
        Fp6 { c0: self.c0.clone(), c1: self.c1.clone(), c2: self.c2.clone() }
    }
}

/// The values of a list of elements of `Fp2`.
pub open spec fn fp2_values(v: Seq<Fp2>) -> Seq<Fp2V> {
    v.map_values(|f: Fp2| f@)
}

/// The description of `Fp6`: the field below, the non-residue and the
/// Frobenius coefficients.
pub struct Extension3Over2<'a> {
    pub field: &'a Extension2<'a>,
    pub non_residue: Fp2,
    pub frobenius_coeffs_c1: Vec<Fp2>,
    pub frobenius_coeffs_c2: Vec<Fp2>,
}

impl<'a> View for Extension3Over2<'a> {
    type V = Ext6V;

    open spec fn view(&self) -> Ext6V {
        Ext6V {
            e2: self.field@,
            non_residue: self.non_residue@,
            frobenius_coeffs_c1: fp2_values(self.frobenius_coeffs_c1@),
            frobenius_coeffs_c2: fp2_values(self.frobenius_coeffs_c2@),
        }
    }
}

/// Six zeros of `Fp2`.
pub fn six_zeros(field: &Extension2) -> (r: Vec<Fp2>)
    requires
        field.wf(),
    ensures
        fp2_values(r@) == Seq::new(6, |i: int| fp2_zero()),
{
    let mut v: Vec<Fp2> = Vec::new();
    while v.len() < 6
        invariant
            field.wf(),
            v.len() <= 6,
            forall|i: int| 0 <= i < v.len() ==> (#[trigger] v[i])@ == fp2_zero(),
        decreases 6 - v.len(),
    {
        v.push(field.zero());
    }
    assert(fp2_values(v@) =~= Seq::new(6, |i: int| fp2_zero()));
    v
}

impl<'a> Extension3Over2<'a> {
    /// The description is well formed.
    pub open spec fn wf(&self) -> bool {
        self@.wf()
    }

    /// Whether `a` is an element of this field.
    pub open spec fn has(&self, a: &Fp6) -> bool {
        self@.has(a@)
    }

    /// The description of `Fp6` over `field` with the given non-residue and
    /// with zeros in place of the Frobenius coefficients.
    pub fn new(field: &'a Extension2<'a>, non_residue: Fp2) -> (r: Extension3Over2<'a>)
        requires
            field.wf(),
            field.has(&non_residue),
        ensures
            r.wf(),
            r@.e2 == field@,
            r@.non_residue == non_residue@,
            r@.frobenius_coeffs_c1 == Seq::new(6, |i: int| fp2_zero()),
            r@.frobenius_coeffs_c2 == Seq::new(6, |i: int| fp2_zero()),
    {
        let c1 = six_zeros(field);
        let c2 = six_zeros(field);
        Extension3Over2 { field, non_residue, frobenius_coeffs_c1: c1, frobenius_coeffs_c2: c2 }
    }

    /// Puts the Frobenius coefficients in the place of the present ones.
    pub fn set_frobenius_coeffs(&mut self, c1: Vec<Fp2>, c2: Vec<Fp2>)
        requires
            old(self).wf(),
            c1.len() == 6,
            c2.len() == 6,
            forall|i: int| 0 <= i < 6 ==> old(self)@.e2.has(#[trigger] fp2_values(c1@)[i]),
            forall|i: int| 0 <= i < 6 ==> old(self)@.e2.has(#[trigger] fp2_values(c2@)[i]),
        ensures
            final(self).wf(),
            final(self)@.e2 == old(self)@.e2,
            final(self)@.non_residue == old(self)@.non_residue,
            final(self)@.frobenius_coeffs_c1 == fp2_values(c1@),
            final(self)@.frobenius_coeffs_c2 == fp2_values(c2@),
            final(self).field == old(self).field,
    {
        self.frobenius_coeffs_c1 = c1;
        self.frobenius_coeffs_c2 = c2;
    }

    /// The additive identity.
    pub fn zero(&self) -> (r: Fp6)
        requires
            self.wf(),
        ensures
            r@ == fp6_zero(),
            self.has(&r),
    {
        Fp6 { c0: self.field.zero(), c1: self.field.zero(), c2: self.field.zero() }
    }

    /// The multiplicative identity.
    pub fn one(&self) -> (r: Fp6)
        requires
            self.wf(),
        ensures
            r@ == fp6_one(self@.e2.p),
            self.has(&r),
    {
        Fp6 { c0: self.field.one(), c1: self.field.zero(), c2: self.field.zero() }
    }

    /// Whether two elements are the same.
    pub fn eq(&self, a: &Fp6, b: &Fp6) -> (r: bool)
        ensures
            r == (a@ == b@),
    {
        self.field.eq(&a.c0, &b.c0) && self.field.eq(&a.c1, &b.c1) && self.field.eq(&a.c2, &b.c2)
    }

    /// The sum of two elements.
    pub fn add(&self, a: &Fp6, b: &Fp6) -> (r: Fp6)
        requires
            self.wf(),
            self.has(a),
            self.has(b),
        ensures
            r@ == fp6_add(self@.e2.p, a@, b@),
            self.has(&r),
    {
        let f = self.field;
        Fp6 { c0: f.add(&a.c0, &b.c0), c1: f.add(&a.c1, &b.c1), c2: f.add(&a.c2, &b.c2) }
    }

    /// The difference of two elements.
    pub fn sub(&self, a: &Fp6, b: &Fp6) -> (r: Fp6)
        requires
            self.wf(),
            self.has(a),
            self.has(b),
        ensures
            r@ == fp6_sub(self@.e2.p, a@, b@),
            self.has(&r),
    {
        let f = self.field;
        Fp6 { c0: f.sub(&a.c0, &b.c0), c1: f.sub(&a.c1, &b.c1), c2: f.sub(&a.c2, &b.c2) }
    }

    /// The additive inverse of an element.
    pub fn neg(&self, a: &Fp6) -> (r: Fp6)
        requires
            self.wf(),
            self.has(a),
        ensures
            r@ == fp6_neg(self@.e2.p, a@),
            self.has(&r),
    {
        let f = self.field;
        Fp6 { c0: f.neg(&a.c0), c1: f.neg(&a.c1), c2: f.neg(&a.c2) }
    }

    /// The product of two elements.
    pub fn mul(&self, a: &Fp6, b: &Fp6) -> (r: Fp6)
        requires
            self.wf(),
        ensures
            r@ == fp6_mul(self@, a@, b@),
            self.has(&r),
    {
        proof {
            reveal(fp6_mul);
        }
        let f = self.field;
        let xi = &self.non_residue;
        let t00 = f.mul(&a.c0, &b.c0);
        let t12 = f.mul(&a.c1, &b.c2);
        let t21 = f.mul(&a.c2, &b.c1);
        let s0 = f.add(&t12, &t21);
        let u0 = f.mul(xi, &s0);
        let c0 = f.add(&t00, &u0);
        let t01 = f.mul(&a.c0, &b.c1);
        let t10 = f.mul(&a.c1, &b.c0);
        let t22 = f.mul(&a.c2, &b.c2);
        let s1 = f.add(&t01, &t10);
        let u1 = f.mul(xi, &t22);
        let c1 = f.add(&s1, &u1);
        let t02 = f.mul(&a.c0, &b.c2);
        let t11 = f.mul(&a.c1, &b.c1);
        let t20 = f.mul(&a.c2, &b.c0);
        let s2 = f.add(&t02, &t11);
        let c2 = f.add(&s2, &t20);
        Fp6 { c0, c1, c2 }
    }

    /// The product of an element and `v`.
    pub fn mul_by_v(&self, a: &Fp6) -> (r: Fp6)
        requires
            self.wf(),
            self.has(a),
        ensures
            r@ == fp6_mul_by_v(self@, a@),
            self.has(&r),
    {
        Fp6 { c0: self.field.mul(&self.non_residue, &a.c2), c1: a.c0.clone(), c2: a.c1.clone() }
    }

    /// The product of an element and an element of `Fp2`.
    pub fn mul_by_fp2(&self, a: &Fp6, k: &Fp2) -> (r: Fp6)
        requires
            self.wf(),
        ensures
            r@ == fp6_mul_by_fp2(self@, a@, k@),
            self.has(&r),
    {
        let f = self.field;
        Fp6 { c0: f.mul(&a.c0, k), c1: f.mul(&a.c1, k), c2: f.mul(&a.c2, k) }
    }

    /// The multiplicative inverse; `None` where the norm has no inverse.
    pub fn inverse(&self, a: &Fp6) -> (r: Option<Fp6>)
        requires
            self.wf(),
        ensures
            r is Some <==> fp6_inv(self@, a@) is Some,
            r is Some ==> Some(r->0@) == fp6_inv(self@, a@) && self.has(&r->0),
    {
        proof {
            reveal(fp6_inv);
            reveal(fp6_norm);
        }
        let f = self.field;
        let xi = &self.non_residue;
        let a00 = f.mul(&a.c0, &a.c0);
        let a12 = f.mul(&a.c1, &a.c2);
        let x12 = f.mul(xi, &a12);
        let t0 = f.sub(&a00, &x12);
        let a22 = f.mul(&a.c2, &a.c2);
        let x22 = f.mul(xi, &a22);
        let a01 = f.mul(&a.c0, &a.c1);
        let t1 = f.sub(&x22, &a01);
        let a11 = f.mul(&a.c1, &a.c1);
        let a02 = f.mul(&a.c0, &a.c2);
        let t2 = f.sub(&a11, &a02);
        let n0 = f.mul(&a.c0, &t0);
        let n1 = f.mul(&a.c2, &t1);
        let n2 = f.mul(&a.c1, &t2);
        let n12 = f.add(&n1, &n2);
        let xn = f.mul(xi, &n12);
        let norm = f.add(&n0, &xn);
        match f.inverse(&norm) {
            Some(n) => Some(Fp6 { c0: f.mul(&t0, &n), c1: f.mul(&t1, &n), c2: f.mul(&t2, &n) }),
            None => None,
        }
    }

    /// The image under the Frobenius map applied `power` times.
    pub fn frobenius_map(&self, a: &Fp6, power: usize) -> (r: Fp6)
        requires
            self.wf(),
            self.has(a),
        ensures
            r@ == fp6_frobenius(self@, a@, power as nat),
            self.has(&r),
    {
        proof {
            reveal(fp6_frobenius);
        }
        let f = self.field;
        let c0 = f.frobenius_map(&a.c0, power);
        let d1 = f.frobenius_map(&a.c1, power);
        let d2 = f.frobenius_map(&a.c2, power);
        let c1 = f.mul(&d1, &self.frobenius_coeffs_c1[power % 6]);
        let c2 = f.mul(&d2, &self.frobenius_coeffs_c2[power % 6]);
        Fp6 { c0, c1, c2 }
    }
}

} // verus!
