//! The quadratic extension `Fp2 = Fp[u] / (u^2 - beta)`, `beta` being the
//! non-residue that the request names.
use vstd::prelude::*;
use vstd::arithmetic::div_mod::{lemma_add_mod_noop, lemma_mul_mod_noop_right};
use crate::fp::{fp_add, fp_inv, fp_mul, fp_neg, fp_one, fp_sub, Fp, PrimeField};

verus! {

/// The value of an element `c0 + c1 * u` of `Fp2`.
pub struct Fp2V {
    pub c0: nat,
    pub c1: nat,
}

/// The value of the description of `Fp2`.
pub struct Ext2V {
    /// The modulus of the base field.
    pub p: nat,
    /// The element `beta` of the base field whose square root `u` is adjoined.
    pub non_residue: nat,
    /// What the second coordinate is multiplied by under the Frobenius map,
    /// by the parity of the map's power.
    pub frobenius_coeffs_c1: Seq<nat>,
}

impl Ext2V {
    /// The modulus is nonzero, the non-residue is reduced, and there are two
    /// reduced Frobenius coefficients.
    pub open spec fn wf(self) -> bool {
        &&& self.p > 0
        &&& self.non_residue < self.p
        &&& self.frobenius_coeffs_c1.len() == 2
        &&& self.frobenius_coeffs_c1[0] < self.p
        &&& self.frobenius_coeffs_c1[1] < self.p
    }

    /// Whether both coordinates of `a` are reduced.
    pub open spec fn has(self, a: Fp2V) -> bool {
        a.c0 < self.p && a.c1 < self.p
    }
}

/// The additive identity of `Fp2`.
pub open spec fn fp2_zero() -> Fp2V {
    Fp2V { c0: 0, c1: 0 }
}

/// The multiplicative identity of `Fp2`.
pub open spec fn fp2_one(p: nat) -> Fp2V {
    Fp2V { c0: fp_one(p), c1: 0 }
}

/// The sum of two elements of `Fp2`.
pub open spec fn fp2_add(p: nat, a: Fp2V, b: Fp2V) -> Fp2V {
    Fp2V { c0: fp_add(p, a.c0, b.c0), c1: fp_add(p, a.c1, b.c1) }
}

/// The difference of two elements of `Fp2`.
pub open spec fn fp2_sub(p: nat, a: Fp2V, b: Fp2V) -> Fp2V {
    Fp2V { c0: fp_sub(p, a.c0, b.c0), c1: fp_sub(p, a.c1, b.c1) }
}

/// The additive inverse of an element of `Fp2`.
pub open spec fn fp2_neg(p: nat, a: Fp2V) -> Fp2V {
    Fp2V { c0: fp_neg(p, a.c0), c1: fp_neg(p, a.c1) }
}

/// The product of two elements of `Fp2`:
/// `(a0 + a1 u)(b0 + b1 u) = (a0 b0 + beta a1 b1) + (a0 b1 + a1 b0) u`.
#[verifier::opaque]
pub open spec fn fp2_mul(e: Ext2V, a: Fp2V, b: Fp2V) -> Fp2V {
    Fp2V {
        c0: (a.c0 * b.c0 + e.non_residue * (a.c1 * b.c1)) % e.p,
        c1: (a.c0 * b.c1 + a.c1 * b.c0) % e.p,
    }
}

/// The product of an element of `Fp2` and an element of the base field.
pub open spec fn fp2_mul_by_fp(p: nat, a: Fp2V, k: nat) -> Fp2V {
    Fp2V { c0: fp_mul(p, a.c0, k), c1: fp_mul(p, a.c1, k) }
}

/// The conjugate `c0 - c1 * u`.
pub open spec fn fp2_conjugate(p: nat, a: Fp2V) -> Fp2V {
    Fp2V { c0: a.c0, c1: fp_neg(p, a.c1) }
}

/// The norm `c0^2 - beta * c1^2`, an element of the base field.
pub open spec fn fp2_norm(e: Ext2V, a: Fp2V) -> nat {
    fp_sub(e.p, fp_mul(e.p, a.c0, a.c0), fp_mul(e.p, e.non_residue, fp_mul(e.p, a.c1, a.c1)))
}

/// The multiplicative inverse, the conjugate divided by the norm, where the
/// norm has an inverse.
pub open spec fn fp2_inv(e: Ext2V, a: Fp2V) -> Option<Fp2V> {
    match fp_inv(e.p, fp2_norm(e, a)) {
        Some(n) => Some(Fp2V { c0: fp_mul(e.p, a.c0, n), c1: fp_neg(e.p, fp_mul(e.p, a.c1, n)) }),
        None => None,
    }
}

/// The image under the Frobenius map applied `power` times.
pub open spec fn fp2_frobenius(e: Ext2V, a: Fp2V, power: nat) -> Fp2V {
    Fp2V { c0: a.c0, c1: fp_mul(e.p, a.c1, e.frobenius_coeffs_c1[(power % 2) as int]) }
}

/// The power `b^n`, by repeated multiplication.
pub open spec fn fp2_pow(e: Ext2V, b: Fp2V, n: nat) -> Fp2V
    decreases n,
{
    if n == 0 {
        fp2_one(e.p)
    } else {
        fp2_mul(e, fp2_pow(e, b, (n - 1) as nat), b)
    }
}

/// An element `c0 + c1 * u` of `Fp2`.
pub struct Fp2 {
    pub c0: Fp,
    pub c1: Fp,
}

impl View for Fp2 {
    type V = Fp2V;

    open spec fn view(&self) -> Fp2V {
        Fp2V { c0: self.c0@, c1: self.c1@ }
    }
}

impl Clone for Fp2 {
    fn clone(&self) -> (r: Self)
        ensures
            r@ == self@,
    {
        Fp2 { c0: self.c0.clone(), c1: self.c1.clone() }
    }
}

/// The description of `Fp2`: the base field, the non-residue and the
/// Frobenius coefficients.
pub struct Extension2<'a> {
    pub field: &'a PrimeField,
    pub non_residue: Fp,
    pub frobenius_coeffs_c1: Vec<Fp>,
}

impl<'a> View for Extension2<'a> {
    type V = Ext2V;

    open spec fn view(&self) -> Ext2V {
        Ext2V {
            p: self.field.modulus(),
            non_residue: self.non_residue@,
            frobenius_coeffs_c1: self.frobenius_coeffs_c1@.map_values(|f: Fp| f@),
        }
    }
}

impl<'a> Extension2<'a> {
    /// The description is well formed.
    pub open spec fn wf(&self) -> bool {
        self@.wf()
    }

    /// Whether `a` is an element of this field.
    pub open spec fn has(&self, a: &Fp2) -> bool {
        self@.has(a@)
    }

    /// The description of `Fp2` over `field` with the given non-residue and
    /// with zeros in place of the Frobenius coefficients.
    pub fn new(field: &'a PrimeField, non_residue: Fp) -> (r: Extension2<'a>)
        requires
            field.wf(),
            field.has(&non_residue),
        ensures
            r.wf(),
            r@.p == field.modulus(),
            r@.non_residue == non_residue@,
            r@.frobenius_coeffs_c1 == seq![0nat, 0nat],
    {
        let mut coeffs: Vec<Fp> = Vec::new();
        coeffs.push(field.zero());
        coeffs.push(field.zero());
        let r = Extension2 { field, non_residue, frobenius_coeffs_c1: coeffs };
        assert(r@.frobenius_coeffs_c1 =~= seq![0nat, 0nat]);
        r
    }

    /// Puts the two Frobenius coefficients in the place of the present ones.
    pub fn set_frobenius_coeffs(&mut self, f_0: Fp, f_1: Fp)
        requires
            old(self).wf(),
            old(self).field.has(&f_0),
            old(self).field.has(&f_1),
        ensures
            final(self).wf(),
            final(self)@.p == old(self)@.p,
            final(self)@.non_residue == old(self)@.non_residue,
            final(self)@.frobenius_coeffs_c1 == seq![f_0@, f_1@],
            final(self).field == old(self).field,
    {
        let ghost a = f_0@;
        let ghost b = f_1@;
        let mut coeffs: Vec<Fp> = Vec::new();
        coeffs.push(f_0);
        coeffs.push(f_1);
        self.frobenius_coeffs_c1 = coeffs;
        assert(self@.frobenius_coeffs_c1 =~= seq![a, b]);
    }

    /// The additive identity.
    pub fn zero(&self) -> (r: Fp2)
        requires
            self.wf(),
        ensures
            r@ == fp2_zero(),
            self.has(&r),
    {
        Fp2 { c0: self.field.zero(), c1: self.field.zero() }
    }

    /// The multiplicative identity.
    pub fn one(&self) -> (r: Fp2)
        requires
            self.wf(),
        ensures
            r@ == fp2_one(self@.p),
            self.has(&r),
    {
        Fp2 { c0: self.field.one(), c1: self.field.zero() }
    }

    /// Whether `a` is the additive identity.
    pub fn is_zero(&self, a: &Fp2) -> (r: bool)
        ensures
            r == (a@ == fp2_zero()),
    {
        self.field.is_zero(&a.c0) && self.field.is_zero(&a.c1)
    }

    /// Whether two elements are the same.
    pub fn eq(&self, a: &Fp2, b: &Fp2) -> (r: bool)
        ensures
            r == (a@ == b@),
    {
        self.field.eq(&a.c0, &b.c0) && self.field.eq(&a.c1, &b.c1)
    }

    /// The sum of two elements.
    pub fn add(&self, a: &Fp2, b: &Fp2) -> (r: Fp2)
        requires
            self.wf(),
            self.has(a),
            self.has(b),
        ensures
            r@ == fp2_add(self@.p, a@, b@),
            self.has(&r),
    {
        Fp2 { c0: self.field.add(&a.c0, &b.c0), c1: self.field.add(&a.c1, &b.c1) }
    }

    /// Twice an element.
    pub fn double(&self, a: &Fp2) -> (r: Fp2)
        requires
            self.wf(),
            self.has(a),
        ensures
            r@ == fp2_add(self@.p, a@, a@),
            self.has(&r),
    {
        self.add(a, a)
    }

    /// The difference of two elements.
    pub fn sub(&self, a: &Fp2, b: &Fp2) -> (r: Fp2)
        requires
            self.wf(),
            self.has(a),
            self.has(b),
        ensures
            r@ == fp2_sub(self@.p, a@, b@),
            self.has(&r),
    {
        Fp2 { c0: self.field.sub(&a.c0, &b.c0), c1: self.field.sub(&a.c1, &b.c1) }
    }

    /// The additive inverse of an element.
    pub fn neg(&self, a: &Fp2) -> (r: Fp2)
        requires
            self.wf(),
            self.has(a),
        ensures
            r@ == fp2_neg(self@.p, a@),
            self.has(&r),
    {
        Fp2 { c0: self.field.neg(&a.c0), c1: self.field.neg(&a.c1) }
    }

    /// The conjugate of an element.
    pub fn conjugate(&self, a: &Fp2) -> (r: Fp2)
        requires
            self.wf(),
            self.has(a),
        ensures
            r@ == fp2_conjugate(self@.p, a@),
            self.has(&r),
    {
        Fp2 { c0: a.c0.clone(), c1: self.field.neg(&a.c1) }
    }

    /// The product of two elements.
    pub fn mul(&self, a: &Fp2, b: &Fp2) -> (r: Fp2)
        requires
            self.wf(),
        ensures
            r@ == fp2_mul(self@, a@, b@),
            self.has(&r),
    {
        proof {
            reveal(fp2_mul);
        }
        let f = self.field;
        let t0 = f.mul(&a.c0, &b.c0);
        let t1 = f.mul(&a.c1, &b.c1);
        let t2 = f.mul(&self.non_residue, &t1);
        let c0 = f.add(&t0, &t2);
        let t3 = f.mul(&a.c0, &b.c1);
        let t4 = f.mul(&a.c1, &b.c0);
        let c1 = f.add(&t3, &t4);
        proof {
            let p = self@.p as int;
            let n = self@.non_residue as int;
            lemma_mul_mod_noop_right(n, (a.c1@ * b.c1@) as int, p);
            lemma_add_mod_noop((a.c0@ * b.c0@) as int, n * (a.c1@ * b.c1@), p);
            lemma_add_mod_noop((a.c0@ * b.c1@) as int, (a.c1@ * b.c0@) as int, p);
        }
        Fp2 { c0, c1 }
    }

    /// The square of an element.
    pub fn square(&self, a: &Fp2) -> (r: Fp2)
        requires
            self.wf(),
        ensures
            r@ == fp2_mul(self@, a@, a@),
            self.has(&r),
    {
        self.mul(a, a)
    }

    /// The product of an element and an element of the base field.
    pub fn mul_by_fp(&self, a: &Fp2, k: &Fp) -> (r: Fp2)
        requires
            self.wf(),
        ensures
            r@ == fp2_mul_by_fp(self@.p, a@, k@),
            self.has(&r),
    {
        Fp2 { c0: self.field.mul(&a.c0, k), c1: self.field.mul(&a.c1, k) }
    }

    /// The multiplicative inverse; `None` where the norm has no inverse.
    pub fn inverse(&self, a: &Fp2) -> (r: Option<Fp2>)
        requires
            self.wf(),
        ensures
            r is Some <==> fp2_inv(self@, a@) is Some,
            r is Some ==> Some(r->0@) == fp2_inv(self@, a@) && self.has(&r->0),
    {
        let f = self.field;
        let v0 = f.square(&a.c0);
        let v1 = f.square(&a.c1);
        let v2 = f.mul(&self.non_residue, &v1);
        let norm = f.sub(&v0, &v2);
        match f.inverse(&norm) {
            Some(n) => {
                let c0 = f.mul(&a.c0, &n);
                let t = f.mul(&a.c1, &n);
                let c1 = f.neg(&t);
                Some(Fp2 { c0, c1 })
            },
            None => None,
        }
    }

    /// The image under the Frobenius map applied `power` times.
    pub fn frobenius_map(&self, a: &Fp2, power: usize) -> (r: Fp2)
        requires
            self.wf(),
            self.has(a),
        ensures
            r@ == fp2_frobenius(self@, a@, power as nat),
            self.has(&r),
    {
        let c1 = self.field.mul(&a.c1, &self.frobenius_coeffs_c1[power % 2]);
        Fp2 { c0: a.c0.clone(), c1 }
    }
}

} // verus!
