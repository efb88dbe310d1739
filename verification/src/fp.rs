//! The base field: integers modulo the modulus that the request names.
use vstd::prelude::*;
use vstd::arithmetic::div_mod::{
    lemma_fundamental_div_mod_converse, lemma_mod_bound, lemma_mul_mod_noop_right, lemma_small_mod,
};
use crate::bigint::{
    be_value, big_add, big_lt, big_modinv, big_mul, big_rem, big_sub, is_inverse_mod,
};

verus! {

/// The sum of two field elements.
pub open spec fn fp_add(p: nat, a: nat, b: nat) -> nat {
    (a + b) % p
}

/// The difference of two field elements.
pub open spec fn fp_sub(p: nat, a: nat, b: nat) -> nat {
    ((a as int - b as int) % (p as int)) as nat
}

/// The additive inverse of a field element.
pub open spec fn fp_neg(p: nat, a: nat) -> nat {
    fp_sub(p, 0, a)
}

/// The product of two field elements.
pub open spec fn fp_mul(p: nat, a: nat, b: nat) -> nat {
    (a * b) % p
}

/// The multiplicative identity of the field (0 where the modulus is 1).
pub open spec fn fp_one(p: nat) -> nat {
    1nat % p
}

/// The multiplicative inverse of a field element, where it has one.
pub open spec fn fp_inv(p: nat, a: nat) -> Option<nat> {
    if exists|x: nat| is_inverse_mod(a, x, p) {
        Some(choose|x: nat| is_inverse_mod(a, x, p))
    } else {
        None
    }
}

/// A number from `p` up to `2p - 1` leaves itself less `p` when divided by `p`.
pub proof fn lemma_mod_second_range(x: int, p: int)
    requires
        0 < p <= x < 2 * p,
    ensures
        x % p == x - p,
{
    lemma_fundamental_div_mod_converse(x, p, 1, x - p);
}

/// A number from `-p` up to `-1` leaves itself plus `p` when divided by `p`.
pub proof fn lemma_mod_negative_range(x: int, p: int)
    requires
        0 < p,
        -p <= x < 0,
    ensures
        x % p == x + p,
{
    lemma_fundamental_div_mod_converse(x, p, -1, x + p);
}

/// An element has at most one inverse.
pub proof fn lemma_inverse_unique(a: nat, x: nat, y: nat, p: nat)
    requires
        p > 0,
        is_inverse_mod(a, x, p),
        is_inverse_mod(a, y, p),
    ensures
        x == y,
{
    let p_int = p as int;
    let x_int = x as int;
    let y_int = y as int;
    let a_int = a as int;
    // x * (a * y) is x modulo p, and (a * x) * y is y modulo p.
    lemma_mul_mod_noop_right(x_int, a_int * y_int, p_int);
    lemma_mul_mod_noop_right(x_int, 1, p_int);
    lemma_mul_mod_noop_right(y_int, a_int * x_int, p_int);
    lemma_mul_mod_noop_right(y_int, 1, p_int);
    lemma_small_mod(x, p);
    lemma_small_mod(y, p);
    assert(x_int * (a_int * y_int) == y_int * (a_int * x_int)) by (nonlinear_arith);
    assert(x_int * 1 == x_int);
    assert(y_int * 1 == y_int);
}

/// The field of integers modulo a nonzero modulus.
pub struct PrimeField {
    modulus: Vec<u8>,
}

/// An element of a [`PrimeField`], reduced modulo its modulus.
pub struct Fp {
    repr: Vec<u8>,
}

impl View for Fp {
    type V = nat;

    closed spec fn view(&self) -> nat {
        be_value(self.repr@)
    }
}

impl Clone for Fp {
    fn clone(&self) -> (r: Self)
        ensures
            r@ == self@,
    {
        let repr = self.repr.clone();
        assert(repr@ =~= self.repr@);
        Fp { repr }
    }
}

impl Fp {
    /// The element as a big-endian number.
    pub fn to_be_bytes(&self) -> (r: Vec<u8>)
        ensures
            be_value(r@) == self@,
    {
        let repr = self.repr.clone();
        assert(repr@ =~= self.repr@);
        repr
    }
}

impl Clone for PrimeField {
    fn clone(&self) -> (r: Self)
        ensures
            r.modulus() == self.modulus(),
    {
        let modulus = self.modulus.clone();
        assert(modulus@ =~= self.modulus@);
        PrimeField { modulus }
    }
}

impl PrimeField {
    /// The modulus.
    pub closed spec fn modulus(&self) -> nat {
        be_value(self.modulus@)
    }

    /// A field has a nonzero modulus.
    pub open spec fn wf(&self) -> bool {
        self.modulus() > 0
    }

    /// Whether `a` is an element of this field.
    pub open spec fn has(&self, a: &Fp) -> bool {
        a@ < self.modulus()
    }

    /// The field with the given big-endian modulus; `None` for a zero modulus.
    pub fn new(modulus: &[u8]) -> (r: Option<PrimeField>)
        ensures
            r is Some <==> be_value(modulus@) > 0,
            r is Some ==> r->0.wf() && r->0.modulus() == be_value(modulus@),
    {
        let zero: Vec<u8> = Vec::new();
        assert(be_value(zero@) == 0);
        if big_lt(zero.as_slice(), modulus) {
            let m = vstd::slice::slice_to_vec(modulus);
            Some(PrimeField { modulus: m })
        } else {
            None
        }
    }

    /// The modulus as a big-endian number.
    pub fn modulus_bytes(&self) -> (r: Vec<u8>)
        ensures
            be_value(r@) == self.modulus(),
    {
        let m = self.modulus.clone();
        assert(m@ =~= self.modulus@);
        m
    }

    /// The element that a big-endian number denotes; `None` where the number
    /// is not below the modulus.
    pub fn from_be_bytes(&self, bytes: &[u8]) -> (r: Option<Fp>)
        ensures
            r is Some <==> be_value(bytes@) < self.modulus(),
            r is Some ==> r->0@ == be_value(bytes@),
    {
        if big_lt(bytes, self.modulus.as_slice()) {
            Some(Fp { repr: vstd::slice::slice_to_vec(bytes) })
        } else {
            None
        }
    }

    /// The additive identity.
    pub fn zero(&self) -> (r: Fp)
        requires
            self.wf(),
        ensures
            r@ == 0,
            self.has(&r),
    {
        let repr: Vec<u8> = Vec::new();
        assert(be_value(repr@) == 0);
        Fp { repr }
    }

    /// The multiplicative identity.
    pub fn one(&self) -> (r: Fp)
        requires
            self.wf(),
        ensures
            r@ == fp_one(self.modulus()),
            self.has(&r),
    {
        let mut unit: Vec<u8> = Vec::new();
        unit.push(1u8);
        proof {
            assert(unit@.drop_last() =~= Seq::<u8>::empty());
            assert(be_value(unit@.drop_last()) == 0);
            assert(be_value(unit@) == 1);
            lemma_mod_bound(1, self.modulus() as int);
        }
        Fp { repr: big_rem(unit.as_slice(), self.modulus.as_slice()) }
    }

    /// Whether `a` is the additive identity.
    pub fn is_zero(&self, a: &Fp) -> (r: bool)
        ensures
            r == (a@ == 0),
    {
        let zero: Vec<u8> = Vec::new();
        assert(be_value(zero@) == 0);
        !big_lt(zero.as_slice(), a.repr.as_slice())
    }

    /// Whether two elements are the same.
    pub fn eq(&self, a: &Fp, b: &Fp) -> (r: bool)
        ensures
            r == (a@ == b@),
    {
        !big_lt(a.repr.as_slice(), b.repr.as_slice()) && !big_lt(
            b.repr.as_slice(),
            a.repr.as_slice(),
        )
    }

    /// The sum of two elements.
    pub fn add(&self, a: &Fp, b: &Fp) -> (r: Fp)
        requires
            self.wf(),
            self.has(a),
            self.has(b),
        ensures
            r@ == fp_add(self.modulus(), a@, b@),
            self.has(&r),
    {
        let s = big_add(a.repr.as_slice(), b.repr.as_slice());
        if big_lt(s.as_slice(), self.modulus.as_slice()) {
            proof {
                lemma_small_mod(be_value(s@), self.modulus());
            }
            Fp { repr: s }
        } else {
            proof {
                lemma_mod_second_range(be_value(s@) as int, self.modulus() as int);
            }
            Fp { repr: big_sub(s.as_slice(), self.modulus.as_slice()) }
        }
    }

    /// Twice an element.
    pub fn double(&self, a: &Fp) -> (r: Fp)
        requires
            self.wf(),
            self.has(a),
        ensures
            r@ == fp_add(self.modulus(), a@, a@),
            self.has(&r),
    {
        self.add(a, a)
    }

    /// The difference of two elements.
    pub fn sub(&self, a: &Fp, b: &Fp) -> (r: Fp)
        requires
            self.wf(),
            self.has(a),
            self.has(b),
        ensures
            r@ == fp_sub(self.modulus(), a@, b@),
            self.has(&r),
    {
        if big_lt(a.repr.as_slice(), b.repr.as_slice()) {
            let s = big_add(a.repr.as_slice(), self.modulus.as_slice());
            proof {
                lemma_mod_negative_range(a@ as int - b@ as int, self.modulus() as int);
            }
            Fp { repr: big_sub(s.as_slice(), b.repr.as_slice()) }
        } else {
            proof {
                lemma_small_mod((a@ - b@) as nat, self.modulus());
            }
            Fp { repr: big_sub(a.repr.as_slice(), b.repr.as_slice()) }
        }
    }

    /// The additive inverse of an element.
    pub fn neg(&self, a: &Fp) -> (r: Fp)
        requires
            self.wf(),
            self.has(a),
        ensures
            r@ == fp_neg(self.modulus(), a@),
            self.has(&r),
    {
        let zero = self.zero();
        self.sub(&zero, a)
    }

    /// The product of two elements.
    pub fn mul(&self, a: &Fp, b: &Fp) -> (r: Fp)
        requires
            self.wf(),
        ensures
            r@ == fp_mul(self.modulus(), a@, b@),
            self.has(&r),
    {
        let m = big_mul(a.repr.as_slice(), b.repr.as_slice());
        proof {
            lemma_mod_bound((a@ * b@) as int, self.modulus() as int);
        }
        Fp { repr: big_rem(m.as_slice(), self.modulus.as_slice()) }
    }

    /// The square of an element.
    pub fn square(&self, a: &Fp) -> (r: Fp)
        requires
            self.wf(),
        ensures
            r@ == fp_mul(self.modulus(), a@, a@),
            self.has(&r),
    {
        self.mul(a, a)
    }

    /// The multiplicative inverse of an element; `None` where it has none.
    pub fn inverse(&self, a: &Fp) -> (r: Option<Fp>)
        requires
            self.wf(),
        ensures
            r is Some <==> fp_inv(self.modulus(), a@) is Some,
            r is Some ==> Some(r->0@) == fp_inv(self.modulus(), a@) && self.has(&r->0),
            r is Some ==> fp_mul(self.modulus(), a@, r->0@) == fp_one(self.modulus()),
    {
        match big_modinv(a.repr.as_slice(), self.modulus.as_slice()) {
            Some(x) => {
                proof {
                    let w = choose|w: nat| is_inverse_mod(a@, w, self.modulus());
                    lemma_inverse_unique(a@, be_value(x@), w, self.modulus());
                }
                Some(Fp { repr: x })
            },
            None => None,
        }
    }
}

} // verus!
