//! What multiplication in `Fp2` obeys: it is a commutative, associative
//! operation with an identity, so powers add up in the exponent.
use vstd::prelude::*;
use vstd::arithmetic::div_mod::{
    lemma_add_mod_noop, lemma_mod_bound, lemma_mul_mod_noop_left, lemma_mul_mod_noop_right,
    lemma_small_mod, lemma_sub_mod_noop, lemma_sub_mod_noop_right,
};
use crate::bigint::is_inverse_mod;
use crate::fp::{fp_inv, fp_mul};
use crate::fp2::{fp2_inv, fp2_mul, fp2_mul_by_fp, fp2_norm, fp2_one, fp2_pow, Ext2V, Fp2V};

verus! {

/// Reducing two summands' factors first does not change the sum modulo `p`.
pub proof fn lemma_mod_sum2(x: int, c: int, y: int, d: int, p: int)
    requires
        p > 0,
    ensures
        ((x % p) * c + (y % p) * d) % p == (x * c + y * d) % p,
{
    lemma_mul_mod_noop_left(x, c, p);
    lemma_mul_mod_noop_left(y, d, p);
    lemma_add_mod_noop((x % p) * c, (y % p) * d, p);
    lemma_add_mod_noop(x * c, y * d, p);
}

/// A sum times a number is the sum of the products.
pub proof fn lemma_distribute(x: int, y: int, z: int)
    by (nonlinear_arith)
    ensures
        (x + y) * z == x * z + y * z,
{
}

/// Three factors may be taken in rotated order.
pub proof fn lemma_rotate3(a: int, b: int, c: int)
    by (nonlinear_arith)
    ensures
        (a * b) * c == (b * c) * a,
{
}

/// Four factors regrouped: `(n (a b)) c = (b c) (n a)`.
pub proof fn lemma_regroup4a(n: int, a: int, b: int, c: int)
    ensures
        (n * (a * b)) * c == (b * c) * (n * a),
{
    lemma_rotate3(n, a, b);
    assert(n * (a * b) == (n * a) * b) by (nonlinear_arith);
    assert(((n * a) * b) * c == (n * a) * (b * c)) by (nonlinear_arith);
    assert((n * a) * (b * c) == (b * c) * (n * a)) by (nonlinear_arith);
}

/// Four factors regrouped: `(a b) (n c) = (n (b c)) a`.
pub proof fn lemma_regroup4b(a: int, b: int, n: int, c: int)
    ensures
        (a * b) * (n * c) == (n * (b * c)) * a,
{
    assert((a * b) * (n * c) == a * (b * (n * c))) by (nonlinear_arith);
    assert(b * (n * c) == n * (b * c)) by (nonlinear_arith);
    assert(a * (n * (b * c)) == (n * (b * c)) * a) by (nonlinear_arith);
}

/// Four factors regrouped: `(a b) (n c) = (b c) (n a)`.
pub proof fn lemma_regroup4c(a: int, b: int, n: int, c: int)
    ensures
        (a * b) * (n * c) == (b * c) * (n * a),
{
    assert((a * b) * (n * c) == a * (b * (n * c))) by (nonlinear_arith);
    assert(b * (n * c) == (b * c) * n) by (nonlinear_arith);
    assert(a * ((b * c) * n) == (b * c) * (n * a)) by (nonlinear_arith);
}

/// Four factors regrouped: `(n (a b)) c = (n (b c)) a`.
pub proof fn lemma_regroup4d(n: int, a: int, b: int, c: int)
    ensures
        (n * (a * b)) * c == (n * (b * c)) * a,
{
    assert((n * (a * b)) * c == n * ((a * b) * c)) by (nonlinear_arith);
    lemma_rotate3(a, b, c);
    assert(n * ((b * c) * a) == (n * (b * c)) * a) by (nonlinear_arith);
}

/// A product in `Fp2` is reduced.
pub proof fn lemma_fp2_mul_reduced(e: Ext2V, a: Fp2V, b: Fp2V)
    requires
        e.p > 0,
    ensures
        e.has(fp2_mul(e, a, b)),
{
    reveal(fp2_mul);
    lemma_mod_bound((a.c0 * b.c0 + e.non_residue * (a.c1 * b.c1)) as int, e.p as int);
    lemma_mod_bound((a.c0 * b.c1 + a.c1 * b.c0) as int, e.p as int);
}

/// Multiplication in `Fp2` is commutative.
pub proof fn lemma_fp2_mul_comm(e: Ext2V, a: Fp2V, b: Fp2V)
    ensures
        fp2_mul(e, a, b) == fp2_mul(e, b, a),
{
    reveal(fp2_mul);
    assert(a.c0 * b.c0 == b.c0 * a.c0) by (nonlinear_arith);
    assert(a.c1 * b.c1 == b.c1 * a.c1) by (nonlinear_arith);
    assert(a.c0 * b.c1 == b.c1 * a.c0) by (nonlinear_arith);
    assert(a.c1 * b.c0 == b.c0 * a.c1) by (nonlinear_arith);
}

/// Multiplication in `Fp2` is associative.
pub proof fn lemma_fp2_mul_assoc(e: Ext2V, a: Fp2V, b: Fp2V, c: Fp2V)
    requires
        e.p > 0,
    ensures
        fp2_mul(e, fp2_mul(e, a, b), c) == fp2_mul(e, a, fp2_mul(e, b, c)),
{
    reveal(fp2_mul);
    let p = e.p as int;
    let n = e.non_residue as int;
    let (a0, a1) = (a.c0 as int, a.c1 as int);
    let (b0, b1) = (b.c0 as int, b.c1 as int);
    let (c0, c1) = (c.c0 as int, c.c1 as int);
    let x = a0 * b0 + n * (a1 * b1);
    let y = a0 * b1 + a1 * b0;
    let u = b0 * c0 + n * (b1 * c1);
    let v = b0 * c1 + b1 * c0;
    let ab = fp2_mul(e, a, b);
    let bc = fp2_mul(e, b, c);
    assert(ab.c0 == x % p && ab.c1 == y % p);
    assert(bc.c0 == u % p && bc.c1 == v % p);
    // first coordinate
    assert(n * ((y % p) * c1) == (y % p) * (n * c1)) by (nonlinear_arith);
    lemma_mod_sum2(x, c0, y, n * c1, p);
    assert(a0 * (u % p) == (u % p) * a0) by (nonlinear_arith);
    assert(n * (a1 * (v % p)) == (v % p) * (n * a1)) by (nonlinear_arith);
    lemma_mod_sum2(u, a0, v, n * a1, p);
    lemma_distribute(a0 * b0, n * (a1 * b1), c0);
    lemma_distribute(a0 * b1, a1 * b0, n * c1);
    lemma_distribute(b0 * c0, n * (b1 * c1), a0);
    lemma_distribute(b0 * c1, b1 * c0, n * a1);
    lemma_rotate3(a0, b0, c0);
    lemma_regroup4a(n, a1, b1, c0);
    lemma_regroup4b(a0, b1, n, c1);
    lemma_regroup4c(a1, b0, n, c1);
    // second coordinate
    lemma_mod_sum2(x, c1, y, c0, p);
    assert(a0 * (v % p) == (v % p) * a0) by (nonlinear_arith);
    assert(a1 * (u % p) == (u % p) * a1) by (nonlinear_arith);
    lemma_mod_sum2(v, a0, u, a1, p);
    lemma_distribute(a0 * b0, n * (a1 * b1), c1);
    lemma_distribute(a0 * b1, a1 * b0, c0);
    lemma_distribute(b0 * c1, b1 * c0, a0);
    lemma_distribute(b0 * c0, n * (b1 * c1), a1);
    lemma_rotate3(a0, b0, c1);
    lemma_rotate3(a0, b1, c0);
    lemma_rotate3(a1, b0, c0);
    lemma_regroup4d(n, a1, b1, c1);
}

/// The identity of `Fp2` is an identity of its multiplication.
pub proof fn lemma_fp2_mul_one(e: Ext2V, a: Fp2V)
    requires
        e.p > 0,
        e.has(a),
    ensures
        fp2_mul(e, a, fp2_one(e.p)) == a,
        fp2_mul(e, fp2_one(e.p), a) == a,
{
    reveal(fp2_mul);
    let p = e.p as int;
    let one = fp2_one(e.p);
    assert(a.c1 * one.c1 == 0) by (nonlinear_arith)
        requires
            one.c1 == 0,
    ;
    assert(e.non_residue * 0 == 0);
    assert(a.c1 * 0 == 0);
    assert(a.c0 * one.c1 == 0) by (nonlinear_arith)
        requires
            one.c1 == 0,
    ;
    lemma_mul_mod_noop_right(a.c0 as int, 1, p);
    lemma_mul_mod_noop_right(a.c1 as int, 1, p);
    assert(a.c0 * 1 == a.c0);
    assert(a.c1 * 1 == a.c1);
    lemma_small_mod(a.c0, e.p);
    lemma_small_mod(a.c1, e.p);
    assert(fp2_mul(e, a, one).c0 == (a.c0 * one.c0) % e.p);
    assert(fp2_mul(e, a, one).c1 == (a.c1 * one.c0) % e.p);
    lemma_fp2_mul_comm(e, a, one);
}

/// A power in `Fp2` is reduced.
pub proof fn lemma_fp2_pow_reduced(e: Ext2V, b: Fp2V, n: nat)
    requires
        e.p > 0,
    ensures
        e.has(fp2_pow(e, b, n)),
{
    if n == 0 {
        lemma_mod_bound(1, e.p as int);
    } else {
        lemma_fp2_mul_reduced(e, fp2_pow(e, b, (n - 1) as nat), b);
    }
}

/// The first power of a reduced element is the element.
pub proof fn lemma_fp2_pow_1(e: Ext2V, b: Fp2V)
    requires
        e.p > 0,
        e.has(b),
    ensures
        fp2_pow(e, b, 1) == b,
{
    assert(fp2_pow(e, b, 0) == fp2_one(e.p));
    assert(fp2_pow(e, b, 1) == fp2_mul(e, fp2_pow(e, b, 0), b));
    lemma_fp2_mul_one(e, b);
}

/// Powers of one element multiply by adding their exponents.
pub proof fn lemma_fp2_pow_add(e: Ext2V, b: Fp2V, m: nat, n: nat)
    requires
        e.p > 0,
    ensures
        fp2_pow(e, b, m + n) == fp2_mul(e, fp2_pow(e, b, m), fp2_pow(e, b, n)),
    decreases n,
{
    if n == 0 {
        lemma_fp2_pow_reduced(e, b, m);
        lemma_fp2_mul_one(e, fp2_pow(e, b, m));
    } else {
        let k = (n - 1) as nat;
        lemma_fp2_pow_add(e, b, m, k);
        assert(fp2_pow(e, b, m + n) == fp2_mul(e, fp2_pow(e, b, (m + n - 1) as nat), b));
        assert((m + n - 1) as nat == m + k);
        lemma_fp2_mul_assoc(e, fp2_pow(e, b, m), fp2_pow(e, b, k), b);
    }
}

/// Multiplying by an element of the base field is multiplying by its image in `Fp2`.
pub proof fn lemma_fp2_mul_by_fp_is_mul(e: Ext2V, a: Fp2V, k: nat)
    ensures
        fp2_mul_by_fp(e.p, a, k) == fp2_mul(e, a, Fp2V { c0: k, c1: 0 }),
{
    reveal(fp2_mul);
    assert(a.c1 * 0 == 0);
    assert(e.non_residue * 0 == 0);
    assert(a.c0 * 0 == 0);
    assert(fp_mul(e.p, a.c0, k) == (a.c0 * k + e.non_residue * (a.c1 * 0)) % e.p);
    assert(fp_mul(e.p, a.c1, k) == (a.c0 * 0 + a.c1 * k) % e.p);
}

/// The norm is `a0^2 - beta a1^2` modulo `p`.
pub proof fn lemma_fp2_norm_value(e: Ext2V, a: Fp2V)
    requires
        e.p > 0,
    ensures
        fp2_norm(e, a) == (a.c0 * a.c0 - e.non_residue * (a.c1 * a.c1)) % (e.p as int),
{
    let p = e.p as int;
    let n = e.non_residue as int;
    lemma_mul_mod_noop_right(n, (a.c1 * a.c1) as int, p);
    lemma_sub_mod_noop((a.c0 * a.c0) as int, n * (a.c1 * a.c1), p);
}

/// What `fp2_inv` gives is the inverse: its product with the element is the identity.
pub proof fn lemma_fp2_inv_is_inverse(e: Ext2V, a: Fp2V)
    requires
        e.p > 0,
        fp2_inv(e, a) is Some,
    ensures
        fp2_mul(e, a, fp2_inv(e, a)->0) == fp2_one(e.p),
{
    reveal(fp2_mul);
    let p = e.p as int;
    let nr = e.non_residue as int;
    let (a0, a1) = (a.c0 as int, a.c1 as int);
    let norm = fp2_norm(e, a);
    let n = fp_inv(e.p, norm)->0 as int;
    assert(is_inverse_mod(norm, n as nat, e.p));
    let r = fp2_inv(e, a)->0;
    let x = a0 * n;
    let y = -(a1 * n);
    let m = a0 * a0 - nr * (a1 * a1);
    assert(r.c0 == x % p);
    lemma_sub_mod_noop_right(0, a1 * n, p);
    assert(r.c1 == y % p);
    lemma_fp2_norm_value(e, a);
    assert(norm == m % p);
    lemma_mul_mod_noop_left(m, n, p);
    assert((m * n) % p == 1int % p);
    // first coordinate
    assert(a0 * (x % p) == (x % p) * a0) by (nonlinear_arith);
    assert(nr * (a1 * (y % p)) == (y % p) * (nr * a1)) by (nonlinear_arith);
    lemma_mod_sum2(x, a0, y, nr * a1, p);
    assert(x * a0 + y * (nr * a1) == m * n) by (nonlinear_arith)
        requires
            x == a0 * n,
            y == -(a1 * n),
            m == a0 * a0 - nr * (a1 * a1),
    ;
    // second coordinate
    assert(a0 * (y % p) == (y % p) * a0) by (nonlinear_arith);
    assert(a1 * (x % p) == (x % p) * a1) by (nonlinear_arith);
    lemma_mod_sum2(y, a0, x, a1, p);
    assert(y * a0 + x * a1 == 0) by (nonlinear_arith)
        requires
            x == a0 * n,
            y == -(a1 * n),
    ;
    assert(0int % p == 0);
}

} // verus!
