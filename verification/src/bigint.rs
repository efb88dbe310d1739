//! Natural numbers of any size, held as big-endian bytes.
//!
//! The arithmetic itself is done by `num_bigint`.  Each function here turns
//! its byte strings into `BigUint` values, makes one call, and turns the
//! answer back into bytes; what it promises is stated over [`be_value`].
use vstd::prelude::*;
use num_bigint::BigUint;

verus! {

/// The natural number that a big-endian byte string denotes.
pub open spec fn be_value(s: Seq<u8>) -> nat
    decreases s.len(),
{
    if s.len() == 0 {
        0
    } else {
        be_value(s.drop_last()) * 256 + s.last() as nat
    }
}

/// The fewest bits in which `n` can be written; 0 for 0.
pub open spec fn bit_length(n: nat) -> nat
    decreases n,
{
    if n == 0 {
        0
    } else {
        1 + bit_length(n / 2)
    }
}

/// Calls `BigUint`'s `+` on the two numbers read by `BigUint::from_bytes_be`
/// and writes the sum with `BigUint::to_bytes_be`: the result denotes the sum.
#[verifier::external_body]
pub(crate) fn big_add(a: &[u8], b: &[u8]) -> (r: Vec<u8>)
    ensures
        be_value(r@) == be_value(a@) + be_value(b@),
{
    (BigUint::from_bytes_be(a) + BigUint::from_bytes_be(b)).to_bytes_be()
}

/// Calls `BigUint`'s `-`, which panics when the result would be negative;
/// that case is excluded.  The result denotes the difference.
#[verifier::external_body]
pub(crate) fn big_sub(a: &[u8], b: &[u8]) -> (r: Vec<u8>)
    requires
        be_value(a@) >= be_value(b@),
    ensures
        be_value(r@) == be_value(a@) - be_value(b@),
{
    (BigUint::from_bytes_be(a) - BigUint::from_bytes_be(b)).to_bytes_be()
}

/// Calls `BigUint`'s `*`: the result denotes the product.
#[verifier::external_body]
pub(crate) fn big_mul(a: &[u8], b: &[u8]) -> (r: Vec<u8>)
    ensures
        be_value(r@) == be_value(a@) * be_value(b@),
{
    (BigUint::from_bytes_be(a) * BigUint::from_bytes_be(b)).to_bytes_be()
}

/// Calls `BigUint`'s `/`, which panics on a zero divisor; that case is
/// excluded.  The result denotes the quotient rounded down.
#[verifier::external_body]
pub(crate) fn big_div(a: &[u8], b: &[u8]) -> (r: Vec<u8>)
    requires
        be_value(b@) > 0,
    ensures
        be_value(r@) == be_value(a@) / be_value(b@),
{
    (BigUint::from_bytes_be(a) / BigUint::from_bytes_be(b)).to_bytes_be()
}

/// Calls `BigUint`'s `%`, which panics on a zero divisor; that case is
/// excluded.  The result denotes the remainder.
#[verifier::external_body]
pub(crate) fn big_rem(a: &[u8], b: &[u8]) -> (r: Vec<u8>)
    requires
        be_value(b@) > 0,
    ensures
        be_value(r@) == be_value(a@) % be_value(b@),
{
    (BigUint::from_bytes_be(a) % BigUint::from_bytes_be(b)).to_bytes_be()
}

/// Calls `BigUint`'s `<`: the answer says whether the first number is the smaller.
#[verifier::external_body]
pub(crate) fn big_lt(a: &[u8], b: &[u8]) -> (r: bool)
    ensures
        r == (be_value(a@) < be_value(b@)),
{
    BigUint::from_bytes_be(a) < BigUint::from_bytes_be(b)
}

/// Whether `x` is the inverse of `a` modulo `m`, taken from `[0, m)`.
pub open spec fn is_inverse_mod(a: nat, x: nat, m: nat) -> bool {
    x < m && (a * x) % m == 1nat % m
}

/// Calls `BigUint::modinv`, which panics on a zero modulus; that case is
/// excluded.  It solves `a * x = 1 (mod m)` for `x` in `[0, m)` and answers
/// `None` exactly when there is no solution.
#[verifier::external_body]
pub(crate) fn big_modinv(a: &[u8], m: &[u8]) -> (r: Option<Vec<u8>>)
    requires
        be_value(m@) > 0,
    ensures
        match r {
            Some(x) => is_inverse_mod(be_value(a@), be_value(x@), be_value(m@)),
            None => forall|x: nat| !is_inverse_mod(be_value(a@), x, be_value(m@)),
        },
{
    match BigUint::from_bytes_be(a).modinv(&BigUint::from_bytes_be(m)) {
        Some(x) => Some(x.to_bytes_be()),
        None => None,
    }
}

} // verus!
