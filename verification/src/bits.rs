//! The bits of a big-endian number, highest first.
use vstd::prelude::*;
use vstd::arithmetic::power2::{lemma2_to64, lemma_pow2_unfold, pow2};
use crate::bigint::be_value;

verus! {

/// The number 1 where the flag is set, 0 where it is not.
pub open spec fn bit_value(b: bool) -> nat {
    if b {
        1
    } else {
        0
    }
}

/// The natural number that a list of bits denotes, the highest bit first.
pub open spec fn bits_value(s: Seq<bool>) -> nat
    decreases s.len(),
{
    if s.len() == 0 {
        0
    } else {
        2 * bits_value(s.drop_last()) + bit_value(s.last())
    }
}

/// One more bit doubles the number and adds the bit.
pub proof fn lemma_bits_push(s: Seq<bool>, b: bool)
    ensures
        bits_value(s.push(b)) == 2 * bits_value(s) + bit_value(b),
{
    assert(s.push(b).drop_last() =~= s);
}

/// The first `i + 1` bits denote twice what the first `i` denote, plus bit `i`.
pub proof fn lemma_bits_take_step(s: Seq<bool>, i: int)
    requires
        0 <= i < s.len(),
    ensures
        bits_value(s.take(i + 1)) == 2 * bits_value(s.take(i)) + bit_value(s[i]),
{
    assert(s.take(i + 1).drop_last() =~= s.take(i));
}

/// No bits denote 0, and all bits denote the number itself.
pub proof fn lemma_bits_take_ends(s: Seq<bool>)
    ensures
        bits_value(s.take(0)) == 0,
        bits_value(s.take(s.len() as int)) == bits_value(s),
{
    assert(s.take(s.len() as int) =~= s);
}

/// One more byte multiplies the number by 256 and adds the byte.
pub proof fn lemma_be_take_step(s: Seq<u8>, i: int)
    requires
        0 <= i < s.len(),
    ensures
        be_value(s.take(i + 1)) == 256 * be_value(s.take(i)) + s[i] as nat,
{
    assert(s.take(i + 1).drop_last() =~= s.take(i));
}

/// Appends the eight bits of a byte, highest first.
pub fn push_byte_bits(out: &mut Vec<bool>, byte: u8)
    ensures
        final(out)@.len() == old(out)@.len() + 8,
        bits_value(final(out)@) == 256 * bits_value(old(out)@) + byte as nat,
{
    let ghost start = bits_value(out@);
    // the weight of the bits that are still to be written
    let mut unit: u16 = 256;
    let mut rest: u16 = byte as u16;
    let mut k: u8 = 0;
    proof {
        lemma2_to64();
    }
    while k < 8
        invariant
            k <= 8,
            out@.len() == old(out)@.len() + k,
            start == bits_value(old(out)@),
            unit == pow2((8 - k) as nat),
            rest < unit,
            bits_value(out@) * unit + rest == start * 256 + byte,
        decreases 8 - k,
    {
        proof {
            lemma_pow2_unfold((8 - k) as nat);
        }
        let half = unit / 2;
        let bit = rest >= half;
        proof {
            lemma_bits_push(out@, bit);
            let v = bits_value(out@);
            assert(v * (2 * half) == (2 * v) * half) by (nonlinear_arith);
            assert((2 * v + bit_value(bit)) * half == (2 * v) * half + bit_value(bit) * half)
                by (nonlinear_arith);
        }
        if bit {
            rest = rest - half;
        }
        out.push(bit);
        unit = half;
        k = k + 1;
    }
    proof {
        lemma2_to64();
        assert(bits_value(out@) * unit == bits_value(out@)) by (nonlinear_arith)
            requires
                unit == 1,
        ;
    }
}

/// The bits of a big-endian number, highest first, eight for each byte.
pub fn bits_be(bytes: &[u8]) -> (r: Vec<bool>)
    ensures
        bits_value(r@) == be_value(bytes@),
        r@.len() == 8 * bytes@.len(),
{
    let mut out: Vec<bool> = Vec::new();
    let mut i: usize = 0;
    assert(bytes@.take(0) =~= Seq::<u8>::empty());
    while i < bytes.len()
        invariant
            i <= bytes.len(),
            out@.len() == 8 * i,
            bits_value(out@) == be_value(bytes@.take(i as int)),
        decreases bytes.len() - i,
    {
        proof {
            lemma_be_take_step(bytes@, i as int);
        }
        push_byte_bits(&mut out, bytes[i]);
        i = i + 1;
    }
    assert(bytes@.take(bytes@.len() as int) =~= bytes@);
    out
}

} // verus!
