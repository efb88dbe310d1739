//! The widths that field and scalar arithmetic are carried out at.
//!
//! A modulus and a group order each ask for a number of 64-bit limbs.  Only
//! the pairs of widths listed here are served; a request for any other is
//! turned down, so that the cost of a request is bounded by the table.
use vstd::prelude::*;
use vstd::arithmetic::power2::{lemma2_to64, lemma_pow2_strictly_increases, lemma_pow2_unfold, pow2};
use crate::bigint::{be_value, bit_length};
use crate::bits::{bits_be, bits_value, lemma_bits_take_ends, lemma_bits_take_step};
use crate::constants::{MAX_LIMBS, MIN_MODULUS_LIMBS};
use crate::errors::{ApiError, ErrorKind};

verus! {

/// How many limbs of 64 bits a number of the given bit length asks for.
pub open spec fn limbs_for_bits(bits: nat) -> nat {
    bits / 64 + 1
}

/// How many limbs of 64 bits a number asks for.
pub open spec fn limbs_of(x: nat) -> nat {
    limbs_for_bits(bit_length(x))
}

/// The widths, in limbs, that a request is served at.
#[derive(Clone, Copy, Debug, PartialEq, Eq, Structural)]
pub struct LimbWidths {
    /// The limbs of an element of the base field: from 4 to 16.
    pub modulus_limbs: u64,
    /// The limbs of a scalar: from 1 to 16.
    pub order_limbs: u64,
}

/// The widths that serve a modulus and a group order asking for the given
/// numbers of limbs; `None` where the table has no entry for them.
pub open spec fn widths_for(modulus_limbs: nat, order_limbs: nat) -> Option<LimbWidths> {
    if 1 <= modulus_limbs <= MAX_LIMBS && 1 <= order_limbs <= MAX_LIMBS {
        Some(
            LimbWidths {
                modulus_limbs: if modulus_limbs < MIN_MODULUS_LIMBS {
                    MIN_MODULUS_LIMBS
                } else {
                    modulus_limbs as u64
                },
                order_limbs: order_limbs as u64,
            },
        )
    } else {
        None
    }
}

/// The fewest bits in which the big-endian number can be written.
pub fn bits_of(x: &[u8]) -> (r: usize)
    ensures
        r == bit_length(be_value(x@)),
{
    let bits = bits_be(x);
    let mut count: usize = 0;
    let mut i: usize = 0;
    proof {
        lemma_bits_take_ends(bits@);
    }
    while i < bits.len()
        invariant
            i <= bits.len(),
            count <= i,
            count == bit_length(bits_value(bits@.take(i as int))),
        decreases bits.len() - i,
    {
        proof {
            lemma_bits_take_step(bits@, i as int);
        }
        if count > 0 || bits[i] {
            count = count + 1;
        }
        i = i + 1;
    }
    count
}

/// How many limbs of 64 bits the big-endian number asks for.
pub fn num_limbs(x: &[u8]) -> (r: u64)
    ensures
        r == limbs_of(be_value(x@)),
{
    (bits_of(x) / 64 + 1) as u64
}

/// A number is below two to the power of its bit length.
pub proof fn lemma_bit_length_bound(n: nat)
    ensures
        n < pow2(bit_length(n)),
    decreases n,
{
    if n == 0 {
        lemma2_to64();
    } else {
        lemma_bit_length_bound(n / 2);
        lemma_pow2_unfold(bit_length(n));
    }
}

/// A number fits the limbs it asks for, and so every width that is looked up
/// for it: a modulus that is served is below `2^(64 w)` for the width `w` of
/// its field elements, and a group order is below `2^(64 w)` for the width of
/// its scalars.
pub proof fn lemma_widths_hold(modulus: nat, order: nat)
    requires
        widths_for(limbs_of(modulus), limbs_of(order)) is Some,
    ensures
        modulus < pow2(64 * widths_for(limbs_of(modulus), limbs_of(order))->0.modulus_limbs as nat),
        order < pow2(64 * widths_for(limbs_of(modulus), limbs_of(order))->0.order_limbs as nat),
{
    let w = widths_for(limbs_of(modulus), limbs_of(order))->0;
    lemma_bit_length_bound(modulus);
    lemma_bit_length_bound(order);
    lemma_pow2_strictly_increases(bit_length(modulus), 64 * w.modulus_limbs as nat);
    lemma_pow2_strictly_increases(bit_length(order), 64 * w.order_limbs as nat);
}

/// The width of a field element for a modulus of the given limbs.
pub fn modulus_width(modulus_limbs: u64) -> (r: Option<u64>)
    ensures
        r == match widths_for(modulus_limbs as nat, 1) {
            Some(w) => Some(w.modulus_limbs),
            None => None,
        },
{
    match modulus_limbs {
        1 | 2 | 3 | 4 => Some(4),
        5 => Some(5),
        6 => Some(6),
        7 => Some(7),
        8 => Some(8),
        9 => Some(9),
        10 => Some(10),
        11 => Some(11),
        12 => Some(12),
        13 => Some(13),
        14 => Some(14),
        15 => Some(15),
        16 => Some(16),
        _ => None,
    }
}

/// The width of a scalar for a group order of the given limbs.
pub fn order_width(order_limbs: u64) -> (r: Option<u64>)
    ensures
        r == match widths_for(1, order_limbs as nat) {
            Some(w) => Some(w.order_limbs),
            None => None,
        },
{
    match order_limbs {
        1 => Some(1),
        2 => Some(2),
        3 => Some(3),
        4 => Some(4),
        5 => Some(5),
        6 => Some(6),
        7 => Some(7),
        8 => Some(8),
        9 => Some(9),
        10 => Some(10),
        11 => Some(11),
        12 => Some(12),
        13 => Some(13),
        14 => Some(14),
        15 => Some(15),
        16 => Some(16),
        _ => None,
    }
}

/// Looks up the widths for a modulus and a group order of the given limbs;
/// an input error where the table has no entry.
pub fn select_widths(modulus_limbs: u64, order_limbs: u64) -> (r: Result<LimbWidths, ApiError>)
    ensures
        match r {
            Ok(w) => widths_for(modulus_limbs as nat, order_limbs as nat) == Some(w),
            Err(e) => widths_for(modulus_limbs as nat, order_limbs as nat) is None && e.spec_kind()
                == ErrorKind::InputError,
        },
{
    match (modulus_width(modulus_limbs), order_width(order_limbs)) {
        (Some(m), Some(o)) => Ok(LimbWidths { modulus_limbs: m, order_limbs: o }),
        (None, _) => Err(ApiError::input_error("Modulus is too large")),
        (_, None) => Err(ApiError::input_error("Group order is too large")),
    }
}

} // verus!
