//! The tags and widths of the wire format.
use vstd::prelude::*;

verus! {

/// How many bytes announce the length of a big integer.
pub const BYTES_FOR_LENGTH_ENCODING: usize = 1;

/// How many bytes name the curve family.
pub const CURVE_TYPE_LENGTH: usize = 1;

/// The tag of the BLS12 family.
pub const BLS12: u8 = 0x01;

/// How many bytes name the twist type.
pub const TWIST_TYPE_LENGTH: usize = 1;

/// The tag of a twist whose coefficient is the base coefficient times the non-residue.
pub const TWIST_TYPE_M: u8 = 0x01;

/// The tag of a twist whose coefficient is the base coefficient divided by the non-residue.
pub const TWIST_TYPE_D: u8 = 0x02;

/// How many bytes carry a sign.
pub const SIGN_ENCODING_LENGTH: usize = 1;

/// The tag of a positive loop parameter.
pub const SIGN_PLUS: u8 = 0x00;

/// The tag of a negative loop parameter.
pub const SIGN_MINUS: u8 = 0x01;

/// The most limbs of 64 bits that a modulus or a group order may need.
pub const MAX_LIMBS: u64 = 16;

/// The fewest limbs that a field element is held in.
pub const MIN_MODULUS_LIMBS: u64 = 4;

/// How many bits of the exponent one step of a windowed exponentiation consumes at most.
pub const EXP_WINDOW: usize = 8;

} // verus!
