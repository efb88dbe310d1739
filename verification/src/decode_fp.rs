//! Decoders of the base field and of field elements.
use vstd::prelude::*;
use crate::bigint::be_value;
use crate::decode_utils::{decode_biguint_with_length, spec_decode_with_length, spec_split, split};
use crate::errors::{ApiError, ErrorKind};
use crate::fp::{Fp, PrimeField};
use crate::fp2::{Extension2, Fp2, Fp2V};

verus! {

/// The modulus, the number of bytes that encode it, and the rest; an input
/// error for a modulus of 0, as for one that is cut short.
pub open spec fn spec_parse_base_field(bytes: Seq<u8>) -> Result<(nat, nat, Seq<u8>), ErrorKind> {
    match spec_decode_with_length(bytes) {
        Ok((m, rest)) => if be_value(m) == 0 {
            Err(ErrorKind::InputError)
        } else {
            Ok((be_value(m), m.len(), rest))
        },
        Err(k) => Err(k),
    }
}

/// An element of the base field in `len` bytes, and the rest; an input error
/// where the number is not below the modulus.
pub open spec fn spec_decode_fp(bytes: Seq<u8>, len: nat, p: nat) -> Result<
    (nat, Seq<u8>),
    ErrorKind,
> {
    match spec_split(bytes, len) {
        Ok((head, rest)) => if be_value(head) < p {
            Ok((be_value(head), rest))
        } else {
            Err(ErrorKind::InputError)
        },
        Err(k) => Err(k),
    }
}

/// An element of `Fp2`, its two coordinates in turn, and the rest.
pub open spec fn spec_decode_fp2(bytes: Seq<u8>, len: nat, p: nat) -> Result<
    (Fp2V, Seq<u8>),
    ErrorKind,
> {
    match spec_decode_fp(bytes, len, p) {
        Ok((c0, rest)) => match spec_decode_fp(rest, len, p) {
            Ok((c1, rest)) => Ok((Fp2V { c0, c1 }, rest)),
            Err(k) => Err(k),
        },
        Err(k) => Err(k),
    }
}

/// The coefficients `a` and `b` of the base curve, and the rest.
pub open spec fn spec_parse_ab(bytes: Seq<u8>, len: nat, p: nat) -> Result<
    (nat, nat, Seq<u8>),
    ErrorKind,
> {
    match spec_decode_fp(bytes, len, p) {
        Ok((a, rest)) => match spec_decode_fp(rest, len, p) {
            Ok((b, rest)) => Ok((a, b, rest)),
            Err(k) => Err(k),
        },
        Err(k) => Err(k),
    }
}

/// Takes the length-prefixed modulus off the payload and builds the base
/// field: the field, the number of bytes of the modulus, the modulus itself
/// and the rest.
pub fn parse_base_field_from_encoding<'a>(bytes: &'a [u8]) -> (r: Result<
    (PrimeField, usize, &'a [u8], &'a [u8]),
    ApiError,
>)
    ensures
        match r {
            Ok((field, len, modulus, rest)) => {
                &&& spec_parse_base_field(bytes@) == Ok::<_, ErrorKind>(
                    (field.modulus(), len as nat, rest@),
                )
                &&& field.wf()
                &&& be_value(modulus@) == field.modulus()
                &&& modulus@.len() == len
                &&& len <= 255
            },
            Err(e) => spec_parse_base_field(bytes@) == Err::<(nat, nat, Seq<u8>), _>(
                e.spec_kind(),
            ),
        },
{
    match decode_biguint_with_length(bytes) {
        Ok((modulus, rest)) => match PrimeField::new(modulus) {
            Some(field) => Ok((field, modulus.len(), modulus, rest)),
            None => Err(ApiError::input_error("Modulus can not be zero")),
        },
        Err(e) => Err(e),
    }
}

/// Takes an element of the base field off the payload.
pub fn decode_fp<'a>(bytes: &'a [u8], field_byte_len: usize, base_field: &PrimeField) -> (r:
    Result<(Fp, &'a [u8]), ApiError>)
    ensures
        match r {
            Ok((x, rest)) => spec_decode_fp(bytes@, field_byte_len as nat, base_field.modulus())
                == Ok::<_, ErrorKind>((x@, rest@)) && base_field.has(&x),
            Err(e) => spec_decode_fp(bytes@, field_byte_len as nat, base_field.modulus())
                == Err::<(nat, Seq<u8>), _>(e.spec_kind()),
        },
{
    match split(bytes, field_byte_len, "Input is not long enough to get Fp element") {
        Ok((head, rest)) => match base_field.from_be_bytes(head) {
            Some(x) => Ok((x, rest)),
            None => Err(ApiError::input_error("Failed to parse Fp element")),
        },
        Err(e) => Err(e),
    }
}

/// Takes an element of `Fp2` off the payload.
pub fn decode_fp2<'a>(bytes: &'a [u8], field_byte_len: usize, extension: &Extension2) -> (r:
    Result<(Fp2, &'a [u8]), ApiError>)
    ensures
        match r {
            Ok((x, rest)) => spec_decode_fp2(bytes@, field_byte_len as nat, extension@.p)
                == Ok::<_, ErrorKind>((x@, rest@)) && extension@.p > x@.c0 && extension@.p
                > x@.c1,
            Err(e) => spec_decode_fp2(bytes@, field_byte_len as nat, extension@.p) == Err::<
                (Fp2V, Seq<u8>),
                _,
            >(e.spec_kind()),
        },
{
    match decode_fp(bytes, field_byte_len, extension.field) {
        Ok((c0, rest)) => match decode_fp(rest, field_byte_len, extension.field) {
            Ok((c1, rest)) => Ok((Fp2 { c0, c1 }, rest)),
            Err(e) => Err(e),
        },
        Err(e) => Err(e),
    }
}

/// Takes the coefficients `a` and `b` of the base curve off the payload.
pub fn parse_ab_in_base_field_from_encoding<'a>(
    bytes: &'a [u8],
    field_byte_len: usize,
    base_field: &PrimeField,
) -> (r: Result<(Fp, Fp, &'a [u8]), ApiError>)
    ensures
        match r {
            Ok((a, b, rest)) => spec_parse_ab(
                bytes@,
                field_byte_len as nat,
                base_field.modulus(),
            ) == Ok::<_, ErrorKind>((a@, b@, rest@)) && base_field.has(&a) && base_field.has(&b),
            Err(e) => spec_parse_ab(bytes@, field_byte_len as nat, base_field.modulus())
                == Err::<(nat, nat, Seq<u8>), _>(e.spec_kind()),
        },
{
    match decode_fp(bytes, field_byte_len, base_field) {
        Ok((a, rest)) => match decode_fp(rest, field_byte_len, base_field) {
            Ok((b, rest)) => Ok((a, b, rest)),
            Err(e) => Err(e),
        },
        Err(e) => Err(e),
    }
}

} // verus!
