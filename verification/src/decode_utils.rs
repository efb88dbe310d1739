//! The primitive decoders: a cursor over the payload that hands out fixed
//! and length-prefixed fields and fails on truncation.
use vstd::prelude::*;
use crate::bls12::TwistType;
use crate::constants::{
    BYTES_FOR_LENGTH_ENCODING, SIGN_ENCODING_LENGTH, SIGN_MINUS, SIGN_PLUS, TWIST_TYPE_D,
    TWIST_TYPE_LENGTH, TWIST_TYPE_M,
};
use crate::errors::{ApiError, ErrorKind};

verus! {

/// The first `n` bytes and the rest; an input error where fewer remain.
pub open spec fn spec_split(bytes: Seq<u8>, n: nat) -> Result<(Seq<u8>, Seq<u8>), ErrorKind> {
    if bytes.len() < n {
        Err(ErrorKind::InputError)
    } else {
        Ok((bytes.take(n as int), bytes.skip(n as int)))
    }
}

/// The first byte and the rest; an input error where none remains.  Every
/// tag and every length of the wire format is one byte.
pub open spec fn spec_decode_byte(bytes: Seq<u8>) -> Result<(u8, Seq<u8>), ErrorKind> {
    if bytes.len() < 1 {
        Err(ErrorKind::InputError)
    } else {
        Ok((bytes[0], bytes.skip(1)))
    }
}

/// A length byte, that many bytes of a big-endian magnitude, and the rest.
pub open spec fn spec_decode_with_length(bytes: Seq<u8>) -> Result<
    (Seq<u8>, Seq<u8>),
    ErrorKind,
> {
    match spec_decode_byte(bytes) {
        Ok((len, rest)) => spec_split(rest, len as nat),
        Err(k) => Err(k),
    }
}

/// A sign byte: whether the number is negative.
pub open spec fn spec_decode_sign(bytes: Seq<u8>) -> Result<(bool, Seq<u8>), ErrorKind> {
    match spec_decode_byte(bytes) {
        Ok((tag, rest)) => if tag == SIGN_PLUS {
            Ok((false, rest))
        } else if tag == SIGN_MINUS {
            Ok((true, rest))
        } else {
            Err(ErrorKind::InputError)
        },
        Err(k) => Err(k),
    }
}

/// A twist type byte; an unknown tag is an unknown parameter.
pub open spec fn spec_decode_twist_type(bytes: Seq<u8>) -> Result<
    (TwistType, Seq<u8>),
    ErrorKind,
> {
    match spec_decode_byte(bytes) {
        Ok((tag, rest)) => if tag == TWIST_TYPE_D {
            Ok((TwistType::D, rest))
        } else if tag == TWIST_TYPE_M {
            Ok((TwistType::M, rest))
        } else {
            Err(ErrorKind::UnknownParameter)
        },
        Err(k) => Err(k),
    }
}

/// Splits the payload after `at` bytes; an input error with the sentence
/// `err` where fewer remain.
pub fn split<'a>(bytes: &'a [u8], at: usize, err: &str) -> (r: Result<
    (&'a [u8], &'a [u8]),
    ApiError,
>)
    ensures
        match r {
            Ok((head, rest)) => spec_split(bytes@, at as nat) == Ok::<_, ErrorKind>(
                (head@, rest@),
            ),
            Err(e) => spec_split(bytes@, at as nat) == Err::<(Seq<u8>, Seq<u8>), _>(
                e.spec_kind(),
            ) && e.spec_message() == err@,
        },
{
    if bytes.len() < at {
        Err(ApiError::input_error(err))
    } else {
        let (head, rest) = bytes.split_at(at);
        Ok((head, rest))
    }
}

/// Takes one byte off the payload; an input error with the sentence `err`
/// where none remains.
pub fn decode_byte<'a>(bytes: &'a [u8], err: &str) -> (r: Result<(u8, &'a [u8]), ApiError>)
    ensures
        match r {
            Ok((b, rest)) => spec_decode_byte(bytes@) == Ok::<_, ErrorKind>((b, rest@)),
            Err(e) => spec_decode_byte(bytes@) == Err::<(u8, Seq<u8>), _>(e.spec_kind())
                && e.spec_message() == err@,
        },
{
    match split(bytes, BYTES_FOR_LENGTH_ENCODING, err) {
        Ok((head, rest)) => Ok((head[0], rest)),
        Err(e) => Err(e),
    }
}

/// Takes a length-prefixed big-endian magnitude off the payload.
pub fn decode_biguint_with_length<'a>(bytes: &'a [u8]) -> (r: Result<
    (&'a [u8], &'a [u8]),
    ApiError,
>)
    ensures
        match r {
            Ok((x, rest)) => spec_decode_with_length(bytes@) == Ok::<_, ErrorKind>((x@, rest@))
                && x@.len() <= 255,
            Err(e) => spec_decode_with_length(bytes@) == Err::<(Seq<u8>, Seq<u8>), _>(
                e.spec_kind(),
            ),
        },
{
    match decode_byte(bytes, "Input is not long enough to get a length") {
        Ok((len, rest)) => split(rest, len as usize, "Input is not long enough to get a number"),
        Err(e) => Err(e),
    }
}

/// Takes a sign byte off the payload: whether the number is negative.
pub fn decode_sign<'a>(bytes: &'a [u8]) -> (r: Result<(bool, &'a [u8]), ApiError>)
    ensures
        match r {
            Ok((s, rest)) => spec_decode_sign(bytes@) == Ok::<_, ErrorKind>((s, rest@)),
            Err(e) => spec_decode_sign(bytes@) == Err::<(bool, Seq<u8>), _>(e.spec_kind()),
        },
{
    match split(bytes, SIGN_ENCODING_LENGTH, "Input is not long enough to get X sign encoding") {
        Ok((head, rest)) => {
            let tag = head[0];
            if tag == SIGN_PLUS {
                Ok((false, rest))
            } else if tag == SIGN_MINUS {
                Ok((true, rest))
            } else {
                Err(ApiError::input_error("X sign is not encoded properly"))
            }
        },
        Err(e) => Err(e),
    }
}

/// Takes a twist type byte off the payload.
pub fn decode_twist_type<'a>(bytes: &'a [u8]) -> (r: Result<(TwistType, &'a [u8]), ApiError>)
    ensures
        match r {
            Ok((t, rest)) => spec_decode_twist_type(bytes@) == Ok::<_, ErrorKind>((t, rest@)),
            Err(e) => spec_decode_twist_type(bytes@) == Err::<(TwistType, Seq<u8>), _>(
                e.spec_kind(),
            ),
        },
{
    match split(bytes, TWIST_TYPE_LENGTH, "Input is not long enough to get twist type") {
        Ok((head, rest)) => {
            let tag = head[0];
            if tag == TWIST_TYPE_D {
                Ok((TwistType::D, rest))
            } else if tag == TWIST_TYPE_M {
                Ok((TwistType::M, rest))
            } else {
                Err(ApiError::unknown_parameter("Unknown twist type supplied"))
            }
        },
        Err(e) => Err(e),
    }
}

} // verus!
