//! Decoders of the group order and of points of the first group.
use vstd::prelude::*;
use crate::bigint::{be_value, big_lt};
use crate::decode_fp::{decode_fp, spec_decode_fp};
use crate::decode_utils::{decode_biguint_with_length, spec_decode_with_length};
use crate::errors::{ApiError, ErrorKind};
use crate::weierstrass_curve::{CurvePoint, PointV, WeierstrassCurve};

verus! {

/// The order of the subgroup and the rest; an input error for an order of 0.
pub open spec fn spec_parse_group_order(bytes: Seq<u8>) -> Result<(nat, Seq<u8>), ErrorKind> {
    match spec_decode_with_length(bytes) {
        Ok((m, rest)) => if be_value(m) == 0 {
            Err(ErrorKind::InputError)
        } else {
            Ok((be_value(m), rest))
        },
        Err(k) => Err(k),
    }
}

/// A point of the first group, its two coordinates in turn, and the rest.
pub open spec fn spec_decode_g1_point(bytes: Seq<u8>, len: nat, p: nat) -> Result<
    (PointV, Seq<u8>),
    ErrorKind,
> {
    match spec_decode_fp(bytes, len, p) {
        Ok((x, rest)) => match spec_decode_fp(rest, len, p) {
            Ok((y, rest)) => Ok((PointV { x, y }, rest)),
            Err(k) => Err(k),
        },
        Err(k) => Err(k),
    }
}

/// Takes the length-prefixed order of the subgroup off the payload.
pub fn parse_group_order_from_encoding<'a>(bytes: &'a [u8]) -> (r: Result<
    (&'a [u8], &'a [u8]),
    ApiError,
>)
    ensures
        match r {
            Ok((order, rest)) => spec_parse_group_order(bytes@) == Ok::<_, ErrorKind>(
                (be_value(order@), rest@),
            ) && order@.len() <= 255,
            Err(e) => spec_parse_group_order(bytes@) == Err::<(nat, Seq<u8>), _>(e.spec_kind()),
        },
{
    match decode_biguint_with_length(bytes) {
        Ok((order, rest)) => {
            let zero: Vec<u8> = Vec::new();
            assert(be_value(zero@) == 0);
            if big_lt(zero.as_slice(), order) {
                Ok((order, rest))
            } else {
                Err(ApiError::input_error("Group order is zero"))
            }
        },
        Err(e) => Err(e),
    }
}

/// Takes a point of the first group off the payload.
pub fn decode_g1_point_from_xy<'a, 'b>(
    bytes: &'a [u8],
    field_byte_len: usize,
    curve: &'b WeierstrassCurve<'b>,
) -> (r: Result<(CurvePoint<'b>, &'a [u8]), ApiError>)
    requires
        curve.wf(),
    ensures
        match r {
            Ok((q, rest)) => spec_decode_g1_point(bytes@, field_byte_len as nat, curve@.p)
                == Ok::<_, ErrorKind>((q@, rest@)) && q.wf() && q.curve == curve,
            Err(e) => spec_decode_g1_point(bytes@, field_byte_len as nat, curve@.p) == Err::<
                (PointV, Seq<u8>),
                _,
            >(e.spec_kind()),
        },
{
    match decode_fp(bytes, field_byte_len, curve.field) {
        Ok((x, rest)) => match decode_fp(rest, field_byte_len, curve.field) {
            Ok((y, rest)) => Ok((CurvePoint::point_from_xy(curve, x, y), rest)),
            Err(e) => Err(e),
        },
        Err(e) => Err(e),
    }
}

} // verus!
