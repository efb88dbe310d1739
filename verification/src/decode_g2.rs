//! Decoder of points of the second group.
use vstd::prelude::*;
use crate::decode_fp::{decode_fp2, spec_decode_fp2};
use crate::errors::{ApiError, ErrorKind};
use crate::weierstrass_twist::{TwistPoint, TwistPointV, WeierstrassCurveTwist};

verus! {

/// A point of the second group, its two coordinates in turn, and the rest.
pub open spec fn spec_decode_g2_point(bytes: Seq<u8>, len: nat, p: nat) -> Result<
    (TwistPointV, Seq<u8>),
    ErrorKind,
> {
    match spec_decode_fp2(bytes, len, p) {
        Ok((x, rest)) => match spec_decode_fp2(rest, len, p) {
            Ok((y, rest)) => Ok((TwistPointV { x, y }, rest)),
            Err(k) => Err(k),
        },
        Err(k) => Err(k),
    }
}

/// Takes a point of the second group off the payload.
pub fn decode_g2_point_from_xy_in_fp2<'a, 'b>(
    bytes: &'a [u8],
    field_byte_len: usize,
    curve: &'b WeierstrassCurveTwist<'b>,
) -> (r: Result<(TwistPoint<'b>, &'a [u8]), ApiError>)
    requires
        curve.wf(),
    ensures
        match r {
            Ok((q, rest)) => spec_decode_g2_point(bytes@, field_byte_len as nat, curve@.e.p)
                == Ok::<_, ErrorKind>((q@, rest@)) && q.wf() && q.curve == curve,
            Err(e) => spec_decode_g2_point(bytes@, field_byte_len as nat, curve@.e.p) == Err::<
                (TwistPointV, Seq<u8>),
                _,
            >(e.spec_kind()),
        },
{
    match decode_fp2(bytes, field_byte_len, curve.field) {
        Ok((x, rest)) => match decode_fp2(rest, field_byte_len, curve.field) {
            Ok((y, rest)) => Ok((TwistPoint::point_from_xy(curve, x, y), rest)),
            Err(e) => Err(e),
        },
        Err(e) => Err(e),
    }
}

} // verus!
