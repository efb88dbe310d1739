//! What holds of every request.
use vstd::prelude::*;
use crate::bls12::TwistType;
use crate::constants::{BLS12, TWIST_TYPE_D, TWIST_TYPE_M};
use crate::decode_fp::{spec_decode_fp, spec_decode_fp2, spec_parse_ab, spec_parse_base_field};
use crate::decode_g1::{spec_decode_g1_point, spec_parse_group_order};
use crate::decode_g2::spec_decode_g2_point;
use crate::decode_utils::spec_split;
use crate::errors::ErrorKind;
use crate::fp2::{fp2_inv, fp2_mul, fp2_mul_by_fp, Ext2V, Fp2V};
use crate::fp2_laws::{
    lemma_fp2_inv_is_inverse, lemma_fp2_mul_assoc, lemma_fp2_mul_by_fp_is_mul,
    lemma_fp2_mul_comm, lemma_fp2_mul_one,
};
use crate::limbs::{limbs_of, widths_for};
use crate::pairing_ops::{
    spec_decode_pairs, spec_decode_tower_and_pair, spec_pair, spec_parse_encodings, spec_twist_b,
    spec_twist_coefficient,
};
use crate::weierstrass_curve::{g1_in_subgroup, g1_on_curve, CurveV, PointV};
use crate::weierstrass_twist::{g2_in_subgroup, g2_on_curve, TwistPointV, TwistV};

verus! {

/// A payload that ends before its modulus begins is an input error.
pub proof fn lemma_short_payload_is_input_error(bytes: Seq<u8>)
    requires
        bytes.len() < 2,
    ensures
        spec_pair(bytes) == Err::<Seq<u8>, _>(ErrorKind::InputError),
{
    if bytes.len() == 1 {
        assert(bytes.skip(1).len() == 0);
    }
}

/// Whether a payload without its curve type holds all of its head: the
/// length of the modulus and the modulus, the two coefficients of the base
/// curve, each as long as the modulus, and the length of the group order
/// and the group order.
pub open spec fn holds_whole_head(rest: Seq<u8>) -> bool {
    &&& rest.len() >= 1
    &&& rest.len() >= 2 + 3 * rest[0]
    &&& rest.len() >= 2 + 3 * rest[0] + rest[1 + 3 * rest[0]]
}

/// A payload that ends before its group order does is an input error,
/// whatever its bytes are.
pub proof fn lemma_cut_head_is_input_error(bytes: Seq<u8>)
    requires
        bytes.len() == 0 || !holds_whole_head(bytes.skip(1)),
    ensures
        spec_pair(bytes) == Err::<Seq<u8>, _>(ErrorKind::InputError),
{
    if bytes.len() >= 1 && bytes[0] == BLS12 {
        let rest = bytes.skip(1);
        lemma_head_errors_are_input_errors(rest);
    }
}

/// Reading the modulus and the group order fails with an input error only,
/// and succeeds on a whole head only.
pub proof fn lemma_head_errors_are_input_errors(rest: Seq<u8>)
    ensures
        match spec_parse_encodings(rest) {
            Ok(_) => holds_whole_head(rest),
            Err(k) => k == ErrorKind::InputError,
        },
{
    if let Ok((p, len, r1)) = spec_parse_base_field(rest) {
        assert(len == rest[0]);
        assert(r1.len() == rest.len() - 1 - len);
        if let Ok((a, r2)) = spec_split(r1, len) {
            assert(r2.len() == r1.len() - len);
            if let Ok((b, r3)) = spec_split(r2, len) {
                assert(r3.len() == r2.len() - len);
                assert(r3 =~= rest.skip(1 + 3 * len as int));
                if let Ok((order, r4)) = spec_parse_group_order(r3) {
                    assert(r3[0] == rest[1 + 3 * len as int]);
                }
            }
        }
    }
}

/// An answer is one byte, 0 or 1.
pub proof fn lemma_answer_is_zero_or_one(bytes: Seq<u8>)
    requires
        spec_pair(bytes) is Ok,
    ensures
        spec_pair(bytes)->Ok_0.len() == 1,
        spec_pair(bytes)->Ok_0[0] == 0 || spec_pair(bytes)->Ok_0[0] == 1,
{
}

/// A payload whose curve type is not BLS12 is an input error, whatever follows.
pub proof fn lemma_other_curve_type_is_input_error(bytes: Seq<u8>)
    requires
        bytes.len() >= 1,
        bytes[0] != BLS12,
    ensures
        spec_pair(bytes) == Err::<Seq<u8>, _>(ErrorKind::InputError),
{
}

/// Whether a payload passes the curve type and the lookup of the widths.
pub open spec fn reaches_decoding(bytes: Seq<u8>) -> bool {
    &&& bytes.len() >= 1
    &&& bytes[0] == BLS12
    &&& match spec_parse_encodings(bytes.skip(1)) {
        Ok((modulus, order)) => widths_for(limbs_of(modulus), limbs_of(order)) is Some,
        Err(_) => false,
    }
}

/// A payload that is decoded up to its coefficients and whose coefficient
/// `a` is not zero is an unknown parameter.
pub proof fn lemma_nonzero_a_is_unknown_parameter(bytes: Seq<u8>)
    requires
        reaches_decoding(bytes),
        match spec_parse_base_field(bytes.skip(1)) {
            Ok((p, len, rest)) => match spec_parse_ab(rest, len, p) {
                Ok((a, b, rest)) => a != 0,
                Err(_) => false,
            },
            Err(_) => false,
        },
    ensures
        spec_pair(bytes) == Err::<Seq<u8>, _>(ErrorKind::UnknownParameter),
{
}

/// Where the two non-residues are decoded and the byte behind them is
/// neither tag of a twist type, the request is an unknown parameter.
pub proof fn lemma_unknown_twist_type_is_unknown_parameter(g1: CurveV, len: nat, bytes: Seq<u8>)
    requires
        match spec_decode_fp(bytes, len, g1.p) {
            Ok((non_residue, rest)) => match spec_decode_fp2(rest, len, g1.p) {
                Ok((xi, rest)) => rest.len() >= 1 && rest[0] != TWIST_TYPE_D && rest[0]
                    != TWIST_TYPE_M,
                Err(_) => false,
            },
            Err(_) => false,
        },
    ensures
        spec_decode_tower_and_pair(g1, len, bytes) == Err::<Seq<u8>, _>(
            ErrorKind::UnknownParameter,
        ),
{
}

/// The same of a whole payload: where it is decoded up to the twist type and
/// that byte is neither tag, the payload is an unknown parameter.
pub proof fn lemma_unknown_twist_type_in_payload(bytes: Seq<u8>)
    requires
        reaches_decoding(bytes),
        match spec_parse_base_field(bytes.skip(1)) {
            Ok((p, len, rest)) => match spec_parse_ab(rest, len, p) {
                Ok((a, b, rest)) => a == 0 && match spec_parse_group_order(
                    rest,
                ) {
                    Ok((order, rest)) => match spec_decode_fp(rest, len, p) {
                        Ok((non_residue, rest)) => match spec_decode_fp2(rest, len, p) {
                            Ok((xi, rest)) => rest.len() >= 1 && rest[0] != TWIST_TYPE_D
                                && rest[0] != TWIST_TYPE_M,
                            Err(_) => false,
                        },
                        Err(_) => false,
                    },
                    Err(_) => false,
                },
                Err(_) => false,
            },
            Err(_) => false,
        },
    ensures
        spec_pair(bytes) == Err::<Seq<u8>, _>(ErrorKind::UnknownParameter),
{
    let rest0 = bytes.skip(1);
    let (p, len, rest1) = spec_parse_base_field(rest0)->Ok_0;
    let (a, b, rest2) = spec_parse_ab(rest1, len, p)->Ok_0;
    let (order, rest3) = spec_parse_group_order(rest2)->Ok_0;
    lemma_unknown_twist_type_is_unknown_parameter(CurveV { p, a, b, order }, len, rest3);
}

/// The coefficient of a twist of type D, times the non-residue, is the base
/// coefficient taken into `Fp2`; the coefficient of a twist of type M is the
/// base coefficient, taken into `Fp2`, times the non-residue.
pub proof fn lemma_twist_coefficient(e: Ext2V, xi: Fp2V, b: nat)
    requires
        e.p > 0,
        b < e.p,
        spec_twist_coefficient(e, xi, b, TwistType::D) is Ok,
    ensures
        fp2_mul(e, spec_twist_coefficient(e, xi, b, TwistType::D)->Ok_0, xi) == (Fp2V {
            c0: b,
            c1: 0,
        }),
        spec_twist_coefficient(e, xi, b, TwistType::M) == Ok::<_, ErrorKind>(
            fp2_mul(e, xi, Fp2V { c0: b, c1: 0 }),
        ),
{
    let lifted = Fp2V { c0: b, c1: 0 };
    let xi_inv = fp2_inv(e, xi)->0;
    lemma_fp2_mul_by_fp_is_mul(e, xi, b);
    lemma_fp2_mul_by_fp_is_mul(e, xi_inv, b);
    // (xi_inv * b) * xi = b * (xi_inv * xi) = b
    lemma_fp2_mul_comm(e, xi_inv, lifted);
    lemma_fp2_mul_assoc(e, lifted, xi_inv, xi);
    lemma_fp2_mul_comm(e, xi_inv, xi);
    lemma_fp2_inv_is_inverse(e, xi);
    lemma_fp2_mul_one(e, lifted);
    assert(fp2_mul_by_fp(e.p, xi_inv, b) == fp2_mul(e, lifted, xi_inv));
    assert(spec_twist_b(e.p, xi, xi_inv, b, TwistType::M) == fp2_mul(e, xi, lifted));
}

/// Where the next pair is decoded and both points lie on their curves but
/// one of them is outside the subgroup of the declared order, the request
/// is an input error.
pub proof fn lemma_point_outside_subgroup_is_input_error(
    bytes: Seq<u8>,
    n: nat,
    len: nat,
    g1: CurveV,
    g2: TwistV,
    ps: Seq<PointV>,
    qs: Seq<TwistPointV>,
)
    requires
        n >= 1,
        match spec_decode_g1_point(bytes, len, g1.p) {
            Ok((point, rest)) => match spec_decode_g2_point(rest, len, g1.p) {
                Ok((twist_point, rest)) => g1_on_curve(g1, point) && g2_on_curve(g2, twist_point) && !(g1_in_subgroup(
                    g1,
                    point,
                ) && g2_in_subgroup(g2, twist_point)),
                Err(_) => false,
            },
            Err(_) => false,
        },
    ensures
        spec_decode_pairs(bytes, n, len, g1, g2, ps, qs) == Err::<
            (Seq<PointV>, Seq<TwistPointV>),
            _,
        >(ErrorKind::InputError),
{
}

} // verus!
