//! The pairing check: from the payload to the one byte of the answer.
//!
//! The payload holds, in this order: the curve type; the modulus, with its
//! length in front; the coefficients `a` and `b` of the base curve; the order
//! of the subgroup, with its length in front; the non-residue of `Fp2`; the
//! non-residue of `Fp6`; the twist type; the loop parameter, with its length
//! in front, and its sign; the number of operand pairs; and the pairs, each a
//! point of the first group and a point of the second.  Every field
//! element takes as many bytes as the modulus.
use vstd::prelude::*;
use crate::bigint::be_value;
use crate::bls12::{
    bls12_pair, point_values, twist_point_values, Bls12Instance, Bls12V, TwistType,
};
use crate::constants::{BLS12, CURVE_TYPE_LENGTH, EXP_WINDOW};
use crate::decode_fp::{
    decode_fp, decode_fp2, parse_ab_in_base_field_from_encoding, parse_base_field_from_encoding,
    spec_decode_fp, spec_decode_fp2, spec_parse_ab, spec_parse_base_field,
};
use crate::decode_g1::{
    decode_g1_point_from_xy, parse_group_order_from_encoding, spec_decode_g1_point,
    spec_parse_group_order,
};
use crate::decode_g2::{decode_g2_point_from_xy_in_fp2, spec_decode_g2_point};
use crate::decode_utils::{
    decode_biguint_with_length, decode_byte, decode_sign, decode_twist_type, spec_decode_byte,
    spec_decode_sign, spec_decode_twist_type, spec_decode_with_length, spec_split, split,
};
use crate::errors::{ApiError, ErrorKind};
use crate::fp12::{fp12_one, Ext12V, Extension2Over3Over2, Fp12, Fp12V};
use crate::fp::Fp;
use crate::fp2::{fp2_inv, fp2_mul_by_fp, fp2_zero, Ext2V, Extension2, Fp2, Fp2V};
use crate::fp6::{Ext6V, Extension3Over2};
use crate::frobenius::{
    fp12_frobenius_coeffs, fp2_frobenius_coeffs, fp6_frobenius_coeffs,
    frobenius_calculator_fp12_using_sliding_window, frobenius_calculator_fp2,
    frobenius_calculator_fp6_as_3_over_2_using_sliding_window,
};
use crate::limbs::{limbs_of, num_limbs, select_widths, widths_for};
use crate::sliding_window_exp::WindowExpBase;
use crate::weierstrass_curve::{
    g1_in_subgroup, g1_on_curve, CurvePoint, CurveV, PointV, WeierstrassCurve,
};
use crate::weierstrass_twist::{
    g2_in_subgroup, g2_on_curve, TwistPoint, TwistPointV, TwistV, WeierstrassCurveTwist,
};

verus! {

/// What a call ended in, without the sentence of an error.
pub open spec fn outcome(r: Result<Vec<u8>, ApiError>) -> Result<Seq<u8>, ErrorKind> {
    match r {
        Ok(v) => Ok(v@),
        Err(e) => Err(e.spec_kind()),
    }
}

/// The answer for what the engine returned: the byte 1 where the product is
/// the identity of `Fp12`, the byte 0 where it is another element, and an
/// unknown-parameter error where the engine returned nothing.
pub open spec fn spec_encode_result(p: nat, product: Option<Fp12V>) -> Result<Seq<u8>, ErrorKind> {
    match product {
        Some(f) => Ok(
            seq![if f == fp12_one(p) {
                1u8
            } else {
                0u8
            }],
        ),
        None => Err(ErrorKind::UnknownParameter),
    }
}

/// The next `n` operand pairs of the payload, added to the pairs in `ps` and
/// `qs`; an input error where a pair is truncated, where a coordinate is not
/// reduced, where a point is not on its curve, or where it is not in the
/// subgroup.
pub open spec fn spec_decode_pairs(
    bytes: Seq<u8>,
    n: nat,
    len: nat,
    g1: CurveV,
    g2: TwistV,
    ps: Seq<PointV>,
    qs: Seq<TwistPointV>,
) -> Result<(Seq<PointV>, Seq<TwistPointV>), ErrorKind>
    decreases n,
{
    if n == 0 {
        Ok((ps, qs))
    } else {
        match spec_decode_g1_point(bytes, len, g1.p) {
            Ok((point, rest)) => match spec_decode_g2_point(rest, len, g1.p) {
                Ok((twist_point, rest)) => if !g1_on_curve(g1, point) || !g2_on_curve(g2, twist_point) {
                    Err(ErrorKind::InputError)
                } else if !g1_in_subgroup(g1, point) || !g2_in_subgroup(g2, twist_point) {
                    Err(ErrorKind::InputError)
                } else {
                    spec_decode_pairs(rest, (n - 1) as nat, len, g1, g2, ps.push(point), qs.push(twist_point))
                },
                Err(k) => Err(k),
            },
            Err(k) => Err(k),
        }
    }
}

/// The answer for the part of the payload behind the twist type: the loop
/// parameter, its sign, the number of pairs and the pairs.
pub open spec fn spec_decode_operands_and_pair(
    e12: Ext12V,
    twist_type: TwistType,
    g1: CurveV,
    g2: TwistV,
    len: nat,
    bytes: Seq<u8>,
) -> Result<Seq<u8>, ErrorKind> {
    match spec_decode_with_length(bytes) {
        Ok((x, rest)) => match spec_decode_sign(rest) {
            Ok((x_is_negative, rest)) => match spec_decode_byte(rest) {
                Ok((n, rest)) => match spec_decode_pairs(
                    rest,
                    n as nat,
                    len,
                    g1,
                    g2,
                    Seq::empty(),
                    Seq::empty(),
                ) {
                    Ok((ps, qs)) => spec_encode_result(
                        g1.p,
                        bls12_pair(
                            Bls12V { x: be_value(x), x_is_negative, twist_type, e12, twist_b: g2.b },
                            ps,
                            qs,
                        ),
                    ),
                    Err(k) => Err(k),
                },
                Err(k) => Err(k),
            },
            Err(k) => Err(k),
        },
        Err(k) => Err(k),
    }
}

/// The coefficient `b` of the twist for a non-residue with its inverse: the
/// base coefficient divided by the non-residue for a twist of type D, times
/// the non-residue for one of type M.
pub open spec fn spec_twist_b(p: nat, xi: Fp2V, xi_inv: Fp2V, b: nat, t: TwistType) -> Fp2V {
    match t {
        TwistType::D => fp2_mul_by_fp(p, xi_inv, b),
        TwistType::M => fp2_mul_by_fp(p, xi, b),
    }
}

/// The coefficient `b` of the twist; an unexpected-zero error where the
/// non-residue has no inverse, whatever the type of the twist.
pub open spec fn spec_twist_coefficient(e: Ext2V, xi: Fp2V, b: nat, t: TwistType) -> Result<
    Fp2V,
    ErrorKind,
> {
    match fp2_inv(e, xi) {
        Some(xi_inv) => Ok(spec_twist_b(e.p, xi, xi_inv, b, t)),
        None => Err(ErrorKind::UnexpectedZero),
    }
}

/// The description of `Fp2` for a modulus and a non-residue.
pub open spec fn spec_extension2(p: nat, non_residue: nat) -> Ext2V {
    Ext2V { p, non_residue, frobenius_coeffs_c1: fp2_frobenius_coeffs(p) }
}

/// The answer once the tower's parameters are decoded: an unknown-parameter
/// error where a level has no Frobenius coefficients, an unexpected-zero
/// error where the non-residue of `Fp6` has no inverse.
pub open spec fn spec_build_tower_and_pair(
    g1: CurveV,
    len: nat,
    non_residue: nat,
    xi: Fp2V,
    twist_type: TwistType,
    bytes: Seq<u8>,
) -> Result<Seq<u8>, ErrorKind> {
    let e2 = spec_extension2(g1.p, non_residue);
    match fp6_frobenius_coeffs(e2, xi) {
        Some((c1, c2)) => match fp12_frobenius_coeffs(e2, xi) {
            Some(c) => match spec_twist_coefficient(e2, xi, g1.b, twist_type) {
                Ok(twist_b) => spec_decode_operands_and_pair(
                    Ext12V {
                        e6: Ext6V {
                            e2,
                            non_residue: xi,
                            frobenius_coeffs_c1: c1,
                            frobenius_coeffs_c2: c2,
                        },
                        frobenius_coeffs_c1: c,
                    },
                    twist_type,
                    g1,
                    TwistV {
                        e: e2,
                        a: fp2_zero(),
                        b: twist_b,
                        order: g1.order,
                    },
                    len,
                    bytes,
                ),
                Err(k) => Err(k),
            },
            None => Err(ErrorKind::UnknownParameter),
        },
        None => Err(ErrorKind::UnknownParameter),
    }
}

/// The answer for the part of the payload behind the group order: the two
/// non-residues, the twist type, and what follows.
pub open spec fn spec_decode_tower_and_pair(g1: CurveV, len: nat, bytes: Seq<u8>) -> Result<
    Seq<u8>,
    ErrorKind,
> {
    match spec_decode_fp(bytes, len, g1.p) {
        Ok((non_residue, rest)) => match spec_decode_fp2(rest, len, g1.p) {
            Ok((xi, rest)) => match spec_decode_twist_type(rest) {
                Ok((twist_type, rest)) => spec_build_tower_and_pair(
                    g1,
                    len,
                    non_residue,
                    xi,
                    twist_type,
                    rest,
                ),
                Err(k) => Err(k),
            },
            Err(k) => Err(k),
        },
        Err(k) => Err(k),
    }
}

/// The answer for a payload without its curve type: an unknown-parameter
/// error where the coefficient `a` is not zero.
pub open spec fn spec_pair_bls12(bytes: Seq<u8>) -> Result<Seq<u8>, ErrorKind> {
    match spec_parse_base_field(bytes) {
        Ok((p, len, rest)) => match spec_parse_ab(rest, len, p) {
            Ok((a, b, rest)) => if a != 0 {
                Err(ErrorKind::UnknownParameter)
            } else {
                match spec_parse_group_order(rest) {
                    Ok((order, rest)) => spec_decode_tower_and_pair(
                        CurveV { p, a, b, order },
                        len,
                        rest,
                    ),
                    Err(k) => Err(k),
                }
            },
            Err(k) => Err(k),
        },
        Err(k) => Err(k),
    }
}

/// The modulus and the group order of a payload without its curve type,
/// read without looking into the coefficients between them.
pub open spec fn spec_parse_encodings(bytes: Seq<u8>) -> Result<(nat, nat), ErrorKind> {
    match spec_parse_base_field(bytes) {
        Ok((p, len, rest)) => match spec_split(rest, len) {
            Ok((a, rest)) => match spec_split(rest, len) {
                Ok((b, rest)) => match spec_parse_group_order(rest) {
                    Ok((order, rest)) => Ok((p, order)),
                    Err(k) => Err(k),
                },
                Err(k) => Err(k),
            },
            Err(k) => Err(k),
        },
        Err(k) => Err(k),
    }
}

/// The answer for a payload: an input error where the curve type is missing
/// or is not BLS12, or where the modulus or the group order is wider than
/// the widths that are served.
pub open spec fn spec_pair(bytes: Seq<u8>) -> Result<Seq<u8>, ErrorKind> {
    match spec_decode_byte(bytes) {
        Ok((curve_type, rest)) => if curve_type != BLS12 {
            Err(ErrorKind::InputError)
        } else {
            match spec_parse_encodings(rest) {
                Ok((modulus, order)) => match widths_for(limbs_of(modulus), limbs_of(order)) {
                    Some(_) => spec_pair_bls12(rest),
                    None => Err(ErrorKind::InputError),
                },
                Err(k) => Err(k),
            }
        },
        Err(k) => Err(k),
    }
}

/// Derives the coefficient `b` of the twist from that of the base curve.
pub fn twist_coefficient(
    extension: &Extension2,
    non_residue: &Fp2,
    b: &Fp,
    twist_type: TwistType,
) -> (r: Result<Fp2, ApiError>)
    requires
        extension.wf(),
    ensures
        match r {
            Ok(c) => spec_twist_coefficient(extension@, non_residue@, b@, twist_type) == Ok::<
                _,
                ErrorKind,
            >(c@) && extension.has(&c),
            Err(e) => spec_twist_coefficient(extension@, non_residue@, b@, twist_type) == Err::<
                Fp2V,
                _,
            >(e.spec_kind()),
        },
{
    let inverse = match extension.inverse(non_residue) {
        Some(v) => v,
        None => {
            return Err(ApiError::unexpected_zero("Fp2 non-residue must be invertible"));
        },
    };
    Ok(
        match twist_type {
            TwistType::D => extension.mul_by_fp(&inverse, b),
            TwistType::M => extension.mul_by_fp(non_residue, b),
        },
    )
}

/// Turns what the engine returned into the answer.
pub fn encode_result(extension: &Extension2Over3Over2, product: Option<Fp12>) -> (r: Result<
    Vec<u8>,
    ApiError,
>)
    requires
        extension.wf(),
    ensures
        outcome(r) == spec_encode_result(
            extension@.p(),
            match product {
                Some(f) => Some(f@),
                None => None,
            },
        ),
{
    match product {
        Some(f) => {
            let one = extension.one();
            let mut out: Vec<u8> = Vec::new();
            if extension.eq(&f, &one) {
                out.push(1u8);
            } else {
                out.push(0u8);
            }
            assert(out@ =~= seq![if f@ == fp12_one(extension@.p()) {
                1u8
            } else {
                0u8
            }]);
            Ok(out)
        },
        None => Err(ApiError::unknown_parameter("Pairing engine returned no value")),
    }
}

/// Takes `n` operand pairs off the payload and validates each point: it has
/// to lie on its curve and in the subgroup of the declared order.
pub fn decode_pairs<'a>(
    bytes: &[u8],
    n: u8,
    field_byte_len: usize,
    g1_curve: &'a WeierstrassCurve<'a>,
    g2_curve: &'a WeierstrassCurveTwist<'a>,
) -> (r: Result<(Vec<CurvePoint<'a>>, Vec<TwistPoint<'a>>), ApiError>)
    requires
        g1_curve.wf(),
        g2_curve.wf(),
        g2_curve@.e.p == g1_curve@.p,
    ensures
        match r {
            Ok((ps, qs)) => {
                &&& spec_decode_pairs(
                    bytes@,
                    n as nat,
                    field_byte_len as nat,
                    g1_curve@,
                    g2_curve@,
                    Seq::empty(),
                    Seq::empty(),
                ) == Ok::<_, ErrorKind>((point_values(ps@), twist_point_values(qs@)))
                &&& forall|i: int| 0 <= i < qs.len() ==> (#[trigger] qs[i]).wf() && qs[i].curve@ == g2_curve@
            },
            Err(e) => spec_decode_pairs(
                bytes@,
                n as nat,
                field_byte_len as nat,
                g1_curve@,
                g2_curve@,
                Seq::empty(),
                Seq::empty(),
            ) == Err::<(Seq<PointV>, Seq<TwistPointV>), _>(e.spec_kind()),
        },
{
    let ghost len = field_byte_len as nat;
    let ghost total = spec_decode_pairs(
        bytes@,
        n as nat,
        len,
        g1_curve@,
        g2_curve@,
        Seq::empty(),
        Seq::empty(),
    );
    let mut g1_points: Vec<CurvePoint<'a>> = Vec::new();
    let mut g2_points: Vec<TwistPoint<'a>> = Vec::new();
    let mut global_rest = bytes;
    let mut i: u8 = 0;
    assert(point_values(g1_points@) =~= Seq::empty());
    assert(twist_point_values(g2_points@) =~= Seq::empty());
    while i < n
        invariant
            i <= n,
            len == field_byte_len as nat,
            g1_curve.wf(),
            g2_curve.wf(),
            g2_curve@.e.p == g1_curve@.p,
            total == spec_decode_pairs(
                bytes@,
                n as nat,
                len,
                g1_curve@,
                g2_curve@,
                Seq::empty(),
                Seq::empty(),
            ),
            total == spec_decode_pairs(
                global_rest@,
                (n - i) as nat,
                len,
                g1_curve@,
                g2_curve@,
                point_values(g1_points@),
                twist_point_values(g2_points@),
            ),
            forall|j: int|
                0 <= j < g2_points.len() ==> (#[trigger] g2_points[j]).wf() && g2_points[j].curve@
                    == g2_curve@,
        decreases n - i,
    {
        let ghost ps = point_values(g1_points@);
        let ghost qs = twist_point_values(g2_points@);
        let ghost left = (n - i) as nat;
        let ghost first = spec_decode_g1_point(global_rest@, len, g1_curve@.p);
        let (g1, rest) = match decode_g1_point_from_xy(global_rest, field_byte_len, g1_curve) {
            Ok(v) => v,
            Err(e) => {
                assert(total == Err::<(Seq<PointV>, Seq<TwistPointV>), _>(e.spec_kind()));
                return Err(e);
            },
        };
        let ghost second = spec_decode_g2_point(rest@, len, g1_curve@.p);
        let (g2, rest) = match decode_g2_point_from_xy_in_fp2(rest, field_byte_len, g2_curve) {
            Ok(v) => v,
            Err(e) => {
                assert(second == Err::<(TwistPointV, Seq<u8>), _>(e.spec_kind()));
                assert(total == Err::<(Seq<PointV>, Seq<TwistPointV>), _>(e.spec_kind()));
                return Err(e);
            },
        };
        assert(first == Ok::<_, ErrorKind>((g1@, first->Ok_0.1)));
        assert(second == Ok::<_, ErrorKind>((g2@, rest@)));
        if !g1.check_on_curve() || !g2.check_on_curve() {
            assert(total == Err::<(Seq<PointV>, Seq<TwistPointV>), _>(ErrorKind::InputError));
            return Err(ApiError::input_error("G1 or G2 point is not on curve"));
        }
        if !g1.check_correct_subgroup() || !g2.check_correct_subgroup() {
            assert(total == Err::<(Seq<PointV>, Seq<TwistPointV>), _>(ErrorKind::InputError));
            return Err(ApiError::input_error("G1 or G2 point is not in the expected subgroup"));
        }
        proof {
            assert(point_values(g1_points@.push(g1)) =~= ps.push(g1@));
            assert(twist_point_values(g2_points@.push(g2)) =~= qs.push(g2@));
            assert(total == spec_decode_pairs(
                rest@,
                (left - 1) as nat,
                len,
                g1_curve@,
                g2_curve@,
                ps.push(g1@),
                qs.push(g2@),
            ));
        }
        global_rest = rest;
        g1_points.push(g1);
        g2_points.push(g2);
        i = i + 1;
    }
    Ok((g1_points, g2_points))
}

/// Reads the modulus and the group order of a payload without its curve
/// type, without looking into the coefficients between them.
pub fn parse_encodings<'a>(bytes: &'a [u8]) -> (r: Result<(&'a [u8], &'a [u8]), ApiError>)
    ensures
        match r {
            Ok((modulus, order)) => spec_parse_encodings(bytes@) == Ok::<_, ErrorKind>(
                (be_value(modulus@), be_value(order@)),
            ) && modulus@.len() <= 255 && order@.len() <= 255,
            Err(e) => spec_parse_encodings(bytes@) == Err::<(nat, nat), _>(e.spec_kind()),
        },
{
    let (_field, len, modulus, rest) = match parse_base_field_from_encoding(bytes) {
        Ok(v) => v,
        Err(e) => { return Err(e); },
    };
    let (_a, rest) = match split(rest, len, "Input is not long enough to get A parameter") {
        Ok(v) => v,
        Err(e) => { return Err(e); },
    };
    let (_b, rest) = match split(rest, len, "Input is not long enough to get B parameter") {
        Ok(v) => v,
        Err(e) => { return Err(e); },
    };
    match parse_group_order_from_encoding(rest) {
        Ok((order, _rest)) => Ok((modulus, order)),
        Err(e) => Err(e),
    }
}

/// Answers a payload without its curve type.
pub fn pair_bls12(bytes: &[u8]) -> (r: Result<Vec<u8>, ApiError>)
    ensures
        outcome(r) == spec_pair_bls12(bytes@),
{
    let (base_field, modulus_len, modulus, rest) = match parse_base_field_from_encoding(bytes) {
        Ok(v) => v,
        Err(e) => { return Err(e); },
    };
    let (a_fp, b_fp, rest) = match parse_ab_in_base_field_from_encoding(
        rest,
        modulus_len,
        &base_field,
    ) {
        Ok(v) => v,
        Err(e) => { return Err(e); },
    };
    if !base_field.is_zero(&a_fp) {
        return Err(ApiError::unknown_parameter("A parameter must be zero for BLS12 curve"));
    }
    let (order, rest) = match parse_group_order_from_encoding(rest) {
        Ok(v) => v,
        Err(e) => { return Err(e); },
    };
    let g1_curve = WeierstrassCurve::new(
        &base_field,
        vstd::slice::slice_to_vec(order),
        a_fp,
        b_fp.clone(),
    );
    let ghost g1 = g1_curve@;
    let ghost len = modulus_len as nat;
    assert(spec_pair_bls12(bytes@) == spec_decode_tower_and_pair(g1, len, rest@));

    let (fp_non_residue, rest) = match decode_fp(rest, modulus_len, &base_field) {
        Ok(v) => v,
        Err(e) => { return Err(e); },
    };
    let mut extension_2 = Extension2::new(&base_field, fp_non_residue);
    let (f_0, f_1) = frobenius_calculator_fp2(&extension_2);
    extension_2.set_frobenius_coeffs(f_0, f_1);
    let ghost e2 = extension_2@;
    assert(e2 == spec_extension2(g1.p, e2.non_residue));

    let (fp2_non_residue, rest) = match decode_fp2(rest, modulus_len, &extension_2) {
        Ok(v) => v,
        Err(e) => { return Err(e); },
    };
    let (twist_type, rest) = match decode_twist_type(rest) {
        Ok(v) => v,
        Err(e) => { return Err(e); },
    };
    let ghost xi = fp2_non_residue@;
    assert(spec_pair_bls12(bytes@) == spec_build_tower_and_pair(
        g1,
        len,
        e2.non_residue,
        xi,
        twist_type,
        rest@,
    ));

    let mut extension_6 = Extension3Over2::new(&extension_2, fp2_non_residue.clone());
    let exp_base = WindowExpBase::new(
        &extension_2,
        &fp2_non_residue,
        extension_2.one(),
        EXP_WINDOW,
    );
    let (coeffs_c1, coeffs_c2) =
        match frobenius_calculator_fp6_as_3_over_2_using_sliding_window(
        modulus,
        &exp_base,
        &extension_6,
    ) {
        Some(v) => v,
        None => {
            return Err(
                ApiError::unknown_parameter("Can not calculate Frobenius coefficients for Fp6"),
            );
        },
    };
    extension_6.set_frobenius_coeffs(coeffs_c1, coeffs_c2);

    let mut extension_12 = Extension2Over3Over2::new(&extension_6);
    let coeffs = match frobenius_calculator_fp12_using_sliding_window(
        modulus,
        &exp_base,
        &extension_12,
    ) {
        Some(v) => v,
        None => {
            return Err(
                ApiError::unknown_parameter("Can not calculate Frobenius coefficients for Fp12"),
            );
        },
    };
    extension_12.set_frobenius_coeffs(coeffs);
    let ghost e12 = extension_12@;

    let b_fp2 = match twist_coefficient(&extension_2, &fp2_non_residue, &b_fp, twist_type) {
        Ok(v) => v,
        Err(e) => { return Err(e); },
    };
    let a_fp2 = extension_2.zero();
    let g2_curve = WeierstrassCurveTwist::new(
        &extension_2,
        vstd::slice::slice_to_vec(order),
        a_fp2,
        b_fp2,
    );
    let ghost g2 = g2_curve@;
    assert(spec_pair_bls12(bytes@) == spec_decode_operands_and_pair(
        e12,
        twist_type,
        g1,
        g2,
        len,
        rest@,
    ));

    let (x, rest) = match decode_biguint_with_length(rest) {
        Ok(v) => v,
        Err(e) => { return Err(e); },
    };
    let (x_is_negative, rest) = match decode_sign(rest) {
        Ok(v) => v,
        Err(e) => { return Err(e); },
    };
    let (num_pairs, rest) = match decode_byte(
        rest,
        "Input is not long enough to get number of pairs",
    ) {
        Ok(v) => v,
        Err(e) => { return Err(e); },
    };
    let (g1_points, g2_points) = match decode_pairs(
        rest,
        num_pairs,
        modulus_len,
        &g1_curve,
        &g2_curve,
    ) {
        Ok(v) => v,
        Err(e) => { return Err(e); },
    };

    let engine = Bls12Instance {
        x: vstd::slice::slice_to_vec(x),
        x_is_negative,
        twist_type,
        base_field: &base_field,
        curve: &g1_curve,
        curve_twist: &g2_curve,
        fp2_extension: &extension_2,
        fp6_extension: &extension_6,
        fp12_extension: &extension_12,
    };
    let pairing_result = engine.pair(&g1_points, &g2_points);
    encode_result(&extension_12, pairing_result)
}

/// A backend that answers pairing checks.
pub trait PairingApi {
    /// Answers the payload: one byte on success.
    fn pair(bytes: &[u8]) -> Result<Vec<u8>, ApiError>;
}

/// The pairing check of this library.
pub struct PublicPairingApi;

impl PairingApi for PublicPairingApi {
    /// Answers the payload with the byte 1 where the product of the pairings
    /// of its operand pairs is the identity, and with the byte 0 where it is
    /// not.
    fn pair(bytes: &[u8]) -> (r: Result<Vec<u8>, ApiError>)
        ensures
            outcome(r) == spec_pair(bytes@),
            r is Ok ==> r->Ok_0@.len() == 1 && (r->Ok_0@[0] == 0 || r->Ok_0@[0] == 1),
    {
        let (curve_type, rest) = match split(
            bytes,
            CURVE_TYPE_LENGTH,
            "Input should be longer than curve type encoding",
        ) {
            Ok(v) => v,
            Err(e) => { return Err(e); },
        };
        if curve_type[0] != BLS12 {
            return Err(ApiError::input_error("Unknown curve type"));
        }
        let (modulus, order) = match parse_encodings(rest) {
            Ok(v) => v,
            Err(e) => { return Err(e); },
        };
        let modulus_limbs = num_limbs(modulus);
        let order_limbs = num_limbs(order);
        match select_widths(modulus_limbs, order_limbs) {
            Ok(_) => {
                pair_bls12(rest)
            },
            Err(e) => Err(e),
        }
    }
}

} // verus!
