//! What cutting a payload short does to its answer: the answer stays as it
//! is, or it becomes an input error.  So a payload that is accepted has a
//! shortest beginning that is accepted, with the same answer; every shorter
//! beginning is an input error, and what follows it is ignored.
use vstd::prelude::*;
use crate::bls12::TwistType;
use crate::decode_fp::{spec_decode_fp, spec_decode_fp2, spec_parse_ab, spec_parse_base_field};
use crate::decode_g1::{spec_decode_g1_point, spec_parse_group_order};
use crate::decode_g2::spec_decode_g2_point;
use crate::decode_utils::{
    spec_decode_byte, spec_decode_sign, spec_decode_twist_type, spec_decode_with_length,
    spec_split,
};
use crate::errors::ErrorKind;
use crate::fp12::Ext12V;
use crate::fp2::Fp2V;
use crate::pairing_ops::{
    spec_build_tower_and_pair, spec_decode_operands_and_pair, spec_decode_pairs,
    spec_decode_tower_and_pair, spec_pair, spec_pair_bls12, spec_parse_encodings,
};
use crate::weierstrass_curve::{CurveV, PointV};
use crate::weierstrass_twist::{TwistPointV, TwistV};

verus! {

/// Whether `s` is a beginning of `b`.
pub open spec fn is_prefix(s: Seq<u8>, b: Seq<u8>) -> bool {
    s.len() <= b.len() && s == b.take(s.len() as int)
}

/// How a decoder's result on a beginning of a payload relates to its result
/// on the payload: it is an input error, or the same error, or the same
/// value with a beginning of the same rest.
pub open spec fn cut_decoding<T>(
    short: Result<(T, Seq<u8>), ErrorKind>,
    long: Result<(T, Seq<u8>), ErrorKind>,
) -> bool {
    match short {
        Err(k) => k == ErrorKind::InputError || long == Err::<(T, Seq<u8>), _>(k),
        Ok((v, rest)) => match long {
            Ok((w, more)) => v == w && is_prefix(rest, more),
            Err(_) => false,
        },
    }
}

/// How a result without a rest on a beginning of a payload relates to the
/// result on the payload: it is an input error, or the same.
pub open spec fn cut_result<T>(short: Result<T, ErrorKind>, long: Result<T, ErrorKind>) -> bool {
    short == Err::<T, _>(ErrorKind::InputError) || short == long
}

/// The rests behind `n` bytes of a payload and of a beginning of it.
pub proof fn lemma_cut_split(s: Seq<u8>, b: Seq<u8>, n: nat)
    requires
        is_prefix(s, b),
    ensures
        cut_decoding(spec_split(s, n), spec_split(b, n)),
{
    if s.len() >= n {
        assert(s.take(n as int) =~= b.take(n as int));
        assert(s.skip(n as int) =~= b.skip(n as int).take(s.len() - n));
    }
}

/// The first byte of a payload and of a beginning of it.
pub proof fn lemma_cut_byte(s: Seq<u8>, b: Seq<u8>)
    requires
        is_prefix(s, b),
    ensures
        cut_decoding(spec_decode_byte(s), spec_decode_byte(b)),
{
    if s.len() >= 1 {
        assert(s[0] == b.take(s.len() as int)[0]);
        assert(s.skip(1) =~= b.skip(1).take(s.len() - 1));
    }
}

/// A length-prefixed number of a payload and of a beginning of it.
pub proof fn lemma_cut_with_length(s: Seq<u8>, b: Seq<u8>)
    requires
        is_prefix(s, b),
    ensures
        cut_decoding(spec_decode_with_length(s), spec_decode_with_length(b)),
{
    lemma_cut_byte(s, b);
    if let Ok((len, rest)) = spec_decode_byte(s) {
        let more = spec_decode_byte(b)->Ok_0.1;
        lemma_cut_split(rest, more, len as nat);
    }
}

/// The sign of a payload and of a beginning of it.
pub proof fn lemma_cut_sign(s: Seq<u8>, b: Seq<u8>)
    requires
        is_prefix(s, b),
    ensures
        cut_decoding(spec_decode_sign(s), spec_decode_sign(b)),
{
    lemma_cut_byte(s, b);
}

/// The twist type of a payload and of a beginning of it.
pub proof fn lemma_cut_twist_type(s: Seq<u8>, b: Seq<u8>)
    requires
        is_prefix(s, b),
    ensures
        cut_decoding(spec_decode_twist_type(s), spec_decode_twist_type(b)),
{
    lemma_cut_byte(s, b);
}

/// A field element of a payload and of a beginning of it.
pub proof fn lemma_cut_fp(s: Seq<u8>, b: Seq<u8>, len: nat, p: nat)
    requires
        is_prefix(s, b),
    ensures
        cut_decoding(spec_decode_fp(s, len, p), spec_decode_fp(b, len, p)),
{
    lemma_cut_split(s, b, len);
}

/// An element of `Fp2` of a payload and of a beginning of it.
pub proof fn lemma_cut_fp2(s: Seq<u8>, b: Seq<u8>, len: nat, p: nat)
    requires
        is_prefix(s, b),
    ensures
        cut_decoding(spec_decode_fp2(s, len, p), spec_decode_fp2(b, len, p)),
{
    lemma_cut_fp(s, b, len, p);
    if let Ok((c0, rest)) = spec_decode_fp(s, len, p) {
        let more = spec_decode_fp(b, len, p)->Ok_0.1;
        lemma_cut_fp(rest, more, len, p);
    }
}

/// A point of the first group of a payload and of a beginning of it.
pub proof fn lemma_cut_g1_point(s: Seq<u8>, b: Seq<u8>, len: nat, p: nat)
    requires
        is_prefix(s, b),
    ensures
        cut_decoding(spec_decode_g1_point(s, len, p), spec_decode_g1_point(b, len, p)),
{
    lemma_cut_fp(s, b, len, p);
    if let Ok((x, rest)) = spec_decode_fp(s, len, p) {
        let more = spec_decode_fp(b, len, p)->Ok_0.1;
        lemma_cut_fp(rest, more, len, p);
    }
}

/// A point of the second group of a payload and of a beginning of it.
pub proof fn lemma_cut_g2_point(s: Seq<u8>, b: Seq<u8>, len: nat, p: nat)
    requires
        is_prefix(s, b),
    ensures
        cut_decoding(spec_decode_g2_point(s, len, p), spec_decode_g2_point(b, len, p)),
{
    lemma_cut_fp2(s, b, len, p);
    if let Ok((x, rest)) = spec_decode_fp2(s, len, p) {
        let more = spec_decode_fp2(b, len, p)->Ok_0.1;
        lemma_cut_fp2(rest, more, len, p);
    }
}

/// The group order of a payload and of a beginning of it.
pub proof fn lemma_cut_group_order(s: Seq<u8>, b: Seq<u8>)
    requires
        is_prefix(s, b),
    ensures
        cut_decoding(spec_parse_group_order(s), spec_parse_group_order(b)),
{
    lemma_cut_with_length(s, b);
}

/// The modulus of a payload and of a beginning of it.
pub proof fn lemma_cut_base_field(s: Seq<u8>, b: Seq<u8>)
    requires
        is_prefix(s, b),
    ensures
        match spec_parse_base_field(s) {
            Err(k) => k == ErrorKind::InputError || spec_parse_base_field(b) == Err::<
                (nat, nat, Seq<u8>),
                _,
            >(k),
            Ok((p, len, rest)) => match spec_parse_base_field(b) {
                Ok((q, width, more)) => p == q && len == width && is_prefix(rest, more),
                Err(_) => false,
            },
        },
{
    lemma_cut_with_length(s, b);
}

/// The coefficients of a payload and of a beginning of it.
pub proof fn lemma_cut_ab(s: Seq<u8>, b: Seq<u8>, len: nat, p: nat)
    requires
        is_prefix(s, b),
    ensures
        match spec_parse_ab(s, len, p) {
            Err(k) => k == ErrorKind::InputError || spec_parse_ab(b, len, p) == Err::<
                (nat, nat, Seq<u8>),
                _,
            >(k),
            Ok((a0, b0, rest)) => match spec_parse_ab(b, len, p) {
                Ok((a1, b1, more)) => a0 == a1 && b0 == b1 && is_prefix(rest, more),
                Err(_) => false,
            },
        },
{
    lemma_cut_fp(s, b, len, p);
    if let Ok((x, rest)) = spec_decode_fp(s, len, p) {
        let more = spec_decode_fp(b, len, p)->Ok_0.1;
        lemma_cut_fp(rest, more, len, p);
    }
}

/// The operand pairs of a payload and of a beginning of it.
pub proof fn lemma_cut_pairs(
    s: Seq<u8>,
    b: Seq<u8>,
    n: nat,
    len: nat,
    g1: CurveV,
    g2: TwistV,
    ps: Seq<PointV>,
    qs: Seq<TwistPointV>,
)
    requires
        is_prefix(s, b),
    ensures
        cut_result(
            spec_decode_pairs(s, n, len, g1, g2, ps, qs),
            spec_decode_pairs(b, n, len, g1, g2, ps, qs),
        ),
    decreases n,
{
    if n > 0 {
        lemma_cut_g1_point(s, b, len, g1.p);
        if let Ok((point, rest)) = spec_decode_g1_point(s, len, g1.p) {
            let more = spec_decode_g1_point(b, len, g1.p)->Ok_0.1;
            lemma_cut_g2_point(rest, more, len, g1.p);
            if let Ok((twist_point, rest2)) = spec_decode_g2_point(rest, len, g1.p) {
                let more2 = spec_decode_g2_point(more, len, g1.p)->Ok_0.1;
                lemma_cut_pairs(rest2, more2, (n - 1) as nat, len, g1, g2, ps.push(point), qs.push(twist_point));
            }
        }
    }
}

/// The answer for the operands of a payload and of a beginning of it.
pub proof fn lemma_cut_operands(
    e12: Ext12V,
    twist_type: TwistType,
    g1: CurveV,
    g2: TwistV,
    len: nat,
    s: Seq<u8>,
    b: Seq<u8>,
)
    requires
        is_prefix(s, b),
    ensures
        cut_result(
            spec_decode_operands_and_pair(e12, twist_type, g1, g2, len, s),
            spec_decode_operands_and_pair(e12, twist_type, g1, g2, len, b),
        ),
{
    lemma_cut_with_length(s, b);
    if let Ok((x, r1)) = spec_decode_with_length(s) {
        let m1 = spec_decode_with_length(b)->Ok_0.1;
        lemma_cut_sign(r1, m1);
        if let Ok((sign, r2)) = spec_decode_sign(r1) {
            let m2 = spec_decode_sign(m1)->Ok_0.1;
            lemma_cut_byte(r2, m2);
            if let Ok((n, r3)) = spec_decode_byte(r2) {
                let m3 = spec_decode_byte(m2)->Ok_0.1;
                lemma_cut_pairs(r3, m3, n as nat, len, g1, g2, Seq::empty(), Seq::empty());
            }
        }
    }
}

/// The answer for the tower of a payload and of a beginning of it.
pub proof fn lemma_cut_tower(g1: CurveV, len: nat, s: Seq<u8>, b: Seq<u8>)
    requires
        is_prefix(s, b),
    ensures
        cut_result(
            spec_decode_tower_and_pair(g1, len, s),
            spec_decode_tower_and_pair(g1, len, b),
        ),
{
    lemma_cut_fp(s, b, len, g1.p);
    if let Ok((non_residue, r1)) = spec_decode_fp(s, len, g1.p) {
        let m1 = spec_decode_fp(b, len, g1.p)->Ok_0.1;
        lemma_cut_fp2(r1, m1, len, g1.p);
        if let Ok((xi, r2)) = spec_decode_fp2(r1, len, g1.p) {
            let m2 = spec_decode_fp2(m1, len, g1.p)->Ok_0.1;
            lemma_cut_twist_type(r2, m2);
            if let Ok((t, r3)) = spec_decode_twist_type(r2) {
                let m3 = spec_decode_twist_type(m2)->Ok_0.1;
                lemma_cut_built_tower(g1, len, non_residue, xi, t, r3, m3);
            }
        }
    }
}

/// The answer behind the twist type of a payload and of a beginning of it.
pub proof fn lemma_cut_built_tower(
    g1: CurveV,
    len: nat,
    non_residue: nat,
    xi: Fp2V,
    twist_type: TwistType,
    s: Seq<u8>,
    b: Seq<u8>,
)
    requires
        is_prefix(s, b),
    ensures
        cut_result(
            spec_build_tower_and_pair(g1, len, non_residue, xi, twist_type, s),
            spec_build_tower_and_pair(g1, len, non_residue, xi, twist_type, b),
        ),
{
    let e2 = crate::pairing_ops::spec_extension2(g1.p, non_residue);
    if let Some((c1, c2)) = crate::frobenius::fp6_frobenius_coeffs(e2, xi) {
        if let Some(c) = crate::frobenius::fp12_frobenius_coeffs(e2, xi) {
            if let Ok(twist_b) = crate::pairing_ops::spec_twist_coefficient(
                e2,
                xi,
                g1.b,
                twist_type,
            ) {
                lemma_cut_operands(
                    Ext12V {
                        e6: crate::fp6::Ext6V {
                            e2,
                            non_residue: xi,
                            frobenius_coeffs_c1: c1,
                            frobenius_coeffs_c2: c2,
                        },
                        frobenius_coeffs_c1: c,
                    },
                    twist_type,
                    g1,
                    TwistV {
                        e: e2,
                        a: crate::fp2::fp2_zero(),
                        b: twist_b,
                        order: g1.order,
                    },
                    len,
                    s,
                    b,
                );
            }
        }
    }
}

/// The answer for a payload without its curve type and for a beginning of it.
pub proof fn lemma_cut_pair_bls12(s: Seq<u8>, b: Seq<u8>)
    requires
        is_prefix(s, b),
    ensures
        cut_result(spec_pair_bls12(s), spec_pair_bls12(b)),
{
    lemma_cut_base_field(s, b);
    if let Ok((p, len, r1)) = spec_parse_base_field(s) {
        let m1 = spec_parse_base_field(b)->Ok_0.2;
        lemma_cut_ab(r1, m1, len, p);
        if let Ok((a0, b0, r2)) = spec_parse_ab(r1, len, p) {
            let m2 = spec_parse_ab(m1, len, p)->Ok_0.2;
            if a0 == 0 {
                lemma_cut_group_order(r2, m2);
                if let Ok((order, r3)) = spec_parse_group_order(r2) {
                    let m3 = spec_parse_group_order(m2)->Ok_0.1;
                    lemma_cut_tower(CurveV { p, a: a0, b: b0, order }, len, r3, m3);
                }
            }
        }
    }
}

/// The modulus and the group order of a payload and of a beginning of it.
pub proof fn lemma_cut_encodings(s: Seq<u8>, b: Seq<u8>)
    requires
        is_prefix(s, b),
    ensures
        cut_result(spec_parse_encodings(s), spec_parse_encodings(b)),
{
    lemma_cut_base_field(s, b);
    if let Ok((p, len, r1)) = spec_parse_base_field(s) {
        let m1 = spec_parse_base_field(b)->Ok_0.2;
        lemma_cut_split(r1, m1, len);
        if let Ok((a0, r2)) = spec_split(r1, len) {
            let m2 = spec_split(m1, len)->Ok_0.1;
            lemma_cut_split(r2, m2, len);
            if let Ok((b0, r3)) = spec_split(r2, len) {
                let m3 = spec_split(m2, len)->Ok_0.1;
                lemma_cut_group_order(r3, m3);
            }
        }
    }
}

/// Cutting a payload short leaves its answer as it is or turns it into an
/// input error.
pub proof fn lemma_cut_pair(s: Seq<u8>, b: Seq<u8>)
    requires
        is_prefix(s, b),
    ensures
        spec_pair(s) == Err::<Seq<u8>, _>(ErrorKind::InputError) || spec_pair(s) == spec_pair(b),
{
    lemma_cut_byte(s, b);
    if let Ok((curve_type, r1)) = spec_decode_byte(s) {
        let m1 = spec_decode_byte(b)->Ok_0.1;
        lemma_cut_encodings(r1, m1);
        lemma_cut_pair_bls12(r1, m1);
    }
}

/// A beginning of an accepted payload is accepted with the same answer or is
/// an input error: no other error comes from cutting.
pub proof fn lemma_truncation_is_input_error(bytes: Seq<u8>, k: nat)
    requires
        k <= bytes.len(),
        spec_pair(bytes) is Ok,
        spec_pair(bytes.take(k as int)) is Err,
    ensures
        spec_pair(bytes.take(k as int)) == Err::<Seq<u8>, _>(ErrorKind::InputError),
{
    assert(bytes.take(k as int).take(k as int) =~= bytes.take(k as int));
    lemma_cut_pair(bytes.take(k as int), bytes);
}

/// What follows an accepted payload does not change its answer.
pub proof fn lemma_trailing_bytes_are_ignored(bytes: Seq<u8>, more: Seq<u8>)
    requires
        spec_pair(bytes) is Ok,
    ensures
        spec_pair(bytes + more) == spec_pair(bytes),
{
    assert((bytes + more).take(bytes.len() as int) =~= bytes);
    lemma_cut_pair(bytes, bytes + more);
}

} // verus!
