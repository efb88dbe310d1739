//! How long a payload is, and that nothing shorter is accepted.
//!
//! The lengths of a payload's fields stand in the payload itself: the length
//! of the modulus, which is also that of every field element, the length of
//! the group order, the length of the loop parameter, and the number of
//! operand pairs.  An accepted payload is at least as long as these say, and
//! every shorter beginning of it is an input error.
use vstd::prelude::*;
use crate::bls12::TwistType;
use crate::decode_fp::{spec_decode_fp, spec_decode_fp2, spec_parse_ab, spec_parse_base_field};
use crate::decode_g1::{spec_decode_g1_point, spec_parse_group_order};
use crate::decode_g2::spec_decode_g2_point;
use crate::decode_utils::{
    spec_decode_byte, spec_decode_sign, spec_decode_twist_type, spec_decode_with_length,
};
use crate::errors::ErrorKind;
use crate::fp12::Ext12V;
use crate::fp2::Fp2V;
use crate::pairing_ops::{
    spec_build_tower_and_pair, spec_decode_operands_and_pair, spec_decode_pairs,
    spec_decode_tower_and_pair, spec_pair, spec_pair_bls12,
};
use crate::prefix_laws::{is_prefix, lemma_cut_pair};
use crate::weierstrass_curve::{CurveV, PointV};
use crate::weierstrass_twist::{TwistPointV, TwistV};

verus! {

/// The length of the operands: the length of the loop parameter, the loop
/// parameter, its sign, the number of pairs, and six field elements of `m`
/// bytes for each pair.
pub open spec fn operands_length(m: nat, r: Seq<u8>) -> nat {
    3 + r[0] as nat + 6 * m * (r[2 + r[0] as int] as nat)
}

/// The length of what follows the group order: three field elements of `m`
/// bytes for the two non-residues, the twist type, and the operands.
pub open spec fn tower_length(m: nat, r: Seq<u8>) -> nat {
    3 * m + 1 + operands_length(m, r.skip(3 * m as int + 1))
}

/// The length of the head of a payload without its curve type: the length
/// of the modulus, the modulus, the two coefficients, the length of the
/// group order, and the group order.
pub open spec fn head_length(r: Seq<u8>) -> nat {
    2 + 3 * (r[0] as nat) + r[1 + 3 * (r[0] as int)] as nat
}

/// The length of a payload, as its own length fields give it.
pub open spec fn payload_length(bytes: Seq<u8>) -> nat {
    let r = bytes.skip(1);
    1 + head_length(r) + tower_length(r[0] as nat, r.skip(head_length(r) as int))
}

/// Operand pairs that are decoded take six field elements each.
pub proof fn lemma_pairs_length(
    r: Seq<u8>,
    n: nat,
    len: nat,
    g1: CurveV,
    g2: TwistV,
    ps: Seq<PointV>,
    qs: Seq<TwistPointV>,
)
    requires
        spec_decode_pairs(r, n, len, g1, g2, ps, qs) is Ok,
    ensures
        r.len() >= 6 * len * n,
    decreases n,
{
    if n > 0 {
        let (point, r1) = spec_decode_g1_point(r, len, g1.p)->Ok_0;
        let (twist_point, r2) = spec_decode_g2_point(r1, len, g1.p)->Ok_0;
        lemma_point_lengths(r, len, g1.p);
        lemma_pairs_length(r2, (n - 1) as nat, len, g1, g2, ps.push(point), qs.push(twist_point));
        assert(6 * len * n == 6 * len * (n - 1) + 6 * len) by (nonlinear_arith)
            requires
                n >= 1,
        ;
    } else {
        assert(6 * len * n == 0) by (nonlinear_arith)
            requires
                n == 0,
        ;
    }
}

/// A pair that is decoded takes six field elements.
pub proof fn lemma_point_lengths(r: Seq<u8>, len: nat, p: nat)
    ensures
        match spec_decode_g1_point(r, len, p) {
            Ok((point, r1)) => r1.len() == r.len() - 2 * len && match spec_decode_g2_point(
                r1,
                len,
                p,
            ) {
                Ok((twist_point, r2)) => r2.len() == r.len() - 6 * len,
                Err(_) => true,
            },
            Err(_) => true,
        },
{
    if let Ok((x, a)) = spec_decode_fp(r, len, p) {
        if let Ok((y, r1)) = spec_decode_fp(a, len, p) {
            if let Ok((x2, b)) = spec_decode_fp2(r1, len, p) {
                assert(b.len() == r1.len() - 2 * len);
                if let Ok((y2, r2)) = spec_decode_fp2(b, len, p) {
                    assert(r2.len() == b.len() - 2 * len);
                }
            }
        }
    }
}

/// Operands that are decoded are as long as their length fields say.
pub proof fn lemma_operands_length(
    e12: Ext12V,
    twist_type: TwistType,
    g1: CurveV,
    g2: TwistV,
    len: nat,
    r: Seq<u8>,
)
    requires
        spec_decode_operands_and_pair(e12, twist_type, g1, g2, len, r) is Ok,
    ensures
        r.len() >= operands_length(len, r),
{
    let (x, r1) = spec_decode_with_length(r)->Ok_0;
    let (sign, r2) = spec_decode_sign(r1)->Ok_0;
    let (n, r3) = spec_decode_byte(r2)->Ok_0;
    let width = r[0] as int;
    assert(r1 =~= r.skip(1 + width));
    assert(r2 =~= r.skip(2 + width));
    assert(n == r[2 + width]);
    assert(r3.len() == r.len() - 3 - width);
    lemma_pairs_length(r3, n as nat, len, g1, g2, Seq::empty(), Seq::empty());
}

/// What follows the group order, where it is decoded, is as long as its
/// length fields say.
pub proof fn lemma_tower_length(g1: CurveV, len: nat, r: Seq<u8>)
    requires
        spec_decode_tower_and_pair(g1, len, r) is Ok,
    ensures
        r.len() >= tower_length(len, r),
{
    let (non_residue, r1) = spec_decode_fp(r, len, g1.p)->Ok_0;
    let (xi, r2) = spec_decode_fp2(r1, len, g1.p)->Ok_0;
    let (twist_type, r3) = spec_decode_twist_type(r2)->Ok_0;
    let a = spec_decode_fp(r1, len, g1.p)->Ok_0.1;
    assert(r1 =~= r.skip(len as int));
    assert(a =~= r.skip(2 * len as int));
    assert(r2 =~= r.skip(3 * len as int));
    assert(r3 =~= r.skip(3 * len as int + 1));
    lemma_built_tower_length(g1, len, non_residue, xi, twist_type, r3);
}

/// The operands behind a tower that is built are as long as their length
/// fields say.
pub proof fn lemma_built_tower_length(
    g1: CurveV,
    len: nat,
    non_residue: nat,
    xi: Fp2V,
    twist_type: TwistType,
    r: Seq<u8>,
)
    requires
        spec_build_tower_and_pair(g1, len, non_residue, xi, twist_type, r) is Ok,
    ensures
        r.len() >= operands_length(len, r),
{
    let e2 = crate::pairing_ops::spec_extension2(g1.p, non_residue);
    let (c1, c2) = crate::frobenius::fp6_frobenius_coeffs(e2, xi)->0;
    let c = crate::frobenius::fp12_frobenius_coeffs(e2, xi)->0;
    let twist_b = crate::pairing_ops::spec_twist_coefficient(e2, xi, g1.b, twist_type)->Ok_0;
    lemma_operands_length(
        Ext12V {
            e6: crate::fp6::Ext6V {
                e2,
                non_residue: xi,
                frobenius_coeffs_c1: c1,
                frobenius_coeffs_c2: c2,
            },
            frobenius_coeffs_c1: c,
        },
        twist_type,
        g1,
        TwistV { e: e2, a: crate::fp2::fp2_zero(), b: twist_b, order: g1.order },
        len,
        r,
    );
}

/// A length-prefixed number that is decoded is as long as its first byte
/// says, and the rest begins behind it.
pub proof fn lemma_with_length_rest(r: Seq<u8>)
    requires
        spec_decode_with_length(r) is Ok,
    ensures
        r.len() >= 1 + r[0],
        spec_decode_with_length(r)->Ok_0.0.len() == r[0],
        spec_decode_with_length(r)->Ok_0.1 == r.skip(1 + r[0] as int),
{
    assert(r.skip(1).skip(r[0] as int) =~= r.skip(1 + r[0] as int));
}

/// Two field elements that are decoded take `len` bytes each, and the rest
/// begins behind them.
pub proof fn lemma_ab_rest(r: Seq<u8>, len: nat, p: nat)
    requires
        spec_parse_ab(r, len, p) is Ok,
    ensures
        r.len() >= 2 * len,
        spec_parse_ab(r, len, p)->Ok_0.2 == r.skip(2 * len as int),
{
    assert(r.skip(len as int).skip(len as int) =~= r.skip(2 * len as int));
}

/// The head of a payload that is decoded is as long as its length fields
/// say, and the rest begins behind it.
pub proof fn lemma_head_rest(r: Seq<u8>)
    requires
        spec_parse_base_field(r) is Ok,
        spec_parse_ab(
            spec_parse_base_field(r)->Ok_0.2,
            spec_parse_base_field(r)->Ok_0.1,
            spec_parse_base_field(r)->Ok_0.0,
        ) is Ok,
        spec_parse_group_order(
            spec_parse_ab(
                spec_parse_base_field(r)->Ok_0.2,
                spec_parse_base_field(r)->Ok_0.1,
                spec_parse_base_field(r)->Ok_0.0,
            )->Ok_0.2,
        ) is Ok,
    ensures
        r.len() >= head_length(r),
        spec_parse_base_field(r)->Ok_0.1 == r[0],
        spec_parse_group_order(
            spec_parse_ab(
                spec_parse_base_field(r)->Ok_0.2,
                spec_parse_base_field(r)->Ok_0.1,
                spec_parse_base_field(r)->Ok_0.0,
            )->Ok_0.2,
        )->Ok_0.1 == r.skip(head_length(r) as int),
{
    let (p, len, r1) = spec_parse_base_field(r)->Ok_0;
    let (a, b, r2) = spec_parse_ab(r1, len, p)->Ok_0;
    let r3 = spec_parse_group_order(r2)->Ok_0.1;
    let m = r[0] as int;
    lemma_with_length_rest(r);
    assert(len == m);
    assert(r1 == r.skip(1 + m));
    lemma_ab_rest(r1, len, p);
    assert(r2 =~= r.skip(1 + 3 * m));
    assert(r2[0] == r[1 + 3 * m]);
    lemma_with_length_rest(r2);
    let o = r[1 + 3 * m] as int;
    assert(r3 =~= r.skip(2 + 3 * m + o));
}

/// A payload without its curve type that is accepted is as long as its
/// length fields say.
pub proof fn lemma_pair_bls12_length(r: Seq<u8>)
    requires
        spec_pair_bls12(r) is Ok,
    ensures
        r.len() >= head_length(r) + tower_length(r[0] as nat, r.skip(head_length(r) as int)),
{
    let (p, len, r1) = spec_parse_base_field(r)->Ok_0;
    let (a, b, r2) = spec_parse_ab(r1, len, p)->Ok_0;
    let (order, r3) = spec_parse_group_order(r2)->Ok_0;
    lemma_head_rest(r);
    assert(spec_decode_tower_and_pair(CurveV { p, a, b, order }, len, r3) is Ok);
    lemma_tower_length(CurveV { p, a, b, order }, len, r3);
}

/// A payload that is accepted is as long as its length fields say.
pub proof fn lemma_accepted_payload_is_whole(bytes: Seq<u8>)
    requires
        spec_pair(bytes) is Ok,
    ensures
        bytes.len() >= payload_length(bytes),
{
    lemma_pair_bls12_length(bytes.skip(1));
}

/// A beginning of a payload that holds all of its own length has the length
/// of the payload.
pub proof fn lemma_beginning_has_same_length(s: Seq<u8>, b: Seq<u8>)
    requires
        is_prefix(s, b),
        s.len() >= payload_length(s),
    ensures
        payload_length(s) == payload_length(b),
{
    let rs = s.skip(1);
    let rb = b.skip(1);
    let m = rs[0] as nat;
    assert(rs[0] == s[1] && rb[0] == b[1]);
    assert(s[1] == b.take(s.len() as int)[1]);
    let i = 2 + 3 * m;
    assert(rs[i - 1] == s[i as int] && rb[i - 1] == b[i as int]);
    assert(s[i as int] == b.take(s.len() as int)[i as int]);
    let h = head_length(rs);
    assert(h == head_length(rb));
    let ts = rs.skip(h as int);
    let tb = rb.skip(h as int);
    let os = ts.skip(3 * m as int + 1);
    let ob = tb.skip(3 * m as int + 1);
    let j = 1 + h + 3 * m + 1;
    assert(6 * m * (os[2 + os[0] as int] as nat) >= 0) by (nonlinear_arith);
    assert(os[0] == s[j as int] && ob[0] == b[j as int]);
    assert(s[j as int] == b.take(s.len() as int)[j as int]);
    let k = j + 2 + os[0] as nat;
    assert(os[2 + os[0] as int] == s[k as int] && ob[2 + os[0] as int] == b[k as int]);
    assert(s[k as int] == b.take(s.len() as int)[k as int]);
}

/// Every beginning of an accepted payload that is shorter than the payload's
/// length fields say is an input error.
pub proof fn lemma_shorter_payload_is_input_error(bytes: Seq<u8>, k: nat)
    requires
        spec_pair(bytes) is Ok,
        k < payload_length(bytes),
    ensures
        k < bytes.len(),
        spec_pair(bytes.take(k as int)) == Err::<Seq<u8>, _>(ErrorKind::InputError),
{
    lemma_accepted_payload_is_whole(bytes);
    let s = bytes.take(k as int);
    assert(s.take(k as int) =~= s);
    lemma_cut_pair(s, bytes);
    if spec_pair(s) is Ok {
        lemma_accepted_payload_is_whole(s);
        lemma_beginning_has_same_length(s, bytes);
    }
}

} // verus!
