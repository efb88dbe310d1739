//! The primitive decoders, the bits of a number and the table of widths.
use eth_pairings::bits::{bits_be, push_byte_bits};
use eth_pairings::bls12::TwistType;
use eth_pairings::decode_fp::{
    decode_fp, decode_fp2, parse_ab_in_base_field_from_encoding, parse_base_field_from_encoding,
};
use eth_pairings::decode_g1::{decode_g1_point_from_xy, parse_group_order_from_encoding};
use eth_pairings::decode_utils::{
    decode_biguint_with_length, decode_byte, decode_sign, decode_twist_type, split,
};
use eth_pairings::errors::{ApiError, ErrorKind};
use eth_pairings::fp::PrimeField;
use eth_pairings::limbs::{
    bits_of, modulus_width, num_limbs, order_width, select_widths, LimbWidths,
};
use eth_pairings::pairing_ops::parse_encodings;
use eth_pairings::weierstrass_curve::WeierstrassCurve;

#[test]
fn split_hands_out_the_head_and_the_rest() {
    let data = [1u8, 2, 3, 4];
    assert_eq!(split(&data, 0, "short"), Ok((&data[..0], &data[..])));
    assert_eq!(split(&data, 3, "short"), Ok((&data[..3], &data[3..])));
    assert_eq!(split(&data, 4, "short"), Ok((&data[..], &data[4..])));
    assert_eq!(split(&data, 5, "short"), Err(ApiError::InputError("short".to_string())));
}

#[test]
fn error_carries_its_kind_and_sentence() {
    let e = ApiError::input_error("one");
    assert_eq!(e, ApiError::InputError("one".to_string()));
    assert_eq!(e.kind(), ErrorKind::InputError);
    assert_eq!(e.message(), "one");
    let e = ApiError::unknown_parameter("two");
    assert_eq!(e, ApiError::UnknownParameter("two".to_string()));
    assert_eq!(e.kind(), ErrorKind::UnknownParameter);
    assert_eq!(e.message(), "two");
    let e = ApiError::unexpected_zero("three");
    assert_eq!(e, ApiError::UnexpectedZero("three".to_string()));
    assert_eq!(e.kind(), ErrorKind::UnexpectedZero);
    assert_eq!(e.message(), "three");
}

#[test]
fn byte_decoder() {
    assert_eq!(decode_byte(&[9, 8], "none"), Ok((9u8, &[8u8][..])));
    assert_eq!(decode_byte(&[], "none"), Err(ApiError::InputError("none".to_string())));
}

#[test]
fn length_prefixed_number_decoder() {
    let data = [2u8, 0xab, 0xcd, 0xef];
    assert_eq!(decode_biguint_with_length(&data), Ok((&data[1..3], &data[3..])));
    assert_eq!(decode_biguint_with_length(&[0u8, 5]), Ok((&[][..], &[5u8][..])));
    assert_eq!(
        decode_biguint_with_length(&[3u8, 1, 2]).map_err(|e| e.kind()),
        Err(ErrorKind::InputError)
    );
    assert_eq!(
        decode_biguint_with_length(&[]).map_err(|e| e.kind()),
        Err(ErrorKind::InputError)
    );
}

#[test]
fn sign_decoder() {
    assert_eq!(decode_sign(&[0, 7]), Ok((false, &[7u8][..])));
    assert_eq!(decode_sign(&[1]), Ok((true, &[][..])));
    assert_eq!(decode_sign(&[2]).map_err(|e| e.kind()), Err(ErrorKind::InputError));
    assert_eq!(decode_sign(&[]).map_err(|e| e.kind()), Err(ErrorKind::InputError));
}

#[test]
fn twist_type_decoder() {
    assert_eq!(decode_twist_type(&[1, 7]), Ok((TwistType::M, &[7u8][..])));
    assert_eq!(decode_twist_type(&[2]), Ok((TwistType::D, &[][..])));
    assert_eq!(decode_twist_type(&[0]).map_err(|e| e.kind()), Err(ErrorKind::UnknownParameter));
    assert_eq!(decode_twist_type(&[3]).map_err(|e| e.kind()), Err(ErrorKind::UnknownParameter));
    assert_eq!(decode_twist_type(&[]).map_err(|e| e.kind()), Err(ErrorKind::InputError));
}

#[test]
fn base_field_decoder() {
    let data = [2u8, 0, 13, 5, 6];
    match parse_base_field_from_encoding(&data) {
        Ok((field, len, modulus, rest)) => {
            assert_eq!(field.modulus_bytes(), vec![0u8, 13]);
            assert_eq!(len, 2);
            assert_eq!(modulus, &data[1..3]);
            assert_eq!(rest, &data[3..]);
        }
        Err(e) => panic!("{:?}", e),
    }
    let kind = |d: &[u8]| parse_base_field_from_encoding(d).map(|_| ()).map_err(|e| e.kind());
    assert_eq!(kind(&[2, 0, 0]), Err(ErrorKind::InputError));
    assert_eq!(kind(&[0]), Err(ErrorKind::InputError));
    assert_eq!(kind(&[2, 1]), Err(ErrorKind::InputError));
    assert_eq!(kind(&[]), Err(ErrorKind::InputError));
}

#[test]
fn field_element_decoders() {
    let f = PrimeField::new(&[13]).expect("a field");
    let data = [0u8, 12, 0, 3, 9];
    let (x, rest) = decode_fp(&data, 2, &f).expect("an element");
    assert_eq!(x.to_be_bytes(), vec![0u8, 12]);
    assert_eq!(rest, &data[2..]);
    assert_eq!(decode_fp(&[0, 13], 2, &f).map(|_| ()).map_err(|e| e.kind()), Err(ErrorKind::InputError));
    assert_eq!(decode_fp(&[0], 2, &f).map(|_| ()).map_err(|e| e.kind()), Err(ErrorKind::InputError));
    let (a, b, rest) = parse_ab_in_base_field_from_encoding(&data, 2, &f).expect("two elements");
    assert_eq!((a.to_be_bytes(), b.to_be_bytes()), (vec![0u8, 12], vec![0u8, 3]));
    assert_eq!(rest, &[9u8][..]);
    assert_eq!(
        parse_ab_in_base_field_from_encoding(&data, 3, &f).map(|_| ()).map_err(|e| e.kind()),
        Err(ErrorKind::InputError)
    );
    let e = eth_pairings::fp2::Extension2::new(&f, f.from_be_bytes(&[2]).expect("two"));
    let (y, rest) = decode_fp2(&data, 2, &e).expect("an element");
    assert_eq!((y.c0.to_be_bytes(), y.c1.to_be_bytes()), (vec![0u8, 12], vec![0u8, 3]));
    assert_eq!(rest, &[9u8][..]);
    assert_eq!(
        decode_fp2(&[1, 14], 1, &e).map(|_| ()).map_err(|e| e.kind()),
        Err(ErrorKind::InputError)
    );
}

#[test]
fn group_order_and_point_decoders() {
    let data = [1u8, 7, 4];
    assert_eq!(parse_group_order_from_encoding(&data), Ok((&data[1..2], &data[2..])));
    assert_eq!(
        parse_group_order_from_encoding(&[1, 0]).map_err(|e| e.kind()),
        Err(ErrorKind::InputError)
    );
    assert_eq!(
        parse_group_order_from_encoding(&[2, 1]).map_err(|e| e.kind()),
        Err(ErrorKind::InputError)
    );
    let f = PrimeField::new(&[13]).expect("a field");
    let zero = f.zero();
    let four = f.from_be_bytes(&[4]).expect("four");
    let curve = WeierstrassCurve::new(&f, vec![7], zero, four);
    let (q, rest) = decode_g1_point_from_xy(&[3, 5, 1], 1, &curve).expect("a point");
    assert_eq!((q.x.to_be_bytes(), q.y.to_be_bytes()), (vec![3u8], vec![5u8]));
    assert_eq!(rest, &[1u8][..]);
    // 5^2 = 25 = 12 and 3^3 + 4 = 31 = 5
    assert!(!q.check_on_curve());
    // 3^2 = 9 and 2^3 + 4 = 12; 1^3 + 4 = 5 is no square; 0^3 + 4 = 2^2
    let (q, _) = decode_g1_point_from_xy(&[0, 2], 1, &curve).expect("a point");
    assert!(q.check_on_curve());
    assert_eq!(
        decode_g1_point_from_xy(&[3, 13], 1, &curve).map(|_| ()).map_err(|e| e.kind()),
        Err(ErrorKind::InputError)
    );
    assert_eq!(
        decode_g1_point_from_xy(&[3], 1, &curve).map(|_| ()).map_err(|e| e.kind()),
        Err(ErrorKind::InputError)
    );
}

#[test]
fn modulus_and_order_are_found_without_decoding_the_coefficients() {
    // the coefficients 200 and 201 are not below the modulus 13
    let data = [1u8, 13, 200, 201, 2, 1, 0, 9];
    assert_eq!(parse_encodings(&data), Ok((&data[1..2], &data[5..7])));
    assert_eq!(parse_encodings(&data[..6]).map_err(|e| e.kind()), Err(ErrorKind::InputError));
    assert_eq!(parse_encodings(&data[..3]).map_err(|e| e.kind()), Err(ErrorKind::InputError));
    assert_eq!(parse_encodings(&[1, 0]).map_err(|e| e.kind()), Err(ErrorKind::InputError));
}

#[test]
fn bits_of_a_number() {
    assert_eq!(bits_be(&[]), Vec::<bool>::new());
    assert_eq!(
        bits_be(&[0x80, 0x05]),
        vec![
            true, false, false, false, false, false, false, false, false, false, false, false,
            false, true, false, true
        ]
    );
    let mut out = vec![true];
    push_byte_bits(&mut out, 0xa3);
    assert_eq!(out, vec![true, true, false, true, false, false, false, true, true]);
    for b in 0..=255u8 {
        let bits = bits_be(&[b]);
        assert_eq!(bits.len(), 8);
        let v = bits.iter().fold(0u32, |acc, bit| 2 * acc + *bit as u32);
        assert_eq!(v, b as u32);
    }
}

#[test]
fn bit_length_of_a_number() {
    assert_eq!(bits_of(&[]), 0);
    assert_eq!(bits_of(&[0, 0, 0]), 0);
    assert_eq!(bits_of(&[1]), 1);
    assert_eq!(bits_of(&[0, 2]), 2);
    assert_eq!(bits_of(&[0xff]), 8);
    assert_eq!(bits_of(&[1, 0]), 9);
    assert_eq!(bits_of(&[0, 0x40, 0, 0]), 23);
    assert_eq!(bits_of(&vec![0xffu8; 255]), 2040);
}

#[test]
fn limbs_of_a_number() {
    assert_eq!(num_limbs(&[]), 1);
    assert_eq!(num_limbs(&[0, 0]), 1);
    assert_eq!(num_limbs(&[1]), 1);
    assert_eq!(num_limbs(&[0x7f, 0xff, 0xff, 0xff, 0xff, 0xff, 0xff, 0xff]), 1);
    assert_eq!(num_limbs(&[0x80, 0, 0, 0, 0, 0, 0, 0]), 2);
    assert_eq!(num_limbs(&[0, 0, 0x80, 0, 0, 0, 0, 0, 0, 0]), 2);
    // 381 bits ask for 6 limbs, 255 bits for 4, 256 bits for 5
    let mut m = vec![0x1au8];
    m.extend(vec![0u8; 47]);
    assert_eq!(num_limbs(&m), 6);
    let mut r = vec![0x73u8];
    r.extend(vec![0u8; 31]);
    assert_eq!(num_limbs(&r), 4);
    r[0] = 0x80;
    assert_eq!(num_limbs(&r), 5);
    assert_eq!(num_limbs(&vec![0xffu8; 128]), 17);
    assert_eq!(num_limbs(&vec![0xffu8; 255]), 32);
}

#[test]
fn table_of_widths() {
    for m in 0..40u64 {
        let expected = if m == 0 || m > 16 { None } else { Some(m.max(4)) };
        assert_eq!(modulus_width(m), expected, "modulus limbs {}", m);
        let expected = if m == 0 || m > 16 { None } else { Some(m) };
        assert_eq!(order_width(m), expected, "order limbs {}", m);
    }
    for m in 0..20u64 {
        for o in 0..20u64 {
            let r = select_widths(m, o);
            if (1..=16).contains(&m) && (1..=16).contains(&o) {
                assert_eq!(r, Ok(LimbWidths { modulus_limbs: m.max(4), order_limbs: o }));
            } else {
                assert_eq!(r.map_err(|e| e.kind()), Err(ErrorKind::InputError));
            }
        }
    }
    assert_eq!(select_widths(u64::MAX, 1).map_err(|e| e.kind()), Err(ErrorKind::InputError));
}
