//! The fields of the tower, the exponentiation table, the Frobenius
//! coefficients and the curves, on small moduli and on BLS12-381.
use eth_pairings::bls12::TwistType;
use eth_pairings::errors::ErrorKind;
use eth_pairings::fp::{Fp, PrimeField};
use eth_pairings::pairing_ops::twist_coefficient;
use eth_pairings::fp12::{Extension2Over3Over2, Fp12};
use eth_pairings::fp2::{Extension2, Fp2};
use eth_pairings::fp6::{Extension3Over2, Fp6};
use eth_pairings::frobenius::{
    frobenius_calculator_fp12_using_sliding_window, frobenius_calculator_fp2,
    frobenius_calculator_fp6_as_3_over_2_using_sliding_window, frobenius_exponent_of,
    small_number,
};
use eth_pairings::sliding_window_exp::WindowExpBase;
use eth_pairings::weierstrass_curve::{CurvePoint, WeierstrassCurve};
use eth_pairings::weierstrass_twist::{TwistPoint, WeierstrassCurveTwist};

const FP6_C1_1: &str = "0000000000000000000000000000000000000000000000000000000000000000000000000000000000000000000000001a0111ea397fe699ec02408663d4de85aa0d857d89759ad4897d29650fb85f9b409427eb4f49fffd8bfd00000000aaac";
const FP6_C2_1: &str = "1a0111ea397fe699ec02408663d4de85aa0d857d89759ad4897d29650fb85f9b409427eb4f49fffd8bfd00000000aaad000000000000000000000000000000000000000000000000000000000000000000000000000000000000000000000000";
const FP6_C1_2: &str = "00000000000000005f19672fdf76ce51ba69c6076a0f77eaddb3a93be6f89688de17d813620a00022e01fffffffefffe000000000000000000000000000000000000000000000000000000000000000000000000000000000000000000000000";
const FP6_C2_2: &str = "1a0111ea397fe699ec02408663d4de85aa0d857d89759ad4897d29650fb85f9b409427eb4f49fffd8bfd00000000aaac000000000000000000000000000000000000000000000000000000000000000000000000000000000000000000000000";
const FP6_C1_3: &str = "000000000000000000000000000000000000000000000000000000000000000000000000000000000000000000000000000000000000000000000000000000000000000000000000000000000000000000000000000000000000000000000001";
const FP6_C2_3: &str = "1a0111ea397fe69a4b1ba7b6434bacd764774b84f38512bf6730d2a0f6b0f6241eabfffeb153ffffb9feffffffffaaaa000000000000000000000000000000000000000000000000000000000000000000000000000000000000000000000000";
const FP12_C1_1: &str = "1904d3bf02bb0667c231beb4202c0d1f0fd603fd3cbd5f4f7b2443d784bab9c4f67ea53d63e7813d8d0775ed92235fb800fc3e2b36c4e03288e9e902231f9fb854a14787b6c7b36fec0c8ec971f63c5f282d5ac14d6c7ec22cf78a126ddc4af3";
const FP12_C1_2: &str = "00000000000000005f19672fdf76ce51ba69c6076a0f77eaddb3a93be6f89688de17d813620a00022e01fffffffeffff000000000000000000000000000000000000000000000000000000000000000000000000000000000000000000000000";
const FP12_C1_3: &str = "135203e60180a68ee2e9c448d77a2cd91c3dedd930b1cf60ef396489f61eb45e304466cf3e67fa0af1ee7b04121bdea206af0e0437ff400b6831e36d6bd17ffe48395dabc2d3435e77f76e17009241c5ee67992f72ec05f4c81084fbede3cc09";
const FP12_C1_6: &str = "1a0111ea397fe69a4b1ba7b6434bacd764774b84f38512bf6730d2a0f6b0f6241eabfffeb153ffffb9feffffffffaaaa000000000000000000000000000000000000000000000000000000000000000000000000000000000000000000000000";
const POW_1000: &str = "10837aa61fcbccc4c6a16b2c7d9aa2d2f27d5fe358406a2527ef14435f16f25dd41e6be2af7575efc8756543988a2c87000000000000000000000000000000000000000000000000000000000000000000000000000000000000000000000000";
const POW_BIG: &str = "13924190f2c80079fa9b3affdfe45648fac447a2bfbca18dd857da9b1fa229f1ca507eb2a6a56e5806527c9fdf720d99066ed05946b7e62050806cb66367568e69b303e233c871318ed8f805d70ecc32545b814c0aae91a7b3ac8360208d9d12";
const MODULUS: &str = "1a0111ea397fe69a4b1ba7b6434bacd764774b84f38512bf6730d2a0f6b0f6241eabfffeb153ffffb9feffffffffaaab";
const ORDER: &str = "73eda753299d7d483339d80809a1d80553bda402fffe5bfeffffffff00000001";
const G1: &str = "17f1d3a73197d7942695638c4fa9ac0fc3688c4f9774b905a14e3a3f171bac586c55e83ff97a1aeffb3af00adb22c6bb08b3f481e3aaa0f1a09e30ed741d8ae4fcf5e095d5d00af600db18cb2c04b3edd03cc744a2888ae40caa232946c5e7e1";
const TWO_G1: &str = "0572cbea904d67468808c8eb50a9450c9721db309128012543902d0ac358a62ae28f75bb8f1c7c42c39a8c5529bf0f4e166a9d8cabc673a322fda673779d8e3822ba3ecb8670e461f73bb9021d5fd76a4c56d9d4cd16bd1bba86881979749d28";
const THREE_G1: &str = "09ece308f9d1f0131765212deca99697b112d61f9be9a5f1f3780a51335b3ff981747a0b2ca2179b96d2c0c9024e5224032b80d3a6f5b09f8a84623389c5f80ca69a0cddabc3097f9d9c27310fd43be6e745256c634af45ca3473b0590ae30d1";
const G2: &str = "024aa2b2f08f0a91260805272dc51051c6e47ad4fa403b02b4510b647ae3d1770bac0326a805bbefd48056c8c121bdb813e02b6052719f607dacd3a088274f65596bd0d09920b61ab5da61bbdc7f5049334cf11213945d57e5ac7d055d042b7e0ce5d527727d6e118cc9cdc6da2e351aadfd9baa8cbdd3a76d429a695160d12c923ac9cc3baca289e193548608b828010606c4a02ea734cc32acd2b02bc28b99cb3e287e85a763af267492ab572e99ab3f370d275cec1da1aaa9075ff05f79be";
const TWO_G2: &str = "1638533957d540a9d2370f17cc7ed5863bc0b995b8825e0ee1ea1e1e4d00dbae81f14b0bf3611b78c952aacab827a0530a4edef9c1ed7f729f520e47730a124fd70662a904ba1074728114d1031e1572c6c886f6b57ec72a6178288c47c335770468fb440d82b0630aeb8dca2b5256789a66da69bf91009cbfe6bd221e47aa8ae88dece9764bf3bd999d95d71e4c98990f6d4552fa65dd2638b361543f887136a43253d9c66c411697003f7a13c308f5422e1aa0a59c8967acdefd8b6e36ccf3";

const MODULUS_377: &str = "01ae3a4617c510eac63b05c06ca1493b1a22d9f300f5138f1ef3622fba094800170b5d44300000008508c00000000001";
const MINUS_FIVE_377: &str = "01ae3a4617c510eac63b05c06ca1493b1a22d9f300f5138f1ef3622fba094800170b5d44300000008508bffffffffffc";
const TWIST_B_377: &str = "000000000000000000000000000000000000000000000000000000000000000000000000000000000000000000000000010222f6db0fd6f343bd03737460c589dc7b4f91cd5fd889129207b63c6bf8000dd39e5c1ccccccd1c9ed9999999999a";

fn bytes_of(s: &str) -> Vec<u8> {
    hex::decode(s).expect("a hexadecimal constant")
}

/// The number that big-endian bytes denote, where it fits.
fn number(bytes: &[u8]) -> u128 {
    bytes.iter().fold(0u128, |acc, b| {
        assert!(acc >> 120 == 0);
        (acc << 8) | *b as u128
    })
}

fn value(x: &Fp) -> u128 {
    number(&x.to_be_bytes())
}

fn elem(f: &PrimeField, v: u64) -> Fp {
    f.from_be_bytes(&v.to_be_bytes()).expect("a reduced number")
}

fn elem2(f: &PrimeField, c0: u64, c1: u64) -> Fp2 {
    Fp2 { c0: elem(f, c0), c1: elem(f, c1) }
}

fn pair_of(x: &Fp2) -> (u128, u128) {
    (value(&x.c0), value(&x.c1))
}

/// Bytes without leading zeros, in hexadecimal.
fn trimmed(bytes: &[u8]) -> String {
    let s = hex::encode(bytes);
    let t = s.trim_start_matches('0');
    t.to_string()
}

fn text2(x: &Fp2) -> String {
    format!("{}/{}", trimmed(&x.c0.to_be_bytes()), trimmed(&x.c1.to_be_bytes()))
}

fn expected2(s: &str) -> String {
    let b = bytes_of(s);
    format!("{}/{}", trimmed(&b[..48]), trimmed(&b[48..]))
}

fn big_elem2(f: &PrimeField, s: &str) -> Fp2 {
    let b = bytes_of(s);
    Fp2 {
        c0: f.from_be_bytes(&b[..48]).expect("a reduced number"),
        c1: f.from_be_bytes(&b[48..]).expect("a reduced number"),
    }
}

fn extension2_of<'a>(field: &'a PrimeField, non_residue: Fp) -> Extension2<'a> {
    let mut e = Extension2::new(field, non_residue);
    let (f_0, f_1) = frobenius_calculator_fp2(&e);
    e.set_frobenius_coeffs(f_0, f_1);
    e
}

#[test]
fn field_rejects_a_zero_modulus() {
    assert!(PrimeField::new(&[]).is_none());
    assert!(PrimeField::new(&[0, 0, 0]).is_none());
    let f = PrimeField::new(&[0, 13]).expect("a field");
    assert_eq!(number(&f.modulus_bytes()), 13);
}

#[test]
fn field_elements_are_below_the_modulus() {
    let f = PrimeField::new(&[13]).expect("a field");
    assert!(f.from_be_bytes(&[12]).is_some());
    assert!(f.from_be_bytes(&[0, 0, 12]).is_some());
    assert!(f.from_be_bytes(&[]).is_some());
    assert!(f.from_be_bytes(&[13]).is_none());
    assert!(f.from_be_bytes(&[1, 0]).is_none());
    assert_eq!(value(&f.from_be_bytes(&[0, 7]).expect("seven")), 7);
}

#[test]
fn field_arithmetic_modulo_13() {
    let f = PrimeField::new(&[13]).expect("a field");
    assert_eq!(value(&f.zero()), 0);
    assert_eq!(value(&f.one()), 1);
    for a in 0..13u64 {
        let x = elem(&f, a);
        assert_eq!(f.is_zero(&x), a == 0);
        assert_eq!(value(&f.neg(&x)), ((13 - a) % 13) as u128);
        assert_eq!(value(&f.double(&x)), ((2 * a) % 13) as u128);
        assert_eq!(value(&f.square(&x)), ((a * a) % 13) as u128);
        assert_eq!(value(&x.clone()), a as u128);
        match f.inverse(&x) {
            Some(inv) => {
                assert!(a != 0);
                assert_eq!(value(&f.mul(&x, &inv)), 1);
            }
            None => assert_eq!(a, 0),
        }
        for b in 0..13u64 {
            let y = elem(&f, b);
            assert_eq!(value(&f.add(&x, &y)), ((a + b) % 13) as u128);
            assert_eq!(value(&f.sub(&x, &y)), ((13 + a - b) % 13) as u128);
            assert_eq!(value(&f.mul(&x, &y)), ((a * b) % 13) as u128);
            assert_eq!(f.eq(&x, &y), a == b);
        }
    }
}

#[test]
fn field_inverse_exact_values() {
    let f = PrimeField::new(&[13]).expect("a field");
    assert_eq!(value(&f.inverse(&elem(&f, 2)).expect("an inverse")), 7);
    assert_eq!(value(&f.inverse(&elem(&f, 5)).expect("an inverse")), 8);
    assert_eq!(value(&f.inverse(&elem(&f, 12)).expect("an inverse")), 12);
    // modulo 15 only the numbers prime to 15 have an inverse
    let g = PrimeField::new(&[15]).expect("a ring");
    assert!(g.inverse(&elem(&g, 3)).is_none());
    assert!(g.inverse(&elem(&g, 10)).is_none());
    assert_eq!(value(&g.inverse(&elem(&g, 2)).expect("an inverse")), 8);
}

#[test]
fn field_modulo_one_is_trivial() {
    let f = PrimeField::new(&[1]).expect("a field");
    assert_eq!(value(&f.one()), 0);
    assert_eq!(value(&f.inverse(&f.zero()).expect("an inverse")), 0);
}

#[test]
fn fp2_arithmetic_modulo_13() {
    let f = PrimeField::new(&[13]).expect("a field");
    let e = extension2_of(&f, elem(&f, 2));
    assert_eq!(pair_of(&e.zero()), (0, 0));
    assert_eq!(pair_of(&e.one()), (1, 0));
    // (1 + 2u)(3 + 4u) = 3 + 10u + 8 * 2 = 19 + 10u
    let a = elem2(&f, 1, 2);
    let b = elem2(&f, 3, 4);
    assert_eq!(pair_of(&e.mul(&a, &b)), (6, 10));
    assert_eq!(pair_of(&e.add(&a, &b)), (4, 6));
    assert_eq!(pair_of(&e.sub(&a, &b)), (11, 11));
    assert_eq!(pair_of(&e.neg(&a)), (12, 11));
    assert_eq!(pair_of(&e.double(&b)), (6, 8));
    assert_eq!(pair_of(&e.conjugate(&b)), (3, 9));
    assert_eq!(pair_of(&e.mul_by_fp(&b, &elem(&f, 5))), (2, 7));
    // (1 + 2u)^2 = 1 + 4u + 8 = 9 + 4u
    assert_eq!(pair_of(&e.square(&a)), (9, 4));
    assert!(e.is_zero(&e.zero()));
    assert!(!e.is_zero(&elem2(&f, 0, 1)));
    assert!(e.eq(&a, &a.clone()));
    assert!(!e.eq(&a, &b));
    for c0 in 0..13u64 {
        for c1 in 0..13u64 {
            let x = elem2(&f, c0, c1);
            match e.inverse(&x) {
                Some(inv) => assert_eq!(pair_of(&e.mul(&x, &inv)), (1, 0)),
                None => assert_eq!((c0, c1), (0, 0)),
            }
            // the Frobenius map is the 13th power
            let mut power = e.one();
            for _ in 0..13 {
                power = e.mul(&power, &x);
            }
            assert_eq!(pair_of(&e.frobenius_map(&x, 1)), pair_of(&power));
            assert_eq!(pair_of(&e.frobenius_map(&x, 2)), (c0 as u128, c1 as u128));
        }
    }
}

#[test]
fn fp2_frobenius_coefficients_are_one_and_minus_one() {
    let f = PrimeField::new(&[13]).expect("a field");
    let e = Extension2::new(&f, elem(&f, 2));
    assert_eq!(value(&e.frobenius_coeffs_c1[0]), 0);
    assert_eq!(value(&e.frobenius_coeffs_c1[1]), 0);
    let (f_0, f_1) = frobenius_calculator_fp2(&e);
    assert_eq!((value(&f_0), value(&f_1)), (1, 12));
}

#[test]
fn frobenius_exponents() {
    assert_eq!(small_number(7), vec![7u8]);
    assert_eq!(number(&frobenius_exponent_of(&[13], 3).expect("divisible")), 4);
    assert_eq!(number(&frobenius_exponent_of(&[13], 6).expect("divisible")), 2);
    assert_eq!(number(&frobenius_exponent_of(&[1, 0], 3).expect("divisible")), 85);
    assert_eq!(number(&frobenius_exponent_of(&[1], 3).expect("divisible")), 0);
    assert!(frobenius_exponent_of(&[11], 3).is_none());
    assert!(frobenius_exponent_of(&[14], 6).is_none());
}

#[test]
fn table_exponentiation_equals_repeated_multiplication() {
    let f = PrimeField::new(&[0x3, 0xfb]).expect("a field"); // 1019
    let e = extension2_of(&f, elem(&f, 2));
    let base = elem2(&f, 5, 7);
    for window in [1usize, 2, 3, 5, 8, 11] {
        let table = WindowExpBase::new(&e, &base, e.one(), window);
        assert_eq!(table.bases.len(), 1 << (window - 1));
        assert_eq!(table.window_size, window);
        let mut expected = e.one();
        for k in 0..700u32 {
            let got = table.exponentiate(&e, &k.to_be_bytes());
            assert_eq!(pair_of(&got), pair_of(&expected), "window {} exponent {}", window, k);
            expected = e.mul(&expected, &base);
        }
        assert_eq!(pair_of(&table.exponentiate(&e, &[])), (1, 0));
    }
}

#[test]
fn table_exponentiation_exact_values() {
    let f = PrimeField::new(&bytes_of(MODULUS)).expect("a field");
    let mut minus_one = bytes_of(MODULUS);
    minus_one[47] -= 1;
    let e = extension2_of(&f, f.from_be_bytes(&minus_one).expect("a reduced number"));
    let xi = elem2(&f, 1, 1);
    let table = WindowExpBase::new(&e, &xi, e.one(), 8);
    assert_eq!(text2(&table.exponentiate(&e, &[0x03, 0xe8])), expected2(POW_1000));
    let big = bytes_of("0123456789abcdef0123456789abcdef0123456789abcdef");
    assert_eq!(text2(&table.exponentiate(&e, &big)), expected2(POW_BIG));
    let narrow = WindowExpBase::new(&e, &xi, e.one(), 3);
    assert_eq!(text2(&narrow.exponentiate(&e, &big)), expected2(POW_BIG));
}

#[test]
fn frobenius_coefficients_of_bls12_381() {
    let modulus = bytes_of(MODULUS);
    let f = PrimeField::new(&modulus).expect("a field");
    let mut minus_one = bytes_of(MODULUS);
    minus_one[47] -= 1;
    let e2 = extension2_of(&f, f.from_be_bytes(&minus_one).expect("a reduced number"));
    let xi = elem2(&f, 1, 1);
    let table = WindowExpBase::new(&e2, &xi, e2.one(), 8);
    let mut e6 = Extension3Over2::new(&e2, xi.clone());
    assert!(e6.frobenius_coeffs_c1.iter().all(|c| e2.is_zero(c)));
    let (c1, c2) =
        frobenius_calculator_fp6_as_3_over_2_using_sliding_window(&modulus, &table, &e6)
            .expect("coefficients");
    assert_eq!(c1.len(), 6);
    assert_eq!(c2.len(), 6);
    assert_eq!(text2(&c1[0]), "1/");
    assert_eq!(text2(&c1[1]), expected2(FP6_C1_1));
    assert_eq!(text2(&c1[2]), expected2(FP6_C1_2));
    assert_eq!(text2(&c1[3]), expected2(FP6_C1_3));
    assert_eq!(text2(&c1[4]), "/");
    assert_eq!(text2(&c1[5]), "/");
    assert_eq!(text2(&c2[0]), "1/");
    assert_eq!(text2(&c2[1]), expected2(FP6_C2_1));
    assert_eq!(text2(&c2[2]), expected2(FP6_C2_2));
    assert_eq!(text2(&c2[3]), expected2(FP6_C2_3));
    assert_eq!(text2(&c2[4]), "/");
    e6.set_frobenius_coeffs(c1, c2);
    let e12 = Extension2Over3Over2::new(&e6);
    let c = frobenius_calculator_fp12_using_sliding_window(&modulus, &table, &e12)
        .expect("coefficients");
    assert_eq!(c.len(), 12);
    assert_eq!(text2(&c[0]), "1/");
    assert_eq!(text2(&c[1]), expected2(FP12_C1_1));
    assert_eq!(text2(&c[2]), expected2(FP12_C1_2));
    assert_eq!(text2(&c[3]), expected2(FP12_C1_3));
    assert_eq!(text2(&c[6]), expected2(FP12_C1_6));
    for k in [4usize, 5, 7, 8, 9, 10, 11] {
        assert_eq!(text2(&c[k]), "/");
    }
}

#[test]
fn no_frobenius_coefficients_where_three_does_not_divide() {
    let f = PrimeField::new(&[11]).expect("a field");
    let e2 = extension2_of(&f, elem(&f, 2));
    let xi = elem2(&f, 1, 1);
    let table = WindowExpBase::new(&e2, &xi, e2.one(), 8);
    let e6 = Extension3Over2::new(&e2, xi.clone());
    assert!(
        frobenius_calculator_fp6_as_3_over_2_using_sliding_window(&[11], &table, &e6).is_none()
    );
    let e12 = Extension2Over3Over2::new(&e6);
    assert!(frobenius_calculator_fp12_using_sliding_window(&[11], &table, &e12).is_none());
}

fn sample6(f: &PrimeField, seed: u64) -> Fp6 {
    Fp6 {
        c0: elem2(f, seed + 1, seed * 3 + 2),
        c1: elem2(f, seed * 5 + 3, seed * 7 + 4),
        c2: elem2(f, seed * 11 + 5, seed * 13 + 6),
    }
}

fn text6(x: &Fp6) -> String {
    format!("{} {} {}", text2(&x.c0), text2(&x.c1), text2(&x.c2))
}

fn text12(x: &Fp12) -> String {
    format!("{} | {}", text6(&x.c0), text6(&x.c1))
}

#[test]
fn tower_of_bls12_381() {
    let modulus = bytes_of(MODULUS);
    let f = PrimeField::new(&modulus).expect("a field");
    let mut minus_one = bytes_of(MODULUS);
    minus_one[47] -= 1;
    let e2 = extension2_of(&f, f.from_be_bytes(&minus_one).expect("a reduced number"));
    let xi = elem2(&f, 1, 1);
    let table = WindowExpBase::new(&e2, &xi, e2.one(), 8);
    let mut e6 = Extension3Over2::new(&e2, xi.clone());
    let (c1, c2) =
        frobenius_calculator_fp6_as_3_over_2_using_sliding_window(&modulus, &table, &e6)
            .expect("coefficients");
    e6.set_frobenius_coeffs(c1, c2);
    let mut e12 = Extension2Over3Over2::new(&e6);
    let c = frobenius_calculator_fp12_using_sliding_window(&modulus, &table, &e12)
        .expect("coefficients");
    e12.set_frobenius_coeffs(c);

    // Fp6: v^3 = xi
    let v = Fp6 { c0: e2.zero(), c1: e2.one(), c2: e2.zero() };
    let v3 = e6.mul(&e6.mul(&v, &v), &v);
    assert_eq!(text6(&v3), "1/1 / /");
    let a = sample6(&f, 1);
    let b = sample6(&f, 2);
    assert_eq!(text6(&e6.mul(&a, &e6.one())), text6(&a));
    assert_eq!(text6(&e6.mul(&a, &b)), text6(&e6.mul(&b, &a)));
    assert_eq!(text6(&e6.mul_by_v(&a)), text6(&e6.mul(&a, &v)));
    assert_eq!(text6(&e6.sub(&e6.add(&a, &b), &b)), text6(&a));
    assert_eq!(text6(&e6.add(&a, &e6.neg(&a))), text6(&e6.zero()));
    let k = elem2(&f, 9, 4);
    let lifted = Fp6 { c0: k.clone(), c1: e2.zero(), c2: e2.zero() };
    assert_eq!(text6(&e6.mul_by_fp2(&a, &k)), text6(&e6.mul(&a, &lifted)));
    let a_inv = e6.inverse(&a).expect("an inverse");
    assert_eq!(text6(&e6.mul(&a, &a_inv)), "1/ / /");
    assert!(e6.inverse(&e6.zero()).is_none());
    assert!(e6.eq(&a, &a.clone()) && !e6.eq(&a, &b));

    // Fp12: w^2 = v
    let w = Fp12 { c0: e6.zero(), c1: e6.one() };
    let w2 = e12.mul(&w, &w);
    assert_eq!(text12(&w2), text12(&Fp12 { c0: v.clone(), c1: e6.zero() }));
    let x = Fp12 { c0: sample6(&f, 3), c1: sample6(&f, 4) };
    let y = Fp12 { c0: sample6(&f, 5), c1: sample6(&f, 6) };
    assert_eq!(text12(&e12.mul(&x, &e12.one())), text12(&x));
    assert_eq!(text12(&e12.mul(&x, &y)), text12(&e12.mul(&y, &x)));
    assert_eq!(text12(&e12.square(&x)), text12(&e12.mul(&x, &x)));
    let x_inv = e12.inverse(&x).expect("an inverse");
    assert_eq!(text12(&e12.mul(&x, &x_inv)), text12(&e12.one()));
    assert!(e12.inverse(&Fp12 { c0: e6.zero(), c1: e6.zero() }).is_none());
    assert!(e12.eq(&x, &x.clone()) && !e12.eq(&x, &y));
    let xc = e12.conjugate(&x);
    assert_eq!(text6(&xc.c0), text6(&x.c0));
    assert_eq!(text6(&xc.c1), text6(&e6.neg(&x.c1)));

    // the Frobenius map is the power p, and its repetitions are the higher maps
    let bits: Vec<bool> = modulus
        .iter()
        .flat_map(|b| (0..8).rev().map(move |i| (b >> i) & 1 == 1))
        .skip_while(|b| !b)
        .collect();
    let mut power = e12.one();
    for bit in &bits {
        power = e12.square(&power);
        if *bit {
            power = e12.mul(&power, &x);
        }
    }
    let once = e12.frobenius_map(&x, 1);
    assert_eq!(text12(&once), text12(&power));
    let twice = e12.frobenius_map(&once, 1);
    assert_eq!(text12(&e12.frobenius_map(&x, 2)), text12(&twice));
    let thrice = e12.frobenius_map(&twice, 1);
    assert_eq!(text12(&e12.frobenius_map(&x, 3)), text12(&thrice));
    let six = e12.frobenius_map(&thrice, 3);
    assert_eq!(text12(&e12.frobenius_map(&x, 6)), text12(&six));
    assert_eq!(text12(&six), text12(&e12.conjugate(&x)));
    // on Fp6 the maps agree with those on Fp12
    for k in [1usize, 2, 3] {
        let lifted = Fp12 { c0: x.c0.clone(), c1: e6.zero() };
        assert_eq!(text6(&e6.frobenius_map(&x.c0, k)), text6(&e12.frobenius_map(&lifted, k).c0));
    }
    assert_eq!(text6(&e6.frobenius_map(&x.c0, 6)), text6(&x.c0));
}

fn jacobian_is(curve: &WeierstrassCurve, x: &Fp, y: &Fp, z: &Fp, affine: &str) -> bool {
    let b = bytes_of(affine);
    let f = curve.field;
    let ax = f.from_be_bytes(&b[..48]).expect("a reduced number");
    let ay = f.from_be_bytes(&b[48..]).expect("a reduced number");
    let zz = f.square(z);
    let zzz = f.mul(&zz, z);
    !f.is_zero(z) && f.eq(x, &f.mul(&ax, &zz)) && f.eq(y, &f.mul(&ay, &zzz))
}

#[test]
fn first_group_of_bls12_381() {
    let f = PrimeField::new(&bytes_of(MODULUS)).expect("a field");
    let curve = WeierstrassCurve::new(&f, bytes_of(ORDER), elem(&f, 0), elem(&f, 4));
    let g = bytes_of(G1);
    let point = |b: &[u8]| {
        CurvePoint::point_from_xy(
            &curve,
            f.from_be_bytes(&b[..48]).expect("a reduced number"),
            f.from_be_bytes(&b[48..]).expect("a reduced number"),
        )
    };
    let p = point(&g);
    assert!(p.check_on_curve());
    assert!(p.check_correct_subgroup());
    let off = CurvePoint::point_from_xy(&curve, p.x.clone(), f.add(&p.y, &f.one()));
    assert!(!off.check_on_curve());
    let inf = curve.infinity();
    assert!(f.is_zero(&inf.z));
    assert!(f.is_zero(&curve.double(&inf).z));
    let once = curve.add_mixed(&inf, &p);
    assert!(jacobian_is(&curve, &once.x, &once.y, &once.z, G1));
    let twice = curve.double(&once);
    assert!(jacobian_is(&curve, &twice.x, &twice.y, &twice.z, TWO_G1));
    let also_twice = curve.add_mixed(&once, &p);
    assert!(jacobian_is(&curve, &also_twice.x, &also_twice.y, &also_twice.z, TWO_G1));
    let thrice = curve.add_mixed(&twice, &p);
    assert!(jacobian_is(&curve, &thrice.x, &thrice.y, &thrice.z, THREE_G1));
    let neg = CurvePoint::point_from_xy(&curve, p.x.clone(), f.neg(&p.y));
    assert!(f.is_zero(&curve.add_mixed(&once, &neg).z));
    let m = curve.mul(&p, &[3]);
    assert!(jacobian_is(&curve, &m.x, &m.y, &m.z, THREE_G1));
    let m = curve.mul(&p, &[0, 0, 2]);
    assert!(jacobian_is(&curve, &m.x, &m.y, &m.z, TWO_G1));
    assert!(f.is_zero(&curve.mul(&p, &[]).z));
    assert!(f.is_zero(&curve.mul(&p, &[0]).z));
    assert!(f.is_zero(&curve.mul(&p, &bytes_of(ORDER)).z));
    // the order plus one takes the point to itself
    let mut next = bytes_of(ORDER);
    next[31] += 1;
    let m = curve.mul(&p, &next);
    assert!(jacobian_is(&curve, &m.x, &m.y, &m.z, G1));
}

#[test]
fn second_group_of_bls12_381() {
    let f = PrimeField::new(&bytes_of(MODULUS)).expect("a field");
    let mut minus_one = bytes_of(MODULUS);
    minus_one[47] -= 1;
    let e2 = extension2_of(&f, f.from_be_bytes(&minus_one).expect("a reduced number"));
    let twist = WeierstrassCurveTwist::new(&e2, bytes_of(ORDER), e2.zero(), elem2(&f, 4, 4));
    let point = |s: &str| {
        let b = bytes_of(s);
        TwistPoint::point_from_xy(
            &twist,
            big_elem2(&f, &hex::encode(&b[..96])),
            big_elem2(&f, &hex::encode(&b[96..])),
        )
    };
    let q = point(G2);
    assert!(q.check_on_curve());
    assert!(q.check_correct_subgroup());
    let off = TwistPoint::point_from_xy(&twist, q.x.clone(), e2.add(&q.y, &e2.one()));
    assert!(!off.check_on_curve());
    let two = point(TWO_G2);
    let m = twist.mul(&q, &[2]);
    let zz = e2.square(&m.z);
    let zzz = e2.mul(&zz, &m.z);
    assert!(!e2.is_zero(&m.z));
    assert!(e2.eq(&m.x, &e2.mul(&two.x, &zz)));
    assert!(e2.eq(&m.y, &e2.mul(&two.y, &zzz)));
    let d = twist.double(&twist.add_mixed(&twist.infinity(), &q));
    let zz = e2.square(&d.z);
    assert!(e2.eq(&d.x, &e2.mul(&two.x, &zz)));
    let neg = TwistPoint::point_from_xy(&twist, q.x.clone(), e2.neg(&q.y));
    let sum = twist.add_mixed(&twist.add_mixed(&twist.infinity(), &q), &neg);
    assert!(e2.is_zero(&sum.z));
    assert!(e2.is_zero(&twist.mul(&q, &bytes_of(ORDER)).z));
}

#[test]
fn coefficient_of_an_m_twist_is_the_product() {
    let f = PrimeField::new(&bytes_of(MODULUS)).expect("a field");
    let mut minus_one = bytes_of(MODULUS);
    minus_one[47] -= 1;
    let e2 = extension2_of(&f, f.from_be_bytes(&minus_one).expect("a reduced number"));
    let xi = elem2(&f, 1, 1);
    let b = twist_coefficient(&e2, &xi, &elem(&f, 4), TwistType::M).expect("a coefficient");
    assert_eq!(text2(&b), "4/4");
    // it is the base coefficient, taken into Fp2, times the non-residue
    assert_eq!(text2(&b), text2(&e2.mul(&elem2(&f, 4, 0), &xi)));
}

#[test]
fn coefficient_of_a_d_twist_is_the_quotient() {
    let f = PrimeField::new(&bytes_of(MODULUS_377)).expect("a field");
    let e2 = extension2_of(&f, f.from_be_bytes(&bytes_of(MINUS_FIVE_377)).expect("a reduced number"));
    let xi = elem2(&f, 0, 1);
    let b = twist_coefficient(&e2, &xi, &elem(&f, 1), TwistType::D).expect("a coefficient");
    assert_eq!(text2(&b), expected2(TWIST_B_377));
    // times the non-residue it is the base coefficient, taken into Fp2
    assert_eq!(text2(&e2.mul(&b, &xi)), "1/");
    let b = twist_coefficient(&e2, &xi, &elem(&f, 7), TwistType::D).expect("a coefficient");
    assert_eq!(text2(&e2.mul(&b, &xi)), "7/");
}

#[test]
fn twist_needs_an_invertible_non_residue() {
    let f = PrimeField::new(&[13]).expect("a field");
    let e2 = extension2_of(&f, elem(&f, 2));
    for t in [TwistType::D, TwistType::M] {
        let r = twist_coefficient(&e2, &e2.zero(), &elem(&f, 4), t);
        assert_eq!(r.map(|_| ()).map_err(|e| e.kind()), Err(ErrorKind::UnexpectedZero));
    }
    // 3 + 2u has the norm 9 - 2 * 4 = 1
    let xi = elem2(&f, 3, 2);
    let b = twist_coefficient(&e2, &xi, &elem(&f, 5), TwistType::D).expect("a coefficient");
    assert_eq!(pair_of(&b), (2, 3));
    let b = twist_coefficient(&e2, &xi, &elem(&f, 5), TwistType::M).expect("a coefficient");
    assert_eq!(pair_of(&b), (2, 10));
}
