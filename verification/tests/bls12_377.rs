//! The pairing check on the curve BLS12-377, whose twist is of type D and
//! whose loop parameter is positive.
use eth_pairings::errors::{ApiError, ErrorKind};
use eth_pairings::harness::differential_check;
use eth_pairings::pairing_ops::{PairingApi, PublicPairingApi};

const MODULUS_377: &str = "01ae3a4617c510eac63b05c06ca1493b1a22d9f300f5138f1ef3622fba094800170b5d44300000008508c00000000001";
const MINUS_FIVE_377: &str = "01ae3a4617c510eac63b05c06ca1493b1a22d9f300f5138f1ef3622fba094800170b5d44300000008508bffffffffffc";
const ORDER_377: &str = "12ab655e9a2ca55660b44d1e5c37b00159aa76fed00000010a11800000000001";
const P_377: &str = "008848defe740a67c8fc6225bf87ff5485951e2caa9d41bb188282c8bd37cb5cd5481512ffcd394eeab9b16eb21be9ef01914a69c5102eff1f674f5d30afeec4bd7fb348ca3e52d96d182ad44fb82305c2fe3d3634a9591afd82de55559c8ea6";
const NEG_P_377: &str = "008848defe740a67c8fc6225bf87ff5485951e2caa9d41bb188282c8bd37cb5cd5481512ffcd394eeab9b16eb21be9ef001cefdc52b4e1eba6d3b6633bf15a765ca326aa36b6c0b5b1db375b6a5124fa540d200dfb56a6e58785e1aaaa63715b";
const TWO_P_377: &str = "00ed453141939e91056edb5a4b5452ed7e61f7f3dd2a4b7ee90e97c9a2301955880661656781dc90857aed6d6a41639000cfb0b9717bc8e5ae04601813171337ad99cdae42c561cae80b12f135c64479d6a23f5675ed5ca7e2dd5e8727d7c7ed";
const FIVE_P_377: &str = "0017052d4e3eb642d32ef4989af253cc2a30ad376ce8f0b23c92b987e95cc718d02072bb78d37c09fd76f7014eecf797016c206be738bf4644faff10bb82b19f6f07779903a6ad2524809ce29f94683be32bbdd072ec0be66ae0ed0d8781f277";
const Q_377: &str = "00415abb1137c88935bb08884aee7b99049f123bf27dce03401724764cd34f4d20a7c4c78130d2d07faab58c9b87bda900a272c24ca7d3429d9f07b86366d6ea24148cd0d42beba1a208c4859cf3630f4de60b0c0f56b5e10ddf884b60d27f880199275defaacc0db97bc0e7237bbb97f523908ed09da02f4ac4ef1a54a524d933cc6492b66b5ee576521ebbbb23ee230121cb2668f07eaa4752e212f85ed167509504b67ef09df578536c115ac38999e66e6d2df31cbe0ceb2f80ac9c3a8051";
const NEG_Q_377: &str = "00415abb1137c88935bb08884aee7b99049f123bf27dce03401724764cd34f4d20a7c4c78130d2d07faab58c9b87bda900a272c24ca7d3429d9f07b86366d6ea24148cd0d42beba1a208c4859cf3630f4de60b0c0f56b5e10ddf884b60d27f88001512e8281a44dd0cbf44d949258da324ff49643057735fd42e731565642326e33ef8b17994a11b0eb6a14444dc11de008c6f1faed492407ee823ad744277d3c98dd53c82047599a69ff61e5f45be66309cf0163ce341f399d93f5363c57fb0";
const NEG_TWO_Q_377: &str = "008113ce5b096392493d3c1585376f5b976dd01b3fd81b1879cf879aed9384238661e6bf04e1bc1002d79fafcb59700d00331a7356a46f8ebc7e7f60eeb4b42ca742b8761605e0ec86e248deb3411f176b4f3bfd152bfc14396b82dd791ccc4f00bac6d28ba2aa95edc5b7cbe5661554e8abab92538c8084f993a3cf832f4d54d9ce8a0d9559eb6ef61290fba571eae600797884e979398b72c8ecb1b9b97c382c888301675c777232e80ac45ab63d70bb3fd109b724727b1f57448d920dffda";
const NEG_FIVE_Q_377: &str = "01a990065a2b7c824d6c14a44f720f62cb2b166b9f7f0ab0d641c4e105f71bcf8799bdb9ddd69c20de418f25b7a99c36016953d566d1f662d10e72bdfb2f9d7c92250ee260297788c64f9dff92833aba33878cf07114a735567641fb9c073792010e2b244814360cddbaef8fa1fec874170ece9f662556fd325c2e32cfca4a2bc8b30387ef41dfe0dec985595143da2e01599024fcf6c0219d02f38ae2e3118ecd289997860b4a16904353d407bd8ab277e2123444ebb674eb508d9fba10a105";

fn from_hex(s: &str) -> Vec<u8> {
    hex::decode(s).expect("a hexadecimal constant")
}

fn small(v: u8) -> Vec<u8> {
    let mut out = vec![0u8; 48];
    out[47] = v;
    out
}

/// The parameters of BLS12-377 with the given twist type, and the pairs.
fn request_377(twist_type: u8, pairs: &[(&str, &str)]) -> Vec<u8> {
    let mut out = vec![1u8, 48];
    out.extend(from_hex(MODULUS_377));
    out.extend(small(0));
    out.extend(small(1));
    out.push(32);
    out.extend(from_hex(ORDER_377));
    // the non-residue -5 of Fp2 and the non-residue u of Fp6
    out.extend(from_hex(MINUS_FIVE_377));
    out.extend(small(0));
    out.extend(small(1));
    out.push(twist_type);
    out.push(8);
    out.extend(from_hex("8508c00000000001"));
    out.push(0);
    out.push(pairs.len() as u8);
    for (g1, g2) in pairs {
        out.extend(from_hex(g1));
        out.extend(from_hex(g2));
    }
    out
}

fn error_kind(r: Result<Vec<u8>, ApiError>) -> ErrorKind {
    match r {
        Ok(v) => panic!("the request was answered with {:?}", v),
        Err(e) => e.kind(),
    }
}

#[test]
fn d_twist_single_pair_is_not_the_identity() {
    assert_eq!(PublicPairingApi::pair(&request_377(2, &[(P_377, Q_377)])), Ok(vec![0u8]));
}

#[test]
fn d_twist_opposite_pairs_give_the_identity() {
    assert_eq!(
        PublicPairingApi::pair(&request_377(2, &[(P_377, Q_377), (P_377, NEG_Q_377)])),
        Ok(vec![1u8])
    );
    assert_eq!(
        PublicPairingApi::pair(&request_377(2, &[(P_377, Q_377), (NEG_P_377, Q_377)])),
        Ok(vec![1u8])
    );
}

#[test]
fn d_twist_pairing_is_bilinear() {
    assert_eq!(
        PublicPairingApi::pair(&request_377(2, &[(TWO_P_377, Q_377), (P_377, NEG_TWO_Q_377)])),
        Ok(vec![1u8])
    );
    assert_eq!(
        PublicPairingApi::pair(&request_377(2, &[(FIVE_P_377, Q_377), (P_377, NEG_FIVE_Q_377)])),
        Ok(vec![1u8])
    );
    assert_eq!(
        PublicPairingApi::pair(&request_377(2, &[(FIVE_P_377, Q_377), (P_377, NEG_TWO_Q_377)])),
        Ok(vec![0u8])
    );
}

#[test]
fn point_of_the_d_twist_is_not_on_the_m_twist() {
    assert_eq!(
        error_kind(PublicPairingApi::pair(&request_377(1, &[(P_377, Q_377)]))),
        ErrorKind::InputError
    );
}

#[test]
fn backends_agree_on_the_d_twist() {
    assert_eq!(differential_check(&request_377(2, &[(P_377, Q_377)])), None);
    assert_eq!(
        differential_check(&request_377(2, &[(TWO_P_377, Q_377), (P_377, NEG_TWO_Q_377)])),
        None
    );
    assert_eq!(differential_check(&request_377(1, &[(P_377, Q_377)])), None);
}
