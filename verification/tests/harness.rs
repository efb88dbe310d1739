//! The differential harness against the second implementation.
use eth_pairings::errors::ApiError;
use eth_pairings::harness::{
    compare_outcomes, differential_check, mismatch_report, same_bytes, Verdict,
};

const P: &str = "17f1d3a73197d7942695638c4fa9ac0fc3688c4f9774b905a14e3a3f171bac586c55e83ff97a1aeffb3af00adb22c6bb08b3f481e3aaa0f1a09e30ed741d8ae4fcf5e095d5d00af600db18cb2c04b3edd03cc744a2888ae40caa232946c5e7e1";
const Q: &str = "024aa2b2f08f0a91260805272dc51051c6e47ad4fa403b02b4510b647ae3d1770bac0326a805bbefd48056c8c121bdb813e02b6052719f607dacd3a088274f65596bd0d09920b61ab5da61bbdc7f5049334cf11213945d57e5ac7d055d042b7e0ce5d527727d6e118cc9cdc6da2e351aadfd9baa8cbdd3a76d429a695160d12c923ac9cc3baca289e193548608b828010606c4a02ea734cc32acd2b02bc28b99cb3e287e85a763af267492ab572e99ab3f370d275cec1da1aaa9075ff05f79be";
const NEG_Q: &str = "024aa2b2f08f0a91260805272dc51051c6e47ad4fa403b02b4510b647ae3d1770bac0326a805bbefd48056c8c121bdb813e02b6052719f607dacd3a088274f65596bd0d09920b61ab5da61bbdc7f5049334cf11213945d57e5ac7d055d042b7e0d1b3cc2c7027888be51d9ef691d77bcb679afda66c73f17f9ee3837a55024f78c71363275a75d75d86bab79f74782aa13fa4d4a0ad8b1ce186ed5061789213d993923066dddaf1040bc3ff59f825c78df74f2d75467e25e0f55f8a00fa030ed";
const MODULUS: &str = "1a0111ea397fe69a4b1ba7b6434bacd764774b84f38512bf6730d2a0f6b0f6241eabfffeb153ffffb9feffffffffaaab";
const ORDER: &str = "73eda753299d7d483339d80809a1d80553bda402fffe5bfeffffffff00000001";

fn unhex(s: &str) -> Vec<u8> {
    hex::decode(s).expect("a hexadecimal constant")
}

fn element(v: u8) -> Vec<u8> {
    let mut out = vec![0u8; 48];
    out[47] = v;
    out
}

fn bls12_381_request(sign: u8, pairs: &[(&str, &str)]) -> Vec<u8> {
    let mut out = vec![1u8, 48];
    out.extend(unhex(MODULUS));
    out.extend(element(0));
    out.extend(element(4));
    out.push(32);
    out.extend(unhex(ORDER));
    let mut minus_one = unhex(MODULUS);
    minus_one[47] -= 1;
    out.extend(minus_one);
    out.extend(element(1));
    out.extend(element(1));
    out.push(1);
    out.push(8);
    out.extend(unhex("d201000000010000"));
    out.push(sign);
    out.push(pairs.len() as u8);
    for (g1, g2) in pairs {
        out.extend(unhex(g1));
        out.extend(unhex(g2));
    }
    out
}

#[test]
fn same_bytes_compares_contents() {
    assert!(same_bytes(&[], &[]));
    assert!(same_bytes(&[1, 2, 3], &[1, 2, 3]));
    assert!(!same_bytes(&[1, 2, 3], &[1, 2, 4]));
    assert!(!same_bytes(&[1, 2, 3], &[1, 2]));
    assert!(!same_bytes(&[], &[0]));
}

#[test]
fn outcomes_agree_when_both_fail() {
    let native = Err(ApiError::InputError("short".to_string()));
    let reference = Err("another sentence".to_string());
    assert_eq!(compare_outcomes(&native, &reference), Verdict::Agree);
    assert_eq!(mismatch_report(&[1, 2], &native, &reference), None);
}

#[test]
fn outcomes_agree_on_equal_outputs() {
    let native = Ok(vec![1u8]);
    let reference = Ok(vec![1u8]);
    assert_eq!(compare_outcomes(&native, &reference), Verdict::Agree);
    assert_eq!(mismatch_report(&[], &native, &reference), None);
}

#[test]
fn native_failure_alone_is_reported() {
    let native = Err(ApiError::UnknownParameter("no value".to_string()));
    let reference = Ok(vec![0u8, 0xab]);
    assert_eq!(compare_outcomes(&native, &reference), Verdict::NativeFailedOnly);
    let report = mismatch_report(&[0x01, 0xfe, 0x10], &native, &reference).expect("a report");
    assert_eq!(report.verdict, Verdict::NativeFailedOnly);
    assert_eq!(report.input, "01fe10");
    assert_eq!(report.native, "no value");
    assert_eq!(report.reference, "00ab");
}

#[test]
fn reference_failure_alone_is_reported() {
    let native = Ok(vec![1u8]);
    let reference = Err("Zero pairs encoded".to_string());
    assert_eq!(compare_outcomes(&native, &reference), Verdict::ReferenceFailedOnly);
    let report = mismatch_report(&[0xff], &native, &reference).expect("a report");
    assert_eq!(report.verdict, Verdict::ReferenceFailedOnly);
    assert_eq!(report.input, "ff");
    assert_eq!(report.native, "01");
    assert_eq!(report.reference, "Zero pairs encoded");
}

#[test]
fn different_outputs_are_reported() {
    let native = Ok(vec![1u8]);
    let reference = Ok(vec![0u8]);
    assert_eq!(compare_outcomes(&native, &reference), Verdict::OutputsDiffer);
    let report = mismatch_report(&[7, 8, 9, 0xa0], &native, &reference).expect("a report");
    assert_eq!(report.verdict, Verdict::OutputsDiffer);
    assert_eq!(report.input, "070809a0");
    assert_eq!(report.native, "01");
    assert_eq!(report.reference, "00");
}

#[test]
fn backends_agree_on_a_single_pair() {
    assert_eq!(differential_check(&bls12_381_request(1, &[(P, Q)])), None);
}

#[test]
fn backends_agree_on_opposite_pairs() {
    assert_eq!(differential_check(&bls12_381_request(1, &[(P, NEG_Q), (P, Q)])), None);
}

#[test]
fn backends_agree_on_malformed_payloads() {
    assert_eq!(differential_check(&[]), None);
    assert_eq!(differential_check(&[1]), None);
    assert_eq!(differential_check(&[9, 9, 9]), None);
    let whole = bls12_381_request(1, &[(P, Q)]);
    assert_eq!(differential_check(&whole[..whole.len() - 1]), None);
    assert_eq!(differential_check(&whole[..200]), None);
    assert_eq!(differential_check(&bls12_381_request(7, &[(P, Q)])), None);
}

#[test]
fn backends_differ_on_no_pairs() {
    // The second implementation turns a request without pairs down; this
    // library answers it with the empty product.
    let report = differential_check(&bls12_381_request(1, &[])).expect("a report");
    assert_eq!(report.verdict, Verdict::ReferenceFailedOnly);
    assert_eq!(report.native, "01");
}

#[test]
fn backends_agree_on_damaged_requests() {
    let whole = bls12_381_request(1, &[(P, Q)]);
    // a bit turned in the modulus, in a coefficient, in the group order, in a
    // non-residue and in either point
    for at in [2usize, 49, 60, 140, 150, 200, 300, 340, 440, 600] {
        let mut damaged = whole.clone();
        damaged[at] ^= 0x01;
        assert_eq!(differential_check(&damaged), None, "bit turned in byte {}", at);
    }
}
