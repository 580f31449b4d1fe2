use weave_launcher::digest::{check_loader_integrity, sha256_hex_upper, to_hex_upper};

const EMPTY_SHA256: &str = "E3B0C44298FC1C149AFBF4C8996FB92427AE41E4649B934CA495991B7852B855";
const ABC_SHA256: &str = "BA7816BF8F01CFEA414140DE5DAE2223B00361A396177A9CB410FF61F20015AD";

#[test]
fn hex_encoding_is_uppercase_two_digits_per_byte() {
    assert_eq!(to_hex_upper(&vec![0xbe, 0xef]), "BEEF");
    assert_eq!(to_hex_upper(&vec![]), "");
    assert_eq!(to_hex_upper(&vec![0x00, 0x0a, 0xff]), "000AFF");
}

#[test]
fn sha256_of_empty_input_is_the_known_vector() {
    assert_eq!(sha256_hex_upper(&vec![]), EMPTY_SHA256);
}

#[test]
fn sha256_of_abc_is_the_known_vector() {
    assert_eq!(sha256_hex_upper(&b"abc".to_vec()), ABC_SHA256);
}

#[test]
fn fresh_digest_always_matches_its_own_bytes() {
    let data = b"some loader artifact bytes".to_vec();
    let digest = sha256_hex_upper(&data);
    assert!(check_loader_integrity(&digest, &data));
}

#[test]
fn altering_a_single_byte_breaks_the_match() {
    let data = b"some loader artifact bytes".to_vec();
    let digest = sha256_hex_upper(&data);
    for i in 0..data.len() {
        let mut altered = data.clone();
        altered[i] ^= 0x01;
        assert!(!check_loader_integrity(&digest, &altered));
    }
}

#[test]
fn wrong_expected_sum_is_a_mismatch() {
    let data = b"abc".to_vec();
    assert!(!check_loader_integrity(EMPTY_SHA256, &data));
    assert!(check_loader_integrity(ABC_SHA256, &data));
}

#[test]
fn lowercase_expectation_does_not_match() {
    let data = b"abc".to_vec();
    let lower = ABC_SHA256.to_lowercase();
    assert!(!check_loader_integrity(&lower, &data));
}
