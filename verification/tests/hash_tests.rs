use dust_orbit::secret_hash::hash_secret;
use sha2::{Digest, Sha256};

#[test]
fn hash_secret_known_vectors() {
    assert_eq!(
        hash_secret("abc"),
        "ba7816bf8f01cfea414140de5dae2223b00361a396177a9cb410ff61f20015ad"
    );
    assert_eq!(
        hash_secret(""),
        "e3b0c44298fc1c149afbf4c8996fb92427ae41e4649b934ca495991b7852b855"
    );
}

#[test]
fn hash_secret_matches_sha256_hex_of_utf8() {
    for s in ["123456", "000042", "0199a3c2-7c1e-7b2a-9f00-123456789abc", "héllo"] {
        let expected = hex::encode(Sha256::digest(s.as_bytes()));
        let got = hash_secret(s);
        assert_eq!(got, expected);
        assert_eq!(got.len(), 64);
        assert!(got.chars().all(|c| c.is_ascii_digit() || ('a'..='f').contains(&c)));
    }
}

#[test]
fn hash_secret_differs_from_its_input() {
    let h = hash_secret("123456");
    assert_ne!(h, "123456");
    assert_ne!(hash_secret("123456"), hash_secret("123457"));
}
