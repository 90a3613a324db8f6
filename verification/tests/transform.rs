use scypher::bip39::checksum::compute_checksum;
use scypher::bip39::codec::{decode, encode};
use scypher::bip39::validation::validate;
use scypher::crypto::kdf::{validate_crypto_params, KDF_LANES, KDF_SALT};
use scypher::crypto::transform::{apply_keystream, transform, transform_strict};
use scypher::crypto::xor::xor_bytes;
use scypher::SCypherError;

fn phrase(text: &str) -> Vec<String> {
    text.split_whitespace().map(String::from).collect()
}

const ZERO_12: &str =
    "abandon abandon abandon abandon abandon abandon abandon abandon abandon abandon abandon about";

const LEGAL_24: &str = "legal winner thank year wave sausage worth useful legal winner thank year wave sausage worth useful legal winner thank year wave sausage worth title";

#[test]
fn test_validate_crypto_params() {
    assert!(validate_crypto_params(1, 8192).is_ok());
    assert!(validate_crypto_params(5, 131072).is_ok());
    assert!(validate_crypto_params(100, 2_097_152).is_ok());

    assert!(validate_crypto_params(0, 131072).is_err());
    assert!(validate_crypto_params(101, 131072).is_err());
    assert!(validate_crypto_params(5, 4096).is_err());
    assert!(validate_crypto_params(5, 3_000_000).is_err());
}

#[test]
fn cost_bounds_name_the_parameter() {
    assert_eq!(validate_crypto_params(0, 131072), Err(SCypherError::InvalidIterations(0)));
    assert_eq!(validate_crypto_params(101, 131072), Err(SCypherError::InvalidIterations(101)));
    assert_eq!(validate_crypto_params(5, 1000), Err(SCypherError::InvalidMemoryCost(1000)));
    assert_eq!(validate_crypto_params(5, 8191), Err(SCypherError::InvalidMemoryCost(8191)));
    assert_eq!(validate_crypto_params(5, 2_097_153), Err(SCypherError::InvalidMemoryCost(2_097_153)));
    assert_eq!(validate_crypto_params(0, 1000), Err(SCypherError::InvalidIterations(0)));
    assert_eq!(validate_crypto_params(1, 8192), Ok(()));
    assert_eq!(validate_crypto_params(100, 2_097_152), Ok(()));
}

#[test]
fn xor_combines_byte_by_byte() {
    assert_eq!(xor_bytes(&[0xf0, 0x0f, 0xaa], &[0xff, 0xff, 0x55]), vec![0x0f, 0xf0, 0xff]);
    assert_eq!(xor_bytes(&[], &[]), Vec::<u8>::new());
    let data = [1u8, 2, 3, 250];
    let key = [9u8, 200, 0, 17];
    assert_eq!(xor_bytes(&xor_bytes(&data, &key), &key), data.to_vec());
    assert_eq!(xor_bytes(&data, &[0; 4]), data.to_vec());
}

#[test]
fn derive_is_argon2id_with_the_fixed_salt() {
    let key = scypher::crypto::kdf::derive(b"correct horse", 32, 2, 8192).unwrap();
    let params = argon2::Params::new(8192, 2, KDF_LANES, Some(32)).unwrap();
    let hasher = argon2::Argon2::new(argon2::Algorithm::Argon2id, argon2::Version::V0x13, params);
    let mut expected = vec![0u8; 32];
    hasher.hash_password_into(b"correct horse", &KDF_SALT, &mut expected).unwrap();
    assert_eq!(key, expected);
    assert_eq!(&KDF_SALT, b"SCypherV3.0-salt");
    assert_ne!(key, vec![0u8; 32]);
}

#[test]
fn derive_gives_the_length_asked_for() {
    for length in [4usize, 16, 20, 24, 28, 32, 64, 65, 100] {
        let key = scypher::crypto::kdf::derive(b"pw", length, 1, 8192).unwrap();
        assert_eq!(key.len(), length);
    }
}

#[test]
fn derive_is_deterministic() {
    let first = scypher::crypto::kdf::derive(b"password", 16, 1, 8192).unwrap();
    let second = scypher::crypto::kdf::derive(b"password", 16, 1, 8192).unwrap();
    assert_eq!(first, second);
    let other_cost = scypher::crypto::kdf::derive(b"password", 16, 2, 8192).unwrap();
    assert_ne!(first, other_cost);
    let other_memory = scypher::crypto::kdf::derive(b"password", 16, 1, 8200).unwrap();
    assert_ne!(first, other_memory);
}

#[test]
fn derive_reports_refused_parameters() {
    let failed = Err(SCypherError::KeyDerivationFailed);
    assert_eq!(scypher::crypto::kdf::derive(b"password", 0, 1, 8192), failed);
    assert_eq!(scypher::crypto::kdf::derive(b"password", 3, 1, 8192), failed);
    assert_eq!(scypher::crypto::kdf::derive(b"password", 16, 0, 8192), failed);
    assert_eq!(scypher::crypto::kdf::derive(b"password", 16, 1, 7), failed);
    assert!(scypher::crypto::kdf::derive(b"password", 16, 1, 8).is_ok());
    assert!(scypher::crypto::kdf::derive(b"", 4, 1, 8).is_ok());
}

#[test]
fn transform_twice_gives_the_mnemonic_back() {
    for text in [ZERO_12, LEGAL_24, "zoo zoo zoo zoo zoo zoo zoo zoo zoo zoo zoo zoo zoo zoo zoo zoo zoo when"] {
        let words = phrase(text);
        let hidden = transform(&words, b"my password", 1, 8192).unwrap();
        assert_ne!(hidden, words);
        assert_eq!(hidden.len(), words.len());
        assert_eq!(validate(&hidden), Ok(()));
        let back = transform(&hidden, b"my password", 1, 8192).unwrap();
        assert_eq!(back, words);
    }
}

#[test]
fn transform_twice_for_every_length() {
    for len in [16usize, 20, 24, 28, 32] {
        let entropy: Vec<u8> = (0..len).map(|k| (k * 7 + 1) as u8).collect();
        let words = encode(&entropy, compute_checksum(&entropy));
        let hidden = transform_strict(&words, b"pass", 2, 8192).unwrap();
        let back = transform_strict(&hidden, b"pass", 2, 8192).unwrap();
        assert_eq!(back, words);
    }
}

#[test]
fn transform_is_xor_with_the_keystream() {
    let words = phrase(LEGAL_24);
    let (entropy, _) = decode(&words).unwrap();
    let key = scypher::crypto::kdf::derive(b"secret", entropy.len(), 1, 8192).unwrap();
    let combined = xor_bytes(&entropy, &key);
    let expected = encode(&combined, compute_checksum(&combined));
    assert_eq!(transform(&words, b"secret", 1, 8192), Ok(expected.clone()));
    assert_eq!(apply_keystream(&entropy, &key), expected);
}

#[test]
fn apply_keystream_of_zeros_keeps_the_mnemonic() {
    assert_eq!(apply_keystream(&[0u8; 16], &[0u8; 16]), phrase(ZERO_12));
    assert_eq!(
        apply_keystream(&[0x7fu8; 16], &[0xffu8; 16]),
        phrase("letter advice cage absurd amount doctor acoustic avoid letter advice cage above")
    );
}

#[test]
fn different_passwords_give_different_outcomes() {
    let words = phrase(ZERO_12);
    let first = transform(&words, b"password one", 1, 8192).unwrap();
    let second = transform(&words, b"password two", 1, 8192).unwrap();
    assert_ne!(first, second);
}

#[test]
fn transform_with_a_wrong_password_does_not_give_the_mnemonic_back() {
    let words = phrase(ZERO_12);
    let hidden = transform(&words, b"right", 1, 8192).unwrap();
    let back = transform(&hidden, b"wrong", 1, 8192).unwrap();
    assert_ne!(back, words);
    assert_eq!(validate(&back), Ok(()));
}

#[test]
fn transform_reports_what_decode_reports() {
    let thirteen = vec![String::from("abandon"); 13];
    assert_eq!(transform(&thirteen, b"pw", 1, 8192), Err(SCypherError::InvalidWordCount(13)));
    let mut unknown = phrase(ZERO_12);
    unknown[0] = String::from("xyzzy");
    assert_eq!(
        transform(&unknown, b"pw", 1, 8192),
        Err(SCypherError::InvalidBip39Word(String::from("xyzzy")))
    );
}

#[test]
fn transform_reports_a_failed_derivation() {
    let words = phrase(ZERO_12);
    assert_eq!(transform(&words, b"pw", 0, 8192), Err(SCypherError::KeyDerivationFailed));
    assert_eq!(transform(&words, b"pw", 1, 4), Err(SCypherError::KeyDerivationFailed));
}

#[test]
fn transform_does_not_look_at_the_checksum() {
    let mut words = phrase(ZERO_12);
    words[11] = String::from("abandon");
    let hidden = transform(&words, b"pw", 1, 8192).unwrap();
    assert_eq!(validate(&hidden), Ok(()));
    let back = transform(&hidden, b"pw", 1, 8192).unwrap();
    assert_eq!(back, phrase(ZERO_12));
}

#[test]
fn strict_transform_checks_costs_then_the_mnemonic() {
    let mut bad_checksum = phrase(ZERO_12);
    bad_checksum[11] = String::from("abandon");
    assert_eq!(
        transform_strict(&bad_checksum, b"pw", 1, 8192),
        Err(SCypherError::InvalidChecksum)
    );
    assert_eq!(
        transform_strict(&bad_checksum, b"pw", 0, 8192),
        Err(SCypherError::InvalidIterations(0))
    );
    assert_eq!(
        transform_strict(&bad_checksum, b"pw", 5, 1000),
        Err(SCypherError::InvalidMemoryCost(1000))
    );
    let thirteen = vec![String::from("abandon"); 13];
    assert_eq!(
        transform_strict(&thirteen, b"pw", 101, 1000),
        Err(SCypherError::InvalidIterations(101))
    );
    assert_eq!(
        transform_strict(&thirteen, b"pw", 1, 8192),
        Err(SCypherError::InvalidWordCount(13))
    );
    let words = phrase(ZERO_12);
    assert_eq!(
        transform_strict(&words, b"pw", 1, 8192),
        transform(&words, b"pw", 1, 8192)
    );
}
