use scypher::bip39::bits::BitString;
use scypher::bip39::checksum::{checksum_from_digest, compute_checksum, verify};
use scypher::bip39::codec::{decode, encode};
use scypher::bip39::validation::{validate, verify_checksum};
use scypher::SCypherError;
use sha2::{Digest, Sha256};

fn phrase(text: &str) -> Vec<String> {
    text.split_whitespace().map(String::from).collect()
}

const ZERO_12: &str =
    "abandon abandon abandon abandon abandon abandon abandon abandon abandon abandon abandon about";

#[test]
fn bit_strings_write_and_read_numbers() {
    let mut bits = BitString::new();
    bits.append(0b101, 3);
    bits.append(0x7ff, 11);
    bits.append(0, 2);
    bits.append(0xffff, 4);
    assert_eq!(bits.len(), 20);
    assert_eq!(bits.read(0, 3), 0b101);
    assert_eq!(bits.read(3, 11), 0x7ff);
    assert_eq!(bits.read(14, 2), 0);
    assert_eq!(bits.read(16, 4), 0xf);
    assert_eq!(bits.read(0, 20), 0b1011_1111_1111_1100_1111);
    assert_eq!(bits.read(5, 0), 0);
    let bytes = BitString::from_bytes(&[0x80, 0x01, 0xa5]);
    assert_eq!(bytes.len(), 24);
    assert_eq!(bytes.read(0, 1), 1);
    assert_eq!(bytes.read(1, 15), 1);
    assert_eq!(bytes.to_bytes(0, 3), vec![0x80, 0x01, 0xa5]);
    assert_eq!(bytes.to_bytes(4, 2), vec![0x00, 0x1a]);
    assert_eq!(bytes.to_bytes(7, 0), Vec::<u8>::new());
    let mut wide = BitString::new();
    wide.append(u64::MAX, 64);
    assert_eq!(wide.read(0, 64), u64::MAX);
}

#[test]
fn zero_entropy_has_the_known_checksum() {
    let entropy = [0u8; 16];
    assert_eq!(compute_checksum(&entropy), 3);
    assert_eq!(encode(&entropy, 3), phrase(ZERO_12));
    assert!(verify(&entropy, 3));
    assert!(!verify(&entropy, 4));
    assert_eq!(verify_checksum(&phrase(ZERO_12)), Ok(true));
    assert_eq!(validate(&phrase(ZERO_12)), Ok(()));
}

#[test]
fn checksum_is_the_leading_bits_of_the_digest() {
    for len in [16usize, 20, 24, 28, 32] {
        let entropy: Vec<u8> = (0..len).map(|k| (k * 37 + 11) as u8).collect();
        let digest = Sha256::digest(&entropy);
        let width = len / 4;
        let expected = digest[0] >> (8 - width);
        assert_eq!(compute_checksum(&entropy), expected);
        assert_eq!(checksum_from_digest(&digest, width), expected);
        assert!(verify(&entropy, expected));
    }
    assert_eq!(checksum_from_digest(&[0b1011_0110, 0xff], 4), 0b1011);
    assert_eq!(checksum_from_digest(&[0b1011_0110, 0xff], 8), 0b1011_0110);
    assert_eq!(checksum_from_digest(&[0b1011_0110], 0), 0);
    assert_eq!(checksum_from_digest(&[], 5), 0);
}

#[test]
fn verify_looks_at_the_low_bits_only() {
    let entropy = [0u8; 16];
    assert!(verify(&entropy, 0x03));
    assert!(verify(&entropy, 0xf3));
    assert!(!verify(&entropy, 0x02));
}

#[test]
fn standard_vectors_encode_and_decode() {
    let vectors: [(u8, usize, &str); 12] = [
        (0x00, 16, ZERO_12),
        (0x7f, 16, "legal winner thank year wave sausage worth useful legal winner thank yellow"),
        (0x80, 16, "letter advice cage absurd amount doctor acoustic avoid letter advice cage above"),
        (0xff, 16, "zoo zoo zoo zoo zoo zoo zoo zoo zoo zoo zoo wrong"),
        (0x00, 24, "abandon abandon abandon abandon abandon abandon abandon abandon abandon abandon abandon abandon abandon abandon abandon abandon abandon agent"),
        (0x7f, 24, "legal winner thank year wave sausage worth useful legal winner thank year wave sausage worth useful legal will"),
        (0x80, 24, "letter advice cage absurd amount doctor acoustic avoid letter advice cage absurd amount doctor acoustic avoid letter always"),
        (0xff, 24, "zoo zoo zoo zoo zoo zoo zoo zoo zoo zoo zoo zoo zoo zoo zoo zoo zoo when"),
        (0x00, 32, "abandon abandon abandon abandon abandon abandon abandon abandon abandon abandon abandon abandon abandon abandon abandon abandon abandon abandon abandon abandon abandon abandon abandon art"),
        (0x7f, 32, "legal winner thank year wave sausage worth useful legal winner thank year wave sausage worth useful legal winner thank year wave sausage worth title"),
        (0x80, 32, "letter advice cage absurd amount doctor acoustic avoid letter advice cage absurd amount doctor acoustic avoid letter advice cage absurd amount doctor acoustic bless"),
        (0xff, 32, "zoo zoo zoo zoo zoo zoo zoo zoo zoo zoo zoo zoo zoo zoo zoo zoo zoo zoo zoo zoo zoo zoo zoo vote"),
    ];
    for (byte, len, text) in vectors {
        let entropy = vec![byte; len];
        let checksum = compute_checksum(&entropy);
        assert_eq!(encode(&entropy, checksum), phrase(text));
        assert_eq!(decode(&phrase(text)), Ok((entropy, checksum)));
        assert_eq!(validate(&phrase(text)), Ok(()));
    }
}

#[test]
fn encode_agrees_with_the_reference_codec() {
    for len in [16usize, 20, 24, 28, 32] {
        for seed in 0..8u32 {
            let entropy: Vec<u8> =
                (0..len).map(|k| (k as u32 * 131 + seed * 977 + 5).wrapping_mul(2654435761) as u8).collect();
            let reference = bip39::Mnemonic::from_entropy(&entropy).unwrap();
            let expected: Vec<String> = reference.words().map(String::from).collect();
            let checksum = compute_checksum(&entropy);
            assert_eq!(encode(&entropy, checksum), expected);
            assert_eq!(expected.len(), len / 4 * 3);
            assert_eq!(decode(&expected), Ok((entropy, checksum)));
        }
    }
}

#[test]
fn decode_inverts_encode_for_every_checksum() {
    for len in [16usize, 20, 24, 28, 32] {
        let entropy: Vec<u8> = (0..len).map(|k| (255 - 3 * k) as u8).collect();
        let width = len / 4;
        for checksum in 0..(1u16 << width) {
            let checksum = checksum as u8;
            let words = encode(&entropy, checksum);
            assert_eq!(decode(&words), Ok((entropy.clone(), checksum)));
        }
    }
}

#[test]
fn encode_uses_the_low_bits_of_the_checksum() {
    let entropy = [0x11u8; 16];
    assert_eq!(encode(&entropy, 0xf5), encode(&entropy, 0x05));
}

#[test]
fn thirteen_words_are_rejected() {
    let mut words = phrase(ZERO_12);
    words.push(String::from("abandon"));
    assert_eq!(decode(&words), Err(SCypherError::InvalidWordCount(13)));
    assert_eq!(validate(&words), Err(SCypherError::InvalidWordCount(13)));
    assert_eq!(verify_checksum(&words), Err(SCypherError::InvalidWordCount(13)));
}

#[test]
fn other_word_counts_are_rejected() {
    for count in [0usize, 1, 3, 11, 14, 16, 23, 25, 27, 48] {
        let words = vec![String::from("abandon"); count];
        assert_eq!(decode(&words), Err(SCypherError::InvalidWordCount(count)));
    }
    for count in [12usize, 15, 18, 21, 24] {
        let words = vec![String::from("abandon"); count];
        assert!(decode(&words).is_ok());
    }
}

#[test]
fn an_unknown_word_is_named() {
    let mut words = phrase(ZERO_12);
    words[4] = String::from("abandonn");
    let expected = Err(SCypherError::InvalidBip39Word(String::from("abandonn")));
    assert_eq!(decode(&words), expected);
    assert_eq!(validate(&words), Err(SCypherError::InvalidBip39Word(String::from("abandonn"))));
}

#[test]
fn the_first_unknown_word_is_reported() {
    let mut words = phrase(ZERO_12);
    words[7] = String::from("second");
    words[7].push('!');
    words[2] = String::from("first!");
    assert_eq!(decode(&words), Err(SCypherError::InvalidBip39Word(String::from("first!"))));
}

#[test]
fn the_word_count_is_checked_before_the_words() {
    let words = vec![String::from("nonsense"); 13];
    assert_eq!(decode(&words), Err(SCypherError::InvalidWordCount(13)));
}

#[test]
fn a_wrong_last_word_fails_the_checksum() {
    let mut words = phrase(ZERO_12);
    words[11] = String::from("abandon");
    assert_eq!(decode(&words), Ok((vec![0u8; 16], 0)));
    assert_eq!(verify_checksum(&words), Ok(false));
    assert_eq!(validate(&words), Err(SCypherError::InvalidChecksum));
}

#[test]
fn decode_splits_entropy_and_checksum() {
    let words = phrase("legal winner thank year wave sausage worth useful legal winner thank yellow");
    let (entropy, checksum) = decode(&words).unwrap();
    assert_eq!(entropy, vec![0x7f; 16]);
    assert_eq!(checksum, 0x8);
    let words = phrase("zoo zoo zoo zoo zoo zoo zoo zoo zoo zoo zoo zoo zoo zoo zoo zoo zoo zoo zoo zoo zoo zoo zoo zoo");
    let (entropy, checksum) = decode(&words).unwrap();
    assert_eq!(entropy, vec![0xff; 32]);
    assert_eq!(checksum, 0xff);
}
