use scypher::security::memory::{check_memory_integrity, deep_clear_vec, secure_clear, SecureBuffer};
use scypher::security::utils::{constant_time_eq, secure_random_bytes, secure_wipe};
use scypher::security::{secure_cleanup, SecureBytes, SecureString, SENSITIVE_VARIABLES};

#[test]
fn test_secure_clear() {
    let mut buffer = vec![0xFF; 32];
    secure_clear(&mut buffer);

    assert!(buffer.iter().all(|&b| b == 0));
}

#[test]
fn test_check_memory_integrity() {
    assert!(check_memory_integrity());
}

#[test]
fn test_deep_clear_vec() {
    let mut vec = vec![vec![1u8, 2, 3], vec![4, 5, 6]];
    deep_clear_vec(&mut vec);

    assert!(vec.is_empty());
    assert_eq!(vec.capacity(), 0);
}

#[test]
fn test_secure_buffer() {
    let mut buffer = SecureBuffer::new(16);
    buffer.as_mut_slice().fill(0xFF);

    assert_eq!(buffer.len(), 16);
    assert!(!buffer.is_empty());
    assert!(buffer.as_slice().iter().all(|&b| b == 0xFF));
}

#[test]
fn test_secure_buffer_from_slice() {
    let data = b"sensitive data";
    let buffer = SecureBuffer::from_slice(data);

    assert_eq!(buffer.as_slice(), data);
    assert_eq!(buffer.len(), data.len());
}

#[test]
fn test_secure_string() {
    let original = "sensitive data";
    let secure = SecureString::new(original);

    assert_eq!(secure.as_str(), original);
    assert_eq!(secure.len(), original.len());
    assert!(!secure.is_empty());
}

#[test]
fn test_secure_bytes() {
    let data = vec![1, 2, 3, 4, 5];
    let secure = SecureBytes::new(data.clone());

    assert_eq!(secure.as_slice(), &data);
    assert_eq!(secure.len(), data.len());
    assert!(!secure.is_empty());
}

#[test]
fn test_constant_time_eq() {
    assert!(constant_time_eq(b"hello", b"hello"));
    assert!(!constant_time_eq(b"hello", b"world"));
    assert!(!constant_time_eq(b"hello", b"hell"));
}

#[test]
fn test_secure_random_bytes() {
    let bytes1 = secure_random_bytes(16);
    let bytes2 = secure_random_bytes(16);

    assert_eq!(bytes1.len(), 16);
    assert_eq!(bytes2.len(), 16);
    assert_ne!(bytes1, bytes2);
}

#[test]
fn secure_buffer_starts_with_zeros() {
    let buffer = SecureBuffer::new(8);
    assert_eq!(buffer.as_slice(), &[0u8; 8]);
    let empty = SecureBuffer::new(0);
    assert!(empty.is_empty());
    assert_eq!(empty.len(), 0);
}

#[test]
fn secure_buffer_zeroize_empties_it() {
    let mut buffer = SecureBuffer::from_slice(&[1, 2, 3]);
    buffer.zeroize();
    assert!(buffer.is_empty());
    assert_eq!(buffer.len(), 0);
}

#[test]
fn secure_wipe_leaves_zeros_of_the_same_length() {
    let mut buffer = vec![0xAAu8; 40];
    secure_wipe(&mut buffer);
    assert_eq!(buffer, vec![0u8; 40]);
    let mut empty: Vec<u8> = Vec::new();
    secure_wipe(&mut empty);
    assert!(empty.is_empty());
}

#[test]
fn secure_clear_of_an_empty_buffer() {
    let mut empty: Vec<u8> = Vec::new();
    secure_clear(&mut empty);
    assert!(empty.is_empty());
}

#[test]
fn secure_random_bytes_of_length_zero() {
    assert!(secure_random_bytes(0).is_empty());
}

#[test]
fn secure_string_keeps_text_beyond_ascii() {
    let text = "contraseña ✓";
    let secure = SecureString::new(text);
    assert_eq!(secure.as_str(), text);
    assert_eq!(secure.as_bytes(), text.as_bytes());
    assert_eq!(secure.len(), text.len());
    let empty = SecureString::new("");
    assert!(empty.is_empty());
    assert_eq!(empty.as_str(), "");
}

#[test]
fn secure_string_from_text() {
    let from_str = SecureString::from("alpha");
    assert_eq!(from_str.as_str(), "alpha");
    let from_string = SecureString::from(String::from("beta"));
    assert_eq!(from_string.as_str(), "beta");
}

#[test]
fn secure_bytes_from_slice_and_into_vec() {
    let secure = SecureBytes::from_slice(&[9, 8, 7]);
    assert_eq!(secure.as_slice(), &[9, 8, 7]);
    assert_eq!(secure.into_vec(), vec![9, 8, 7]);
    let empty = SecureBytes::new(Vec::new());
    assert!(empty.is_empty());
    assert_eq!(empty.len(), 0);
}

#[test]
fn constant_time_eq_on_edge_cases() {
    assert!(constant_time_eq(b"", b""));
    assert!(!constant_time_eq(b"", b"a"));
    assert!(!constant_time_eq(&[0, 0, 1], &[0, 0, 0]));
    assert!(!constant_time_eq(&[0x80, 0], &[0, 0]));
    assert!(constant_time_eq(&[0xFF; 64], &[0xFF; 64]));
}

#[test]
fn deep_clear_vec_of_nothing() {
    let mut vec: Vec<Vec<u8>> = Vec::new();
    deep_clear_vec(&mut vec);
    assert!(vec.is_empty());
}

#[test]
fn secure_cleanup_returns() {
    secure_cleanup();
    assert_eq!(SENSITIVE_VARIABLES, ["SCYPHER_PASSWORD", "SCYPHER_SEED", "TMPDIR"]);
}
