use influx_receiver::error::{AuthenticateError, HMACKeyError};
use influx_receiver::signature::{sign, verify_signature, SecretKey};

fn vector_key() -> SecretKey {
    let bytes: Vec<u8> = (1..=32u8).collect();
    SecretKey::from_slice(&bytes).unwrap()
}

#[test]
fn sign_matches_the_hmac_sha256_test_vector() {
    let msg = vec![0xcdu8; 50];
    assert_eq!(sign(&vector_key(), &msg), "Ny78+bQLNcIRWxNGkD0u9C/O1G8IRucle7FW09ezDT8=");
}

#[test]
fn known_tag_verifies() {
    let msg = vec![0xcdu8; 50];
    assert_eq!(verify_signature(&vector_key(), &msg, "Ny78+bQLNcIRWxNGkD0u9C/O1G8IRucle7FW09ezDT8="), Ok(()));
}

#[test]
fn signed_message_verifies() {
    let key = vector_key();
    for msg in [&b""[..], b"hello", b"{\"nonce\":1}"] {
        let sig = sign(&key, msg);
        assert_eq!(verify_signature(&key, msg, &sig), Ok(()));
    }
}

#[test]
fn every_single_bit_change_of_message_is_refused() {
    let key = vector_key();
    let msg = b"telemetry".to_vec();
    let sig = sign(&key, &msg);
    for i in 0..msg.len() {
        for b in 0..8 {
            let mut m = msg.clone();
            m[i] ^= 1 << b;
            assert_eq!(verify_signature(&key, &m, &sig), Err(AuthenticateError::InvalidSignature));
        }
    }
}

#[test]
fn every_single_bit_change_of_tag_is_refused() {
    let key = vector_key();
    let msg = vec![0xcdu8; 50];
    let tag = base64::decode("Ny78+bQLNcIRWxNGkD0u9C/O1G8IRucle7FW09ezDT8=").unwrap();
    for i in 0..tag.len() {
        for b in 0..8 {
            let mut t = tag.clone();
            t[i] ^= 1 << b;
            let sig = base64::encode(&t);
            assert_eq!(verify_signature(&key, &msg, &sig), Err(AuthenticateError::InvalidSignature));
        }
    }
}

#[test]
fn other_key_is_refused() {
    let other = SecretKey::from_slice(&[9u8; 32]).unwrap();
    let msg = vec![0xcdu8; 50];
    assert_eq!(verify_signature(&other, &msg, "Ny78+bQLNcIRWxNGkD0u9C/O1G8IRucle7FW09ezDT8="), Err(AuthenticateError::InvalidSignature));
}

#[test]
fn signature_that_is_not_base64_is_refused() {
    assert_eq!(verify_signature(&vector_key(), b"x", "not base64!"), Err(AuthenticateError::SignatureFormattingError));
}

#[test]
fn signature_of_wrong_length_is_refused() {
    assert_eq!(verify_signature(&vector_key(), b"x", "aGVsbG8="), Err(AuthenticateError::SignatureFormattingError));
}

#[test]
fn key_of_wrong_length_is_refused() {
    assert!(matches!(SecretKey::from_slice(&[0u8; 31]), Err(HMACKeyError::KeyLengthMismatch)));
    assert!(matches!(SecretKey::from_slice(&[0u8; 33]), Err(HMACKeyError::KeyLengthMismatch)));
    assert_eq!(SecretKey::from_slice(&[5u8; 32]).unwrap().as_bytes(), &[5u8; 32][..]);
}
