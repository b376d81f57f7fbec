use ritw::{NONCE_LEN, Sign, SignError, TAG_LEN};

#[test]
fn round_trip_restores_plaintext() {
    let sign = Sign::new("secret key");
    for msg in [&b""[..], &b"a"[..], &b"hello world"[..], &[0u8; 1000][..]] {
        let blob = sign.encrypt(msg).unwrap();
        assert_eq!(sign.decrypt(&blob).unwrap(), msg.to_vec());
    }
}

#[test]
fn blob_is_nonce_then_ciphertext_and_tag() {
    let sign = Sign::new("secret key");
    let nonce = [7u8; 12];
    let blob = sign.encrypt_with_nonce(&nonce, b"payload").unwrap();
    assert_eq!(blob.len(), NONCE_LEN + 7 + TAG_LEN);
    assert_eq!(&blob[..12], &nonce[..]);
    assert_ne!(&blob[12..19], &b"payload"[..]);
    assert_eq!(sign.decrypt(&blob).unwrap(), b"payload".to_vec());
}

#[test]
fn same_nonce_same_key_is_deterministic() {
    let sign = Sign::new("k");
    let nonce = [1u8; 12];
    let a = sign.encrypt_with_nonce(&nonce, b"m").unwrap();
    let b = sign.encrypt_with_nonce(&nonce, b"m").unwrap();
    assert_eq!(a, b);
}

#[test]
fn flipping_any_bit_fails_decryption() {
    let sign = Sign::new("secret key");
    let blob = sign.encrypt(b"tamper me").unwrap();
    for byte in 0..blob.len() {
        for bit in 0..8 {
            let mut bad = blob.clone();
            bad[byte] ^= 1 << bit;
            assert_eq!(sign.decrypt(&bad), Err(SignError));
        }
    }
}

#[test]
fn short_input_fails_decryption() {
    let sign = Sign::new("secret key");
    for len in 0..12 {
        let input = vec![0u8; len];
        assert_eq!(sign.decrypt(&input), Err(SignError));
        assert_eq!(sign.decrypt(&input), Err(SignError));
    }
}

#[test]
fn nonce_and_tag_only_fails_decryption() {
    let sign = Sign::new("secret key");
    assert_eq!(sign.decrypt(&[0u8; 28]), Err(SignError));
}

#[test]
fn other_key_fails_decryption() {
    let a = Sign::new("first secret");
    let b = Sign::new("second secret");
    let blob = a.encrypt(b"for a only").unwrap();
    assert_eq!(b.decrypt(&blob), Err(SignError));
    let again = Sign::new("first secret");
    assert_eq!(again.decrypt(&blob).unwrap(), b"for a only".to_vec());
}

#[test]
fn ten_thousand_nonces_are_distinct() {
    let sign = Sign::new("secret key");
    let mut seen = std::collections::HashSet::new();
    for _ in 0..10_000 {
        let blob = sign.encrypt(b"same plaintext").unwrap();
        assert!(seen.insert(blob[..12].to_vec()));
    }
    assert_eq!(seen.len(), 10_000);
}

#[test]
fn sign_error_has_a_message() {
    assert_eq!(SignError.message(), "ritw::models::Error");
}

#[test]
fn blob_shorter_than_nonce_and_tag_fails_and_length_relation_holds() {
    let sign = Sign::new("secret key");
    for len in 12..28 {
        assert_eq!(sign.decrypt(&vec![0u8; len]), Err(SignError));
    }
    let blob = sign.encrypt(b"twelve bytes").unwrap();
    let plain = sign.decrypt(&blob).unwrap();
    assert_eq!(blob.len(), NONCE_LEN + plain.len() + TAG_LEN);
    let empty = sign.encrypt(b"").unwrap();
    assert_eq!(empty.len(), 28);
    assert_eq!(sign.decrypt(&empty).unwrap(), Vec::<u8>::new());
}
