use aes_gcm::aead::Aead;
use aes_gcm::{Aes256Gcm, KeyInit, Nonce};
use hoppscotch_agent::codec::{decrypt, encrypt};
use hoppscotch_agent::hex::{decode, encode_lower};

#[test]
fn hex_encode_matches_reference() {
    let samples: Vec<Vec<u8>> = vec![
        vec![],
        vec![0x00],
        vec![0xff],
        vec![0xde, 0xad, 0xbe, 0xef],
        (0u8..=255).collect(),
    ];
    for bytes in samples {
        assert_eq!(encode_lower(&bytes), base16::encode_lower(&bytes));
    }
}

#[test]
fn hex_decode_matches_reference() {
    for s in ["", "00", "ff", "deadbeef", "DEADBEEF", "AbCdEf012345"] {
        assert_eq!(decode(s), base16::decode(s).ok());
    }
}

#[test]
fn hex_round_trip_recovers_bytes() {
    let bytes: Vec<u8> = (0u8..=255).collect();
    assert_eq!(decode(&encode_lower(&bytes)), Some(bytes));
}

#[test]
fn hex_decode_rejects_odd_length() {
    assert_eq!(decode("abc"), None);
    assert_eq!(decode("0"), None);
}

#[test]
fn hex_decode_rejects_non_digits() {
    assert_eq!(decode("0g"), None);
    assert_eq!(decode("zz"), None);
    assert_eq!(decode("12 4"), None);
    assert_eq!(decode("ab\u{00e9}d"), None);
}

#[test]
fn codec_round_trip_recovers_plaintext() {
    let secret = [7u8; 32];
    let plaintext = b"{\"req_id\":12,\"method\":\"GET\"}";
    let sealed = encrypt(&secret, plaintext);
    assert_eq!(sealed.nonce.len(), 12);
    assert_eq!(sealed.ciphertext.len(), plaintext.len() + 16);
    let opened = decrypt(&secret, &sealed.nonce, &sealed.ciphertext);
    assert_eq!(opened.as_deref(), Some(plaintext.as_slice()));
}

#[test]
fn codec_matches_reference_aead() {
    let secret = [9u8; 32];
    let plaintext = b"reference check";
    let sealed = encrypt(&secret, plaintext);
    let cipher = Aes256Gcm::new_from_slice(&secret).unwrap();
    let reference = cipher
        .decrypt(Nonce::from_slice(&sealed.nonce), sealed.ciphertext.as_slice())
        .unwrap();
    assert_eq!(reference, plaintext);
}

#[test]
fn codec_fails_closed_on_tampering() {
    let secret = [7u8; 32];
    let plaintext = b"payload";
    let sealed = encrypt(&secret, plaintext);

    // A single flipped ciphertext byte fails authentication.
    for i in 0..sealed.ciphertext.len() {
        let mut tampered = sealed.ciphertext.clone();
        tampered[i] ^= 0x01;
        assert_eq!(decrypt(&secret, &sealed.nonce, &tampered), None);
    }

    // A wrong key fails.
    let other_secret = [8u8; 32];
    assert_eq!(decrypt(&other_secret, &sealed.nonce, &sealed.ciphertext), None);

    // A wrong nonce fails.
    let mut other_nonce = sealed.nonce.clone();
    other_nonce[0] ^= 0x01;
    assert_eq!(decrypt(&secret, &other_nonce, &sealed.ciphertext), None);

    // Truncation fails.
    let truncated = &sealed.ciphertext[..sealed.ciphertext.len() - 1];
    assert_eq!(decrypt(&secret, &sealed.nonce, truncated), None);

    // A malformed nonce fails without panicking.
    assert_eq!(decrypt(&secret, b"short", &sealed.ciphertext), None);
}

#[test]
fn codec_empty_plaintext_round_trip() {
    let secret = [0u8; 32];
    let sealed = encrypt(&secret, b"");
    assert_eq!(sealed.ciphertext.len(), 16);
    assert_eq!(decrypt(&secret, &sealed.nonce, &sealed.ciphertext).as_deref(), Some(&b""[..]));
}
