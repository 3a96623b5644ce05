//! The envelope cryptography: the encrypt/decrypt round trip, IV freshness,
//! the PKCS#7 ciphertext size, and the error kinds.

use acfun_danmaku::crypto::{decrypt_body, encrypt_body};
use acfun_danmaku::errors::Error;

#[test]
fn test_encrypt_and_decrypt() {
    let key = base64::decode("giEyDh9ECKoxyj6kID4eXg==").unwrap();
    let cipher_text = encrypt_body(&key, b"hello").unwrap();
    let plain_text = decrypt_body(&key, &cipher_text).unwrap();
    assert_eq!(plain_text, b"hello");
}

#[test]
fn encrypt_roundtrip_many_lengths() {
    let key = b"16-byte-key-xxxx";
    for n in [0usize, 1, 15, 16, 17, 255, 4096, 65536] {
        let plaintext = vec![0xa5u8; n];
        let body = encrypt_body(key, &plaintext).unwrap();
        assert_eq!(decrypt_body(key, &body).unwrap(), plaintext);
    }
}

#[test]
fn iv_is_fresh_per_encryption() {
    let key = b"16-byte-key-xxxx";
    let a = encrypt_body(key, b"same plaintext").unwrap();
    let b = encrypt_body(key, b"same plaintext").unwrap();
    assert_ne!(a[..16], b[..16]);
    assert_ne!(a, b);
}

#[test]
fn ciphertext_size_is_padded() {
    let key = b"16-byte-key-xxxx";
    for n in 0usize..64 {
        let body = encrypt_body(key, &vec![7u8; n]).unwrap();
        assert_eq!(body.len(), 16 + 16 * ((n + 1).div_ceil(16)));
        assert_eq!(body.len(), 16 + n + 16 - n % 16);
    }
}

#[test]
fn bad_key_length_is_rejected() {
    assert_eq!(encrypt_body(b"short", b"hello").unwrap_err(), Error::InvalidKeyIvLength);
    let body = encrypt_body(b"16-byte-key-xxxx", b"hello").unwrap();
    assert_eq!(decrypt_body(b"short", &body).unwrap_err(), Error::InvalidKeyIvLength);
}

#[test]
fn short_ciphertext_is_rejected() {
    let key = b"16-byte-key-xxxx";
    assert_eq!(decrypt_body(key, &[0u8; 16]).unwrap_err(), Error::CipherTextTooShort(16));
    assert_eq!(decrypt_body(key, &[]).unwrap_err(), Error::CipherTextTooShort(0));
}

#[test]
fn ragged_ciphertext_is_rejected() {
    let key = b"16-byte-key-xxxx";
    // seventeen bytes past the IV: not a whole number of blocks
    assert_eq!(decrypt_body(key, &[0u8; 33]).unwrap_err(), Error::DecryptAesError);
}
