use base64::Engine;
use neo_meting::netease::envelope::{IV, PRESET_KEY, PUBLIC_KEY_PEM};
use neo_meting::netease::{seal_payload, WeapiEncoder};
use openssl::bn::{BigNum, BigNumContext};
use openssl::rsa::Rsa;
use openssl::symm::{decrypt, Cipher};

const RAW: [u8; 16] = [0, 1, 25, 26, 51, 52, 61, 62, 63, 200, 255, 123, 7, 8, 9, 10];

fn session_key(raw: &[u8; 16]) -> Vec<u8> {
    let alphabet = b"abcdefghijklmnopqrstuvwxyzABCDEFGHIJKLMNOPQRSTUVWXYZ0123456789";
    raw.iter().map(|b| alphabet[(b % 62) as usize]).collect()
}

fn open_params(params: &str, key: &[u8]) -> Vec<u8> {
    let cipher = Cipher::aes_128_cbc();
    let outer = base64::prelude::BASE64_STANDARD.decode(params).unwrap();
    let inner_text = decrypt(cipher, key, Some(IV.as_bytes()), &outer).unwrap();
    let inner = base64::prelude::BASE64_STANDARD.decode(inner_text).unwrap();
    decrypt(cipher, PRESET_KEY.as_bytes(), Some(IV.as_bytes()), &inner).unwrap()
}

#[test]
fn params_decrypt_to_the_plaintext() {
    let payload = r#"{"id":"123","offset":"0"}"#;
    let w = WeapiEncoder::try_from_key_bytes(payload, RAW).unwrap();
    let key = session_key(&RAW);
    assert_eq!(open_params(&w.params, &key), payload.as_bytes());
}

#[test]
fn envelope_is_determined_by_payload_and_key_bytes() {
    let payload = "some payload text";
    let a = WeapiEncoder::try_from_key_bytes(payload, RAW).unwrap();
    let b = WeapiEncoder::try_from_key_bytes(payload, RAW).unwrap();
    assert_eq!(a.params, b.params);
    assert_eq!(a.enc_sec_key, b.enc_sec_key);
    let mut other = RAW;
    other[0] = 1;
    let c = WeapiEncoder::try_from_key_bytes(payload, other).unwrap();
    assert_ne!(a.params, c.params);
    assert_ne!(a.enc_sec_key, c.enc_sec_key);
}

#[test]
fn enc_sec_key_is_raw_rsa_of_the_reversed_padded_key() {
    let w = WeapiEncoder::try_from_key_bytes("x", RAW).unwrap();
    assert_eq!(w.enc_sec_key.len(), 256);
    assert!(w.enc_sec_key.chars().all(|c| c.is_ascii_digit() || ('a'..='f').contains(&c)));
    let mut key = session_key(&RAW);
    key.reverse();
    let mut block = vec![0u8; 128 - key.len()];
    block.extend_from_slice(&key);
    let rsa = Rsa::public_key_from_pem(PUBLIC_KEY_PEM.as_bytes()).unwrap();
    let m = BigNum::from_slice(&block).unwrap();
    let mut c = BigNum::new().unwrap();
    let mut ctx = BigNumContext::new().unwrap();
    c.mod_exp(&m, rsa.e(), rsa.n(), &mut ctx).unwrap();
    let expected = hex::encode(c.to_vec_padded(128).unwrap());
    assert_eq!(w.enc_sec_key, expected);
}

#[test]
fn fresh_envelopes_carry_the_payload() {
    let payload = "{\"s\":\"hello\"}";
    let a = WeapiEncoder::try_from_str(payload).unwrap();
    let b = WeapiEncoder::try_from_str(payload).unwrap();
    assert!(!a.params.is_empty());
    assert_eq!(a.enc_sec_key.len(), 256);
    assert_ne!(a.enc_sec_key, b.enc_sec_key);
}

#[test]
fn seal_payload_builds_an_envelope() {
    let w = seal_payload("{}").unwrap();
    assert!(!w.params.is_empty());
    assert_eq!(w.enc_sec_key.len(), 256);
}
