//! The request envelope: a payload encrypted twice with AES-128-CBC and
//! the second key sealed with the provider's RSA key.
use vstd::prelude::*;

use base64::Engine;
use rand::TryRngCore;
use vstd::string::StringSliceAdditionalSpecFns;
use vstd::utf8::{encode_utf8, is_ascii_chars, is_ascii_chars_encode_utf8};

verus! {

#[verifier::external_type_specification]
#[verifier::external_body]
pub struct ExErrorStack(openssl::error::ErrorStack);

#[verifier::external_type_specification]
#[verifier::external_body]
pub struct ExOsError(rand::rand_core::OsError);

/// Why an envelope could not be built.
#[derive(Debug)]
pub enum ParseErr {
    /// The provider's public key could not be read.
    ImportPubKey(openssl::error::ErrorStack),
    /// The first encryption failed.
    EncodeSource(openssl::error::ErrorStack),
    /// The second encryption failed.
    EncodeData(openssl::error::ErrorStack),
    /// The RSA sealing of the key failed.
    EncodeKey(openssl::error::ErrorStack),
    /// The system's random source failed.
    GenRandomNumber(rand::rand_core::OsError),
}

/// The envelope put on the wire: `params` is base64 text and
/// `enc_sec_key` lower-case hex text.
#[derive(Debug, Clone)]
pub struct WeapiEncoder {
    pub params: String,
    pub enc_sec_key: String,
}

/// The fixed key of the first encryption.
pub const PRESET_KEY: &'static str = "0CoJUm6Qyw8W8jud";

/// The initialisation vector of both encryptions.
pub const IV: &'static str = "0102030405060708";

/// The provider's RSA public key.
pub const PUBLIC_KEY_PEM: &'static str = "-----BEGIN PUBLIC KEY-----\nMIGfMA0GCSqGSIb3DQEBAQUAA4GNADCBiQKBgQDgtQn2JZ34ZC28NWYpAUd98iZ37BUrX/aKzmFbt7clFSs6sXqHauqKWqdtLkF2KexO40H1YTX8z2lSgBBOAxLsvaklV8k4cBFK9snQXE9/DDaFt6Rr7iVZMldczhC0JNgTz+SHXT6CBHuX3e9SdB1Ua44oncaTWz7OBGLbCiK45wIDAQAB\n-----END PUBLIC KEY-----\n";

/// The longest payload, in bytes, that an envelope can carry: its
/// ciphertext, in base64, must still fit the `int` length that openssl
/// takes.
pub const MAX_PAYLOAD_LEN: usize = 1500000000;

/// The AES-128-CBC encryption, PKCS#7 padded, of `data` under `key` and `iv`.
pub uninterp spec fn aes128_cbc_of(key: Seq<u8>, iv: Seq<u8>, data: Seq<u8>) -> Seq<u8>;

/// The standard, padded base64 text of `data`.
pub uninterp spec fn base64_of(data: Seq<u8>) -> Seq<char>;

/// The raw (unpadded) RSA encryption of `block` under the public key in `pem`.
pub uninterp spec fn rsa_raw_of(pem: Seq<u8>, block: Seq<u8>) -> Seq<u8>;

/// The lower-case hex digit of a value below sixteen.
pub open spec fn hex_digit(v: u8) -> char {
    if v < 10 {
        ((v + 48) as u8) as char
    } else {
        ((v + 87) as u8) as char
    }
}

/// The lower-case hex text of `b`, two digits per byte.
pub open spec fn hex_lower(b: Seq<u8>) -> Seq<char>
    decreases b.len(),
{
    if b.len() == 0 {
        seq![]
    } else {
        hex_lower(b.drop_last()) + seq![hex_digit(b.last() / 16), hex_digit(b.last() % 16)]
    }
}

/// The character that a random byte stands for in the 62-letter alphabet
/// `a-z`, `A-Z`, `0-9`, by its value modulo 62.
pub open spec fn base62_char(b: u8) -> u8 {
    let i = b % 62;
    if i < 26 {
        (i + 97) as u8
    } else if i < 52 {
        (i - 26 + 65) as u8
    } else {
        (i - 52 + 48) as u8
    }
}

/// The symmetric key made from sixteen random bytes.
pub open spec fn session_key(raw: Seq<u8>) -> Seq<u8> {
    raw.map_values(|b: u8| base62_char(b))
}

/// The block that RSA seals: the key reversed, left-padded with zero
/// bytes to 128 bytes.
pub open spec fn key_block(key: Seq<u8>) -> Seq<u8> {
    Seq::new((128 - key.len()) as nat, |i: int| 0u8) + key.reverse()
}

/// The `params` text for a payload and a symmetric key.
pub open spec fn params_of(payload: Seq<u8>, key: Seq<u8>) -> Seq<char> {
    let iv = IV.spec_bytes();
    let inner = base64_of(aes128_cbc_of(PRESET_KEY.spec_bytes(), iv, payload));
    base64_of(aes128_cbc_of(key, iv, encode_utf8(inner)))
}

/// The `enc_sec_key` text for a symmetric key.
pub open spec fn enc_sec_key_of(key: Seq<u8>) -> Seq<char> {
    hex_lower(rsa_raw_of(PUBLIC_KEY_PEM.spec_bytes(), key_block(key)))
}

impl WeapiEncoder {
    /// This envelope carries `payload` under the key made from `raw`.
    pub open spec fn seals(self, payload: Seq<u8>, raw: Seq<u8>) -> bool {
        &&& self.params@ == params_of(payload, session_key(raw))
        &&& self.enc_sec_key@ == enc_sec_key_of(session_key(raw))
    }
}

/// Relies on `OsRng::try_fill_bytes` of rand: sixteen bytes from the
/// operating system's random source, or its error.
#[verifier::external_body]
fn random_key_bytes() -> (r: Result<[u8; 16], rand::rand_core::OsError>) {
    let mut raw = [0u8; 16];
    rand::rngs::OsRng.try_fill_bytes(&mut raw)?;
    Ok(raw)
}

/// Relies on `openssl::symm::encrypt` with `Cipher::aes_128_cbc()`, whose
/// padding is on: the ciphertext fills whole blocks, one more than the
/// full blocks of the input. openssl takes the input length as a C `int`
/// and panics where it does not fit, so the input leaves room for one
/// block below `i32::MAX`.
#[verifier::external_body]
fn aes128_cbc_encrypt(key: &[u8], iv: &[u8], data: &[u8]) -> (r: Result<
    Vec<u8>,
    openssl::error::ErrorStack,
>)
    requires
        key@.len() == 16,
        iv@.len() == 16,
        data@.len() <= i32::MAX - 16,
    ensures
        r matches Ok(c) ==> c@ == aes128_cbc_of(key@, iv@, data@) && c@.len() == (data@.len() / 16
            + 1) * 16,
{
    openssl::symm::encrypt(openssl::symm::Cipher::aes_128_cbc(), key, Some(iv), data)
}

/// Relies on `base64::engine::Engine::encode` of `BASE64_STANDARD`:
/// padded base64, four ASCII characters for every started three bytes.
#[verifier::external_body]
fn base64_encode(data: &[u8]) -> (r: String)
    requires
        4 * (data@.len() / 3) + 4 <= usize::MAX,
    ensures
        r@ == base64_of(data@),
        r@.len() == 4 * ((data@.len() + 2) / 3),
        is_ascii_chars(r@),
{
    base64::prelude::BASE64_STANDARD.encode(data)
}

/// Relies on `hex::encode`: two lower-case hex digits per byte.
#[verifier::external_body]
fn hex_encode(data: &[u8]) -> (r: String)
    ensures
        r@ == hex_lower(data@),
{
    hex::encode(data)
}

/// Relies on `Rsa::public_key_from_pem`, `Rsa::size` and
/// `Rsa::public_encrypt` with `Padding::NONE` of openssl: the key is read
/// from `pem` and seals a block of exactly its size into a block of the
/// same size. Both the key text and the block must have lengths that fit
/// a C `int`, as openssl asserts.
#[verifier::external_body]
fn rsa_encrypt_raw(pem: &[u8], block: &[u8]) -> (r: Result<Vec<u8>, ParseErr>)
    requires
        pem@.len() <= i32::MAX,
        block@.len() <= i32::MAX,
    ensures
        r matches Ok(c) ==> c@ == rsa_raw_of(pem@, block@) && c@.len() == block@.len(),
        r matches Err(e) ==> (e is ImportPubKey || e is EncodeKey),
{
    let rsa = openssl::rsa::Rsa::public_key_from_pem(pem).map_err(ParseErr::ImportPubKey)?;
    let mut sealed = vec![0u8; rsa.size() as usize];
    rsa.public_encrypt(block, &mut sealed, openssl::rsa::Padding::NONE).map_err(
        ParseErr::EncodeKey,
    )?;
    Ok(sealed)
}

/// An envelope is determined by its payload and its sixteen random
/// bytes: two envelopes that seal the same payload under the same bytes
/// are equal, field by field.
pub proof fn lemma_envelope_determined(payload: Seq<u8>, raw: Seq<u8>, a: WeapiEncoder, b: WeapiEncoder)
    requires
        a.seals(payload, raw),
        b.seals(payload, raw),
    ensures
        a.params@ == b.params@,
        a.enc_sec_key@ == b.enc_sec_key@,
{
}

/// The hex text of a sequence has two digits per byte.
pub proof fn lemma_hex_lower_len(b: Seq<u8>)
    ensures
        hex_lower(b).len() == 2 * b.len(),
    decreases b.len(),
{
    if b.len() > 0 {
        lemma_hex_lower_len(b.drop_last());
    }
}

/// The alphabet character of one random byte.
fn base62_byte(b: u8) -> (r: u8)
    ensures
        r == base62_char(b),
{
    let i = b % 62;
    if i < 26 {
        i + 97
    } else if i < 52 {
        i - 26 + 65
    } else {
        i - 52 + 48
    }
}

/// The symmetric key made from sixteen random bytes.
pub fn session_key_bytes(raw: &[u8; 16]) -> (key: Vec<u8>)
    ensures
        key@ == session_key(raw@),
{
    let mut key: Vec<u8> = Vec::new();
    let mut i: usize = 0;
    while i < 16
        invariant
            i <= 16,
            raw@.len() == 16,
            key@ == session_key(raw@.take(i as int)),
        decreases 16 - i,
    {
        key.push(base62_byte(raw[i]));
        assert(session_key(raw@.take(i + 1)) =~= session_key(raw@.take(i as int)).push(
            base62_char(raw@[i as int]),
        ));
        i = i + 1;
    }
    assert(raw@.take(16) =~= raw@);
    key
}

/// The RSA block of a key: zero bytes, then the key reversed.
pub fn key_block_bytes(key: &Vec<u8>) -> (block: Vec<u8>)
    requires
        key@.len() <= 128,
    ensures
        block@ == key_block(key@),
{
    let mut block: Vec<u8> = Vec::new();
    let pad = 128 - key.len();
    let mut i: usize = 0;
    while i < pad
        invariant
            i <= pad,
            block@ == Seq::new(i as nat, |j: int| 0u8),
        decreases pad - i,
    {
        block.push(0u8);
        assert(block@ =~= Seq::new((i + 1) as nat, |j: int| 0u8));
        i = i + 1;
    }
    let mut k: usize = key.len();
    while k > 0
        invariant
            k <= key@.len(),
            key@.len() <= 128,
            pad == 128 - key@.len(),
            block@ == Seq::new(pad as nat, |j: int| 0u8) + key@.reverse().take(key@.len() - k),
        decreases k,
    {
        k = k - 1;
        block.push(key[k]);
        assert(key@.reverse().take(key@.len() - k) =~= key@.reverse().take(key@.len() - k - 1).push(key@[k as int]));
    }
    assert(key@.reverse().take(key@.len() as int) =~= key@.reverse());
    block
}

impl WeapiEncoder {
    /// Builds the envelope of `input` with the symmetric key made from the
    /// sixteen bytes `raw`: a function of `input` and `raw` alone.
    pub fn try_from_key_bytes(input: &str, raw: [u8; 16]) -> (r: Result<WeapiEncoder, ParseErr>)
        requires
            input.spec_bytes().len() <= MAX_PAYLOAD_LEN,
        ensures
            r matches Ok(w) ==> w.seals(input.spec_bytes(), raw@) && w.params@.len() > 0
                && w.enc_sec_key@.len() == 256,
            r matches Err(e) ==> !(e is GenRandomNumber),
    {
        proof {
            reveal_strlit("0CoJUm6Qyw8W8jud");
            reveal_strlit("0102030405060708");
            is_ascii_chars_encode_utf8(PRESET_KEY@);
            is_ascii_chars_encode_utf8(IV@);
        }
        let iv = IV.as_bytes();
        let key = session_key_bytes(&raw);
        let first = match aes128_cbc_encrypt(PRESET_KEY.as_bytes(), iv, input.as_bytes()) {
            Ok(c) => c,
            Err(e) => return Err(ParseErr::EncodeSource(e)),
        };
        let n1 = first.len();
        assert(n1 <= input.spec_bytes().len() + 16) by (nonlinear_arith)
            requires
                n1 == (input.spec_bytes().len() / 16 + 1) * 16,
        ;
        let inner = base64_encode(first.as_slice());
        assert(inner@.len() <= 2000000040) by (nonlinear_arith)
            requires
                inner@.len() == 4 * ((n1 + 2) / 3),
                n1 <= MAX_PAYLOAD_LEN + 16,
        ;
        proof {
            is_ascii_chars_encode_utf8(inner@);
        }
        let second = match aes128_cbc_encrypt(key.as_slice(), iv, inner.as_str().as_bytes()) {
            Ok(c) => c,
            Err(e) => return Err(ParseErr::EncodeData(e)),
        };
        let n2 = second.len();
        assert(n2 <= 2000000056) by (nonlinear_arith)
            requires
                n2 == (inner@.len() / 16 + 1) * 16,
                inner@.len() <= 2000000040,
        ;
        let params = base64_encode(second.as_slice());
        let block = key_block_bytes(&key);
        proof {
            reveal_strlit("-----BEGIN PUBLIC KEY-----\nMIGfMA0GCSqGSIb3DQEBAQUAA4GNADCBiQKBgQDgtQn2JZ34ZC28NWYpAUd98iZ37BUrX/aKzmFbt7clFSs6sXqHauqKWqdtLkF2KexO40H1YTX8z2lSgBBOAxLsvaklV8k4cBFK9snQXE9/DDaFt6Rr7iVZMldczhC0JNgTz+SHXT6CBHuX3e9SdB1Ua44oncaTWz7OBGLbCiK45wIDAQAB\n-----END PUBLIC KEY-----\n");
            is_ascii_chars_encode_utf8(PUBLIC_KEY_PEM@);
        }
        let sealed = rsa_encrypt_raw(PUBLIC_KEY_PEM.as_bytes(), block.as_slice())?;
        let enc_sec_key = hex_encode(sealed.as_slice());
        proof {
            lemma_hex_lower_len(sealed@);
        }
        Ok(WeapiEncoder { params, enc_sec_key })
    }

    /// Builds the envelope of `input` with a fresh symmetric key drawn from
    /// the operating system's random source.
    pub fn try_from_str(input: &str) -> (r: Result<WeapiEncoder, ParseErr>)
        requires
            input.spec_bytes().len() <= MAX_PAYLOAD_LEN,
        ensures
            r matches Ok(w) ==> (exists|raw: Seq<u8>| raw.len() == 16 && #[trigger] w.seals(input.spec_bytes(), raw))
                && w.params@.len() > 0 && w.enc_sec_key@.len() == 256,
    {
        let raw = match random_key_bytes() {
            Ok(raw) => raw,
            Err(e) => return Err(ParseErr::GenRandomNumber(e)),
        };
        let r = WeapiEncoder::try_from_key_bytes(input, raw);
        assert(r matches Ok(w) ==> w.seals(input.spec_bytes(), raw@));
        r
    }
}

} // verus!
