//! The calls into the cryptographic and encoding crates, each with the
//! contract that the rest of the library is proved against.
use vstd::prelude::*;
use argon2::PasswordHasher;
use base64::Engine;
use chacha20poly1305::aead::{Aead, AeadCore, KeyInit};
use ed25519_dalek::{Signer, Verifier};
use zeroize::Zeroize;
use crate::text::{hex_decoding, hex_encoding, trimmed};
use vstd::utf8::encode_utf8;

verus! {

/// A byte buffer seen through its contents, if there is one.
pub open spec fn bytes_view(v: Option<Vec<u8>>) -> Option<Seq<u8>> {
    match v {
        Some(b) => Some(b@),
        None => None,
    }
}

// ------------------------------------------------------------------ Ed25519

/// The 32-byte compressed public key that Ed25519 derives from a secret.
pub uninterp spec fn ed25519_public_of(secret: Seq<u8>) -> Seq<u8>;

/// Whether 32 bytes decompress to a point of the curve (a usable public key).
pub uninterp spec fn ed25519_point_decodes(public: Seq<u8>) -> bool;

/// The (deterministic) Ed25519 signature of a message under a secret.
pub uninterp spec fn ed25519_signature_of(secret: Seq<u8>, message: Seq<u8>) -> Seq<u8>;

/// Whether Ed25519 verification accepts a signature of a message under a public key.
pub uninterp spec fn ed25519_accepts(public: Seq<u8>, message: Seq<u8>, signature: Seq<u8>) -> bool;

/// `ed25519_dalek::SigningKey::generate` on the operating system's generator,
/// handed out as its 32 secret bytes. Which bytes come back is chance; claims
/// only what holds of every secret: the key it makes holds a public key that
/// is a point of the curve (`SigningKey::from_bytes` derives it).
#[verifier::external_body]
pub(crate) fn ed25519_random_secret() -> (secret: [u8; 32])
    ensures
        ed25519_point_decodes(ed25519_public_of(secret@)),
{
    ed25519_dalek::SigningKey::generate(&mut rand::rngs::OsRng).to_bytes()
}

/// `ed25519_dalek::SigningKey::verifying_key`, as bytes: claims that the result
/// is the public key named by `ed25519_public_of`, and that it is a valid point
/// (it is the compression of a point that the key holds).
#[verifier::external_body]
pub(crate) fn ed25519_public_key(secret: &[u8; 32]) -> (public: [u8; 32])
    ensures
        public@ == ed25519_public_of(secret@),
        ed25519_point_decodes(public@),
{
    ed25519_dalek::SigningKey::from_bytes(secret).verifying_key().to_bytes()
}

/// `ed25519_dalek::VerifyingKey::from_bytes`: claims that it succeeds exactly on
/// the bytes named by `ed25519_point_decodes`.
#[verifier::external_body]
pub(crate) fn ed25519_point_check(public: &[u8; 32]) -> (ok: bool)
    ensures
        ok == ed25519_point_decodes(public@),
{
    ed25519_dalek::VerifyingKey::from_bytes(public).is_ok()
}

/// `ed25519_dalek::Signer::sign` on a signing key: claims that the signature is
/// the one named by `ed25519_signature_of`, and that verification under the
/// key's own public key accepts it (the correctness of Ed25519 signing).
#[verifier::external_body]
pub(crate) fn ed25519_sign(secret: &[u8; 32], message: &[u8]) -> (signature: [u8; 64])
    ensures
        signature@ == ed25519_signature_of(secret@, message@),
        ed25519_accepts(ed25519_public_of(secret@), message@, signature@),
{
    ed25519_dalek::SigningKey::from_bytes(secret).sign(message).to_bytes()
}

/// The value of bytes read as a little-endian integer.
pub open spec fn le_value(bytes: Seq<u8>) -> int
    decreases bytes.len(),
{
    if bytes.len() == 0 {
        0
    } else {
        bytes[0] as int + 256 * le_value(bytes.drop_first())
    }
}

/// The order of the Ed25519 base point, 2^252 + 27742317777372353535851937790883648493.
pub open spec fn ed25519_group_order() -> int {
    7237005577332262213973186563042994240857116359379907606001950938285454250989int
}

/// The text of the error with which Ed25519 verification rejects a signature:
/// a scalar half that is not below the group order is refused before the
/// verification equation is checked.
pub open spec fn ed25519_rejection_text(signature: Seq<u8>) -> Seq<char> {
    if le_value(signature.subrange(32, 64)) >= ed25519_group_order() {
        "signature error: Cannot use scalar with high-bit set"@
    } else {
        "signature error: Verification equation was not satisfied"@
    }
}

/// `ed25519_dalek::Verifier::verify` on a verifying key: claims that it succeeds
/// exactly when `ed25519_accepts` holds, and that the error's text is the one
/// of `ed25519_rejection_text` (`SignatureError` shows "signature error: "
/// and its source).
#[verifier::external_body]
pub(crate) fn ed25519_verify(public: &[u8; 32], message: &[u8], signature: &[u8; 64]) -> (r: Result<(), String>)
    requires
        ed25519_point_decodes(public@),
    ensures
        r is Ok == ed25519_accepts(public@, message@, signature@),
        r matches Err(text) ==> text@ == ed25519_rejection_text(signature@),
{
    match ed25519_dalek::VerifyingKey::from_bytes(public) {
        Ok(key) => key
            .verify(message, &ed25519_dalek::Signature::from_bytes(signature))
            .map_err(|e| e.to_string()),
        Err(e) => Err(e.to_string()),
    }
}

// ------------------------------------------------------------------ Argon2id

/// The memory cost at which `argon2::Params::new` can compute `8 * p_cost`
/// without overflowing `u32`.
pub open spec fn argon2_params_overflow(m_cost: u32, p_cost: u32) -> bool {
    m_cost >= 8 && p_cost * 8 > u32::MAX
}

/// The costs that `argon2::Params::new` accepts (no output length given).
pub open spec fn argon2_params_acceptable(m_cost: u32, t_cost: u32, p_cost: u32) -> bool {
    &&& m_cost >= 8
    &&& m_cost >= p_cost * 8
    &&& t_cost >= 1
    &&& 1 <= p_cost <= 0xFF_FFFF
}

/// The text of the `argon2::Error` with which `argon2::Params::new` refuses costs,
/// checked in this order.
pub open spec fn argon2_params_rejection_text(m_cost: u32, t_cost: u32, p_cost: u32) -> Seq<char> {
    if m_cost < 8 || m_cost < p_cost * 8 {
        "memory cost is too small"@
    } else if t_cost < 1 {
        "time cost is too small"@
    } else if p_cost < 1 {
        "not enough threads"@
    } else {
        "too many threads"@
    }
}

/// `argon2::Params::new(m, t, p, None)`: claims that it succeeds exactly on the
/// costs of `argon2_params_acceptable`, with the error text of
/// `argon2_params_rejection_text` otherwise. It multiplies `p_cost` by 8 in
/// `u32`, which overflows (a panic where overflow checks are on) on the inputs
/// that `requires` leaves out.
#[verifier::external_body]
pub(crate) fn argon2_params_check(m_cost: u32, t_cost: u32, p_cost: u32) -> (r: Result<(), String>)
    requires
        !argon2_params_overflow(m_cost, p_cost),
    ensures
        r is Ok == argon2_params_acceptable(m_cost, t_cost, p_cost),
        r matches Err(text) ==> text@ == argon2_params_rejection_text(m_cost, t_cost, p_cost),
{
    argon2::Params::new(m_cost, t_cost, p_cost, None).map(|_| ()).map_err(|e| e.to_string())
}

/// A character of the PHC salt alphabet `[a-zA-Z0-9/+.-]`.
pub open spec fn is_salt_char(c: char) -> bool {
    ||| ('a' <= c && c <= 'z')
    ||| ('A' <= c && c <= 'Z')
    ||| ('0' <= c && c <= '9')
    ||| c == '/' || c == '+' || c == '.' || c == '-'
}

/// A salt string that `SaltString::from_b64` accepts: 4 to 64 characters, all
/// of the salt alphabet.
pub open spec fn is_salt_string(s: Seq<char>) -> bool {
    &&& 4 <= s.len() <= 64
    &&& forall|i: int| 0 <= i < s.len() ==> is_salt_char(#[trigger] s[i])
}

/// The first character of a text that is not of the salt alphabet.
pub open spec fn first_non_salt_char(s: Seq<char>) -> char
    decreases s.len(),
{
    if s.len() == 0 {
        ' '
    } else if !is_salt_char(s[0]) {
        s[0]
    } else {
        first_non_salt_char(s.drop_first())
    }
}

/// The text of the `password_hash::Error` with which `SaltString::from_b64`
/// refuses a salt: its length in UTF-8 bytes is checked first, then its
/// characters.
pub open spec fn salt_rejection_text(s: Seq<char>) -> Seq<char> {
    if encode_utf8(s).len() < 4 {
        "salt invalid: value to short"@
    } else if encode_utf8(s).len() > 64 {
        "salt invalid: value to long"@
    } else {
        "salt invalid: contains invalid character: '"@ + seq![first_non_salt_char(s)] + "'"@
    }
}

/// `argon2::password_hash::SaltString::from_b64`: claims that it succeeds
/// exactly on the strings of `is_salt_string`, with the error text of
/// `salt_rejection_text` otherwise.
#[verifier::external_body]
pub(crate) fn salt_check(salt: &str) -> (r: Result<(), String>)
    ensures
        r is Ok == is_salt_string(salt@),
        r matches Err(text) ==> text@ == salt_rejection_text(salt@),
{
    argon2::password_hash::SaltString::from_b64(salt).map(|_| ()).map_err(|e| e.to_string())
}

/// `argon2::password_hash::SaltString::generate` on the operating system's
/// generator: claims only that the salt is a valid salt string of 22
/// characters (it is the unpadded B64 encoding of 16 random bytes).
#[verifier::external_body]
pub(crate) fn random_salt() -> (salt: String)
    ensures
        is_salt_string(salt@),
        salt@.len() == 22,
{
    argon2::password_hash::SaltString::generate(&mut rand::rngs::OsRng).as_str().to_string()
}

/// What hashing a password with Argon2id (version 0x13) gives: the text of the
/// error where `hash_password` fails, else the hash output that the resulting
/// `PasswordHash` carries, if any.
pub uninterp spec fn argon2id_hash_of(
    password: Seq<char>,
    salt: Seq<char>,
    m_cost: u32,
    t_cost: u32,
    p_cost: u32,
) -> Result<Option<Seq<u8>>, Seq<char>>;

/// The hash output seen through its bytes, the error through its text.
pub open spec fn hash_view(h: Result<Option<Vec<u8>>, String>) -> Result<Option<Seq<u8>>, Seq<char>> {
    match h {
        Ok(o) => Ok(bytes_view(o)),
        Err(t) => Err(t@),
    }
}

/// `argon2::Argon2::hash_password` (Argon2id, version 0x13, the given costs and
/// the default output length) on the UTF-8 bytes of the password and a salt
/// string: claims that the result is the one named by `argon2id_hash_of`, and
/// that a hash, when there is one, always carries an output of the default
/// 32 bytes (`hash_password` sets `hash: Some(output)`, no output length being
/// given). The
/// memory cost is allocated in KiB blocks; where the machine cannot give that
/// much memory the process aborts, which no clause here states.
#[verifier::external_body]
pub(crate) fn argon2id_hash(password: &str, salt: &str, m_cost: u32, t_cost: u32, p_cost: u32) -> (hash: Result<Option<Vec<u8>>, String>)
    requires
        argon2_params_acceptable(m_cost, t_cost, p_cost),
        is_salt_string(salt@),
    ensures
        hash_view(hash) == argon2id_hash_of(password@, salt@, m_cost, t_cost, p_cost),
        hash matches Ok(output) ==> (output matches Some(k) && k@.len() == 32),
{
    let params = argon2::Params::new(m_cost, t_cost, p_cost, None).map_err(|e| e.to_string())?;
    let salt = argon2::password_hash::SaltString::from_b64(salt).map_err(|e| e.to_string())?;
    let hasher = argon2::Argon2::new(argon2::Algorithm::Argon2id, argon2::Version::V0x13, params);
    match hasher.hash_password(password.as_bytes(), &salt) {
        Ok(h) => Ok(h.hash.map(|out| out.as_bytes().to_vec())),
        Err(e) => Err(e.to_string()),
    }
}

// ------------------------------------------------------------------ XChaCha20-Poly1305

/// What XChaCha20-Poly1305 sealing gives (`None` where `encrypt` fails).
pub uninterp spec fn xchacha_seal(key: Seq<u8>, nonce: Seq<u8>, plaintext: Seq<u8>) -> Option<Seq<u8>>;

/// What XChaCha20-Poly1305 opening gives (`None` where authentication fails).
pub uninterp spec fn xchacha_open(key: Seq<u8>, nonce: Seq<u8>, ciphertext: Seq<u8>) -> Option<Seq<u8>>;

/// `chacha20poly1305::XChaCha20Poly1305::generate_nonce` on the operating
/// system's generator. Any 24 bytes may come back.
#[verifier::external_body]
pub(crate) fn random_xnonce() -> (nonce: [u8; 24]) {
    chacha20poly1305::XChaCha20Poly1305::generate_nonce(&mut rand::rngs::OsRng).into()
}

/// `Aead::encrypt` of `XChaCha20Poly1305` with no associated data: claims that
/// the result is the one named by `xchacha_seal`; that what it seals is the
/// plaintext's length plus the 16-byte tag; that opening it under the same key
/// and nonce gives the plaintext back; and that the error's text is
/// `aead::Error`'s, "aead::Error".
#[verifier::external_body]
pub(crate) fn xchacha_encrypt(key: &[u8; 32], nonce: &[u8; 24], plaintext: &[u8]) -> (sealed: Result<Vec<u8>, String>)
    ensures
        sealed matches Ok(c) ==> xchacha_seal(key@, nonce@, plaintext@) == Some(c@),
        sealed matches Ok(c) ==> c@.len() == plaintext@.len() + 16,
        sealed matches Ok(c) ==> xchacha_open(key@, nonce@, c@) == Some(plaintext@),
        sealed is Err ==> xchacha_seal(key@, nonce@, plaintext@) is None,
        sealed matches Err(text) ==> text@ == "aead::Error"@,
{
    let cipher = chacha20poly1305::XChaCha20Poly1305::new(chacha20poly1305::Key::from_slice(key));
    cipher.encrypt(chacha20poly1305::XNonce::from_slice(nonce), plaintext).map_err(|e| e.to_string())
}

/// `Aead::decrypt` of `XChaCha20Poly1305` with no associated data: claims that
/// the result is the one named by `xchacha_open`.
#[verifier::external_body]
pub(crate) fn xchacha_decrypt(key: &[u8; 32], nonce: &[u8; 24], sealed: &[u8]) -> (opened: Option<Vec<u8>>)
    ensures
        bytes_view(opened) == xchacha_open(key@, nonce@, sealed@),
{
    let cipher = chacha20poly1305::XChaCha20Poly1305::new(chacha20poly1305::Key::from_slice(key));
    cipher.decrypt(chacha20poly1305::XNonce::from_slice(nonce), sealed).ok()
}

// ------------------------------------------------------------------ Base64

/// The standard (padded) Base64 encoding of some bytes.
pub uninterp spec fn base64_encoding_of(bytes: Seq<u8>) -> Seq<char>;

/// The standard (padded, canonical) Base64 decoding of a text, or the text of
/// the `DecodeError` where it is none.
pub uninterp spec fn base64_decoding_of(text: Seq<char>) -> Result<Seq<u8>, Seq<char>>;

/// A decoding that succeeds with the given bytes.
pub open spec fn decodes_to(decoding: Result<Seq<u8>, Seq<char>>, bytes: Seq<u8>) -> bool {
    decoding matches Ok(d) && d == bytes
}

/// `base64::engine::general_purpose::STANDARD.encode`: claims that the result is
/// the one named by `base64_encoding_of`, that it has 4 characters for each
/// started group of 3 bytes, and that decoding it gives the bytes back.
#[verifier::external_body]
pub(crate) fn base64_encode(bytes: &[u8]) -> (text: String)
    ensures
        text@ == base64_encoding_of(bytes@),
        text@.len() == 4 * ((bytes@.len() + 2) / 3),
        decodes_to(base64_decoding_of(text@), bytes@),
{
    base64::engine::general_purpose::STANDARD.encode(bytes)
}

/// `base64::engine::general_purpose::STANDARD.decode`: claims that the result,
/// or the error's text, is the one named by `base64_decoding_of`.
#[verifier::external_body]
pub(crate) fn base64_decode(text: &str) -> (bytes: Result<Vec<u8>, String>)
    ensures
        bytes matches Ok(b) ==> (base64_decoding_of(text@) matches Ok(d) && d == b@),
        bytes matches Err(t) ==> (base64_decoding_of(text@) matches Err(d) && d == t@),
{
    base64::engine::general_purpose::STANDARD.decode(text).map_err(|e| e.to_string())
}

// ------------------------------------------------------------------ Hex and whitespace

/// `hex::encode`: claims the lowercase hex of `hex_encoding`.
#[verifier::external_body]
pub(crate) fn hex_encode(bytes: &[u8]) -> (text: String)
    ensures
        text@ == hex_encoding(bytes@),
{
    hex::encode(bytes)
}

/// `hex::decode`: claims the decoding of `hex_decoding` (an odd number of
/// digits, or any character that is not a hex digit, fails).
#[verifier::external_body]
pub(crate) fn hex_decode(text: &str) -> (bytes: Option<Vec<u8>>)
    ensures
        bytes_view(bytes) == hex_decoding(text@),
{
    hex::decode(text).ok()
}

/// `str::trim`: claims the text of `trimmed`, without leading and trailing
/// Unicode whitespace.
#[verifier::external_body]
pub(crate) fn trim(text: &str) -> (inner: &str)
    ensures
        inner@ == trimmed(text@),
{
    text.trim()
}

// ------------------------------------------------------------------ Zeroize

/// `zeroize::Zeroize::zeroize` on a 32-byte array: claims that every byte is 0
/// afterwards.
#[verifier::external_body]
pub(crate) fn wipe_key(buffer: &mut [u8; 32])
    ensures
        final(buffer)@ == Seq::new(32, |i: int| 0u8),
{
    buffer.zeroize();
}

} // verus!
