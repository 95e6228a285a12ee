use sign_ur_code::crypto::{
    decrypt_private_key, decrypt_private_key_checked, encrypt_private_key, encrypt_private_key_with,
    generate_keypair, sign_data, verify_signature, CryptoErrorKind, ARGON2_ITERATIONS, ARGON2_LANES,
    ARGON2_MEMORY_KIB,
};
use sign_ur_code::keys::{Signature, SigningKey, VerifyingKey};
use sign_ur_code::keystore::{Argon2Params, EncryptedKeyFile};

use argon2::PasswordHasher;
use base64::Engine;
use chacha20poly1305::aead::{Aead, KeyInit};

fn unhex(s: &str) -> Vec<u8> {
    hex::decode(s).unwrap()
}

fn arr32(v: &[u8]) -> [u8; 32] {
    v.try_into().unwrap()
}

fn arr64(v: &[u8]) -> [u8; 64] {
    v.try_into().unwrap()
}

// RFC 8032, section 7.1, test 1 (empty message) and test 2 (one byte 0x72).
const RFC_SECRET: &str = "9d61b19deffd5a60ba844af492ec2cc44449c5697b326919703bac031cae7f60";
const RFC_PUBLIC: &str = "d75a980182b10ab7d54bfed3c964073a0ee172f3daa62325af021a68f707511a";
const RFC_SIG_EMPTY: &str = "e5564300c360ac729086e2cc806e828a84877f1eb8e5d974d873e065224901555fb8821590a33bacc61e39701cf9b46bd25bf5f0595bbe24655141438e7a100b";
const RFC2_SECRET: &str = "4ccd089b28ff96da9db6c346ec114e0f5b8a319f35aba624da8cf6ed4fb8a6fb";
const RFC2_PUBLIC: &str = "3d4017c3e843895a92b70aa74d1b7ebc9c982ccf2ec4968cc0cd55f12af4660c";
const RFC2_SIG: &str = "92a009a9f0d4cab8720e820b5f642540a2b27b5416503f8fb3762223ebdb69da085ac1e43e15996e458f3613d0f11d8c387b2eaeb4302aeeb00d291612bb0c00";

/// Key material with small Argon2 costs, so that a test hashes quickly.
fn small_file(password: &str, salt: &str, nonce: [u8; 24], secret: &[u8]) -> EncryptedKeyFile {
    let params = argon2::Params::new(64, 1, 1, None).unwrap();
    let hasher = argon2::Argon2::new(argon2::Algorithm::Argon2id, argon2::Version::V0x13, params);
    let salt_string = argon2::password_hash::SaltString::from_b64(salt).unwrap();
    let hash = hasher.hash_password(password.as_bytes(), &salt_string).unwrap();
    let kek = hash.hash.unwrap();
    let cipher = chacha20poly1305::XChaCha20Poly1305::new(chacha20poly1305::Key::from_slice(kek.as_bytes()));
    let sealed = cipher.encrypt(chacha20poly1305::XNonce::from_slice(&nonce), secret).unwrap();
    let b64 = base64::engine::general_purpose::STANDARD;
    EncryptedKeyFile {
        kdf_params: Argon2Params {
            salt: salt.to_string(),
            iterations: 1,
            memory: 64,
            parallelism: 1,
        },
        nonce: b64.encode(nonce),
        ciphertext: b64.encode(sealed),
    }
}

#[test]
fn test_keygen_sign_verify() {
    let key = generate_keypair();
    let data = b"Hello, world!";
    let sig = sign_data(&key, data);
    assert!(verify_signature(&key.verifying_key(), data, &sig).is_ok());
}

#[test]
fn test_encrypt_decrypt() {
    let key = generate_keypair();
    let password = "strong_password";
    let encrypted = encrypt_private_key(&key, password).expect("Encryption failed");
    let decrypted = decrypt_private_key(&encrypted, password).expect("Decryption failed");
    assert_eq!(key.to_bytes(), decrypted.to_bytes());
}

#[test]
fn test_bad_password() {
    let key = generate_keypair();
    let password = "correct";
    let encrypted = encrypt_private_key(&key, password).unwrap();
    let result = decrypt_private_key(&encrypted, "wrong");
    assert!(result.is_err());
}

#[test]
fn rfc8032_public_key_and_signature() {
    let key = SigningKey::from_bytes(&arr32(&unhex(RFC_SECRET)));
    assert_eq!(key.verifying_key().to_bytes().to_vec(), unhex(RFC_PUBLIC));
    let sig = sign_data(&key, b"");
    assert_eq!(sig.to_bytes().to_vec(), unhex(RFC_SIG_EMPTY));

    let key2 = SigningKey::from_bytes(&arr32(&unhex(RFC2_SECRET)));
    assert_eq!(key2.verifying_key().to_bytes().to_vec(), unhex(RFC2_PUBLIC));
    let sig2 = sign_data(&key2, &[0x72]);
    assert_eq!(sig2.to_bytes().to_vec(), unhex(RFC2_SIG));
}

const EQUATION: &str = "Verification failed: signature error: Verification equation was not satisfied";

#[test]
fn rfc8032_verification() {
    let public = VerifyingKey::from_bytes(&arr32(&unhex(RFC2_PUBLIC))).unwrap();
    let sig = Signature::from_bytes(&arr64(&unhex(RFC2_SIG)));
    assert!(verify_signature(&public, &[0x72], &sig).is_ok());
    let e = verify_signature(&public, &[0x73], &sig).unwrap_err();
    assert_eq!(e.kind(), CryptoErrorKind::VerificationFailed);
    assert_eq!(e.message(), EQUATION);
    let mut tampered = sig.to_bytes();
    tampered[0] ^= 1;
    let e = verify_signature(&public, &[0x72], &Signature::from_bytes(&tampered)).unwrap_err();
    assert_eq!(e.message(), EQUATION);
    // The signature is made by another key.
    let other = VerifyingKey::from_bytes(&arr32(&unhex(RFC_PUBLIC))).unwrap();
    assert_eq!(verify_signature(&other, &[0x72], &sig).unwrap_err().message(), EQUATION);
}

#[test]
fn verification_rejects_non_canonical_scalar_first() {
    let public = VerifyingKey::from_bytes(&arr32(&unhex(RFC2_PUBLIC))).unwrap();
    let mut bytes = arr64(&unhex(RFC2_SIG));
    bytes[63] = 0xff;
    let e = verify_signature(&public, &[0x72], &Signature::from_bytes(&bytes)).unwrap_err();
    assert_eq!(e.kind(), CryptoErrorKind::VerificationFailed);
    assert_eq!(
        e.message(),
        "Verification failed: signature error: Cannot use scalar with high-bit set"
    );
}

#[test]
fn signing_is_deterministic_and_verifies() {
    let key = SigningKey::from_bytes(&[7u8; 32]);
    let a = sign_data(&key, b"release.zip contents");
    let b = sign_data(&key, b"release.zip contents");
    assert_eq!(a.to_bytes(), b.to_bytes());
    assert!(verify_signature(&key.verifying_key(), b"release.zip contents", &a).is_ok());
    assert!(verify_signature(&key.verifying_key(), b"release.zip content", &a).is_err());
}

#[test]
fn key_bytes_roundtrip() {
    let key = SigningKey::from_bytes(&[42u8; 32]);
    assert_eq!(key.to_bytes(), [42u8; 32]);
    let sig = Signature::from_bytes(&[9u8; 64]);
    assert_eq!(sig.to_bytes(), [9u8; 64]);
}

#[test]
fn sealing_with_fixed_salt_and_nonce() {
    let key = SigningKey::from_bytes(&arr32(&unhex(RFC_SECRET)));
    let nonce = [5u8; 24];
    let salt = "c2FsdHNhbHRzYWx0c2FsdA";
    let file = encrypt_private_key_with(&key, "hunter2hunter2", salt, &nonce).unwrap();
    assert_eq!(file.kdf_params.salt, salt);
    assert_eq!(file.kdf_params.memory, ARGON2_MEMORY_KIB);
    assert_eq!(file.kdf_params.iterations, ARGON2_ITERATIONS);
    assert_eq!(file.kdf_params.parallelism, ARGON2_LANES);
    assert_eq!((ARGON2_MEMORY_KIB, ARGON2_ITERATIONS, ARGON2_LANES), (65536, 3, 4));
    assert_eq!(file.nonce, "BQUFBQUFBQUFBQUFBQUFBQUFBQUFBQUF");
    let sealed = base64::engine::general_purpose::STANDARD.decode(&file.ciphertext).unwrap();
    assert_eq!(sealed.len(), 48);
    assert_ne!(sealed[..32].to_vec(), unhex(RFC_SECRET));

    // Same inputs, same file.
    let again = encrypt_private_key_with(&key, "hunter2hunter2", salt, &nonce).unwrap();
    assert_eq!(again.ciphertext, file.ciphertext);

    let opened = decrypt_private_key(&file, "hunter2hunter2").unwrap();
    assert_eq!(opened.to_bytes().to_vec(), unhex(RFC_SECRET));
    assert_eq!(
        decrypt_private_key(&file, "hunter2hunter3").err().map(|e| e.kind()),
        Some(CryptoErrorKind::DecryptionFailed)
    );
}

#[test]
fn fresh_files_differ_in_salt_and_nonce() {
    let key = SigningKey::from_bytes(&[1u8; 32]);
    let a = encrypt_private_key(&key, "passphrase").unwrap();
    let b = encrypt_private_key(&key, "passphrase").unwrap();
    assert_ne!(a.kdf_params.salt, b.kdf_params.salt);
    assert_ne!(a.nonce, b.nonce);
    assert_eq!(a.kdf_params.salt.len(), 22);
}

#[test]
fn small_cost_file_opens() {
    let file = small_file("pw", "c2FsdHNhbHRzYWx0c2FsdA", [3u8; 24], &[11u8; 32]);
    let key = decrypt_private_key(&file, "pw").unwrap();
    assert_eq!(key.to_bytes(), [11u8; 32]);
    assert_eq!(
        decrypt_private_key(&file, "pW").err().map(|e| e.kind()),
        Some(CryptoErrorKind::DecryptionFailed)
    );
}

#[test]
fn decrypt_rejects_invalid_salt() {
    let mut file = small_file("pw", "c2FsdHNhbHRzYWx0c2FsdA", [3u8; 24], &[11u8; 32]);
    file.kdf_params.salt = "bad salt!".to_string();
    assert_eq!(decrypt_private_key(&file, "pw").err().map(|e| e.kind()), Some(CryptoErrorKind::InvalidSalt));
    file.kdf_params.salt = "abc".to_string();
    assert_eq!(decrypt_private_key(&file, "pw").err().map(|e| e.kind()), Some(CryptoErrorKind::InvalidSalt));
}

#[test]
fn decrypt_rejects_invalid_params() {
    let mut file = small_file("pw", "c2FsdHNhbHRzYWx0c2FsdA", [3u8; 24], &[11u8; 32]);
    file.kdf_params.memory = 4;
    assert_eq!(decrypt_private_key(&file, "pw").err().map(|e| e.kind()), Some(CryptoErrorKind::InvalidParams));
    file.kdf_params.memory = 64;
    file.kdf_params.iterations = 0;
    assert_eq!(decrypt_private_key(&file, "pw").err().map(|e| e.kind()), Some(CryptoErrorKind::InvalidParams));
    file.kdf_params.iterations = 1;
    file.kdf_params.parallelism = 0;
    assert_eq!(decrypt_private_key(&file, "pw").err().map(|e| e.kind()), Some(CryptoErrorKind::InvalidParams));
    file.kdf_params.parallelism = 16;
    assert_eq!(decrypt_private_key(&file, "pw").err().map(|e| e.kind()), Some(CryptoErrorKind::InvalidParams));
}

#[test]
fn decrypt_rejects_short_salt_for_hashing() {
    // A valid salt string that decodes to fewer than 8 bytes.
    let mut file = small_file("pw", "c2FsdHNhbHRzYWx0c2FsdA", [3u8; 24], &[11u8; 32]);
    file.kdf_params.salt = "AAAAAA".to_string();
    assert_eq!(decrypt_private_key(&file, "pw").err().map(|e| e.kind()), Some(CryptoErrorKind::HashingFailed));
}

#[test]
fn decrypt_rejects_bad_encodings() {
    let mut file = small_file("pw", "c2FsdHNhbHRzYWx0c2FsdA", [3u8; 24], &[11u8; 32]);
    let good_nonce = file.nonce.clone();
    file.nonce = "not base64!".to_string();
    assert_eq!(decrypt_private_key(&file, "pw").err().map(|e| e.kind()), Some(CryptoErrorKind::NonceEncoding));
    file.nonce = good_nonce;
    file.ciphertext = "%%%".to_string();
    assert_eq!(decrypt_private_key(&file, "pw").err().map(|e| e.kind()), Some(CryptoErrorKind::CiphertextEncoding));
}

#[test]
fn decrypt_rejects_wrong_secret_length() {
    let file = small_file("pw", "c2FsdHNhbHRzYWx0c2FsdA", [3u8; 24], &[11u8; 31]);
    assert_eq!(decrypt_private_key(&file, "pw").err().map(|e| e.kind()), Some(CryptoErrorKind::InvalidKeyLength));
}

#[test]
fn checked_decrypt_has_no_result_for_short_nonce() {
    let mut file = small_file("pw", "c2FsdHNhbHRzYWx0c2FsdA", [3u8; 24], &[11u8; 32]);
    file.nonce = base64::engine::general_purpose::STANDARD.encode([1u8; 12]);
    assert!(decrypt_private_key_checked(&file, "pw").is_none());
    // An earlier failure is still reported.
    file.kdf_params.salt = "bad salt!".to_string();
    assert_eq!(
        decrypt_private_key_checked(&file, "pw").map(|r| r.err().map(|e| e.kind())),
        Some(Some(CryptoErrorKind::InvalidSalt))
    );
}

#[test]
fn overflowing_lanes_are_refused_as_parameters() {
    let mut file = small_file("pw", "c2FsdHNhbHRzYWx0c2FsdA", [3u8; 24], &[11u8; 32]);
    // 8 * 0x2000_0000 wraps to 0: the lane count is then too large.
    file.kdf_params.parallelism = 0x2000_0000;
    let e = decrypt_private_key(&file, "pw").err().unwrap();
    assert_eq!(e.kind(), CryptoErrorKind::InvalidParams);
    assert_eq!(e.message(), "Argon2 params error: too many threads");
    // 8 * 0x2000_0010 wraps to 128, more than the memory cost of 64.
    file.kdf_params.parallelism = 0x2000_0010;
    assert_eq!(
        decrypt_private_key_checked(&file, "pw").unwrap().err().unwrap().message(),
        "Argon2 params error: memory cost is too small"
    );
    file.kdf_params.parallelism = 0x2000_0000;
    file.kdf_params.iterations = 0;
    assert_eq!(
        decrypt_private_key(&file, "pw").err().unwrap().message(),
        "Argon2 params error: time cost is too small"
    );
    file.kdf_params.iterations = 1;
    file.kdf_params.parallelism = 0x1FFF_FFFF;
    assert_eq!(
        decrypt_private_key_checked(&file, "pw").map(|r| r.err().map(|e| e.kind())),
        Some(Some(CryptoErrorKind::InvalidParams))
    );
}

#[test]
fn signing_keys_can_be_wiped() {
    let mut key = SigningKey::from_bytes(&[9u8; 32]);
    key.wipe();
    assert_eq!(key.to_bytes(), [0u8; 32]);
}

#[test]
fn checked_decrypt_agrees_on_good_files() {
    let file = small_file("pw", "c2FsdHNhbHRzYWx0c2FsdA", [3u8; 24], &[11u8; 32]);
    let key = decrypt_private_key_checked(&file, "pw").unwrap().unwrap();
    assert_eq!(key.to_bytes(), [11u8; 32]);
}

#[test]
fn error_messages() {
    let mut file = small_file("pw", "c2FsdHNhbHRzYWx0c2FsdA", [3u8; 24], &[11u8; 32]);
    assert_eq!(
        decrypt_private_key(&file, "pW").err().unwrap().message(),
        "Invalid password or corrupted key"
    );
    let good = file.kdf_params.salt.clone();
    file.kdf_params.salt = "abc".to_string();
    assert_eq!(
        decrypt_private_key(&file, "pw").err().unwrap().message(),
        "Invalid salt: salt invalid: value to short"
    );
    file.kdf_params.salt = "bad salt!".to_string();
    assert_eq!(
        decrypt_private_key(&file, "pw").err().unwrap().message(),
        "Invalid salt: salt invalid: contains invalid character: ' '"
    );
    file.kdf_params.salt = good;
    file.kdf_params.memory = 4;
    assert_eq!(
        decrypt_private_key(&file, "pw").err().unwrap().message(),
        "Argon2 params error: memory cost is too small"
    );
    file.kdf_params.memory = 64;
    file.kdf_params.iterations = 0;
    assert_eq!(
        decrypt_private_key(&file, "pw").err().unwrap().message(),
        "Argon2 params error: time cost is too small"
    );
    file.kdf_params.iterations = 1;
    file.kdf_params.salt = "AAAAAA".to_string();
    assert_eq!(
        decrypt_private_key(&file, "pw").err().unwrap().message(),
        "Argon2 error: salt invalid: value to short"
    );
    let mut file = small_file("pw", "c2FsdHNhbHRzYWx0c2FsdA", [3u8; 24], &[11u8; 32]);
    file.nonce = "ab$d".to_string();
    assert_eq!(
        decrypt_private_key(&file, "pw").err().unwrap().message(),
        "Invalid symbol 36, offset 2."
    );
    let file = small_file("pw", "c2FsdHNhbHRzYWx0c2FsdA", [3u8; 24], &[11u8; 31]);
    assert_eq!(decrypt_private_key(&file, "pw").err().unwrap().message(), "Invalid key length");
}

#[test]
fn sealed_file_does_not_hold_the_key() {
    let key = SigningKey::from_bytes(&[0x5a; 32]);
    let file = encrypt_private_key(&key, "passphrase").unwrap();
    let b64 = base64::engine::general_purpose::STANDARD;
    assert_eq!(file.nonce.len(), 32);
    assert_eq!(file.ciphertext.len(), 64);
    assert_ne!(file.ciphertext, b64.encode([0x5a; 32]));
    assert_eq!(b64.decode(&file.ciphertext).unwrap().len(), 48);
    assert_eq!(b64.decode(&file.nonce).unwrap().len(), 24);
}
