use sign_ur_code::commands::{
    assess_new_passphrase, parse_public_key_hex, parse_signature_hex, signature_path, KeyTextError,
    PassphraseCheck,
};
use sign_ur_code::crypto::{sign_data, verify_signature};
use sign_ur_code::keys::{Signature, SigningKey, VerifyingKey};

const RFC_PUBLIC: &str = "d75a980182b10ab7d54bfed3c964073a0ee172f3daa62325af021a68f707511a";

#[test]
fn passphrase_policy() {
    let s = |x: &str| x.to_string();
    assert_eq!(assess_new_passphrase(&s("abcdefgh"), &s("abcdefgh")), PassphraseCheck::Acceptable);
    assert_eq!(assess_new_passphrase(&s("abcdefgh"), &s("abcdefgi")), PassphraseCheck::Mismatch);
    assert_eq!(assess_new_passphrase(&s("abcdefg"), &s("abcdefg")), PassphraseCheck::TooShort);
    assert_eq!(assess_new_passphrase(&s(""), &s("")), PassphraseCheck::TooShort);
    assert_eq!(assess_new_passphrase(&s("short"), &s("other")), PassphraseCheck::Mismatch);
    // Length counts UTF-8 bytes: four two-byte characters are long enough.
    assert_eq!(assess_new_passphrase(&s("éééé"), &s("éééé")), PassphraseCheck::Acceptable);
}

#[test]
fn signature_paths() {
    assert_eq!(signature_path("release.zip"), "release.zip.sig");
    assert_eq!(signature_path(""), ".sig");
}

#[test]
fn public_key_text() {
    let key = parse_public_key_hex(RFC_PUBLIC).unwrap();
    assert_eq!(key.to_hex(), RFC_PUBLIC);
    let padded = format!("  {}\n", RFC_PUBLIC.to_uppercase());
    assert_eq!(parse_public_key_hex(&padded).unwrap().to_bytes(), key.to_bytes());
    assert_eq!(parse_public_key_hex("zz").err(), Some(KeyTextError::PublicKeyHex));
    assert_eq!(parse_public_key_hex("abc").err(), Some(KeyTextError::PublicKeyHex));
    assert_eq!(parse_public_key_hex("abcd").err(), Some(KeyTextError::PublicKeyLength));
    assert_eq!(parse_public_key_hex("").err(), Some(KeyTextError::PublicKeyLength));
}

#[test]
fn public_key_text_rejects_non_points() {
    // Some 32-byte strings are not points of the curve; the reader reports
    // exactly those.
    let mut rejected = 0;
    for first in 2u8..40 {
        let mut bytes = [0u8; 32];
        bytes[0] = first;
        let text = hex::encode(bytes);
        match VerifyingKey::from_bytes(&bytes) {
            Some(k) => assert_eq!(parse_public_key_hex(&text).unwrap().to_bytes(), k.to_bytes()),
            None => {
                rejected += 1;
                assert_eq!(parse_public_key_hex(&text).err(), Some(KeyTextError::PublicKeyPoint));
            }
        }
    }
    assert!(rejected > 0);
}

#[test]
fn signature_text() {
    let sig = Signature::from_bytes(&[0xab; 64]);
    let text = sig.to_hex();
    assert_eq!(text, "ab".repeat(64));
    assert_eq!(parse_signature_hex(&text).unwrap().to_bytes(), [0xab; 64]);
    assert_eq!(parse_signature_hex(&format!("\t{}  ", text)).unwrap().to_bytes(), [0xab; 64]);
    assert_eq!(parse_signature_hex("xyz1").err(), Some(KeyTextError::SignatureHex));
    assert_eq!(parse_signature_hex(RFC_PUBLIC).err(), Some(KeyTextError::SignatureLength));
}

#[test]
fn stored_key_and_signature_verify() {
    let key = SigningKey::from_bytes(&[3u8; 32]);
    let data = b"artifact";
    let public_text = key.verifying_key().to_hex();
    let sig_text = sign_data(&key, data).to_hex();
    let public = parse_public_key_hex(&public_text).unwrap();
    let sig = parse_signature_hex(&sig_text).unwrap();
    assert!(verify_signature(&public, data, &sig).is_ok());
    assert!(verify_signature(&public, b"artifacT", &sig).is_err());
}

#[test]
fn key_text_messages() {
    assert_eq!(KeyTextError::PublicKeyHex.message(), "Invalid public key hex");
    assert_eq!(KeyTextError::SignatureLength.message(), "Invalid signature length");
    assert_eq!(
        KeyTextError::PublicKeyPoint.message(),
        "signature error: Cannot decompress Edwards point"
    );
}
