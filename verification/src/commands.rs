//! The rules of the command-line tool: the passphrase policy, where signatures
//! are stored, and how stored public keys and signatures are read back.
use vstd::prelude::*;
use vstd::utf8::encode_utf8;
use crate::backends::{ed25519_point_decodes, hex_decode, trim};
use crate::keys::{bytes32, bytes64, Signature, VerifyingKey};
use crate::text::{
    all_whitespace, hex_decoding, hex_encoding, is_unicode_whitespace, lemma_hex_roundtrip,
    lemma_trim_hex, lemma_trimmed_ignores_padding, trimmed,
};

verus! {

/// Passphrases shorter than this many bytes draw a warning (and are refused
/// by the graphical tool).
pub const MIN_PASSPHRASE_BYTES: usize = 8;

/// How a new passphrase and its confirmation compare with the policy.
#[derive(Debug, Clone, Copy, PartialEq, Eq, Structural)]
pub enum PassphraseCheck {
    /// The confirmation differs from the passphrase.
    Mismatch,
    /// The two agree, but the passphrase is shorter than 8 bytes.
    TooShort,
    /// The two agree and the passphrase is long enough.
    Acceptable,
}

/// The verdict of the passphrase policy on a passphrase and its confirmation.
pub open spec fn passphrase_verdict(password: Seq<char>, confirm: Seq<char>) -> PassphraseCheck {
    if password != confirm {
        PassphraseCheck::Mismatch
    } else if encode_utf8(password).len() < MIN_PASSPHRASE_BYTES {
        PassphraseCheck::TooShort
    } else {
        PassphraseCheck::Acceptable
    }
}

/// Checks a new passphrase against its confirmation and the length policy
/// (length in UTF-8 bytes).
pub fn assess_new_passphrase(password: &String, confirm: &String) -> (r: PassphraseCheck)
    ensures
        r == passphrase_verdict(password@, confirm@),
{
    let same = password.eq(confirm);
    let bytes = password.as_str().as_bytes();
    if !same {
        PassphraseCheck::Mismatch
    } else if bytes.len() < MIN_PASSPHRASE_BYTES {
        PassphraseCheck::TooShort
    } else {
        PassphraseCheck::Acceptable
    }
}

/// Where the signature of a file is stored: the file's path with `.sig` added.
pub fn signature_path(file: &str) -> (path: String)
    ensures
        path@ == file@ + ".sig"@,
{
    let path = file.to_owned();
    path.concat(".sig")
}

/// Why a stored public key or signature could not be read.
#[derive(Debug, Clone, Copy, PartialEq, Eq, Structural)]
pub enum KeyTextError {
    /// The public key text is not hex.
    PublicKeyHex,
    /// The public key is not 32 bytes.
    PublicKeyLength,
    /// The 32 bytes are not a point of the curve (its text is that of the
    /// `SignatureError` that `VerifyingKey::from_bytes` gives).
    PublicKeyPoint,
    /// The signature text is not hex.
    SignatureHex,
    /// The signature is not 64 bytes.
    SignatureLength,
}

impl KeyTextError {
    /// A short description for people.
    pub fn message(&self) -> (text: String)
        ensures
            text@ == self.spec_message(),
    {
        match self {
            KeyTextError::PublicKeyHex => String::from_str("Invalid public key hex"),
            KeyTextError::PublicKeyLength => String::from_str("Invalid key length"),
            KeyTextError::PublicKeyPoint => String::from_str("signature error: Cannot decompress Edwards point"),
            KeyTextError::SignatureHex => String::from_str("Invalid signature hex"),
            KeyTextError::SignatureLength => String::from_str("Invalid signature length"),
        }
    }

    pub open spec fn spec_message(&self) -> Seq<char> {
        match self {
            KeyTextError::PublicKeyHex => "Invalid public key hex"@,
            KeyTextError::PublicKeyLength => "Invalid key length"@,
            KeyTextError::PublicKeyPoint => "signature error: Cannot decompress Edwards point"@,
            KeyTextError::SignatureHex => "Invalid signature hex"@,
            KeyTextError::SignatureLength => "Invalid signature length"@,
        }
    }
}

/// Reading a stored public key: hex, surrounding whitespace ignored, of 32
/// bytes that are a point of the curve.
pub open spec fn public_key_reading(text: Seq<char>) -> Result<Seq<u8>, KeyTextError> {
    match hex_decoding(trimmed(text)) {
        None => Err(KeyTextError::PublicKeyHex),
        Some(b) => if b.len() != 32 {
            Err(KeyTextError::PublicKeyLength)
        } else if !ed25519_point_decodes(b) {
            Err(KeyTextError::PublicKeyPoint)
        } else {
            Ok(b)
        },
    }
}

/// Reading a stored signature: hex, surrounding whitespace ignored, of 64 bytes.
pub open spec fn signature_reading(text: Seq<char>) -> Result<Seq<u8>, KeyTextError> {
    match hex_decoding(trimmed(text)) {
        None => Err(KeyTextError::SignatureHex),
        Some(b) => if b.len() != 64 {
            Err(KeyTextError::SignatureLength)
        } else {
            Ok(b)
        },
    }
}

/// The contents of a stored public key, read back.
pub fn parse_public_key_hex(text: &str) -> (r: Result<VerifyingKey, KeyTextError>)
    ensures
        match r {
            Ok(k) => public_key_reading(text@) == Ok::<Seq<u8>, KeyTextError>(k@),
            Err(e) => public_key_reading(text@) == Err::<Seq<u8>, KeyTextError>(e),
        },
{
    let inner = trim(text);
    let bytes = match hex_decode(inner) {
        None => return Err(KeyTextError::PublicKeyHex),
        Some(b) => b,
    };
    if bytes.len() != 32 {
        return Err(KeyTextError::PublicKeyLength);
    }
    let array = bytes32(bytes.as_slice());
    match VerifyingKey::from_bytes(&array) {
        Some(k) => Ok(k),
        None => Err(KeyTextError::PublicKeyPoint),
    }
}

/// The contents of a stored signature, read back.
pub fn parse_signature_hex(text: &str) -> (r: Result<Signature, KeyTextError>)
    ensures
        match r {
            Ok(s) => signature_reading(text@) == Ok::<Seq<u8>, KeyTextError>(s@),
            Err(e) => signature_reading(text@) == Err::<Seq<u8>, KeyTextError>(e),
        },
{
    let inner = trim(text);
    let bytes = match hex_decode(inner) {
        None => return Err(KeyTextError::SignatureHex),
        Some(b) => b,
    };
    if bytes.len() != 64 {
        return Err(KeyTextError::SignatureLength);
    }
    let array = bytes64(bytes.as_slice());
    Ok(Signature::from_bytes(&array))
}

/// A stored public key reads back as the key that was stored.
pub proof fn lemma_public_key_text_roundtrip(public: Seq<u8>)
    requires
        public.len() == 32,
        ed25519_point_decodes(public),
    ensures
        public_key_reading(hex_encoding(public)) == Ok::<Seq<u8>, KeyTextError>(public),
{
    lemma_trim_hex(public);
    lemma_hex_roundtrip(public);
}

/// A stored signature reads back as the signature that was stored.
pub proof fn lemma_signature_text_roundtrip(signature: Seq<u8>)
    requires
        signature.len() == 64,
    ensures
        signature_reading(hex_encoding(signature)) == Ok::<Seq<u8>, KeyTextError>(signature),
{
    lemma_trim_hex(signature);
    lemma_hex_roundtrip(signature);
}

/// The passphrase policy: the confirmation must be the very same text (a
/// mismatch exactly when they differ), and a confirmed passphrase is too short
/// exactly when it has fewer than 8 UTF-8 bytes.
pub proof fn lemma_passphrase_policy(password: Seq<char>, confirm: Seq<char>)
    ensures
        (passphrase_verdict(password, confirm) == PassphraseCheck::Mismatch) <==> password != confirm,
        password == confirm ==> ((passphrase_verdict(password, confirm) == PassphraseCheck::TooShort)
            <==> encode_utf8(password).len() < 8),
        password == confirm ==> ((passphrase_verdict(password, confirm) == PassphraseCheck::Acceptable)
            <==> encode_utf8(password).len() >= 8),
{
}

/// Reading a stored public key ignores whitespace around its text.
pub proof fn lemma_public_key_reading_ignores_padding(w1: Seq<char>, text: Seq<char>, w2: Seq<char>)
    requires
        all_whitespace(w1),
        all_whitespace(w2),
    ensures
        public_key_reading(w1 + text + w2) == public_key_reading(text),
{
    lemma_trimmed_ignores_padding(w1, text, w2);
}

/// Reading a stored signature ignores whitespace around its text.
pub proof fn lemma_signature_reading_ignores_padding(w1: Seq<char>, text: Seq<char>, w2: Seq<char>)
    requires
        all_whitespace(w1),
        all_whitespace(w2),
    ensures
        signature_reading(w1 + text + w2) == signature_reading(text),
{
    lemma_trimmed_ignores_padding(w1, text, w2);
}

/// A stored key or signature reads back as stored whatever whitespace pads
/// its text (a line end added by an editor, say).
pub proof fn lemma_padded_texts_read_back(public: Seq<u8>, signature: Seq<u8>, w1: Seq<char>, w2: Seq<char>)
    requires
        public.len() == 32,
        ed25519_point_decodes(public),
        signature.len() == 64,
        all_whitespace(w1),
        all_whitespace(w2),
    ensures
        public_key_reading(w1 + hex_encoding(public) + w2) == Ok::<Seq<u8>, KeyTextError>(public),
        signature_reading(w1 + hex_encoding(signature) + w2) == Ok::<Seq<u8>, KeyTextError>(signature),
        signature_reading(hex_encoding(signature) + seq!['\n']) == Ok::<Seq<u8>, KeyTextError>(signature),
{
    lemma_public_key_text_roundtrip(public);
    lemma_signature_text_roundtrip(signature);
    lemma_public_key_reading_ignores_padding(w1, hex_encoding(public), w2);
    lemma_signature_reading_ignores_padding(w1, hex_encoding(signature), w2);
    let nl = seq!['\n'];
    assert(is_unicode_whitespace(nl[0]));
    assert(all_whitespace(nl));
    assert(all_whitespace(Seq::<char>::empty()));
    lemma_signature_reading_ignores_padding(Seq::<char>::empty(), hex_encoding(signature), nl);
    assert(Seq::<char>::empty() + hex_encoding(signature) + nl =~= hex_encoding(signature) + nl);
}

} // verus!
