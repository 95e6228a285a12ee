//! The decisions of the graphical tool's three panels (generate, sign,
//! verify): what each button press leads to and which status line it shows.
use vstd::prelude::*;
use crate::backends::{ed25519_accepts, ed25519_point_decodes, ed25519_signature_of, hex_decode, trim};
use crate::crypto::{decrypt_private_key_checked, decryption_outcome, sign_data};
use crate::keystore::EncryptedKeyFile;
use crate::commands::{assess_new_passphrase, passphrase_verdict, signature_path, PassphraseCheck};
use crate::keys::{bytes32, bytes64, Signature, SigningKey, VerifyingKey};
use crate::text::{
    all_whitespace, hex_decoding, hex_encoding, lemma_hex_roundtrip, lemma_trim_hex,
    lemma_trimmed_ignores_padding, trimmed,
};

verus! {

// ------------------------------------------------------------------ key generation

/// Why the generate button does nothing but show a status.
#[derive(Debug, Clone, Copy, PartialEq, Eq, Structural)]
pub enum KeygenRefusal {
    /// The confirmation differs from the passphrase.
    Mismatch,
    /// The passphrase is shorter than 8 bytes.
    TooShort,
    /// No output directory was chosen.
    NoOutputDirectory,
}

/// The refusal, if any, of a generate request: passphrases first, then the
/// output directory.
pub open spec fn keygen_refusal(password: Seq<char>, confirm: Seq<char>, output_chosen: bool) -> Option<KeygenRefusal> {
    match passphrase_verdict(password, confirm) {
        PassphraseCheck::Mismatch => Some(KeygenRefusal::Mismatch),
        PassphraseCheck::TooShort => Some(KeygenRefusal::TooShort),
        PassphraseCheck::Acceptable => if output_chosen {
            None
        } else {
            Some(KeygenRefusal::NoOutputDirectory)
        },
    }
}

/// Decides whether a generate request goes ahead.
pub fn check_keygen_request(password: &String, confirm: &String, output_chosen: bool) -> (r: Option<KeygenRefusal>)
    ensures
        r == keygen_refusal(password@, confirm@, output_chosen),
{
    match assess_new_passphrase(password, confirm) {
        PassphraseCheck::Mismatch => Some(KeygenRefusal::Mismatch),
        PassphraseCheck::TooShort => Some(KeygenRefusal::TooShort),
        PassphraseCheck::Acceptable => if output_chosen {
            None
        } else {
            Some(KeygenRefusal::NoOutputDirectory)
        },
    }
}

impl KeygenRefusal {
    /// The status line of a refusal.
    pub fn status(&self) -> (text: String)
        ensures
            text@ == self.spec_status(),
    {
        match self {
            KeygenRefusal::Mismatch => String::from_str("❌ Passphrases do not match!"),
            KeygenRefusal::TooShort => String::from_str("❌ Passphrase too short!"),
            KeygenRefusal::NoOutputDirectory => String::from_str("❌ Select output directory first."),
        }
    }

    pub open spec fn spec_status(&self) -> Seq<char> {
        match self {
            KeygenRefusal::Mismatch => "❌ Passphrases do not match!"@,
            KeygenRefusal::TooShort => "❌ Passphrase too short!"@,
            KeygenRefusal::NoOutputDirectory => "❌ Select output directory first."@,
        }
    }
}

/// The status line after generating and storing keys: success, or the error
/// that stopped it.
pub fn keygen_done_status(error: Option<&str>) -> (text: String)
    ensures
        text@ == match error {
            None => "✅ Keys generated successfully!"@,
            Some(e) => "❌ Error: "@ + e@,
        },
{
    match error {
        None => String::from_str("✅ Keys generated successfully!"),
        Some(e) => String::from_str("❌ Error: ").concat(e),
    }
}

// ------------------------------------------------------------------ signing

/// How a press of the sign button ended.
pub enum SignPanelOutcome {
    /// The key or the file to sign was not chosen.
    NothingSelected,
    /// The key file could not be read.
    KeyUnreadable,
    /// The key file is not a key file.
    KeyMalformed,
    /// The key did not open with the passphrase.
    WrongPassphrase,
    /// The file to sign could not be read; the reason.
    TargetUnreadable(String),
    /// The signature could not be written.
    WriteFailed,
    /// The signature was written; where.
    Signed(String),
}

impl SignPanelOutcome {
    /// The status line of the outcome.
    pub fn status(&self) -> (text: String)
        ensures
            text@ == self.spec_status(),
    {
        match self {
            SignPanelOutcome::NothingSelected => String::from_str("❌ Select key and file first."),
            SignPanelOutcome::KeyUnreadable => String::from_str("❌ Could not read key file"),
            SignPanelOutcome::KeyMalformed => String::from_str("❌ Invalid key file format"),
            SignPanelOutcome::WrongPassphrase => String::from_str("❌ Wrong password or corrupt key"),
            SignPanelOutcome::TargetUnreadable(e) => String::from_str("❌ File read error: ").concat(e.as_str()),
            SignPanelOutcome::WriteFailed => String::from_str("❌ Failed to write signature"),
            SignPanelOutcome::Signed(path) => String::from_str("✅ Signed: ").concat(path.as_str()),
        }
    }

    pub open spec fn spec_status(&self) -> Seq<char> {
        match self {
            SignPanelOutcome::NothingSelected => "❌ Select key and file first."@,
            SignPanelOutcome::KeyUnreadable => "❌ Could not read key file"@,
            SignPanelOutcome::KeyMalformed => "❌ Invalid key file format"@,
            SignPanelOutcome::WrongPassphrase => "❌ Wrong password or corrupt key"@,
            SignPanelOutcome::TargetUnreadable(e) => "❌ File read error: "@ + e@,
            SignPanelOutcome::WriteFailed => "❌ Failed to write signature"@,
            SignPanelOutcome::Signed(path) => "✅ Signed: "@ + path@,
        }
    }
}

/// An unlocked key seen through its bytes.
pub open spec fn unlock_view(r: Option<Result<SigningKey, SignPanelOutcome>>) -> Option<Result<Seq<u8>, SignPanelOutcome>> {
    match r {
        None => None,
        Some(Ok(k)) => Some(Ok(k@)),
        Some(Err(o)) => Some(Err(o)),
    }
}

/// The first part of a press of the sign button, before the file to sign is
/// read, in this order: both the key and the file must be chosen; the key file
/// must be readable and a key file; it must open with the passphrase. `None`
/// where the key file is one on which decryption has no result.
pub open spec fn sign_unlock_verdict(
    selected: bool,
    key_file: Result<Option<EncryptedKeyFile>, ()>,
    passphrase: Seq<char>,
) -> Option<Result<Seq<u8>, SignPanelOutcome>> {
    if !selected {
        Some(Err(SignPanelOutcome::NothingSelected))
    } else {
        match key_file {
            Err(_) => Some(Err(SignPanelOutcome::KeyUnreadable)),
            Ok(None) => Some(Err(SignPanelOutcome::KeyMalformed)),
            Ok(Some(file)) => match decryption_outcome(file, passphrase) {
                None => None,
                Some(Err(_)) => Some(Err(SignPanelOutcome::WrongPassphrase)),
                Some(Ok(secret)) => Some(Ok(secret)),
            },
        }
    }
}

/// Decides the first part of a press of the sign button from what was chosen
/// and the key file read (`Err` where it could not be read, `None` where it is
/// not a key file): the opened key, or the outcome that ends the press.
pub fn sign_panel_unlock(
    selected: bool,
    key_file: Result<Option<EncryptedKeyFile>, ()>,
    passphrase: &str,
) -> (r: Option<Result<SigningKey, SignPanelOutcome>>)
    ensures
        unlock_view(r) == sign_unlock_verdict(selected, key_file, passphrase@),
{
    if !selected {
        return Some(Err(SignPanelOutcome::NothingSelected));
    }
    let file = match key_file {
        Err(()) => return Some(Err(SignPanelOutcome::KeyUnreadable)),
        Ok(None) => return Some(Err(SignPanelOutcome::KeyMalformed)),
        Ok(Some(f)) => f,
    };
    match decrypt_private_key_checked(&file, passphrase) {
        None => None,
        Some(Err(_)) => Some(Err(SignPanelOutcome::WrongPassphrase)),
        Some(Ok(k)) => Some(Ok(k)),
    }
}

/// The signature's path and bytes, or the outcome that ends the press.
pub open spec fn finish_view(r: Result<(String, Signature), SignPanelOutcome>) -> Result<(Seq<char>, Seq<u8>), SignPanelOutcome> {
    match r {
        Ok((path, sig)) => Ok((path@, sig@)),
        Err(o) => Err(o),
    }
}

/// Decides the rest of a press of the sign button once the key is open and
/// the file to sign was read (or the reason it could not be): the signature
/// of the file's bytes, to be written at the file's path with `.sig` added.
pub fn sign_panel_finish(key: &SigningKey, data: Result<Vec<u8>, String>, file_path: &str) -> (r: Result<(String, Signature), SignPanelOutcome>)
    ensures
        finish_view(r) == match data {
            Err(e) => Err(SignPanelOutcome::TargetUnreadable(e)),
            Ok(bytes) => Ok((file_path@ + ".sig"@, ed25519_signature_of(key@, bytes@))),
        },
{
    let bytes = match data {
        Err(e) => return Err(SignPanelOutcome::TargetUnreadable(e)),
        Ok(d) => d,
    };
    let sig = sign_data(key, bytes.as_slice());
    Ok((signature_path(file_path), sig))
}

// ------------------------------------------------------------------ verifying

/// How a press of the verify button ended.
#[derive(Debug, Clone, Copy, PartialEq, Eq, Structural)]
pub enum VerifyPanelOutcome {
    /// The key or the file to verify was not chosen.
    NothingSelected,
    /// No signature file sits next to the file.
    SignatureMissing,
    /// The key, the signature or the file could not be read.
    ReadError,
    /// The key or the signature is not hex.
    HexDecodeError,
    /// The key bytes are not a point of the curve.
    InvalidFormat,
    /// The signature verifies.
    Valid,
    /// The signature does not verify.
    Invalid,
}

/// What the verify panel concludes from the texts of the public key and the
/// signature and the file's bytes. Both texts are read as hex (surrounding
/// whitespace ignored); a key that is not 32 bytes of a curve point, or a
/// signature that is not 64 bytes, is an invalid format.
pub open spec fn verify_panel_verdict(public_text: Seq<char>, signature_text: Seq<char>, data: Seq<u8>) -> VerifyPanelOutcome {
    match (hex_decoding(trimmed(public_text)), hex_decoding(trimmed(signature_text))) {
        (Some(key), Some(sig)) => {
            if key.len() != 32 || sig.len() != 64 || !ed25519_point_decodes(key) {
                VerifyPanelOutcome::InvalidFormat
            } else if ed25519_accepts(key, data, sig) {
                VerifyPanelOutcome::Valid
            } else {
                VerifyPanelOutcome::Invalid
            }
        },
        _ => VerifyPanelOutcome::HexDecodeError,
    }
}

/// Decides the verify panel's verdict on what was read.
pub fn verify_panel_check(public_text: &str, signature_text: &str, data: &[u8]) -> (r: VerifyPanelOutcome)
    ensures
        r == verify_panel_verdict(public_text@, signature_text@, data@),
{
    let public_bytes = hex_decode(trim(public_text));
    let signature_bytes = hex_decode(trim(signature_text));
    let (pk, sg) = match (public_bytes, signature_bytes) {
        (Some(pk), Some(sg)) => (pk, sg),
        _ => return VerifyPanelOutcome::HexDecodeError,
    };
    if pk.len() != 32 || sg.len() != 64 {
        return VerifyPanelOutcome::InvalidFormat;
    }
    match VerifyingKey::from_bytes(&bytes32(pk.as_slice())) {
        None => VerifyPanelOutcome::InvalidFormat,
        Some(key) => {
            let sig = Signature::from_bytes(&bytes64(sg.as_slice()));
            match key.verify(data, &sig) {
                Ok(()) => VerifyPanelOutcome::Valid,
                Err(_) => VerifyPanelOutcome::Invalid,
            }
        },
    }
}

/// What a press of the verify button leads to, in this order: both the key
/// and the file must be chosen; a signature file must sit next to the file;
/// the key, the signature and the file must all be readable; then the verdict
/// on what was read.
pub open spec fn verify_panel_step_verdict(
    selected: bool,
    signature_exists: bool,
    public_text: Option<String>,
    signature_text: Option<String>,
    data: Option<Vec<u8>>,
) -> VerifyPanelOutcome {
    if !selected {
        VerifyPanelOutcome::NothingSelected
    } else if !signature_exists {
        VerifyPanelOutcome::SignatureMissing
    } else {
        match (public_text, signature_text, data) {
            (Some(p), Some(s), Some(d)) => verify_panel_verdict(p@, s@, d@),
            _ => VerifyPanelOutcome::ReadError,
        }
    }
}

/// Decides a press of the verify button from what was chosen, whether the
/// signature file exists, and what was read of the key, the signature and the
/// file (`None` where a read failed).
pub fn verify_panel_step(
    selected: bool,
    signature_exists: bool,
    public_text: Option<String>,
    signature_text: Option<String>,
    data: Option<Vec<u8>>,
) -> (r: VerifyPanelOutcome)
    ensures
        r == verify_panel_step_verdict(selected, signature_exists, public_text, signature_text, data),
{
    if !selected {
        return VerifyPanelOutcome::NothingSelected;
    }
    if !signature_exists {
        return VerifyPanelOutcome::SignatureMissing;
    }
    match (public_text, signature_text, data) {
        (Some(p), Some(s), Some(d)) => verify_panel_check(p.as_str(), s.as_str(), d.as_slice()),
        _ => VerifyPanelOutcome::ReadError,
    }
}

impl VerifyPanelOutcome {
    /// The status line of the outcome.
    pub fn status(&self) -> (text: String)
        ensures
            text@ == self.spec_status(),
    {
        match self {
            VerifyPanelOutcome::NothingSelected => String::from_str("❌ Select key and file first"),
            VerifyPanelOutcome::SignatureMissing => String::from_str("❌ Signature file (.sig) not found"),
            VerifyPanelOutcome::ReadError => String::from_str("❌ File Read Error"),
            VerifyPanelOutcome::HexDecodeError => String::from_str("❌ Hex Decode Error"),
            VerifyPanelOutcome::InvalidFormat => String::from_str("❌ Invalid Key/Sig Format"),
            VerifyPanelOutcome::Valid => String::from_str("✅ Valid Signature!"),
            VerifyPanelOutcome::Invalid => String::from_str("❌ Invalid Signature"),
        }
    }

    pub open spec fn spec_status(&self) -> Seq<char> {
        match self {
            VerifyPanelOutcome::NothingSelected => "❌ Select key and file first"@,
            VerifyPanelOutcome::SignatureMissing => "❌ Signature file (.sig) not found"@,
            VerifyPanelOutcome::ReadError => "❌ File Read Error"@,
            VerifyPanelOutcome::HexDecodeError => "❌ Hex Decode Error"@,
            VerifyPanelOutcome::InvalidFormat => "❌ Invalid Key/Sig Format"@,
            VerifyPanelOutcome::Valid => "✅ Valid Signature!"@,
            VerifyPanelOutcome::Invalid => "❌ Invalid Signature"@,
        }
    }
}

/// The verify panel's verdict does not depend on whitespace around either text.
pub proof fn lemma_verify_verdict_ignores_padding(
    w1: Seq<char>,
    public_text: Seq<char>,
    w2: Seq<char>,
    w3: Seq<char>,
    signature_text: Seq<char>,
    w4: Seq<char>,
    data: Seq<u8>,
)
    requires
        all_whitespace(w1),
        all_whitespace(w2),
        all_whitespace(w3),
        all_whitespace(w4),
    ensures
        verify_panel_verdict(w1 + public_text + w2, w3 + signature_text + w4, data)
            == verify_panel_verdict(public_text, signature_text, data),
{
    lemma_trimmed_ignores_padding(w1, public_text, w2);
    lemma_trimmed_ignores_padding(w3, signature_text, w4);
}

/// A file verifies on the panel against the hex of a public key and the hex of
/// a signature that Ed25519 accepts for it, whatever whitespace pads the texts;
/// against one it rejects, it is invalid.
pub proof fn lemma_verify_panel_on_stored_texts(
    public: Seq<u8>,
    signature: Seq<u8>,
    data: Seq<u8>,
    w1: Seq<char>,
    w2: Seq<char>,
    w3: Seq<char>,
    w4: Seq<char>,
)
    requires
        public.len() == 32,
        ed25519_point_decodes(public),
        signature.len() == 64,
        all_whitespace(w1),
        all_whitespace(w2),
        all_whitespace(w3),
        all_whitespace(w4),
    ensures
        verify_panel_verdict(w1 + hex_encoding(public) + w2, w3 + hex_encoding(signature) + w4, data)
            == (if ed25519_accepts(public, data, signature) {
            VerifyPanelOutcome::Valid
        } else {
            VerifyPanelOutcome::Invalid
        }),
{
    lemma_verify_verdict_ignores_padding(w1, hex_encoding(public), w2, w3, hex_encoding(signature), w4, data);
    lemma_trim_hex(public);
    lemma_hex_roundtrip(public);
    lemma_trim_hex(signature);
    lemma_hex_roundtrip(signature);
}

} // verus!
