//! Key generation, passphrase sealing of private keys, signing and verifying.
use vstd::prelude::*;
use crate::backends::{
    argon2_params_acceptable, argon2_params_check, argon2_params_overflow,
    argon2_params_rejection_text, argon2id_hash, argon2id_hash_of, base64_decode,
    base64_decoding_of, base64_encode, base64_encoding_of, ed25519_accepts, ed25519_point_decodes,
    ed25519_public_of, ed25519_random_secret, ed25519_rejection_text,
    ed25519_sign, ed25519_signature_of, is_salt_string, random_salt, random_xnonce, salt_check,
    salt_rejection_text, wipe_key, xchacha_decrypt, xchacha_encrypt, xchacha_open, xchacha_seal,
};
use crate::keys::{bytes32, lemma_signing_key_len, Signature, SigningKey, VerifyingKey};
use crate::keystore::{Argon2Params, EncryptedKeyFile};

verus! {

/// Argon2id memory cost used for new key files, in KiB (64 MiB).
pub const ARGON2_MEMORY_KIB: u32 = 65536;

/// Argon2id passes used for new key files.
pub const ARGON2_ITERATIONS: u32 = 3;

/// Argon2id lanes used for new key files.
pub const ARGON2_LANES: u32 = 4;

/// What kind of failure stopped sealing, unsealing or verifying.
#[derive(Debug, Clone, Copy, PartialEq, Eq, Structural)]
pub enum CryptoErrorKind {
    /// Argon2 refused the recorded costs.
    InvalidParams,
    /// The recorded salt is not a salt string.
    InvalidSalt,
    /// Argon2 failed to hash the passphrase.
    HashingFailed,
    /// Argon2 produced no hash output.
    MissingHashOutput,
    /// The derived key is not 32 bytes long.
    DerivedKeyLength,
    /// Sealing the private key failed.
    EncryptionFailure,
    /// The recorded nonce is not Base64.
    NonceEncoding,
    /// The recorded ciphertext is not Base64.
    CiphertextEncoding,
    /// The sealed key did not authenticate: wrong passphrase or corrupted file.
    DecryptionFailed,
    /// The unsealed private key is not 32 bytes long.
    InvalidKeyLength,
    /// The signature does not verify.
    VerificationFailed,
}

/// A failure: its kind and its text for people.
#[derive(Debug)]
pub struct CryptoError {
    kind: CryptoErrorKind,
    text: String,
}

/// A failure seen as its kind and its text.
pub type Failure = (CryptoErrorKind, Seq<char>);

impl View for CryptoError {
    type V = Failure;

    closed spec fn view(&self) -> Failure {
        (self.kind, self.text@)
    }
}

impl CryptoError {
    fn new(kind: CryptoErrorKind, text: String) -> (e: CryptoError)
        ensures
            e@ == (kind, text@),
    {
        CryptoError { kind, text }
    }

    /// A failure whose text is `prefix` followed by `detail`.
    fn with_detail(kind: CryptoErrorKind, prefix: &str, detail: &str) -> (e: CryptoError)
        ensures
            e@ == (kind, prefix@ + detail@),
    {
        CryptoError { kind, text: String::from_str(prefix).concat(detail) }
    }

    /// The kind of failure.
    pub fn kind(&self) -> (k: CryptoErrorKind)
        ensures
            k == self@.0,
    {
        self.kind
    }

    /// The text of the failure.
    pub fn message(&self) -> (text: String)
        ensures
            text@ == self@.1,
    {
        self.text.clone()
    }
}

/// A failure of the given kind and text.
pub open spec fn failure<T>(kind: CryptoErrorKind, text: Seq<char>) -> Result<T, Failure> {
    Err((kind, text))
}

// ------------------------------------------------------------------ what the operations compute

/// How `argon2::Params::new` refuses a lane count whose `8 * p_cost`
/// overflows `u32`, as built for release (the product wraps): the memory cost
/// is compared with the wrapped product, then the passes, then the lane count,
/// which is always too large here.
pub open spec fn wrapped_params_rejection_text(m_cost: u32, t_cost: u32, p_cost: u32) -> Seq<char> {
    if m_cost < (p_cost * 8) % 0x1_0000_0000 {
        "memory cost is too small"@
    } else if t_cost < 1 {
        "time cost is too small"@
    } else {
        "too many threads"@
    }
}

/// Deriving the key-encryption key from the recorded Argon2id settings and a
/// passphrase.
pub open spec fn kek_outcome(params: Argon2Params, password: Seq<char>) -> Result<Seq<u8>, Failure> {
    if !is_salt_string(params.salt@) {
        failure(CryptoErrorKind::InvalidSalt, "Invalid salt: "@ + salt_rejection_text(params.salt@))
    } else if argon2_params_overflow(params.memory, params.parallelism) {
        failure(
            CryptoErrorKind::InvalidParams,
            "Argon2 params error: "@ + wrapped_params_rejection_text(params.memory, params.iterations, params.parallelism),
        )
    } else if !argon2_params_acceptable(params.memory, params.iterations, params.parallelism) {
        failure(
            CryptoErrorKind::InvalidParams,
            "Argon2 params error: "@ + argon2_params_rejection_text(params.memory, params.iterations, params.parallelism),
        )
    } else {
        match argon2id_hash_of(password, params.salt@, params.memory, params.iterations, params.parallelism) {
            Err(t) => failure(CryptoErrorKind::HashingFailed, "Argon2 error: "@ + t),
            Ok(None) => failure(CryptoErrorKind::MissingHashOutput, "Failed to get hash"@),
            Ok(Some(k)) => if k.len() == 32 {
                Ok(k)
            } else {
                failure(CryptoErrorKind::DerivedKeyLength, "Derivation mismatch"@)
            },
        }
    }
}

/// Opening the sealed private key with a key-encryption key: `None` where the
/// nonce decodes to other than 24 bytes (no nonce can be made of it).
pub open spec fn unseal_outcome(kek: Seq<u8>, nonce: Seq<char>, ciphertext: Seq<char>) -> Option<Result<Seq<u8>, Failure>> {
    match base64_decoding_of(nonce) {
        Err(t) => Some(failure(CryptoErrorKind::NonceEncoding, t)),
        Ok(n) => if n.len() != 24 {
            None
        } else {
            match base64_decoding_of(ciphertext) {
                Err(t) => Some(failure(CryptoErrorKind::CiphertextEncoding, t)),
                Ok(c) => match xchacha_open(kek, n, c) {
                    None => Some(failure(CryptoErrorKind::DecryptionFailed, "Invalid password or corrupted key"@)),
                    Some(p) => if p.len() == 32 {
                        Some(Ok(p))
                    } else {
                        Some(failure(CryptoErrorKind::InvalidKeyLength, "Invalid key length"@))
                    },
                },
            }
        },
    }
}

/// Decrypting a key file with a passphrase: the secret bytes or the failure,
/// `None` on the inputs on which no result can be had (see `unseal_outcome`).
pub open spec fn decryption_outcome(file: EncryptedKeyFile, password: Seq<char>) -> Option<Result<Seq<u8>, Failure>> {
    match kek_outcome(file.kdf_params, password) {
        Err(e) => Some(Err(e)),
        Ok(kek) => unseal_outcome(kek, file.nonce@, file.ciphertext@),
    }
}

/// Sealing a secret with a passphrase, salt and nonce: the sealed bytes or the
/// failure.
pub open spec fn sealing_outcome(secret: Seq<u8>, password: Seq<char>, salt: Seq<char>, nonce: Seq<u8>) -> Result<Seq<u8>, Failure> {
    if !argon2_params_acceptable(ARGON2_MEMORY_KIB, ARGON2_ITERATIONS, ARGON2_LANES) {
        failure(
            CryptoErrorKind::InvalidParams,
            "Argon2 params error: "@ + argon2_params_rejection_text(ARGON2_MEMORY_KIB, ARGON2_ITERATIONS, ARGON2_LANES),
        )
    } else {
        match argon2id_hash_of(password, salt, ARGON2_MEMORY_KIB, ARGON2_ITERATIONS, ARGON2_LANES) {
            Err(t) => failure(CryptoErrorKind::HashingFailed, "Argon2 error: "@ + t),
            Ok(None) => failure(CryptoErrorKind::MissingHashOutput, "Failed to get hash output"@),
            Ok(Some(k)) => if k.len() != 32 {
                failure(CryptoErrorKind::DerivedKeyLength, "Derived key length is not 32 bytes"@)
            } else {
                match xchacha_seal(k, nonce, secret) {
                    None => failure(CryptoErrorKind::EncryptionFailure, "Encryption failure: "@ + "aead::Error"@),
                    Some(c) => Ok(c),
                }
            },
        }
    }
}

/// A key file that records the salt and the fixed Argon2id costs, with the
/// nonce and the sealed key in Base64.
pub open spec fn records(file: EncryptedKeyFile, salt: Seq<char>, nonce: Seq<u8>, sealed: Seq<u8>) -> bool {
    &&& file.kdf_params.salt@ == salt
    &&& file.kdf_params.iterations == ARGON2_ITERATIONS
    &&& file.kdf_params.memory == ARGON2_MEMORY_KIB
    &&& file.kdf_params.parallelism == ARGON2_LANES
    &&& file.nonce@ == base64_encoding_of(nonce)
    &&& file.ciphertext@ == base64_encoding_of(sealed)
}

/// The result of sealing `secret` with the given salt and nonce.
pub open spec fn sealed_with(
    r: Result<EncryptedKeyFile, CryptoError>,
    secret: Seq<u8>,
    password: Seq<char>,
    salt: Seq<char>,
    nonce: Seq<u8>,
) -> bool {
    match r {
        Ok(file) => match sealing_outcome(secret, password, salt, nonce) {
            Ok(c) => records(file, salt, nonce, c),
            Err(_) => false,
        },
        Err(e) => sealing_outcome(secret, password, salt, nonce) == Err::<Seq<u8>, Failure>(e@),
    }
}

/// What a key file made from a 32-byte secret holds besides the salt: a nonce
/// of 24 bytes (32 Base64 characters) and the sealed secret, 16 bytes longer
/// than the secret (64 Base64 characters), which is therefore not the secret.
pub open spec fn holds_only_sealed(file: EncryptedKeyFile, secret: Seq<u8>) -> bool {
    &&& file.nonce@.len() == 32
    &&& base64_decoding_of(file.nonce@) matches Ok(n) && n.len() == 24
    &&& file.ciphertext@.len() == 64
    &&& base64_decoding_of(file.ciphertext@) matches Ok(c) && c.len() == secret.len() + 16
    &&& base64_decoding_of(file.ciphertext@) != Ok::<Seq<u8>, Seq<char>>(secret)
}

/// A key result seen through the key's bytes and the failure's view.
pub open spec fn key_result_view(r: Result<SigningKey, CryptoError>) -> Result<Seq<u8>, Failure> {
    match r {
        Ok(k) => Ok(k@),
        Err(e) => Err(e@),
    }
}

// ------------------------------------------------------------------ helpers

fn nonce_array(v: &Vec<u8>) -> (a: [u8; 24])
    requires
        v@.len() == 24,
    ensures
        a@ == v@,
{
    let mut a = [0u8; 24];
    let mut i: usize = 0;
    while i < 24
        invariant
            i <= 24,
            v@.len() == 24,
            forall|j: int| 0 <= j < i ==> a@[j] == v@[j],
        decreases 24 - i,
    {
        a[i] = v[i];
        i = i + 1;
    }
    assert(a@ =~= v@);
    a
}

/// A derived or opened 32-byte value seen through its bytes.
pub open spec fn kek_view(r: Option<Result<[u8; 32], CryptoError>>) -> Option<Result<Seq<u8>, Failure>> {
    match r {
        None => None,
        Some(Ok(k)) => Some(Ok(k@)),
        Some(Err(e)) => Some(Err(e@)),
    }
}

/// A derived key seen through its bytes.
pub open spec fn derived_view(r: Result<[u8; 32], CryptoError>) -> Result<Seq<u8>, Failure> {
    match r {
        Ok(k) => Ok(k@),
        Err(e) => Err(e@),
    }
}

/// Derives the key-encryption key from recorded settings.
fn derive_kek(params: &Argon2Params, password: &str) -> (r: Result<[u8; 32], CryptoError>)
    ensures
        derived_view(r) == kek_outcome(*params, password@),
{
    if let Err(t) = salt_check(params.salt.as_str()) {
        return Err(CryptoError::with_detail(CryptoErrorKind::InvalidSalt, "Invalid salt: ", t.as_str()));
    }
    if params.memory >= 8 && params.parallelism > 0x1FFF_FFFF {
        // `Params::new` cannot be asked here: its `8 * p_cost` overflows.
        let wrapped: u32 = params.parallelism.wrapping_mul(8);
        let detail = if params.memory < wrapped {
            "memory cost is too small"
        } else if params.iterations < 1 {
            "time cost is too small"
        } else {
            "too many threads"
        };
        return Err(CryptoError::with_detail(CryptoErrorKind::InvalidParams, "Argon2 params error: ", detail));
    }
    if let Err(t) = argon2_params_check(params.memory, params.iterations, params.parallelism) {
        return Err(CryptoError::with_detail(CryptoErrorKind::InvalidParams, "Argon2 params error: ", t.as_str()));
    }
    let hash = argon2id_hash(
        password,
        params.salt.as_str(),
        params.memory,
        params.iterations,
        params.parallelism,
    );
    match hash {
        Err(t) => Err(CryptoError::with_detail(CryptoErrorKind::HashingFailed, "Argon2 error: ", t.as_str())),
        Ok(None) => Err(CryptoError::new(CryptoErrorKind::MissingHashOutput, String::from_str("Failed to get hash"))),
        Ok(Some(k)) => {
            if k.len() != 32 {
                Err(CryptoError::new(CryptoErrorKind::DerivedKeyLength, String::from_str("Derivation mismatch")))
            } else {
                Ok(bytes32(k.as_slice()))
            }
        },
    }
}

/// Opens the sealed private key; `None` where the nonce decodes to other than
/// 24 bytes.
fn unseal(kek: &[u8; 32], nonce: &str, ciphertext: &str) -> (r: Option<Result<[u8; 32], CryptoError>>)
    ensures
        kek_view(r) == unseal_outcome(kek@, nonce@, ciphertext@),
{
    let nonce_bytes = match base64_decode(nonce) {
        Err(t) => return Some(Err(CryptoError::new(CryptoErrorKind::NonceEncoding, t))),
        Ok(n) => n,
    };
    if nonce_bytes.len() != 24 {
        return None;
    }
    let xnonce = nonce_array(&nonce_bytes);
    let sealed = match base64_decode(ciphertext) {
        Err(t) => return Some(Err(CryptoError::new(CryptoErrorKind::CiphertextEncoding, t))),
        Ok(c) => c,
    };
    match xchacha_decrypt(kek, &xnonce, sealed.as_slice()) {
        None => Some(Err(CryptoError::new(
            CryptoErrorKind::DecryptionFailed,
            String::from_str("Invalid password or corrupted key"),
        ))),
        Some(p) => {
            if p.len() != 32 {
                Some(Err(CryptoError::new(CryptoErrorKind::InvalidKeyLength, String::from_str("Invalid key length"))))
            } else {
                Some(Ok(bytes32(p.as_slice())))
            }
        },
    }
}

// ------------------------------------------------------------------ the operations

/// A new signing key from the operating system's random generator. Which key
/// comes back is chance; it is 32 bytes, and its public key is a point of the
/// curve, as for every signing key.
pub fn generate_keypair() -> (key: SigningKey)
    ensures
        key@.len() == 32,
        ed25519_point_decodes(ed25519_public_of(key@)),
{
    let secret = ed25519_random_secret();
    let key = SigningKey::from_bytes(&secret);
    proof {
        lemma_signing_key_len(key);
    }
    key
}

/// Seals `key` under `password` with the given salt and nonce: Argon2id with
/// the fixed costs derives a 32-byte key from the passphrase and salt, and
/// XChaCha20-Poly1305 seals the secret with it. The file records the salt,
/// the costs, and the nonce and sealed key in Base64; the sealed key is the
/// secret plus a 16-byte tag, never the secret itself. Decrypting the file
/// with the same passphrase gives the key back.
pub fn encrypt_private_key_with(key: &SigningKey, password: &str, salt: &str, nonce: &[u8; 24]) -> (r: Result<EncryptedKeyFile, CryptoError>)
    requires
        is_salt_string(salt@),
    ensures
        sealed_with(r, key@, password@, salt@, nonce@),
        r matches Ok(file) ==> holds_only_sealed(file, key@),
        r matches Ok(file) ==> decryption_outcome(file, password@) == Some(Ok::<Seq<u8>, Failure>(key@)),
{
    if let Err(t) = argon2_params_check(ARGON2_MEMORY_KIB, ARGON2_ITERATIONS, ARGON2_LANES) {
        return Err(CryptoError::with_detail(CryptoErrorKind::InvalidParams, "Argon2 params error: ", t.as_str()));
    }
    let hash = argon2id_hash(password, salt, ARGON2_MEMORY_KIB, ARGON2_ITERATIONS, ARGON2_LANES);
    let derived = match hash {
        Err(t) => return Err(CryptoError::with_detail(CryptoErrorKind::HashingFailed, "Argon2 error: ", t.as_str())),
        Ok(None) => return Err(CryptoError::new(CryptoErrorKind::MissingHashOutput, String::from_str("Failed to get hash output"))),
        Ok(Some(k)) => k,
    };
    if derived.len() != 32 {
        return Err(CryptoError::new(
            CryptoErrorKind::DerivedKeyLength,
            String::from_str("Derived key length is not 32 bytes"),
        ));
    }
    let mut kek = bytes32(derived.as_slice());
    let mut secret = key.to_bytes();
    let sealed = xchacha_encrypt(&kek, nonce, secret.as_slice());
    let ghost secret_bytes = secret@;
    wipe_key(&mut kek);
    wipe_key(&mut secret);
    assert(secret_bytes == key@);
    let sealed = match sealed {
        Err(t) => return Err(CryptoError::with_detail(CryptoErrorKind::EncryptionFailure, "Encryption failure: ", t.as_str())),
        Ok(c) => c,
    };
    let nonce_text = base64_encode(nonce.as_slice());
    let sealed_text = base64_encode(sealed.as_slice());
    assert(sealed@.len() == 48);
    assert(4 * ((48 + 2) / 3) == 64) by (nonlinear_arith);
    assert(4 * ((24 + 2) / 3) == 32) by (nonlinear_arith);
    let file = EncryptedKeyFile {
        kdf_params: Argon2Params {
            salt: salt.to_owned(),
            iterations: ARGON2_ITERATIONS,
            memory: ARGON2_MEMORY_KIB,
            parallelism: ARGON2_LANES,
        },
        nonce: nonce_text,
        ciphertext: sealed_text,
    };
    Ok(file)
}

/// Seals `key` under `password` with a fresh random salt of 22 characters and
/// a fresh random nonce (see `encrypt_private_key_with`, which this is for some
/// valid salt and some nonce).
pub fn encrypt_private_key(key: &SigningKey, password: &str) -> (r: Result<EncryptedKeyFile, CryptoError>)
    ensures
        exists|salt: Seq<char>, nonce: Seq<u8>|
            is_salt_string(salt) && salt.len() == 22 && nonce.len() == 24
                && #[trigger] sealed_with(r, key@, password@, salt, nonce),
        r matches Ok(file) ==> holds_only_sealed(file, key@),
        r matches Ok(file) ==> decryption_outcome(file, password@) == Some(Ok::<Seq<u8>, Failure>(key@)),
{
    let salt = random_salt();
    let nonce = random_xnonce();
    let r = encrypt_private_key_with(key, password, salt.as_str(), &nonce);
    assert(sealed_with(r, key@, password@, salt@, nonce@));
    r
}

/// Opens a key file with a passphrase. Requires that the file is not one on
/// which no result can be had (see `decryption_outcome`);
/// `decrypt_private_key_checked` takes every file.
pub fn decrypt_private_key(encrypted: &EncryptedKeyFile, password: &str) -> (r: Result<SigningKey, CryptoError>)
    requires
        decryption_outcome(*encrypted, password@) is Some,
    ensures
        decryption_outcome(*encrypted, password@) == Some(key_result_view(r)),
{
    let mut kek = match derive_kek(&encrypted.kdf_params, password) {
        Ok(k) => k,
        Err(e) => return Err(e),
    };
    let opened = unseal(&kek, encrypted.nonce.as_str(), encrypted.ciphertext.as_str());
    wipe_key(&mut kek);
    match opened {
        Some(Ok(secret)) => {
            let mut secret = secret;
            let key = SigningKey::from_bytes(&secret);
            wipe_key(&mut secret);
            Ok(key)
        },
        Some(Err(e)) => Err(e),
        None => Err(CryptoError::new(CryptoErrorKind::InvalidKeyLength, String::new())),
    }
}

/// The outcome of decrypting, seen through the key's bytes.
pub open spec fn checked_view(r: Option<Result<SigningKey, CryptoError>>) -> Option<Result<Seq<u8>, Failure>> {
    match r {
        None => None,
        Some(k) => Some(key_result_view(k)),
    }
}

/// Opens a key file with a passphrase, for every file: `None` exactly where
/// `decrypt_private_key` has no result (the nonce is not 24 bytes, and nothing
/// failed before it was needed).
pub fn decrypt_private_key_checked(encrypted: &EncryptedKeyFile, password: &str) -> (r: Option<Result<SigningKey, CryptoError>>)
    ensures
        checked_view(r) == decryption_outcome(*encrypted, password@),
{
    let nonce_ok = match base64_decode(encrypted.nonce.as_str()) {
        Ok(n) => n.len() == 24,
        Err(_) => true,
    };
    if nonce_ok {
        return Some(decrypt_private_key(encrypted, password));
    }
    // Whether the file fails before its nonce is needed decides between that
    // failure and no result.
    match derive_kek(&encrypted.kdf_params, password) {
        Err(e) => Some(Err(e)),
        Ok(k) => {
            let mut kek = k;
            wipe_key(&mut kek);
            None
        },
    }
}

/// Signs `data` with `key`. The signature is Ed25519's (deterministic) one,
/// and it verifies under the key's own public key.
pub fn sign_data(key: &SigningKey, data: &[u8]) -> (sig: Signature)
    ensures
        sig@ == ed25519_signature_of(key@, data@),
        ed25519_accepts(ed25519_public_of(key@), data@, sig@),
{
    let mut secret = key.to_bytes();
    let bytes = ed25519_sign(&secret, data);
    wipe_key(&mut secret);
    Signature::from_bytes(&bytes)
}

/// Checks that `sig` is a valid signature of `data` under `key`; the failure's
/// text is "Verification failed: " followed by the text of Ed25519's rejection.
pub fn verify_signature(key: &VerifyingKey, data: &[u8], sig: &Signature) -> (r: Result<(), CryptoError>)
    ensures
        r is Ok <==> ed25519_accepts(key@, data@, sig@),
        r matches Err(e) ==> e@ == (
            CryptoErrorKind::VerificationFailed,
            "Verification failed: "@ + ed25519_rejection_text(sig@),
        ),
{
    match key.verify(data, sig) {
        Ok(()) => Ok(()),
        Err(t) => Err(CryptoError::with_detail(CryptoErrorKind::VerificationFailed, "Verification failed: ", t.as_str())),
    }
}

// ------------------------------------------------------------------ laws

/// The key that opens a key file is Argon2id of the whole passphrase (as
/// given, every character of it), under the recorded salt and costs: where that
/// hash gives 32 bytes they are the key-encryption key, and where it fails
/// the failure is Argon2's.
pub proof fn lemma_kek_hashes_whole_passphrase(params: Argon2Params, password: Seq<char>)
    requires
        is_salt_string(params.salt@),
        argon2_params_acceptable(params.memory, params.iterations, params.parallelism),
    ensures
        forall|kek: Seq<u8>|
            #![trigger argon2id_hash_of(password, params.salt@, params.memory, params.iterations, params.parallelism), kek.len()]
            argon2id_hash_of(password, params.salt@, params.memory, params.iterations, params.parallelism)
                == Ok::<Option<Seq<u8>>, Seq<char>>(Some(kek)) && kek.len() == 32
                ==> kek_outcome(params, password) == Ok::<Seq<u8>, Failure>(kek),
        forall|t: Seq<char>|
            argon2id_hash_of(password, params.salt@, params.memory, params.iterations, params.parallelism)
                == Err::<Option<Seq<u8>>, Seq<char>>(t)
                ==> kek_outcome(params, password) == failure::<Seq<u8>>(CryptoErrorKind::HashingFailed, "Argon2 error: "@ + t),
{
}

/// Opening a key file with a passphrase: under the key that Argon2id derives
/// from the whole passphrase, the recorded sealed bytes open to the secret
/// (or fail to authenticate).
pub proof fn lemma_decryption_opens_under_whole_passphrase(
    file: EncryptedKeyFile,
    password: Seq<char>,
    kek: Seq<u8>,
    nonce: Seq<u8>,
    sealed: Seq<u8>,
)
    requires
        is_salt_string(file.kdf_params.salt@),
        argon2_params_acceptable(file.kdf_params.memory, file.kdf_params.iterations, file.kdf_params.parallelism),
        argon2id_hash_of(
            password,
            file.kdf_params.salt@,
            file.kdf_params.memory,
            file.kdf_params.iterations,
            file.kdf_params.parallelism,
        ) == Ok::<Option<Seq<u8>>, Seq<char>>(Some(kek)),
        kek.len() == 32,
        base64_decoding_of(file.nonce@) == Ok::<Seq<u8>, Seq<char>>(nonce),
        nonce.len() == 24,
        base64_decoding_of(file.ciphertext@) == Ok::<Seq<u8>, Seq<char>>(sealed),
    ensures
        decryption_outcome(file, password) == match xchacha_open(kek, nonce, sealed) {
            None => Some(failure::<Seq<u8>>(CryptoErrorKind::DecryptionFailed, "Invalid password or corrupted key"@)),
            Some(p) => if p.len() == 32 {
                Some(Ok::<Seq<u8>, Failure>(p))
            } else {
                Some(failure::<Seq<u8>>(CryptoErrorKind::InvalidKeyLength, "Invalid key length"@))
            },
        },
{
    lemma_kek_hashes_whole_passphrase(file.kdf_params, password);
}

/// Sealing a secret: the sealed bytes are XChaCha20-Poly1305 under the key
/// that Argon2id derives from the whole passphrase with the given salt and the
/// fixed costs.
pub proof fn lemma_sealing_hashes_whole_passphrase(secret: Seq<u8>, password: Seq<char>, salt: Seq<char>, nonce: Seq<u8>, kek: Seq<u8>)
    requires
        argon2id_hash_of(password, salt, ARGON2_MEMORY_KIB, ARGON2_ITERATIONS, ARGON2_LANES)
            == Ok::<Option<Seq<u8>>, Seq<char>>(Some(kek)),
        kek.len() == 32,
    ensures
        xchacha_seal(kek, nonce, secret) matches Some(c) ==> sealing_outcome(secret, password, salt, nonce) == Ok::<Seq<u8>, Failure>(c),
        xchacha_seal(kek, nonce, secret) is None ==> sealing_outcome(secret, password, salt, nonce) is Err,
{
}

} // verus!
