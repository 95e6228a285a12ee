//! The stored form of an encrypted private key.
use vstd::prelude::*;

verus! {

/// Argon2id settings recorded next to an encrypted key.
pub struct Argon2Params {
    /// Salt, in the PHC "B64" alphabet.
    pub salt: String,
    pub iterations: u32,
    pub memory: u32,
    pub parallelism: u32,
}

/// An Ed25519 private key sealed under a passphrase-derived key.
pub struct EncryptedKeyFile {
    pub kdf_params: Argon2Params,
    /// Base64 (standard alphabet, padded) of the 24-byte XChaCha20 nonce.
    pub nonce: String,
    /// Base64 (standard alphabet, padded) of the sealed 32-byte secret.
    pub ciphertext: String,
}

} // verus!
