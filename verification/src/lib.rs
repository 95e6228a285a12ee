//! Code signing with Ed25519 keys whose private half is kept encrypted
//! under a passphrase (Argon2id key derivation, XChaCha20-Poly1305 sealing).
use vstd::prelude::*;

pub mod backends;
pub mod commands;
pub mod crypto;
pub mod keys;
pub mod keystore;
pub mod panels;
pub mod text;

verus! {

} // verus!
