//! Ed25519 keys and signatures, held as their bytes.
use vstd::prelude::*;
use crate::backends::{
    ed25519_accepts, ed25519_point_check, ed25519_point_decodes, ed25519_public_key,
    ed25519_public_of, ed25519_rejection_text, ed25519_verify, hex_encode, wipe_key,
};
use crate::text::hex_encoding;

verus! {

/// The 32 bytes of a slice that has 32.
pub(crate) fn bytes32(v: &[u8]) -> (a: [u8; 32])
    requires
        v@.len() == 32,
    ensures
        a@ == v@,
{
    let mut a = [0u8; 32];
    let mut i: usize = 0;
    while i < 32
        invariant
            i <= 32,
            v@.len() == 32,
            forall|j: int| 0 <= j < i ==> a@[j] == v@[j],
        decreases 32 - i,
    {
        a[i] = v[i];
        i = i + 1;
    }
    assert(a@ =~= v@);
    a
}

/// The 64 bytes of a slice that has 64.
pub(crate) fn bytes64(v: &[u8]) -> (a: [u8; 64])
    requires
        v@.len() == 64,
    ensures
        a@ == v@,
{
    let mut a = [0u8; 64];
    let mut i: usize = 0;
    while i < 64
        invariant
            i <= 64,
            v@.len() == 64,
            forall|j: int| 0 <= j < i ==> a@[j] == v@[j],
        decreases 64 - i,
    {
        a[i] = v[i];
        i = i + 1;
    }
    assert(a@ =~= v@);
    a
}

/// An Ed25519 signing (private) key: its 32 secret bytes.
pub struct SigningKey {
    secret: [u8; 32],
}

impl View for SigningKey {
    type V = Seq<u8>;

    closed spec fn view(&self) -> Seq<u8> {
        self.secret@
    }
}

/// A signing key is always 32 bytes.
pub broadcast proof fn lemma_signing_key_len(key: SigningKey)
    ensures
        #[trigger] key@.len() == 32,
{
}

impl SigningKey {
    /// Every 32 bytes are a signing key.
    pub fn from_bytes(bytes: &[u8; 32]) -> (key: SigningKey)
        ensures
            key@ == bytes@,
    {
        SigningKey { secret: *bytes }
    }

    /// The 32 secret bytes.
    pub fn to_bytes(&self) -> (bytes: [u8; 32])
        ensures
            bytes@ == self@,
    {
        self.secret
    }

    /// Overwrites the secret with zeros, for when the key is no longer needed.
    pub fn wipe(&mut self)
        ensures
            final(self)@ == Seq::new(32, |i: int| 0u8),
    {
        wipe_key(&mut self.secret);
    }

    /// The public key that belongs to this key.
    pub fn verifying_key(&self) -> (public: VerifyingKey)
        ensures
            public@ == ed25519_public_of(self@),
    {
        let bytes = ed25519_public_key(&self.secret);
        VerifyingKey { bytes }
    }
}

/// An Ed25519 verifying (public) key: 32 bytes that decompress to a point.
pub struct VerifyingKey {
    bytes: [u8; 32],
}

impl View for VerifyingKey {
    type V = Seq<u8>;

    closed spec fn view(&self) -> Seq<u8> {
        self.bytes@
    }
}

impl VerifyingKey {
    #[verifier::type_invariant]
    spec fn decodes(&self) -> bool {
        ed25519_point_decodes(self.bytes@)
    }

    /// The bytes of a public key, if they are one.
    pub fn from_bytes(bytes: &[u8; 32]) -> (key: Option<VerifyingKey>)
        ensures
            key is Some <==> ed25519_point_decodes(bytes@),
            key matches Some(k) ==> k@ == bytes@,
    {
        if ed25519_point_check(bytes) {
            Some(VerifyingKey { bytes: *bytes })
        } else {
            None
        }
    }

    /// The 32 bytes of the key.
    pub fn to_bytes(&self) -> (bytes: [u8; 32])
        ensures
            bytes@ == self@,
    {
        self.bytes
    }

    /// Verifies `signature` as a signature of `message` under this key: `Ok`
    /// exactly when Ed25519 verification accepts it, else the text of the
    /// rejection.
    pub fn verify(&self, message: &[u8], signature: &Signature) -> (r: Result<(), String>)
        ensures
            r is Ok == ed25519_accepts(self@, message@, signature@),
            r matches Err(text) ==> text@ == ed25519_rejection_text(signature@),
    {
        proof {
            use_type_invariant(self);
        }
        ed25519_verify(&self.bytes, message, &signature.bytes)
    }

    /// The lowercase hex of the key.
    pub fn to_hex(&self) -> (text: String)
        ensures
            text@ == hex_encoding(self@),
    {
        hex_encode(self.bytes.as_slice())
    }
}

/// An Ed25519 signature: its 64 bytes.
pub struct Signature {
    bytes: [u8; 64],
}

impl View for Signature {
    type V = Seq<u8>;

    closed spec fn view(&self) -> Seq<u8> {
        self.bytes@
    }
}

impl Signature {
    /// Every 64 bytes are a signature (whether it verifies is another matter).
    pub fn from_bytes(bytes: &[u8; 64]) -> (sig: Signature)
        ensures
            sig@ == bytes@,
    {
        Signature { bytes: *bytes }
    }

    /// The 64 bytes of the signature.
    pub fn to_bytes(&self) -> (bytes: [u8; 64])
        ensures
            bytes@ == self@,
    {
        self.bytes
    }

    /// The lowercase hex of the signature, the form in which it is stored.
    pub fn to_hex(&self) -> (text: String)
        ensures
            text@ == hex_encoding(self@),
    {
        hex_encode(self.bytes.as_slice())
    }
}

} // verus!
