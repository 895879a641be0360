//! Key material of a node: the 32-byte secret, and the public key derived from it.
//!
//! The curve arithmetic is iroh's. This module keeps the keys as plain bytes and
//! states, over two named results, what the calls into iroh return.

use vstd::prelude::*;

verus! {

/// The width of a secret key and of a public key, in bytes.
pub const KEY_LENGTH: usize = 32;

/// A public key as it travels through the registry: 32 raw bytes, unchecked.
pub type PubKey = [u8; 32];

/// The public key that `iroh::SecretKey::public` derives from 32 secret bytes,
/// as raw bytes.
pub uninterp spec fn public_key_of(secret: Seq<u8>) -> Seq<u8>;

/// Whether `iroh::PublicKey::from_bytes` accepts the bytes, that is whether they
/// are the compressed form of a point of the curve.
pub uninterp spec fn is_public_key(bytes: Seq<u8>) -> bool;

/// Calls `iroh::SecretKey::public` on the key that `iroh::SecretKey::from_bytes`
/// builds from `secret`, and hands out the bytes of the result.
///
/// Trusted: the result is the named derivation of the secret bytes, and it is a
/// key that `iroh::PublicKey::from_bytes` accepts, as iroh documents of the
/// bytes of any of its public keys.
#[verifier::external_body]
fn iroh_public(secret: &[u8; 32]) -> (public: [u8; 32])
    ensures
        public@ == public_key_of(secret@),
        is_public_key(public@),
{
    *iroh::SecretKey::from_bytes(secret).public().as_bytes()
}

/// Calls `iroh::PublicKey::from_bytes` and reports whether it accepted the bytes.
///
/// Trusted: the answer is the named predicate on the bytes.
#[verifier::external_body]
fn iroh_accepts(bytes: &[u8; 32]) -> (accepted: bool)
    ensures
        accepted == is_public_key(bytes@),
{
    iroh::PublicKey::from_bytes(bytes).is_ok()
}

/// Calls `iroh::SecretKey::generate`, which draws 32 bytes from the process's
/// cryptographic random number generator, and hands out the bytes.
///
/// Nothing is claimed of the bytes: every draw may differ.
#[verifier::external_body]
fn iroh_generate() -> (secret: [u8; 32]) {
    iroh::SecretKey::generate().to_bytes()
}

/// A node's secret key: 32 raw bytes, owned by one node and never sent.
pub struct SecretKey {
    bytes: [u8; 32],
}

impl Clone for SecretKey {
    fn clone(&self) -> (copy: SecretKey)
        ensures
            copy == *self,
    {
        SecretKey { bytes: self.bytes }
    }
}

impl View for SecretKey {
    type V = Seq<u8>;

    closed spec fn view(&self) -> Seq<u8> {
        self.bytes@
    }
}

impl SecretKey {
    /// Every secret key is 32 bytes wide.
    pub proof fn lemma_length(self)
        ensures
            self@.len() == KEY_LENGTH,
    {
    }

    /// The key made of exactly these bytes. Every 32 bytes are a secret key.
    pub fn from_bytes(bytes: &[u8; 32]) -> (key: SecretKey)
        ensures
            key@ == bytes@,
    {
        SecretKey { bytes: *bytes }
    }

    /// The key's bytes, as they are persisted.
    pub fn to_bytes(&self) -> (bytes: [u8; 32])
        ensures
            bytes@ == self@,
    {
        self.bytes
    }

    /// The key held in the first 32 bytes of `stored`, or nothing where `stored`
    /// is shorter than a key.
    pub fn from_stored(stored: &[u8]) -> (key: Option<SecretKey>)
        ensures
            stored@.len() < KEY_LENGTH ==> key is None,
            stored@.len() >= KEY_LENGTH ==> key is Some && key->Some_0@ == stored@.subrange(
                0,
                KEY_LENGTH as int,
            ),
    {
        if stored.len() < KEY_LENGTH {
            return None;
        }
        let mut bytes: [u8; 32] = [0u8; 32];
        let mut i: usize = 0;
        while i < KEY_LENGTH
            invariant
                i <= KEY_LENGTH,
                stored@.len() >= KEY_LENGTH,
                forall|j: int| 0 <= j < i ==> bytes@[j] == stored@[j],
            decreases KEY_LENGTH - i,
        {
            bytes[i] = stored[i];
            i += 1;
        }
        assert(bytes@ =~= stored@.subrange(0, KEY_LENGTH as int));
        Some(SecretKey { bytes })
    }

    /// A fresh secret key from the cryptographic random number generator.
    pub fn generate() -> (key: SecretKey) {
        SecretKey { bytes: iroh_generate() }
    }

    /// The public key that belongs to this secret key. It depends on the secret
    /// bytes alone.
    pub fn public(&self) -> (public: PublicKey)
        ensures
            public@ == public_key_of(self@),
    {
        PublicKey { bytes: iroh_public(&self.bytes) }
    }
}

/// The public key of a secret key depends on the secret bytes alone: deriving it
/// twice, or from two keys with the same bytes, gives the same public key.
pub proof fn lemma_public_key_is_deterministic(first: SecretKey, second: SecretKey)
    requires
        first@ == second@,
    ensures
        public_key_of(first@) == public_key_of(second@),
{
}

/// A node's public key, which is also its address: 32 bytes that are a point of
/// the curve.
#[derive(Clone, Copy)]
pub struct PublicKey {
    bytes: [u8; 32],
}

impl View for PublicKey {
    type V = Seq<u8>;

    closed spec fn view(&self) -> Seq<u8> {
        self.bytes@
    }
}

/// Why bytes were not taken for a public key.
#[derive(Clone, Copy, Debug, PartialEq, Eq)]
pub enum KeyError {
    /// The input is not 32 bytes long.
    InvalidLength,
    /// The 32 bytes are no point of the curve.
    InvalidKeyData,
}

/// What parsing `bytes` as a public key gives.
pub open spec fn parse_public_key(bytes: Seq<u8>) -> Result<Seq<u8>, KeyError> {
    if bytes.len() != KEY_LENGTH {
        Err(KeyError::InvalidLength)
    } else if !is_public_key(bytes) {
        Err(KeyError::InvalidKeyData)
    } else {
        Ok(bytes)
    }
}

impl PublicKey {
    #[verifier::type_invariant]
    spec fn well_formed(self) -> bool {
        is_public_key(self.bytes@)
    }

    /// The public key with these bytes, where they are a point of the curve.
    pub fn from_bytes(bytes: &[u8; 32]) -> (key: Result<PublicKey, KeyError>)
        ensures
            is_public_key(bytes@) ==> key is Ok && key->Ok_0@ == bytes@,
            !is_public_key(bytes@) ==> key == Err::<PublicKey, KeyError>(KeyError::InvalidKeyData),
    {
        if iroh_accepts(bytes) {
            Ok(PublicKey { bytes: *bytes })
        } else {
            Err(KeyError::InvalidKeyData)
        }
    }

    /// The public key held in `bytes`, where they are 32 and a point of the
    /// curve; else the reason why they are no key.
    pub fn from_slice(bytes: &[u8]) -> (key: Result<PublicKey, KeyError>)
        ensures
            match parse_public_key(bytes@) {
                Ok(parsed) => key is Ok && key->Ok_0@ == parsed,
                Err(reason) => key == Err::<PublicKey, KeyError>(reason),
            },
    {
        if bytes.len() != KEY_LENGTH {
            return Err(KeyError::InvalidLength);
        }
        let mut copy: [u8; 32] = [0u8; 32];
        let mut i: usize = 0;
        while i < KEY_LENGTH
            invariant
                i <= KEY_LENGTH,
                bytes@.len() == KEY_LENGTH,
                forall|j: int| 0 <= j < i ==> copy@[j] == bytes@[j],
            decreases KEY_LENGTH - i,
        {
            copy[i] = bytes[i];
            i += 1;
        }
        assert(copy@ =~= bytes@);
        PublicKey::from_bytes(&copy)
    }

    /// The key's bytes. They are 32, and a point of the curve.
    pub fn as_bytes(&self) -> (bytes: &[u8; 32])
        ensures
            bytes@ == self@,
            is_public_key(self@),
    {
        proof {
            use_type_invariant(self);
        }
        &self.bytes
    }
}

} // verus!
