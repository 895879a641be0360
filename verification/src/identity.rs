//! Where a node's secret key comes from: the identity file, or the random
//! number generator when the file is missing or too short.
//!
//! Reading and writing the file is the caller's part. This module decides, from
//! what was read, which key the node runs with and whether the file has to be
//! written.

use vstd::prelude::*;
use crate::keys::{SecretKey, KEY_LENGTH};

verus! {

/// The key that an identity file holds: its first 32 bytes. A missing file, or
/// one with fewer than 32 bytes, holds none.
pub open spec fn stored_key(stored: Option<Seq<u8>>) -> Option<Seq<u8>> {
    match stored {
        Some(bytes) => if bytes.len() >= KEY_LENGTH {
            Some(bytes.subrange(0, KEY_LENGTH as int))
        } else {
            None
        },
        None => None,
    }
}

/// A file that is missing, or holds fewer than 32 bytes, holds no key: the node
/// makes a new one, whatever the bytes are.
pub proof fn lemma_short_file_holds_no_key(stored: Option<Seq<u8>>)
    requires
        stored matches Some(bytes) ==> bytes.len() < KEY_LENGTH,
    ensures
        stored_key(stored) is None,
{
}

/// A file of exactly 32 bytes holds those bytes as its key, and a longer one
/// its first 32: the key that is loaded is always 32 bytes wide.
pub proof fn lemma_stored_key_is_a_prefix(bytes: Seq<u8>)
    requires
        bytes.len() >= KEY_LENGTH,
    ensures
        stored_key(Some(bytes)) is Some,
        stored_key(Some(bytes))->Some_0.len() == KEY_LENGTH,
        stored_key(Some(bytes))->Some_0 == bytes.take(KEY_LENGTH as int),
        bytes.len() == KEY_LENGTH ==> stored_key(Some(bytes)) == Some(bytes),
{
    assert(bytes.subrange(0, KEY_LENGTH as int) =~= bytes.take(KEY_LENGTH as int));
    if bytes.len() == KEY_LENGTH {
        assert(bytes.subrange(0, KEY_LENGTH as int) =~= bytes);
    }
}

/// The view of what was read from the identity file.
pub open spec fn stored_view(stored: Option<Vec<u8>>) -> Option<Seq<u8>> {
    match stored {
        Some(bytes) => Some(bytes@),
        None => None,
    }
}

/// The secret key a node starts with, and whether it was made just now.
pub struct Identity {
    pub secret_key: SecretKey,
    /// True where the key was generated: the identity file has to be
    /// overwritten with it, and the name the node had published is stale.
    pub generated: bool,
}

impl Identity {
    /// What the identity file has to hold once the node has started: the 32
    /// bytes of the key.
    pub open spec fn file_contents(self) -> Seq<u8> {
        self.secret_key@
    }

    /// The identity of a node that found its key in the file.
    pub fn loaded(secret_key: SecretKey) -> (identity: Identity)
        ensures
            identity.secret_key == secret_key,
            !identity.generated,
    {
        Identity { secret_key, generated: false }
    }

    /// The identity of a node that had to make a new key.
    pub fn fresh(secret_key: SecretKey) -> (identity: Identity)
        ensures
            identity.secret_key == secret_key,
            identity.generated,
    {
        Identity { secret_key, generated: true }
    }

    /// The bytes to write over the identity file: the whole key where it was
    /// generated, nothing where the file already holds it.
    pub fn bytes_to_persist(&self) -> (bytes: Option<[u8; 32]>)
        ensures
            self.generated ==> bytes is Some && bytes->Some_0@ == self.file_contents()
                && bytes->Some_0@.len() == KEY_LENGTH,
            !self.generated ==> bytes is None,
    {
        if self.generated {
            Some(self.secret_key.to_bytes())
        } else {
            None
        }
    }

    /// Whether the node has to publish its name again, because its public key
    /// changed.
    pub fn needs_publish(&self) -> (stale: bool)
        ensures
            stale == self.generated,
    {
        self.generated
    }
}

/// Chooses between the stored key and `fresh`: the stored key where the file
/// holds one, else `fresh`, to be persisted.
pub fn load_or_create_with(stored: Option<Vec<u8>>, fresh: SecretKey) -> (identity: Identity)
    ensures
        match stored_key(stored_view(stored)) {
            Some(key) => identity.secret_key@ == key && !identity.generated,
            None => identity.secret_key == fresh && identity.generated,
        },
{
    match stored {
        Some(bytes) => match SecretKey::from_stored(bytes.as_slice()) {
            Some(key) => Identity::loaded(key),
            None => Identity::fresh(fresh),
        },
        None => Identity::fresh(fresh),
    }
}

} // verus!
