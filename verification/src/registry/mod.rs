//! The name registry: a durable directory from display name to public key, and
//! the two operations it serves.

pub mod laws;
pub mod service;
pub mod store;

use vstd::prelude::*;
use crate::keys::PubKey;

verus! {

/// The body of a lookup: the name to resolve.
#[derive(Debug, PartialEq, Eq)]
pub struct MemberStub {
    pub name: String,
}

/// A directory entry, and the body of a publication: a name and the key that
/// belongs to it.
#[derive(Debug, PartialEq, Eq)]
pub struct Member {
    pub name: String,
    pub pubkey: PubKey,
}

} // verus!
