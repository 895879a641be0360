//! What holds of the directory across publications and lookups.

use vstd::prelude::*;
use crate::registry::store::{lookup, publish};

verus! {

/// A name that was published resolves to the key it was published with.
pub proof fn lemma_set_then_get(rows: Map<Seq<char>, Seq<u8>>, name: Seq<char>, key: Seq<u8>)
    ensures
        lookup(publish(rows, name, key), name) == Some(key),
{
}

/// Of two publications under one name the later one wins: the name resolves to
/// the second key, and the directory is as if the first had never been made.
pub proof fn lemma_last_write_wins(
    rows: Map<Seq<char>, Seq<u8>>,
    name: Seq<char>,
    first: Seq<u8>,
    second: Seq<u8>,
)
    ensures
        lookup(publish(publish(rows, name, first), name, second), name) == Some(second),
        publish(publish(rows, name, first), name, second) == publish(rows, name, second),
{
    assert(publish(publish(rows, name, first), name, second) =~= publish(rows, name, second));
}

/// A name that nobody published resolves to nothing: no key stands in for it,
/// whatever else the directory holds.
pub proof fn lemma_unset_is_not_found(rows: Map<Seq<char>, Seq<u8>>, name: Seq<char>)
    requires
        !rows.contains_key(name),
    ensures
        lookup(rows, name) is None,
        forall|key: Seq<u8>| lookup(rows, name) != Some(key),
{
}

/// In a directory without entries every name resolves to nothing.
pub proof fn lemma_empty_directory(name: Seq<char>)
    ensures
        lookup(Map::<Seq<char>, Seq<u8>>::empty(), name) is None,
{
}

/// A publication changes what its own name resolves to, and nothing else.
pub proof fn lemma_publish_keeps_others(
    rows: Map<Seq<char>, Seq<u8>>,
    name: Seq<char>,
    key: Seq<u8>,
    other: Seq<char>,
)
    requires
        other != name,
    ensures
        lookup(publish(rows, name, key), other) == lookup(rows, other),
{
}

} // verus!
