//! A node: its identity, what its endpoint is bound with, and what it says to
//! the registry.
//!
//! Nothing here touches a file or a socket. The caller reads the identity file,
//! binds the endpoint, sends the requests, and hands the outcomes back.

use vstd::prelude::*;
use crate::acceptor::Acceptor;
use crate::discovery::{build, strategy_for, DiscoveryStrategy, PkarrRelay};
use crate::identity::{stored_key, stored_view, Identity};
use crate::keys::{parse_public_key, public_key_of, KeyError, PublicKey, SecretKey, KEY_LENGTH};
use crate::registry::service::{STATUS_NOT_FOUND, STATUS_OK};
use crate::registry::{Member, MemberStub};
use crate::session::{Direction, Session};

verus! {

/// The application protocol tag, as a sequence of bytes: `juus-p2p-v0`.
pub open spec fn protocol_tag() -> Seq<u8> {
    seq![106u8, 117u8, 117u8, 115u8, 45u8, 112u8, 50u8, 112u8, 45u8, 118u8, 48u8]
}

/// The tag that both sides of a connection must present. The transport rejects
/// a connection that presents another one.
pub fn protocol_id() -> (tag: Vec<u8>)
    ensures
        tag@ == protocol_tag(),
{
    let mut tag: Vec<u8> = Vec::new();
    tag.push(106u8);
    tag.push(117u8);
    tag.push(117u8);
    tag.push(115u8);
    tag.push(45u8);
    tag.push(112u8);
    tag.push(50u8);
    tag.push(112u8);
    tag.push(45u8);
    tag.push(118u8);
    tag.push(48u8);
    tag
}

/// Why a name was not resolved to a key.
#[derive(Clone, Copy, Debug, PartialEq, Eq)]
pub enum ResolveError {
    /// The registry knows nobody of that name.
    NotFound,
    /// The registry failed, or answered with a status that it does not define.
    RegistryFault { status: u16 },
    /// The registry answered with bytes that are no public key.
    InvalidKey { reason: KeyError },
}

/// What a reply of the registry to a lookup means: the public key in a body of
/// status 200, nobody of that name for status 404, a fault of the registry for
/// any other status.
pub open spec fn resolved_key(status: u16, body: Seq<u8>) -> Result<Seq<u8>, ResolveError> {
    if status == STATUS_OK {
        match parse_public_key(body) {
            Ok(key) => Ok(key),
            Err(reason) => Err(ResolveError::InvalidKey { reason }),
        }
    } else if status == STATUS_NOT_FOUND {
        Err(ResolveError::NotFound)
    } else {
        Err(ResolveError::RegistryFault { status })
    }
}

/// A node before its endpoint is bound: the key it runs with, the protocol
/// identifiers it advertises, and its discovery strategy.
pub struct JuNode {
    pub secret_key: SecretKey,
    pub alpns: Vec<Vec<u8>>,
    pub discovery: DiscoveryStrategy,
}

impl JuNode {
    /// The discovery strategy for `relay`.
    pub fn build_discovery(relay: PkarrRelay) -> (strategy: DiscoveryStrategy)
        ensures
            strategy == strategy_for(relay),
    {
        build(relay)
    }

    /// The body of the lookup that asks the registry for `username`.
    pub fn peer_query(username: String) -> (stub: MemberStub)
        ensures
            stub.name@ == username@,
    {
        MemberStub { name: username }
    }

    /// Reads the registry's reply to a lookup: the peer's public key where the
    /// registry found the name and sent a key, else the reason why there is none.
    pub fn get_peer_publickey(status: u16, body: &[u8]) -> (peer: Result<PublicKey, ResolveError>)
        ensures
            match resolved_key(status, body@) {
                Ok(key) => peer is Ok && peer->Ok_0@ == key,
                Err(reason) => peer == Err::<PublicKey, ResolveError>(reason),
            },
    {
        if status == STATUS_OK {
            match PublicKey::from_slice(body) {
                Ok(key) => Ok(key),
                Err(reason) => Err(ResolveError::InvalidKey { reason }),
            }
        } else if status == STATUS_NOT_FOUND {
            Err(ResolveError::NotFound)
        } else {
            Err(ResolveError::RegistryFault { status })
        }
    }

    /// The body of the publication that tells the registry that `username` has
    /// the public key of `secret_key`.
    pub fn publish_publickey(secret_key: &SecretKey, username: String) -> (member: Member)
        ensures
            member.name@ == username@,
            member.pubkey@ == public_key_of(secret_key@),
    {
        let public = secret_key.public();
        Member { name: username, pubkey: *public.as_bytes() }
    }

    /// Makes a new secret key. The caller writes it over the identity file and
    /// publishes the node's name again.
    pub fn generate_secretkey() -> (identity: Identity)
        ensures
            identity.generated,
            identity.file_contents().len() == KEY_LENGTH,
    {
        let identity = Identity::fresh(SecretKey::generate());
        proof {
            identity.secret_key.lemma_length();
        }
        identity
    }

    /// Takes the key from what the identity file held, or makes a new one where
    /// the file was missing (`None`) or held fewer than 32 bytes. A new key is
    /// made only then, and is to be written over the file.
    pub fn deserialize_or_gen_secretkey(stored: Option<Vec<u8>>) -> (identity: Identity)
        ensures
            match stored_key(stored_view(stored)) {
                Some(key) => identity.secret_key@ == key && !identity.generated,
                None => identity.generated,
            },
            identity.file_contents().len() == KEY_LENGTH,
    {
        let identity = match stored {
            Some(bytes) => match SecretKey::from_stored(bytes.as_slice()) {
                Some(key) => Identity::loaded(key),
                None => JuNode::generate_secretkey(),
            },
            None => JuNode::generate_secretkey(),
        };
        proof {
            identity.secret_key.lemma_length();
        }
        identity
    }

    /// The node that runs with `secret_key`: it advertises the protocol tag and
    /// nothing else, and discovers peers as `relay` says.
    pub fn new(secret_key: SecretKey, relay: PkarrRelay) -> (node: JuNode)
        ensures
            node.secret_key == secret_key,
            node.alpns@.len() == 1,
            node.alpns@[0]@ == protocol_tag(),
            node.discovery == strategy_for(relay),
    {
        let mut alpns: Vec<Vec<u8>> = Vec::new();
        alpns.push(protocol_id());
        JuNode { secret_key, alpns, discovery: JuNode::build_discovery(relay) }
    }

    /// The node's public key, which is its address.
    pub fn public_key(&self) -> (public: PublicKey)
        ensures
            public@ == public_key_of(self.secret_key@),
    {
        self.secret_key.public()
    }

    /// Starts a connection to `remote_id`: the session that the caller drives
    /// while it dials. The handshake authenticates the peer by that key.
    pub fn create_connection(&self, remote_id: PublicKey) -> (session: Session)
        ensures
            session.direction == (Direction::Outbound { peer: remote_id }),
            session.phase is Handshaking,
    {
        Session::dial(remote_id)
    }

    /// Starts taking inbound connections: the acceptor that the caller drives
    /// while it waits on the endpoint.
    pub fn handle_connections(&self) -> (acceptor: Acceptor)
        ensures
            acceptor.state is Listening,
    {
        Acceptor::new()
    }
}

} // verus!
