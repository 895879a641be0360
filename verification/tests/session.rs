use juus::keys::{PublicKey, SecretKey};
use juus::session::{
    CloseReason, ConnectionState, Direction, Phase, Session, SessionAction, SessionEvent,
};

fn key(seed: u8) -> PublicKey {
    SecretKey::from_bytes(&[seed; 32]).public()
}

fn same(a: Option<PublicKey>, b: &PublicKey) -> bool {
    match a {
        Some(k) => k.as_bytes() == b.as_bytes(),
        None => false,
    }
}

#[test]
fn inbound_session_runs_to_open() {
    let peer = key(1);
    let mut session = Session::inbound();
    assert!(matches!(session.direction, Direction::Inbound));
    assert_eq!(session.state(), ConnectionState::Accepting);
    assert!(session.peer().is_none());

    assert!(matches!(session.on_event(SessionEvent::Accepted), SessionAction::AwaitHandshake));
    assert_eq!(session.state(), ConnectionState::Authenticating);
    assert!(matches!(session.on_event(SessionEvent::HandshakeCompleted), SessionAction::IdentifyPeer));
    assert_eq!(session.state(), ConnectionState::Authenticating);
    assert!(session.peer().is_none());
    assert!(matches!(
        session.on_event(SessionEvent::PeerIdentified { peer }),
        SessionAction::AcceptStream
    ));
    assert_eq!(session.state(), ConnectionState::Authenticating);
    assert!(same(session.peer(), &peer));
    match session.on_event(SessionEvent::StreamOpened) {
        SessionAction::Serve { peer: served } => assert_eq!(served.as_bytes(), peer.as_bytes()),
        _ => panic!("the open stream is to be served"),
    }
    assert_eq!(session.state(), ConnectionState::Open);
    assert!(same(session.peer(), &peer));
    assert!(!session.is_closed());

    assert!(matches!(
        session.on_event(SessionEvent::Finished),
        SessionAction::Report { reason: CloseReason::Completed }
    ));
    assert_eq!(session.state(), ConnectionState::Closed(CloseReason::Completed));
    assert!(session.is_closed());
}

#[test]
fn failed_attempt_closes_the_session() {
    let mut session = Session::inbound();
    assert!(matches!(
        session.on_event(SessionEvent::Failed),
        SessionAction::Report { reason: CloseReason::AcceptFailed }
    ));
    assert_eq!(session.state(), ConnectionState::Closed(CloseReason::AcceptFailed));
}

#[test]
fn failed_handshake_closes_the_session() {
    let mut session = Session::inbound();
    session.on_event(SessionEvent::Accepted);
    assert!(matches!(
        session.on_event(SessionEvent::Failed),
        SessionAction::Report { reason: CloseReason::HandshakeFailed }
    ));
    assert_eq!(session.state(), ConnectionState::Closed(CloseReason::HandshakeFailed));
    assert!(session.peer().is_none());
}

#[test]
fn unknown_peer_closes_the_session() {
    let mut session = Session::inbound();
    session.on_event(SessionEvent::Accepted);
    session.on_event(SessionEvent::HandshakeCompleted);
    assert!(matches!(
        session.on_event(SessionEvent::Failed),
        SessionAction::Report { reason: CloseReason::PeerUnknown }
    ));
    assert_eq!(session.state(), ConnectionState::Closed(CloseReason::PeerUnknown));
}

#[test]
fn failed_stream_closes_the_session() {
    let mut session = Session::inbound();
    session.on_event(SessionEvent::Accepted);
    session.on_event(SessionEvent::HandshakeCompleted);
    session.on_event(SessionEvent::PeerIdentified { peer: key(2) });
    assert!(matches!(
        session.on_event(SessionEvent::Failed),
        SessionAction::Report { reason: CloseReason::StreamFailed }
    ));
    assert_eq!(session.state(), ConnectionState::Closed(CloseReason::StreamFailed));
}

#[test]
fn broken_open_stream_closes_the_session() {
    let mut session = Session::dial(key(3));
    session.on_event(SessionEvent::HandshakeCompleted);
    session.on_event(SessionEvent::StreamOpened);
    assert_eq!(session.state(), ConnectionState::Open);
    assert!(matches!(
        session.on_event(SessionEvent::Failed),
        SessionAction::Report { reason: CloseReason::StreamFailed }
    ));
    assert!(session.is_closed());
}

#[test]
fn closed_session_is_never_resumed() {
    let mut session = Session::inbound();
    session.on_event(SessionEvent::Accepted);
    session.on_event(SessionEvent::Failed);
    let events = [
        SessionEvent::Accepted,
        SessionEvent::HandshakeCompleted,
        SessionEvent::PeerIdentified { peer: key(4) },
        SessionEvent::StreamOpened,
        SessionEvent::Finished,
        SessionEvent::Failed,
    ];
    for event in events {
        assert!(matches!(session.on_event(event), SessionAction::Ignore));
        assert_eq!(session.state(), ConnectionState::Closed(CloseReason::HandshakeFailed));
        assert!(session.peer().is_none());
    }
}

#[test]
fn events_out_of_turn_are_ignored() {
    let mut session = Session::inbound();
    assert!(matches!(session.on_event(SessionEvent::StreamOpened), SessionAction::Ignore));
    assert!(matches!(session.on_event(SessionEvent::HandshakeCompleted), SessionAction::Ignore));
    assert!(matches!(
        session.on_event(SessionEvent::PeerIdentified { peer: key(5) }),
        SessionAction::Ignore
    ));
    assert!(matches!(session.on_event(SessionEvent::Finished), SessionAction::Ignore));
    assert_eq!(session.state(), ConnectionState::Accepting);
    assert!(matches!(session.phase, Phase::Accepting));
    session.on_event(SessionEvent::Accepted);
    assert!(matches!(session.on_event(SessionEvent::Accepted), SessionAction::Ignore));
    assert!(matches!(session.phase, Phase::Handshaking));
}

#[test]
fn dialed_session_opens_with_the_dialed_key() {
    let peer = key(6);
    let mut session = Session::dial(peer);
    assert_eq!(session.state(), ConnectionState::Authenticating);
    match session.direction {
        Direction::Outbound { peer: dialed } => assert_eq!(dialed.as_bytes(), peer.as_bytes()),
        Direction::Inbound => panic!("a dialed session is outbound"),
    }
    assert!(matches!(session.on_event(SessionEvent::HandshakeCompleted), SessionAction::OpenStream));
    assert!(same(session.peer(), &peer));
    assert!(matches!(session.on_event(SessionEvent::StreamOpened), SessionAction::Serve { .. }));
    assert_eq!(session.state(), ConnectionState::Open);
    assert!(same(session.peer(), &peer));
}

#[test]
fn dialed_session_keeps_its_peer_against_other_identities() {
    let peer = key(7);
    let other = key(8);
    let mut session = Session::dial(peer);
    assert!(matches!(
        session.on_event(SessionEvent::PeerIdentified { peer: other }),
        SessionAction::Ignore
    ));
    session.on_event(SessionEvent::HandshakeCompleted);
    assert!(matches!(
        session.on_event(SessionEvent::PeerIdentified { peer: other }),
        SessionAction::Ignore
    ));
    session.on_event(SessionEvent::StreamOpened);
    assert!(same(session.peer(), &peer));
    assert!(!same(session.peer(), &other));
}

#[test]
fn failed_dial_closes_the_session() {
    let mut session = Session::dial(key(9));
    assert!(matches!(
        session.on_event(SessionEvent::Failed),
        SessionAction::Report { reason: CloseReason::HandshakeFailed }
    ));
    assert_eq!(session.state(), ConnectionState::Closed(CloseReason::HandshakeFailed));
}
