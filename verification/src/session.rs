//! The lifecycle of one connection, as a machine that the transport drives.
//!
//! The caller owns the sockets. After each step of the transport it hands the
//! outcome to [`Session::on_event`] and performs the action that comes back. A
//! session belongs to one task; nothing it does reaches another session or the
//! acceptor.

use vstd::prelude::*;
use crate::keys::PublicKey;

verus! {

/// Which side opened the connection.
#[derive(Clone, Copy)]
pub enum Direction {
    /// A peer connected to this node.
    Inbound,
    /// This node dialed `peer`.
    Outbound { peer: PublicKey },
}

/// Why a connection ended.
#[derive(Clone, Copy, Debug, PartialEq, Eq)]
pub enum CloseReason {
    /// The inbound attempt could not be taken up, as happens with a malformed
    /// or retransmitted packet.
    AcceptFailed,
    /// The handshake failed: wrong protocol identifier, or authentication.
    HandshakeFailed,
    /// The handshake succeeded, but the peer's identity could not be read.
    PeerUnknown,
    /// The bidirectional stream could not be opened, or broke.
    StreamFailed,
    /// The connection ran to its end.
    Completed,
}

/// The coarse state of a connection.
#[derive(Clone, Copy, Debug, PartialEq, Eq)]
pub enum ConnectionState {
    Accepting,
    Authenticating,
    Open,
    Closed(CloseReason),
}

/// Where a connection stands, step by step.
#[derive(Clone, Copy)]
pub enum Phase {
    /// Inbound: taken from the endpoint, not accepted yet.
    Accepting,
    /// The handshake is running.
    Handshaking,
    /// Inbound: the handshake is done, the peer's identity is being read.
    Identifying,
    /// The peer is known, the stream is being opened.
    OpeningStream { peer: PublicKey },
    /// The stream is open.
    Open { peer: PublicKey },
    /// The connection has ended. It is never taken up again.
    Closed { reason: CloseReason },
}

/// What the transport reports of the step that was in progress.
#[derive(Clone, Copy)]
pub enum SessionEvent {
    /// The inbound attempt was taken up.
    Accepted,
    /// The handshake succeeded.
    HandshakeCompleted,
    /// The transport gave the authenticated identity of the peer.
    PeerIdentified { peer: PublicKey },
    /// The bidirectional stream is open.
    StreamOpened,
    /// The application is done with the stream.
    Finished,
    /// The step failed.
    Failed,
}

/// What the caller has to do next.
#[derive(Clone, Copy)]
pub enum SessionAction {
    /// Wait for the handshake to complete.
    AwaitHandshake,
    /// Ask the transport for the peer's authenticated identity.
    IdentifyPeer,
    /// Open a bidirectional stream to the peer.
    OpenStream,
    /// Accept the bidirectional stream that the peer opens.
    AcceptStream,
    /// Hand the open stream to the application.
    Serve { peer: PublicKey },
    /// Report why the connection ended, and end the task.
    Report { reason: CloseReason },
    /// Nothing: the event does not belong to the step in progress.
    Ignore,
}

/// The reason recorded when the step in progress in `phase` fails.
pub open spec fn failure_reason(phase: Phase) -> CloseReason {
    match phase {
        Phase::Accepting => CloseReason::AcceptFailed,
        Phase::Handshaking => CloseReason::HandshakeFailed,
        Phase::Identifying => CloseReason::PeerUnknown,
        Phase::OpeningStream { .. } => CloseReason::StreamFailed,
        Phase::Open { .. } => CloseReason::StreamFailed,
        Phase::Closed { reason } => reason,
    }
}

/// Whether `event` is the success of the step in progress in `phase`.
pub open spec fn advances(phase: Phase, event: SessionEvent) -> bool {
    match phase {
        Phase::Accepting => event is Accepted,
        Phase::Handshaking => event is HandshakeCompleted,
        Phase::Identifying => event is PeerIdentified,
        Phase::OpeningStream { .. } => event is StreamOpened,
        Phase::Open { .. } => event is Finished,
        Phase::Closed { .. } => false,
    }
}

/// The phase after `event` arrived in `phase`.
pub open spec fn next_phase(direction: Direction, phase: Phase, event: SessionEvent) -> Phase {
    if phase is Closed {
        phase
    } else if event is Failed {
        Phase::Closed { reason: failure_reason(phase) }
    } else if !advances(phase, event) {
        phase
    } else {
        match phase {
            Phase::Accepting => Phase::Handshaking,
            Phase::Handshaking => match direction {
                Direction::Inbound => Phase::Identifying,
                Direction::Outbound { peer } => Phase::OpeningStream { peer },
            },
            Phase::Identifying => Phase::OpeningStream { peer: event->PeerIdentified_peer },
            Phase::OpeningStream { peer } => Phase::Open { peer },
            Phase::Open { .. } => Phase::Closed { reason: CloseReason::Completed },
            Phase::Closed { .. } => phase,
        }
    }
}

/// The action that answers `event` in `phase`.
pub open spec fn action_for(direction: Direction, phase: Phase, event: SessionEvent)
    -> SessionAction {
    match next_phase(direction, phase, event) {
        Phase::Closed { reason } => if phase is Closed {
            SessionAction::Ignore
        } else {
            SessionAction::Report { reason }
        },
        Phase::Accepting => SessionAction::Ignore,
        Phase::Handshaking => if phase is Handshaking {
            SessionAction::Ignore
        } else {
            SessionAction::AwaitHandshake
        },
        Phase::Identifying => if phase is Identifying {
            SessionAction::Ignore
        } else {
            SessionAction::IdentifyPeer
        },
        Phase::OpeningStream { .. } => if phase is OpeningStream {
            SessionAction::Ignore
        } else {
            match direction {
                Direction::Inbound => SessionAction::AcceptStream,
                Direction::Outbound { .. } => SessionAction::OpenStream,
            }
        },
        Phase::Open { peer } => if phase is Open {
            SessionAction::Ignore
        } else {
            SessionAction::Serve { peer }
        },
    }
}

/// The phase reached from `phase` after all of `events`, in order.
pub open spec fn run(direction: Direction, phase: Phase, events: Seq<SessionEvent>) -> Phase
    decreases events.len(),
{
    if events.len() == 0 {
        phase
    } else {
        run(direction, next_phase(direction, phase, events[0]), events.drop_first())
    }
}

/// The coarse state that `phase` belongs to.
pub open spec fn state_of(phase: Phase) -> ConnectionState {
    match phase {
        Phase::Accepting => ConnectionState::Accepting,
        Phase::Handshaking => ConnectionState::Authenticating,
        Phase::Identifying => ConnectionState::Authenticating,
        Phase::OpeningStream { .. } => ConnectionState::Authenticating,
        Phase::Open { .. } => ConnectionState::Open,
        Phase::Closed { reason } => ConnectionState::Closed(reason),
    }
}

/// The authenticated peer of a connection in `phase`, once it is known.
pub open spec fn peer_of(phase: Phase) -> Option<PublicKey> {
    match phase {
        Phase::OpeningStream { peer } => Some(peer),
        Phase::Open { peer } => Some(peer),
        _ => None,
    }
}

/// One connection, owned by the task that drives it.
pub struct Session {
    pub direction: Direction,
    pub phase: Phase,
}

impl Session {
    /// A session for a connection attempt that the endpoint just yielded.
    pub fn inbound() -> (session: Session)
        ensures
            session.direction is Inbound,
            session.phase is Accepting,
    {
        Session { direction: Direction::Inbound, phase: Phase::Accepting }
    }

    /// A session for a connection that this node dials to `peer`. The caller
    /// starts the handshake with that key.
    pub fn dial(peer: PublicKey) -> (session: Session)
        ensures
            session.direction == (Direction::Outbound { peer }),
            session.phase is Handshaking,
    {
        Session { direction: Direction::Outbound { peer }, phase: Phase::Handshaking }
    }

    /// Takes the outcome of the step in progress and says what to do next.
    pub fn on_event(&mut self, event: SessionEvent) -> (action: SessionAction)
        ensures
            final(self).direction == old(self).direction,
            final(self).phase == next_phase(old(self).direction, old(self).phase, event),
            action == action_for(old(self).direction, old(self).phase, event),
    {
        let direction = self.direction;
        match self.phase {
            Phase::Closed { .. } => SessionAction::Ignore,
            Phase::Accepting => match event {
                SessionEvent::Failed => self.close(CloseReason::AcceptFailed),
                SessionEvent::Accepted => {
                    self.phase = Phase::Handshaking;
                    SessionAction::AwaitHandshake
                },
                _ => SessionAction::Ignore,
            },
            Phase::Handshaking => match event {
                SessionEvent::Failed => self.close(CloseReason::HandshakeFailed),
                SessionEvent::HandshakeCompleted => match direction {
                    Direction::Inbound => {
                        self.phase = Phase::Identifying;
                        SessionAction::IdentifyPeer
                    },
                    Direction::Outbound { peer } => {
                        self.phase = Phase::OpeningStream { peer };
                        SessionAction::OpenStream
                    },
                },
                _ => SessionAction::Ignore,
            },
            Phase::Identifying => match event {
                SessionEvent::Failed => self.close(CloseReason::PeerUnknown),
                SessionEvent::PeerIdentified { peer } => {
                    self.phase = Phase::OpeningStream { peer };
                    match direction {
                        Direction::Inbound => SessionAction::AcceptStream,
                        Direction::Outbound { .. } => SessionAction::OpenStream,
                    }
                },
                _ => SessionAction::Ignore,
            },
            Phase::OpeningStream { peer } => match event {
                SessionEvent::Failed => self.close(CloseReason::StreamFailed),
                SessionEvent::StreamOpened => {
                    self.phase = Phase::Open { peer };
                    SessionAction::Serve { peer }
                },
                _ => SessionAction::Ignore,
            },
            Phase::Open { .. } => match event {
                SessionEvent::Failed => self.close(CloseReason::StreamFailed),
                SessionEvent::Finished => self.close(CloseReason::Completed),
                _ => SessionAction::Ignore,
            },
        }
    }

    /// Ends the connection for `reason`.
    fn close(&mut self, reason: CloseReason) -> (action: SessionAction)
        ensures
            final(self).direction == old(self).direction,
            final(self).phase == (Phase::Closed { reason }),
            action == (SessionAction::Report { reason }),
    {
        self.phase = Phase::Closed { reason };
        SessionAction::Report { reason }
    }

    /// The coarse state of the connection.
    pub fn state(&self) -> (state: ConnectionState)
        ensures
            state == state_of(self.phase),
    {
        match self.phase {
            Phase::Accepting => ConnectionState::Accepting,
            Phase::Handshaking => ConnectionState::Authenticating,
            Phase::Identifying => ConnectionState::Authenticating,
            Phase::OpeningStream { .. } => ConnectionState::Authenticating,
            Phase::Open { .. } => ConnectionState::Open,
            Phase::Closed { reason } => ConnectionState::Closed(reason),
        }
    }

    /// The authenticated peer, once it is known.
    pub fn peer(&self) -> (peer: Option<PublicKey>)
        ensures
            peer == peer_of(self.phase),
    {
        match self.phase {
            Phase::OpeningStream { peer } => Some(peer),
            Phase::Open { peer } => Some(peer),
            _ => None,
        }
    }

    /// Whether the connection has ended.
    pub fn is_closed(&self) -> (closed: bool)
        ensures
            closed == (self.phase is Closed),
    {
        match self.phase {
            Phase::Closed { .. } => true,
            _ => false,
        }
    }
}

/// A connection that has ended stays as it ended, whatever is reported of it:
/// it is never retried or resumed.
pub proof fn lemma_closed_is_final(
    direction: Direction,
    reason: CloseReason,
    events: Seq<SessionEvent>,
)
    ensures
        run(direction, Phase::Closed { reason }, events) == (Phase::Closed { reason }),
    decreases events.len(),
{
    if events.len() > 0 {
        lemma_closed_is_final(direction, reason, events.drop_first());
    }
}

/// A failure of the step in progress ends a connection that had not ended, with the
/// reason that belongs to that step.
pub proof fn lemma_failure_closes(direction: Direction, phase: Phase)
    requires
        !(phase is Closed),
    ensures
        next_phase(direction, phase, SessionEvent::Failed) == (Phase::Closed {
            reason: failure_reason(phase),
        }),
        action_for(direction, phase, SessionEvent::Failed) == (SessionAction::Report {
            reason: failure_reason(phase),
        }),
{
}

/// Whatever the transport reports of a connection that this node dialed, the
/// peer it ends up with is the key that was dialed.
pub proof fn lemma_dialed_peer_is_kept(peer: PublicKey, phase: Phase, events: Seq<SessionEvent>)
    requires
        phase is Handshaking || peer_of(phase) == Some(peer) || phase is Closed,
    ensures
        ({
            let last = run(Direction::Outbound { peer }, phase, events);
            last is Handshaking || peer_of(last) == Some(peer) || last is Closed
        }),
    decreases events.len(),
{
    if events.len() > 0 {
        let next = next_phase(Direction::Outbound { peer }, phase, events[0]);
        lemma_dialed_peer_is_kept(peer, next, events.drop_first());
    }
}

/// An inbound connection whose steps all succeed ends open, with the peer that
/// the transport authenticated.
pub proof fn lemma_inbound_opens(peer: PublicKey)
    ensures
        run(
            Direction::Inbound,
            Phase::Accepting,
            seq![
                SessionEvent::Accepted,
                SessionEvent::HandshakeCompleted,
                SessionEvent::PeerIdentified { peer },
                SessionEvent::StreamOpened,
            ],
        ) == (Phase::Open { peer }),
{
    let events = seq![
        SessionEvent::Accepted,
        SessionEvent::HandshakeCompleted,
        SessionEvent::PeerIdentified { peer },
        SessionEvent::StreamOpened,
    ];
    let e1 = events.drop_first();
    let e2 = e1.drop_first();
    let e3 = e2.drop_first();
    let e4 = e3.drop_first();
    assert(e4.len() == 0);
    reveal_with_fuel(run, 5);
}

/// An inbound connection whose handshake fails ends closed, with that reason.
pub proof fn lemma_failed_handshake_closes()
    ensures
        run(
            Direction::Inbound,
            Phase::Accepting,
            seq![SessionEvent::Accepted, SessionEvent::Failed],
        ) == (Phase::Closed { reason: CloseReason::HandshakeFailed }),
{
    let events = seq![SessionEvent::Accepted, SessionEvent::Failed];
    let e1 = events.drop_first();
    let e2 = e1.drop_first();
    assert(e2.len() == 0);
    reveal_with_fuel(run, 3);
}

/// A dialed connection whose steps all succeed ends open, with the dialed key
/// as its peer.
pub proof fn lemma_dial_opens(peer: PublicKey)
    ensures
        run(
            Direction::Outbound { peer },
            Phase::Handshaking,
            seq![SessionEvent::HandshakeCompleted, SessionEvent::StreamOpened],
        ) == (Phase::Open { peer }),
{
    let events = seq![SessionEvent::HandshakeCompleted, SessionEvent::StreamOpened];
    let e1 = events.drop_first();
    let e2 = e1.drop_first();
    assert(e2.len() == 0);
    reveal_with_fuel(run, 3);
}

} // verus!
