//! The acceptance loop of an endpoint, as a machine that the transport drives.
//!
//! The loop takes inbound connection attempts one by one until the endpoint is
//! shut down. An attempt that cannot be taken up is reported and skipped: it
//! never ends the loop.

use vstd::prelude::*;
use crate::keys::PublicKey;
use crate::session::{
    lemma_failed_handshake_closes, lemma_inbound_opens, run, CloseReason, Direction, Phase,
    SessionEvent,
};

verus! {

/// Whether the loop still takes connections.
#[derive(Clone, Copy, Debug, PartialEq, Eq)]
pub enum AcceptorState {
    Listening,
    Stopped,
}

/// What the endpoint yields to the loop.
#[derive(Clone, Copy, Debug, PartialEq, Eq)]
pub enum InboundEvent {
    /// An inbound attempt that was taken up: a connection to authenticate.
    Connection,
    /// An inbound attempt that could not be taken up, as happens with a
    /// malformed or retransmitted packet.
    Malformed,
    /// The end of the sequence: the endpoint was shut down.
    Shutdown,
}

/// What the loop does with what the endpoint yielded.
#[derive(Clone, Copy, Debug, PartialEq, Eq)]
pub enum AcceptorAction {
    /// Start a task of its own for the connection.
    Spawn,
    /// Report the failed attempt and go on.
    LogAndContinue,
    /// Leave the loop. Tasks that run are left to finish.
    Stop,
    /// Nothing: the loop was left before.
    Ignore,
}

/// The state of the loop after `event`.
pub open spec fn acceptor_next(state: AcceptorState, event: InboundEvent) -> AcceptorState {
    match state {
        AcceptorState::Stopped => AcceptorState::Stopped,
        AcceptorState::Listening => match event {
            InboundEvent::Shutdown => AcceptorState::Stopped,
            _ => AcceptorState::Listening,
        },
    }
}

/// What the loop does with `event`.
pub open spec fn acceptor_action(state: AcceptorState, event: InboundEvent) -> AcceptorAction {
    match state {
        AcceptorState::Stopped => AcceptorAction::Ignore,
        AcceptorState::Listening => match event {
            InboundEvent::Connection => AcceptorAction::Spawn,
            InboundEvent::Malformed => AcceptorAction::LogAndContinue,
            InboundEvent::Shutdown => AcceptorAction::Stop,
        },
    }
}

/// The state of the loop after all of `events`, in order.
pub open spec fn state_after(state: AcceptorState, events: Seq<InboundEvent>) -> AcceptorState
    decreases events.len(),
{
    if events.len() == 0 {
        state
    } else {
        state_after(acceptor_next(state, events[0]), events.drop_first())
    }
}

/// What the loop does with each of `events`, in order.
pub open spec fn accept_all(state: AcceptorState, events: Seq<InboundEvent>) -> Seq<
    AcceptorAction,
>
    decreases events.len(),
{
    if events.len() == 0 {
        Seq::empty()
    } else {
        seq![acceptor_action(state, events[0])] + accept_all(
            acceptor_next(state, events[0]),
            events.drop_first(),
        )
    }
}

/// Whether the endpoint was not shut down during the first `count` of `events`.
pub open spec fn no_shutdown_before(events: Seq<InboundEvent>, count: int) -> bool {
    forall|k: int| 0 <= k < count && k < events.len() ==> !(#[trigger] events[k] is Shutdown)
}

/// The acceptance loop of one endpoint.
pub struct Acceptor {
    pub state: AcceptorState,
}

impl Acceptor {
    /// The loop of an endpoint that was just bound.
    pub fn new() -> (acceptor: Acceptor)
        ensures
            acceptor.state is Listening,
    {
        Acceptor { state: AcceptorState::Listening }
    }

    /// Takes what the endpoint yielded and says what to do with it.
    pub fn on_event(&mut self, event: InboundEvent) -> (action: AcceptorAction)
        ensures
            final(self).state == acceptor_next(old(self).state, event),
            action == acceptor_action(old(self).state, event),
    {
        match self.state {
            AcceptorState::Stopped => AcceptorAction::Ignore,
            AcceptorState::Listening => match event {
                InboundEvent::Connection => AcceptorAction::Spawn,
                InboundEvent::Malformed => AcceptorAction::LogAndContinue,
                InboundEvent::Shutdown => {
                    self.state = AcceptorState::Stopped;
                    AcceptorAction::Stop
                },
            },
        }
    }

    /// Whether the loop still takes connections.
    pub fn is_listening(&self) -> (listening: bool)
        ensures
            listening == (self.state is Listening),
    {
        match self.state {
            AcceptorState::Listening => true,
            AcceptorState::Stopped => false,
        }
    }
}

/// The loop answers every event with one action.
pub proof fn lemma_one_action_each(state: AcceptorState, events: Seq<InboundEvent>)
    ensures
        accept_all(state, events).len() == events.len(),
    decreases events.len(),
{
    if events.len() > 0 {
        lemma_one_action_each(acceptor_next(state, events[0]), events.drop_first());
    }
}

/// Until the endpoint is shut down the loop keeps listening, and what it does
/// with an event depends on that event alone: a connection is spawned, a failed
/// attempt is reported, whatever came before.
pub proof fn lemma_listens_until_shutdown(events: Seq<InboundEvent>, at: int)
    requires
        0 <= at < events.len(),
        no_shutdown_before(events, at),
    ensures
        accept_all(AcceptorState::Listening, events).len() == events.len(),
        accept_all(AcceptorState::Listening, events)[at] == acceptor_action(
            AcceptorState::Listening,
            events[at],
        ),
    decreases at,
{
    lemma_one_action_each(AcceptorState::Listening, events);
    if at > 0 {
        let rest = events.drop_first();
        assert(!(events[0] is Shutdown));
        assert(acceptor_next(AcceptorState::Listening, events[0]) is Listening);
        assert forall|k: int| 0 <= k < at - 1 && k < rest.len() implies !(
        #[trigger] rest[k] is Shutdown) by {
            assert(rest[k] == events[k + 1]);
        }
        lemma_listens_until_shutdown(rest, at - 1);
        assert(rest[at - 1] == events[at]);
    }
}

/// A failure among the inbound attempts stops nothing. Whether an earlier
/// attempt could not be taken up, or was taken up and then failed its
/// handshake, a connection that arrives later, before the endpoint is shut
/// down, is spawned all the same; and where its own steps succeed it ends
/// open, with the peer that the transport authenticated.
pub proof fn lemma_acceptance_resilience(
    events: Seq<InboundEvent>,
    failed: int,
    later: int,
    peer: PublicKey,
)
    requires
        0 <= failed < later < events.len(),
        events[later] is Connection,
        no_shutdown_before(events, later),
    ensures
        events[failed] is Malformed ==> accept_all(
            AcceptorState::Listening,
            events,
        )[failed] is LogAndContinue,
        events[failed] is Connection ==> accept_all(AcceptorState::Listening, events)[failed] is Spawn
            && run(
            Direction::Inbound,
            Phase::Accepting,
            seq![SessionEvent::Accepted, SessionEvent::Failed],
        ) == (Phase::Closed { reason: CloseReason::HandshakeFailed }),
        accept_all(AcceptorState::Listening, events)[later] is Spawn,
        run(
            Direction::Inbound,
            Phase::Accepting,
            seq![
                SessionEvent::Accepted,
                SessionEvent::HandshakeCompleted,
                SessionEvent::PeerIdentified { peer },
                SessionEvent::StreamOpened,
            ],
        ) == (Phase::Open { peer }),
{
    assert(no_shutdown_before(events, failed));
    lemma_listens_until_shutdown(events, failed);
    lemma_listens_until_shutdown(events, later);
    lemma_inbound_opens(peer);
    lemma_failed_handshake_closes();
}

} // verus!
