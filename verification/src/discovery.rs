//! How a node lets peers find its current address.

use vstd::prelude::*;

verus! {

/// The choice a node is started with.
#[derive(Clone, Copy, Debug, PartialEq, Eq)]
pub enum PkarrRelay {
    /// No discovery: peers must already know how to reach each other.
    Disabled,
    /// Lookup through the distributed table, backed by iroh's relay.
    Iroh,
}

/// What the endpoint is bound with: which lookups are switched on. The lookups
/// themselves are the discovery provider's.
#[derive(Clone, Copy, Debug, PartialEq, Eq)]
pub struct DiscoveryStrategy {
    /// Peers are looked up in, and this node is published to, the distributed
    /// table.
    pub distributed: bool,
    /// Records also go through, and come from, the relay.
    pub relay_backed: bool,
}

/// The strategy that belongs to a choice.
pub open spec fn strategy_for(relay: PkarrRelay) -> DiscoveryStrategy {
    match relay {
        PkarrRelay::Disabled => DiscoveryStrategy { distributed: false, relay_backed: false },
        PkarrRelay::Iroh => DiscoveryStrategy { distributed: true, relay_backed: true },
    }
}

impl DiscoveryStrategy {
    /// Whether any lookup is switched on.
    pub open spec fn enabled(self) -> bool {
        self.distributed || self.relay_backed
    }

    /// Whether any lookup is switched on.
    pub fn is_enabled(&self) -> (enabled: bool)
        ensures
            enabled == self.enabled(),
    {
        self.distributed || self.relay_backed
    }
}

/// Builds the strategy for `relay`: nothing for `Disabled`, the relay-backed
/// distributed lookup for `Iroh`.
pub fn build(relay: PkarrRelay) -> (strategy: DiscoveryStrategy)
    ensures
        strategy == strategy_for(relay),
        strategy.enabled() == (relay is Iroh),
{
    match relay {
        PkarrRelay::Disabled => DiscoveryStrategy { distributed: false, relay_backed: false },
        PkarrRelay::Iroh => DiscoveryStrategy { distributed: true, relay_backed: true },
    }
}

} // verus!
