//! The network side of a node as a whole.
use crate::config::Config;
use crate::connection_counter::Direction;
use crate::context::Context;
use crate::effect::{Effect, SessionKind};
use crate::inbound_connection_factory::InboundConnectionFactory;
use crate::message::SocketAddr;
use crate::network_state::{dial_effects, shutdown_effects, NetworkState};
use crate::seednode::{
    answers, best_addresses, evenly_weighted, pick_even_address, SeednodeAnswer,
};
use abstract_ns::Address;
use vstd::prelude::*;

verus! {

/// How many seconds lie between two looks after the connections.
pub const AUTOCONNECT_INTERVAL: u64 = 10;

/// How far the connection to a seednode has come.
#[derive(PartialEq, Debug)]
pub enum SeednodeStep {
    /// Its answer has been dealt with, and this is to be done.
    Done { effect: Option<Effect> },
    /// Its addresses are not evenly weighted, and nothing has been done.
    Uneven,
}

/// The network side of a node.
#[derive(Debug)]
pub struct P2P {
    /// Network context.
    context: Context,
}

impl View for P2P {
    type V = NetworkState;

    closed spec fn view(&self) -> NetworkState {
        self.context@
    }
}

/// Resolving each of some names in turn.
pub open spec fn resolve_effects(seeds: Seq<String>) -> Seq<Effect> {
    seeds.map_values(|name: String| Effect::ResolveSeednode { name })
}

/// State after the name of a seednode has been resolved, or has not.
pub open spec fn answered(state: NetworkState, answer: SeednodeAnswer) -> NetworkState {
    match answer {
        SeednodeAnswer::Picked { .. } => state.begun(Direction::Outbound, 1),
        _ => state,
    }
}

/// What is to be done after the name of a seednode has been resolved, or has not.
pub open spec fn answered_effect(state: NetworkState, answer: SeednodeAnswer) -> Option<Effect> {
    match answer {
        SeednodeAnswer::Picked { address } => Some(
            Effect::DialPicked {
                session: SessionKind::Seednode,
                address,
                config: state.config.connection,
            },
        ),
        _ => None,
    }
}

impl P2P {
    /// Creates the network side of a node, once the node table has been read.
    pub fn new<E>(
        config: Config,
        local_sync_node: Box<InboundConnectionFactory>,
        node_table: Result<(), E>,
    ) -> (p2p: Result<P2P, E>)
        requires
            config.threads > 0,
        ensures
            match node_table {
                Ok(_) => p2p matches Ok(p2p) && p2p@ == NetworkState::initial(
                    config,
                    local_sync_node@,
                ) && p2p@.wf(),
                Err(error) => p2p matches Err(e) && e == error,
            },
    {
        match Context::new(local_sync_node, config, node_table) {
            Ok(context) => Ok(P2P { context }),
            Err(error) => Err(error),
        }
    }

    /// Connects to the nodes of the settings, then has the resolver set up.
    pub fn run(&mut self) -> (effects: Vec<Effect>)
        requires
            old(self)@.wf(),
            old(self)@.counts.outbound + old(self)@.config.peers@.len() <= usize::MAX,
        ensures
            final(self)@ == old(self)@.begun(
                Direction::Outbound,
                old(self)@.config.peers@.len() as int,
            ),
            final(self)@.wf(),
            effects@ == dial_effects(
                SessionKind::Normal,
                old(self)@.config.peers@,
                old(self)@.config.connection,
            ).push(Effect::StartResolver),
    {
        let mut effects: Vec<Effect> = Vec::new();
        let mut i: usize = 0;
        while i < self.context.config().peers.len()
            invariant
                old(self)@.wf(),
                old(self)@.counts.outbound + old(self)@.config.peers@.len() <= usize::MAX,
                i <= self@.config.peers@.len(),
                self@ == old(self)@.begun(Direction::Outbound, i as int),
                effects@ =~= dial_effects(
                    SessionKind::Normal,
                    old(self)@.config.peers@,
                    old(self)@.config.connection,
                ).take(i as int),
            decreases old(self)@.config.peers@.len() - i,
        {
            let peer = self.context.config().peers[i];
            effects.push(self.connect(SessionKind::Normal, peer));
            i = i + 1;
        }
        effects.push(Effect::StartResolver);
        effects
    }

    /// Goes on once the resolver has been set up: resolves the seednodes, starts to look after
    /// the connections, and listens.
    pub fn run_with_resolver<E>(&self, resolver: Result<(), E>) -> (effects: Result<
        Vec<Effect>,
        E,
    >)
        ensures
            match resolver {
                Ok(_) => effects matches Ok(effects) && effects@ == resolve_effects(
                    self@.config.seeds@,
                ) + seq![
                    Effect::StartAutoconnect { interval: AUTOCONNECT_INTERVAL },
                    Effect::Listen { config: self@.config.connection },
                ],
                Err(error) => effects matches Err(e) && e == error,
            },
    {
        match resolver {
            Ok(_) => {
                let mut effects: Vec<Effect> = Vec::new();
                let seeds = &self.context.config().seeds;
                let mut i: usize = 0;
                while i < seeds.len()
                    invariant
                        i <= seeds.len(),
                        effects@ =~= resolve_effects(seeds@).take(i as int),
                    decreases seeds.len() - i,
                {
                    effects.push(self.connect_to_seednode(&seeds[i]));
                    i = i + 1;
                }
                effects.push(Effect::StartAutoconnect { interval: AUTOCONNECT_INTERVAL });
                effects.push(self.listen());
                Ok(effects)
            },
            Err(error) => Err(error),
        }
    }

    /// Attempts to connect to the specified node.
    pub fn connect(&mut self, session: SessionKind, addr: SocketAddr) -> (effect: Effect)
        requires
            old(self)@.wf(),
            old(self)@.counts.outbound < usize::MAX,
        ensures
            final(self)@ == old(self)@.begun(Direction::Outbound, 1),
            final(self)@.wf(),
            effect == (Effect::Dial {
                session,
                socket: addr,
                config: old(self)@.config.connection,
            }),
    {
        self.context.connect(session, addr)
    }

    /// Attempts to connect to a seednode, whose name has to be resolved first.
    pub fn connect_to_seednode(&self, seednode: &String) -> (effect: Effect)
        ensures
            effect == (Effect::ResolveSeednode { name: *seednode }),
    {
        Effect::ResolveSeednode { name: seednode.clone() }
    }

    /// Goes on after the name of a seednode has been resolved, or has not, if its addresses are
    /// evenly weighted. Where they are not, an address has to be picked by `pick_address`, and the
    /// answer goes to `on_seednode_answer`.
    pub fn on_seednode_resolved<E>(&mut self, resolved: &Result<Address, E>) -> (step: SeednodeStep)
        requires
            old(self)@.wf(),
            old(self)@.counts.outbound < usize::MAX,
        ensures
            final(self)@.wf(),
            match step {
                SeednodeStep::Done { effect } => {
                    &&& resolved matches Ok(found) ==> evenly_weighted(best_addresses(*found))
                    &&& exists|answer: SeednodeAnswer|
                        {
                            &&& #[trigger] answers(*resolved, answer)
                            &&& final(self)@ == answered(old(self)@, answer)
                            &&& effect == answered_effect(old(self)@, answer)
                        }
                },
                SeednodeStep::Uneven => {
                    &&& resolved matches Ok(found) && !evenly_weighted(best_addresses(*found))
                    &&& final(self)@ == old(self)@
                },
            },
    {
        match pick_even_address(resolved) {
            Some(answer) => {
                let ghost picked = answer;
                let effect = self.on_seednode_answer(answer);
                assert(answers(*resolved, picked));
                SeednodeStep::Done { effect }
            },
            None => SeednodeStep::Uneven,
        }
    }

    /// Connects to the address that was picked for a seednode, if there is one.
    pub fn on_seednode_answer(&mut self, answer: SeednodeAnswer) -> (effect: Option<Effect>)
        requires
            old(self)@.wf(),
            answer is Picked ==> old(self)@.counts.outbound < usize::MAX,
        ensures
            final(self)@ == answered(old(self)@, answer),
            final(self)@.wf(),
            effect == answered_effect(old(self)@, answer),
    {
        match answer {
            SeednodeAnswer::Picked { address } => Some(
                self.context.connect_picked(SessionKind::Seednode, address),
            ),
            SeednodeAnswer::NoAddress => None,
            SeednodeAnswer::Failed => None,
        }
    }

    fn listen(&self) -> (effect: Effect)
        ensures
            effect == (Effect::Listen { config: self@.config.connection }),
    {
        Effect::Listen { config: self.context.config().connection }
    }

    /// Takes out all channels and shuts them down, when the network side is given up.
    pub fn shutdown(&mut self) -> (effects: Vec<Effect>)
        requires
            old(self)@.wf(),
        ensures
            final(self)@ == old(self)@.emptied(),
            final(self)@.wf(),
            effects@ == shutdown_effects(old(self)@.connections.channels),
    {
        self.context.shutdown()
    }

    pub fn context(&self) -> (context: &Context)
        ensures
            context@ == self@,
    {
        &self.context
    }

    pub fn context_mut(&mut self) -> (context: &mut Context)
        ensures
            context@ == old(self)@,
            final(self)@ == final(context)@,
    {
        &mut self.context
    }
}

} // verus!
