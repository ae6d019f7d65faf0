//! The state of a node's network side as a mathematical value, and how it moves on.
use crate::config::{Config, NetConfig};
use crate::connection_counter::{ConnectionCounts, Direction};
use crate::connections::{
    lemma_count_push, lemma_count_remove, ChannelTable, Connection, PeerId, PeerInfo,
};
use crate::effect::{Effect, SessionKind};
use crate::message::SocketAddr;
use crate::node_table::{Node, NodeTableOp};
use vstd::prelude::*;

verus! {

/// How an attempt to shake hands has ended.
#[derive(Clone, Copy, PartialEq, Eq, Debug)]
pub enum Handshake {
    /// Both sides agree.
    Completed { connection: Connection },
    /// The other side broke the protocol.
    Rejected,
    /// The other side took too long.
    TimedOut,
    /// The network failed.
    NetworkFailure,
}

/// State of the network side of a node.
pub struct NetworkState {
    /// Open channels.
    pub connections: ChannelTable,
    /// Connections that are open or being set up.
    pub counts: ConnectionCounts,
    /// Number of synchronization sessions created so far.
    pub sync_sessions: nat,
    /// Settings.
    pub config: Config,
}

impl NetworkState {
    /// State of a node that has just started.
    pub open spec fn initial(config: Config, sync_sessions: nat) -> NetworkState {
        NetworkState {
            connections: ChannelTable::empty(),
            counts: ConnectionCounts {
                inbound: 0,
                max_inbound: config.inbound_connections as int,
                outbound: 0,
                max_outbound: config.outbound_connections as int,
            },
            sync_sessions,
            config,
        }
    }

    /// How many handshakes of a direction are under way: connections that are counted and have
    /// no channel yet. This holds until all channels are taken out at once (`emptied`), which
    /// leaves the counts as they are: from then on the connections of those channels are in it
    /// too.
    pub open spec fn pending(self, direction: Direction) -> int {
        self.counts.current(direction) - self.connections.count(direction)
    }

    /// Ids are well-formed, and each open channel is counted in its direction.
    pub open spec fn wf(self) -> bool {
        &&& self.connections.wf()
        &&& self.pending(Direction::Inbound) >= 0
        &&& self.pending(Direction::Outbound) >= 0
    }

    /// State after `many` more connections of a direction have begun to be set up.
    pub open spec fn begun(self, direction: Direction, many: int) -> NetworkState {
        NetworkState { counts: self.counts.plus(direction, many), ..self }
    }

    /// State after a stream has come in: it is accepted if inbound connections are missing to the
    /// maximum.
    pub open spec fn listened(self) -> NetworkState {
        if self.counts.needed(Direction::Inbound) > 0 {
            self.begun(Direction::Inbound, 1)
        } else {
            self
        }
    }

    /// What is to be done with a stream that has come in.
    pub open spec fn listened_effect(self, socket: SocketAddr, config: NetConfig) -> Effect {
        if self.counts.needed(Direction::Inbound) > 0 {
            Effect::Accept { socket, config }
        } else {
            Effect::Refuse { socket }
        }
    }

    /// State after a handshake has ended: its connection gets a channel, or is no longer counted.
    pub open spec fn settled(self, direction: Direction, handshake: Handshake) -> NetworkState {
        match handshake {
            Handshake::Completed { connection } => NetworkState {
                connections: self.connections.with(connection, direction),
                ..self
            },
            _ => NetworkState { counts: self.counts.plus(direction, -1), ..self },
        }
    }

    /// What is to be done after a handshake on `socket` has ended: the node is noted, and its
    /// session opened, started and read from; or the failure is noted.
    pub open spec fn settled_effects(
        self,
        direction: Direction,
        session: SessionKind,
        socket: SocketAddr,
        handshake: Handshake,
    ) -> Seq<Effect> {
        match handshake {
            Handshake::Completed { connection } => {
                let channel = self.connections.next_channel(connection, direction);
                seq![
                    Effect::NodeTable {
                        op: NodeTableOp::Insert {
                            address: connection.address,
                            services: connection.services,
                        },
                    },
                    Effect::OpenSession { channel, session },
                    Effect::InitializeSession { peer: channel.id },
                    Effect::ReadMessage { peer: channel.id },
                ]
            },
            _ => seq![note_failure(socket)],
        }
    }

    /// State after the channel with an id has been closed, if there is one.
    pub open spec fn closed(self, id: PeerId) -> NetworkState {
        match self.connections.get(id) {
            Some(channel) => NetworkState {
                connections: self.connections.without(id),
                counts: self.counts.plus(channel.direction, -1),
                ..self
            },
            None => self,
        }
    }

    /// State after all channels have been taken out, when the network side is given up. Their
    /// connections stay counted.
    pub open spec fn emptied(self) -> NetworkState {
        NetworkState {
            connections: ChannelTable { channels: Seq::empty(), ..self.connections },
            ..self
        }
    }

    /// What is to be done to close the channel with an id, if there is one.
    pub open spec fn closed_effects(self, id: PeerId) -> Seq<Effect> {
        if self.connections.contains(id) {
            seq![Effect::CloseSession { peer: id }, Effect::ShutdownChannel { peer: id }]
        } else {
            Seq::empty()
        }
    }

    /// Number of the peer for which the next synchronization session is created.
    pub open spec fn next_sync_index(self) -> usize {
        (self.sync_sessions + 1) as usize
    }

    /// State after a synchronization session has been created.
    pub open spec fn synced(self) -> NetworkState {
        NetworkState { sync_sessions: self.sync_sessions + 1, ..self }
    }

    /// What is to be done to close the channel with an id because of an error, if there is one.
    pub open spec fn closed_with_error_effects(self, id: PeerId) -> Seq<Effect> {
        match self.connections.get(id) {
            Some(channel) => seq![
                Effect::CloseSession { peer: id },
                Effect::ShutdownChannel { peer: id },
                note_failure(channel.address),
            ],
            None => Seq::empty(),
        }
    }
}

/// What is to be done after the session of a channel has handled a message: its node is noted as
/// used, and the next message read.
pub open spec fn handled_effects(channel: PeerInfo) -> Seq<Effect> {
    seq![
        Effect::NodeTable { op: NodeTableOp::NoteUsed { address: channel.address } },
        Effect::ReadMessage { peer: channel.id },
    ]
}

/// Saving the node table where the settings say.
pub open spec fn save_node_table(config: Config) -> Effect {
    Effect::SaveNodeTable { path: config.node_table_path }
}

/// Addresses of some nodes.
pub open spec fn node_addresses(nodes: Seq<Node>) -> Seq<SocketAddr> {
    nodes.map_values(|node: Node| node.address)
}

/// Noting in the node table that a node has failed.
pub open spec fn note_failure(address: SocketAddr) -> Effect {
    Effect::NodeTable { op: NodeTableOp::NoteFailure { address } }
}

/// Dialling each of some sockets in turn.
pub open spec fn dial_effects(
    session: SessionKind,
    sockets: Seq<SocketAddr>,
    config: NetConfig,
) -> Seq<Effect> {
    sockets.map_values(|socket: SocketAddr| Effect::Dial { session, socket, config })
}

/// Maintaining the session of each of some channels in turn.
pub open spec fn maintain_effects(channels: Seq<PeerInfo>) -> Seq<Effect> {
    channels.map_values(|channel: PeerInfo| Effect::MaintainSession { peer: channel.id })
}

/// Shutting down each of some channels in turn.
pub open spec fn shutdown_effects(channels: Seq<PeerInfo>) -> Seq<Effect> {
    channels.map_values(|channel: PeerInfo| Effect::ShutdownChannel { peer: channel.id })
}

/// A handshake that ends is no longer under way; those of the other direction are untouched, and
/// the state stays well-formed.
pub proof fn lemma_settled(state: NetworkState, direction: Direction, handshake: Handshake)
    requires
        state.wf(),
        state.pending(direction) > 0,
        handshake is Completed ==> state.connections.next_id <= usize::MAX,
    ensures
        state.settled(direction, handshake).wf(),
        forall|d: Direction|
            #[trigger] state.settled(direction, handshake).pending(d) == state.pending(d) - if d
                == direction {
                1int
            } else {
                0int
            },
{
    if let Handshake::Completed { connection } = handshake {
        let channel = state.connections.next_channel(connection, direction);
        assert forall|d: Direction|
            #[trigger] state.settled(direction, handshake).pending(d) == state.pending(d) - if d
                == direction {
                1int
            } else {
                0int
            } by {
            lemma_count_push(state.connections.channels, channel, d);
        }
    }
    assert(state.settled(direction, handshake).pending(Direction::Inbound) >= 0);
    assert(state.settled(direction, handshake).pending(Direction::Outbound) >= 0);
}

/// Closing a channel leaves the handshakes that are under way alone, and the state well-formed.
pub proof fn lemma_closed(state: NetworkState, id: PeerId)
    requires
        state.wf(),
    ensures
        state.closed(id).wf(),
        forall|d: Direction| #[trigger] state.closed(id).pending(d) == state.pending(d),
        state.connections.get(id) matches Some(channel) ==> {
            &&& channel.id == id
            &&& state.counts.current(channel.direction) > 0
        },
{
    if state.connections.contains(id) {
        let i = state.connections.position(id);
        assert(state.connections.has_at(id, i));
        let channels = state.connections.channels;
        lemma_count_remove(channels, i, Direction::Inbound);
        lemma_count_remove(channels, i, Direction::Outbound);
        assert forall|d: Direction| #[trigger]
            state.closed(id).pending(d) == state.pending(d) by {
            lemma_count_remove(channels, i, d);
        }
        assert(state.closed(id).pending(Direction::Inbound) >= 0);
        assert(state.closed(id).pending(Direction::Outbound) >= 0);
    }
}

} // verus!
