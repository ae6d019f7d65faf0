//! Network context.
use crate::config::{Config, NetConfig};
use crate::connection_counter::{ConnectionCounter, Direction};
use crate::connections::{lemma_get, Connections, PeerId, PeerInfo};
use crate::effect::{Effect, SessionKind};
use crate::inbound_connection_factory::{sync_session, InboundConnectionFactory, SyncSession};
use crate::message::{AddressEntry, Command, Services, SocketAddr};
use crate::network_state::{
    dial_effects, handled_effects, lemma_closed, lemma_settled, maintain_effects, node_addresses,
    note_failure, save_node_table, shutdown_effects, Handshake, NetworkState,
};
use crate::node_table::{Node, NodeQuery, NodeTableOp};
use abstract_ns::Address;
use bytes::Bytes;
use vstd::prelude::*;

verus! {

/// How many recently active nodes are told of at most.
pub const ACTIVE_NODES_LIMIT: usize = 1000;

/// The first `ACTIVE_NODES_LIMIT` of some nodes, or all of them if they are fewer.
pub open spec fn limited(nodes: Seq<Node>) -> Seq<Node> {
    if nodes.len() <= ACTIVE_NODES_LIMIT {
        nodes
    } else {
        nodes.take(ACTIVE_NODES_LIMIT as int)
    }
}

/// What is to be done to look after the connections.
#[derive(PartialEq, Debug)]
pub struct Autoconnect {
    /// What is to be done at once.
    pub effects: Vec<Effect>,
    /// The nodes to look for, if more outbound connections are needed. What is found goes to
    /// `Context::connect_to_found`.
    pub query: Option<NodeQuery>,
}

/// What has come in on a channel.
#[derive(PartialEq, Debug)]
pub enum Incoming<E, F> {
    /// A message.
    Message { command: Command, payload: Bytes },
    /// Something that breaks the protocol.
    ProtocolError { error: E },
    /// Nothing, because the network failed.
    NetworkError { error: F },
}

/// A message as it is given to a session.
pub struct Message {
    pub command: Command,
    pub payload: Bytes,
}

/// The message that has come in, if one has.
pub open spec fn message_of<E, F>(incoming: Incoming<E, F>) -> Option<Message> {
    match incoming {
        Incoming::Message { command, payload } => Some(Message { command, payload }),
        _ => None,
    }
}

/// The message that is given to a session, if one is.
pub open spec fn given_by<E, F>(received: Received<E, F>) -> Option<Message> {
    match received {
        Received::Handle { command, payload, .. } => Some(Message { command, payload }),
        Received::Fail { .. } => None,
    }
}

/// Why nothing more is read from a channel.
#[derive(PartialEq, Debug)]
pub enum ReadError<E, F> {
    Protocol { error: E },
    Network { error: F },
}

/// What is to be done with what has come in on a channel.
#[derive(PartialEq, Debug)]
pub enum Received<E, F> {
    /// Let the session of the channel handle a message, and go on with the outcome in
    /// `Context::on_message_handled`.
    Handle { peer: PeerId, command: Command, payload: Bytes },
    /// Close the channel, and report the error.
    Fail { effects: Vec<Effect>, error: ReadError<E, F> },
}

/// How a message for a channel is to be serialized.
#[derive(Clone, Copy, PartialEq, Eq, Debug)]
pub struct Envelope {
    pub channel: PeerInfo,
    pub magic: u32,
    pub version: u32,
    pub serialization_flags: u32,
}

/// A message to be written to a channel.
#[derive(PartialEq, Debug)]
pub struct Outgoing<T> {
    pub peer: PeerId,
    pub message: T,
}

/// Network context.
#[derive(Debug)]
pub struct Context {
    /// Connections.
    connections: Connections,
    /// Connection counter.
    connection_counter: ConnectionCounter,
    /// Local synchronization node.
    local_sync_node: Box<InboundConnectionFactory>,
    /// Settings.
    config: Config,
}

impl View for Context {
    type V = NetworkState;

    closed spec fn view(&self) -> NetworkState {
        NetworkState {
            connections: self.connections@,
            counts: self.connection_counter@,
            sync_sessions: self.local_sync_node@,
            config: self.config,
        }
    }
}

impl Context {
    /// Reading of the node table, which comes before a context is created.
    pub fn load_node_table(config: &Config) -> (effect: Effect)
        ensures
            effect == (Effect::LoadNodeTable {
                preferable_services: config.preferable_services,
                path: config.node_table_path,
            }),
    {
        Effect::LoadNodeTable {
            preferable_services: config.preferable_services,
            path: config.node_table_path.clone(),
        }
    }

    /// Creates new context with a local sync node, once the node table has been read.
    pub fn new<E>(
        local_sync_node: Box<InboundConnectionFactory>,
        config: Config,
        node_table: Result<(), E>,
    ) -> (context: Result<Context, E>)
        ensures
            match node_table {
                Ok(_) => context matches Ok(context) && context@ == NetworkState::initial(
                    config,
                    local_sync_node@,
                ) && context@.wf(),
                Err(error) => context matches Err(e) && e == error,
            },
    {
        match node_table {
            Ok(_) => Ok(
                Context {
                    connections: Default::default(),
                    connection_counter: ConnectionCounter::new(
                        config.inbound_connections,
                        config.outbound_connections,
                    ),
                    local_sync_node,
                    config,
                },
            ),
            Err(error) => Err(error),
        }
    }

    /// The question to the node table whose answer goes to `node_table_entries`.
    pub fn recently_active_query(&self) -> (query: NodeQuery)
        ensures
            query == (NodeQuery::RecentlyActive { protocol: self@.config.internet_protocol }),
    {
        NodeQuery::RecentlyActive { protocol: self.config.internet_protocol }
    }

    /// Returns recently active nodes, as the node table gives them, limited to
    /// `ACTIVE_NODES_LIMIT`.
    pub fn node_table_entries(&self, recently_active: Vec<Node>) -> (entries: Vec<Node>)
        ensures
            entries@ == limited(recently_active@),
    {
        let mut entries = recently_active;
        entries.truncate(ACTIVE_NODES_LIMIT);
        entries
    }

    /// Updates node table.
    pub fn update_node_table(&self, nodes: Vec<AddressEntry>) -> (effect: Effect)
        ensures
            effect == (Effect::NodeTable { op: NodeTableOp::InsertMany { nodes } }),
    {
        Effect::NodeTable { op: NodeTableOp::InsertMany { nodes } }
    }

    /// Penalize node.
    pub fn penalize_node(&self, addr: &SocketAddr) -> (effect: Effect)
        ensures
            effect == note_failure(*addr),
    {
        Effect::NodeTable { op: NodeTableOp::NoteFailure { address: *addr } }
    }

    /// Adds node to table. Whether that succeeds is for the table to say.
    pub fn add_node(&self, addr: SocketAddr) -> (effect: Effect)
        ensures
            effect == (Effect::NodeTable {
                op: NodeTableOp::Add {
                    address: addr,
                    services: self@.config.connection.services,
                },
            }),
    {
        Effect::NodeTable {
            op: NodeTableOp::Add { address: addr, services: self.config.connection.services },
        }
    }

    /// Removes node from table. Whether that succeeds is for the table to say.
    pub fn remove_node(&self, addr: SocketAddr) -> (effect: Effect)
        ensures
            effect == (Effect::NodeTable { op: NodeTableOp::Remove { address: addr } }),
    {
        Effect::NodeTable { op: NodeTableOp::Remove { address: addr } }
    }

    /// Lets each session check its channel. Once that is done, `autoconnect` follows.
    pub fn maintain(&self) -> (effects: Vec<Effect>)
        ensures
            effects@ == maintain_effects(self@.connections.channels),
    {
        let mut effects: Vec<Effect> = Vec::new();
        let channels = self.connections.channels();
        let mut i: usize = 0;
        while i < channels.len()
            invariant
                i <= channels.len(),
                effects@ =~= maintain_effects(channels@).take(i as int),
            decreases channels.len() - i,
        {
            effects.push(Effect::MaintainSession { peer: channels[i].id });
            i = i + 1;
        }
        effects
    }

    /// Called when the sessions have checked their channels, which may have closed some. If the
    /// maximum number of outbound connections has not been reached, asks for as many nodes as are
    /// missing to it, other than those that a channel is open to; else saves the node table.
    pub fn autoconnect(&self) -> (tick: Autoconnect)
        ensures
            match tick.query {
                None => {
                    &&& self@.counts.needed(Direction::Outbound) == 0
                    &&& tick.effects@ == seq![save_node_table(self@.config)]
                },
                Some(query) => {
                    &&& self@.counts.needed(Direction::Outbound) != 0
                    &&& tick.effects@.len() == 0
                    &&& query matches NodeQuery::WithServices {
                        services,
                        protocol,
                        except,
                        limit,
                    }
                    &&& services.bits == 0
                    &&& protocol == self@.config.internet_protocol
                    &&& except@ == self@.connections.addresses()
                    &&& limit == self@.counts.needed(Direction::Outbound)
                },
            },
    {
        let mut effects: Vec<Effect> = Vec::new();
        let needed: usize = self.connection_counter.outbound_connections_needed() as usize;
        if needed != 0 {
            let query = NodeQuery::WithServices {
                services: Services::default(),
                protocol: self.config.internet_protocol,
                except: self.connections.addresses(),
                limit: needed,
            };
            Autoconnect { effects, query: Some(query) }
        } else {
            effects.push(Effect::SaveNodeTable { path: self.config.node_table_path.clone() });
            Autoconnect { effects, query: None }
        }
    }

    /// Connects to each of the nodes that were found, then saves the node table.
    pub fn connect_to_found(&mut self, peers: &Vec<Node>) -> (effects: Vec<Effect>)
        requires
            old(self)@.wf(),
            old(self)@.counts.outbound + peers@.len() <= usize::MAX,
        ensures
            final(self)@ == old(self)@.begun(Direction::Outbound, peers@.len() as int),
            final(self)@.wf(),
            effects@ == dial_effects(
                SessionKind::Normal,
                node_addresses(peers@),
                old(self)@.config.connection,
            ).push(save_node_table(old(self)@.config)),
    {
        let mut effects: Vec<Effect> = Vec::new();
        let mut i: usize = 0;
        while i < peers.len()
            invariant
                old(self)@.wf(),
                old(self)@.counts.outbound + peers@.len() <= usize::MAX,
                i <= peers.len(),
                self@ == old(self)@.begun(Direction::Outbound, i as int),
                effects@ =~= dial_effects(
                    SessionKind::Normal,
                    node_addresses(peers@),
                    old(self)@.config.connection,
                ).take(i as int),
            decreases peers.len() - i,
        {
            effects.push(self.connect(SessionKind::Normal, peers[i].address()));
            i = i + 1;
        }
        effects.push(Effect::SaveNodeTable { path: self.config.node_table_path.clone() });
        effects
    }

    /// Goes on after an attempt to connect to a socket.
    pub fn connect_future(
        &mut self,
        session: SessionKind,
        socket: SocketAddr,
        handshake: Handshake,
    ) -> (effects: Vec<Effect>)
        requires
            old(self)@.wf(),
            old(self)@.pending(Direction::Outbound) > 0,
            handshake is Completed ==> old(self)@.connections.next_id < usize::MAX,
        ensures
            final(self)@ == old(self)@.settled(Direction::Outbound, handshake),
            final(self)@.wf(),
            effects@ == old(self)@.settled_effects(
                Direction::Outbound,
                session,
                socket,
                handshake,
            ),
    {
        self.finish_handshake(Direction::Outbound, session, socket, handshake)
    }

    /// Connect to socket.
    pub fn connect(&mut self, session: SessionKind, socket: SocketAddr) -> (effect: Effect)
        requires
            old(self)@.wf(),
            old(self)@.counts.outbound < usize::MAX,
        ensures
            final(self)@ == old(self)@.begun(Direction::Outbound, 1),
            final(self)@.wf(),
            effect == (Effect::Dial {
                session,
                socket,
                config: old(self)@.config.connection,
            }),
    {
        self.connection_counter.note_new_outbound_connection();
        Effect::Dial { session, socket, config: self.config.connection }
    }

    /// Connect to the single socket that an address holds.
    pub fn connect_picked(&mut self, session: SessionKind, address: Address) -> (effect: Effect)
        requires
            old(self)@.wf(),
            old(self)@.counts.outbound < usize::MAX,
        ensures
            final(self)@ == old(self)@.begun(Direction::Outbound, 1),
            final(self)@.wf(),
            effect == (Effect::DialPicked {
                session,
                address,
                config: old(self)@.config.connection,
            }),
    {
        self.connection_counter.note_new_outbound_connection();
        Effect::DialPicked { session, address, config: self.config.connection }
    }

    /// Connect to the socket of an ordinary node.
    pub fn connect_normal(&mut self, socket: SocketAddr) -> (effect: Effect)
        requires
            old(self)@.wf(),
            old(self)@.counts.outbound < usize::MAX,
        ensures
            final(self)@ == old(self)@.begun(Direction::Outbound, 1),
            final(self)@.wf(),
            effect == (Effect::Dial {
                session: SessionKind::Normal,
                socket,
                config: old(self)@.config.connection,
            }),
    {
        self.connect(SessionKind::Normal, socket)
    }

    /// Goes on after an attempt to accept a connection.
    pub fn accept_connection_future(
        &mut self,
        socket: SocketAddr,
        handshake: Handshake,
    ) -> (effects: Vec<Effect>)
        requires
            old(self)@.wf(),
            old(self)@.pending(Direction::Inbound) > 0,
            handshake is Completed ==> old(self)@.connections.next_id < usize::MAX,
        ensures
            final(self)@ == old(self)@.settled(Direction::Inbound, handshake),
            final(self)@.wf(),
            effects@ == old(self)@.settled_effects(
                Direction::Inbound,
                SessionKind::Normal,
                socket,
                handshake,
            ),
    {
        self.finish_handshake(Direction::Inbound, SessionKind::Normal, socket, handshake)
    }

    /// Accept a connection.
    pub fn accept_connection(&mut self, socket: SocketAddr, config: NetConfig) -> (effect: Effect)
        requires
            old(self)@.wf(),
            old(self)@.counts.inbound < usize::MAX,
        ensures
            final(self)@ == old(self)@.begun(Direction::Inbound, 1),
            final(self)@.wf(),
            effect == (Effect::Accept { socket, config }),
    {
        self.connection_counter.note_new_inbound_connection();
        Effect::Accept { socket, config }
    }

    /// Called for each incoming stream: accepts it if inbound connections are missing to the
    /// maximum, else refuses it.
    pub fn listen(&mut self, socket: SocketAddr, config: NetConfig) -> (effect: Effect)
        requires
            old(self)@.wf(),
        ensures
            final(self)@ == old(self)@.listened(),
            final(self)@.wf(),
            effect == old(self)@.listened_effect(socket, config),
    {
        if self.connection_counter.inbound_connections_needed() > 0 {
            self.accept_connection(socket, config)
        } else {
            Effect::Refuse { socket }
        }
    }

    /// Called on what has come in on a channel.
    pub fn on_message<E, F>(
        &mut self,
        channel: &PeerInfo,
        incoming: Incoming<E, F>,
    ) -> (received: Received<E, F>)
        requires
            old(self)@.wf(),
        ensures
            final(self)@.wf(),
            given_by(received) == message_of(incoming),
            match incoming {
                Incoming::Message { command, payload } => {
                    &&& final(self)@ == old(self)@
                    &&& received == (Received::<E, F>::Handle {
                        peer: channel.id,
                        command,
                        payload,
                    })
                },
                Incoming::ProtocolError { error } => {
                    &&& final(self)@ == old(self)@.closed(channel.id)
                    &&& received matches Received::Fail { effects, error: e }
                    &&& effects@ == old(self)@.closed_with_error_effects(channel.id)
                    &&& e == (ReadError::<E, F>::Protocol { error })
                },
                Incoming::NetworkError { error } => {
                    &&& final(self)@ == old(self)@.closed(channel.id)
                    &&& received matches Received::Fail { effects, error: e }
                    &&& effects@ == old(self)@.closed_with_error_effects(channel.id)
                    &&& e == (ReadError::<E, F>::Network { error })
                },
            },
    {
        match incoming {
            Incoming::Message { command, payload } => {
                Received::Handle { peer: channel.id, command, payload }
            },
            Incoming::ProtocolError { error } => {
                let effects = self.close_channel_with_error(channel.id);
                Received::Fail { effects, error: ReadError::Protocol { error } }
            },
            Incoming::NetworkError { error } => {
                let effects = self.close_channel_with_error(channel.id);
                Received::Fail { effects, error: ReadError::Network { error } }
            },
        }
    }

    /// Called when a session has handled a message: reads the next one, or closes the channel if
    /// the session has found an error.
    pub fn on_message_handled<E>(
        &mut self,
        channel: &PeerInfo,
        handled: Result<(), E>,
    ) -> (done: (Vec<Effect>, Result<(), E>))
        requires
            old(self)@.wf(),
        ensures
            final(self)@.wf(),
            done.1 == handled,
            match handled {
                Ok(_) => {
                    &&& final(self)@ == old(self)@
                    &&& done.0@ == handled_effects(*channel)
                },
                Err(_) => {
                    &&& final(self)@ == old(self)@.closed(channel.id)
                    &&& done.0@ == old(self)@.closed_with_error_effects(channel.id)
                },
            },
    {
        match handled {
            Ok(unit) => {
                let mut effects: Vec<Effect> = Vec::new();
                effects.push(
                    Effect::NodeTable { op: NodeTableOp::NoteUsed { address: channel.address } },
                );
                effects.push(Effect::ReadMessage { peer: channel.id });
                (effects, Ok(unit))
            },
            Err(error) => (self.close_channel_with_error(channel.id), Err(error)),
        }
    }

    /// Send message to a channel with given peer id: how it is to be serialized, if the peer
    /// still exists. What comes of that goes to `send_serialized`.
    pub fn send_to_peer(&self, peer: PeerId, serialization_flags: u32) -> (envelope: Option<
        Envelope,
    >)
        requires
            self@.wf(),
        ensures
            envelope == match self@.connections.get(peer) {
                Some(channel) => Some(
                    Envelope {
                        channel,
                        magic: channel.magic,
                        version: channel.version,
                        serialization_flags,
                    },
                ),
                None => None,
            },
    {
        match self.connections.channel(peer) {
            Some(channel) => Some(
                Envelope {
                    channel,
                    magic: channel.magic,
                    version: channel.version,
                    serialization_flags,
                },
            ),
            None => None,
        }
    }

    /// Reports a serialized message in the statistics of its session, and sends it.
    pub fn send_serialized(
        channel: &PeerInfo,
        command: Command,
        message: Vec<u8>,
    ) -> (sending: (Effect, Outgoing<Vec<u8>>))
        ensures
            sending.0 == (Effect::ReportSend { peer: channel.id, command, bytes: message.len() }),
            sending.1 == (Outgoing { peer: channel.id, message }),
    {
        let report = Effect::ReportSend { peer: channel.id, command, bytes: message.len() };
        (report, Context::send(channel, message))
    }

    /// Send serialized message to a channel with given peer id, if the peer still exists.
    pub fn send_message_to_peer<T>(&self, peer: PeerId, message: T) -> (outgoing: Option<
        Outgoing<T>,
    >)
        requires
            self@.wf(),
        ensures
            outgoing == if self@.connections.contains(peer) {
                Some(Outgoing { peer, message })
            } else {
                None
            },
    {
        proof {
            lemma_get(self@.connections, peer);
        }
        match self.connections.channel(peer) {
            Some(channel) => Some(Context::send(&channel, message)),
            None => None,
        }
    }

    /// Send message using given channel.
    pub fn send<T>(channel: &PeerInfo, message: T) -> (outgoing: Outgoing<T>)
        ensures
            outgoing == (Outgoing { peer: channel.id, message }),
    {
        Outgoing { peer: channel.id, message }
    }

    /// Goes on after a message has been written, or has not. A channel that has failed is not
    /// closed here: that is left to the next attempt to read from it.
    pub fn sent<W, F>(written: Result<W, F>) -> (sent: Result<(), F>)
        ensures
            match written {
                Ok(_) => sent is Ok,
                Err(error) => sent matches Err(e) && e == error,
            },
    {
        match written {
            Ok(_) => Ok(()),
            Err(error) => Err(error),
        }
    }

    /// Close channel with given peer id.
    pub fn close_channel(&mut self, id: PeerId) -> (effects: Vec<Effect>)
        requires
            old(self)@.wf(),
        ensures
            final(self)@ == old(self)@.closed(id),
            final(self)@.wf(),
            effects@ == old(self)@.closed_effects(id),
    {
        proof {
            lemma_closed(self@, id);
            lemma_get(self@.connections, id);
        }
        let mut effects: Vec<Effect> = Vec::new();
        if let Some(channel) = self.connections.remove(id) {
            effects.push(Effect::CloseSession { peer: id });
            effects.push(Effect::ShutdownChannel { peer: id });
            self.note_close(channel.direction);
        }
        effects
    }

    /// Close channel with given peer id, and penalize its node.
    pub fn close_channel_with_error(&mut self, id: PeerId) -> (effects: Vec<Effect>)
        requires
            old(self)@.wf(),
        ensures
            final(self)@ == old(self)@.closed(id),
            final(self)@.wf(),
            effects@ == old(self)@.closed_with_error_effects(id),
    {
        proof {
            lemma_closed(self@, id);
            lemma_get(self@.connections, id);
        }
        let mut effects: Vec<Effect> = Vec::new();
        if let Some(channel) = self.connections.remove(id) {
            effects.push(Effect::CloseSession { peer: id });
            effects.push(Effect::ShutdownChannel { peer: id });
            effects.push(
                Effect::NodeTable { op: NodeTableOp::NoteFailure { address: channel.address } },
            );
            self.note_close(channel.direction);
        }
        effects
    }

    /// Takes out all channels and shuts them down.
    pub fn shutdown(&mut self) -> (effects: Vec<Effect>)
        requires
            old(self)@.wf(),
        ensures
            final(self)@ == old(self)@.emptied(),
            final(self)@.wf(),
            effects@ == shutdown_effects(old(self)@.connections.channels),
    {
        let channels = self.connections.remove_all();
        let mut effects: Vec<Effect> = Vec::new();
        let mut i: usize = 0;
        while i < channels.len()
            invariant
                i <= channels.len(),
                effects@ =~= shutdown_effects(channels@).take(i as int),
            decreases channels.len() - i,
        {
            effects.push(Effect::ShutdownChannel { peer: channels[i].id });
            i = i + 1;
        }
        effects
    }

    pub fn create_sync_session<O>(
        &mut self,
        start_height: i32,
        services: Services,
        outbound_connection: O,
    ) -> (session: SyncSession<O>)
        requires
            old(self)@.wf(),
            old(self)@.sync_sessions < usize::MAX,
        ensures
            final(self)@ == old(self)@.synced(),
            final(self)@.wf(),
            session == sync_session(
                old(self)@.next_sync_index(),
                services,
                outbound_connection,
            ),
            session.inbound.peer_index == old(self)@.sync_sessions + 1,
    {
        self.local_sync_node.create_sync_session(start_height, services, outbound_connection)
    }

    pub fn connections(&self) -> (connections: &Connections)
        ensures
            connections@ == self@.connections,
    {
        &self.connections
    }

    pub fn connection_counter(&self) -> (counter: &ConnectionCounter)
        ensures
            counter@ == self@.counts,
    {
        &self.connection_counter
    }

    pub fn local_sync_node(&self) -> (node: &InboundConnectionFactory)
        ensures
            node@ == self@.sync_sessions,
    {
        &self.local_sync_node
    }

    pub fn config(&self) -> (config: &Config)
        ensures
            *config == self@.config,
    {
        &self.config
    }

    /// How many handshakes of a direction are under way.
    pub fn pending(&self, direction: Direction) -> (pending: usize)
        requires
            self@.wf(),
        ensures
            pending == self@.pending(direction),
    {
        let current: usize = match direction {
            Direction::Inbound => self.connection_counter.inbound_connections().0,
            Direction::Outbound => self.connection_counter.outbound_connections().0,
        };
        current - self.connections.count(direction)
    }

    /// The question to the node table for all its nodes.
    pub fn nodes(&self) -> (query: NodeQuery)
        ensures
            query == NodeQuery::All,
    {
        NodeQuery::All
    }

    fn finish_handshake(
        &mut self,
        direction: Direction,
        session: SessionKind,
        socket: SocketAddr,
        handshake: Handshake,
    ) -> (effects: Vec<Effect>)
        requires
            old(self)@.wf(),
            old(self)@.pending(direction) > 0,
            handshake is Completed ==> old(self)@.connections.next_id < usize::MAX,
        ensures
            final(self)@ == old(self)@.settled(direction, handshake),
            final(self)@.wf(),
            effects@ == old(self)@.settled_effects(direction, session, socket, handshake),
    {
        proof {
            lemma_settled(self@, direction, handshake);
        }
        let mut effects: Vec<Effect> = Vec::new();
        match handshake {
            Handshake::Completed { connection } => {
                effects.push(
                    Effect::NodeTable {
                        op: NodeTableOp::Insert {
                            address: connection.address,
                            services: connection.services,
                        },
                    },
                );
                let channel = self.connections.store(&connection, direction);
                effects.push(Effect::OpenSession { channel, session });
                effects.push(Effect::InitializeSession { peer: channel.id });
                effects.push(Effect::ReadMessage { peer: channel.id });
            },
            _ => {
                effects.push(
                    Effect::NodeTable { op: NodeTableOp::NoteFailure { address: socket } },
                );
                self.note_close(direction);
            },
        }
        effects
    }

    fn note_close(&mut self, direction: Direction)
        requires
            old(self)@.counts.current(direction) > 0,
        ensures
            final(self)@ == old(self)@.begun(direction, -1),
    {
        match direction {
            Direction::Inbound => self.connection_counter.note_close_inbound_connection(),
            Direction::Outbound => self.connection_counter.note_close_outbound_connection(),
        }
    }
}

} // verus!
