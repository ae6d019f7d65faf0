//! What has to be done outside of the library.
use crate::config::NetConfig;
use crate::connections::{PeerId, PeerInfo};
use crate::message::{Command, Services, SocketAddr};
use crate::node_table::NodeTableOp;
use abstract_ns::Address;
use vstd::prelude::*;

verus! {

/// Which protocols a session speaks.
#[derive(Clone, Copy, PartialEq, Eq, Debug, Structural)]
pub enum SessionKind {
    /// Session with an ordinary node.
    Normal,
    /// Session with a node that is only asked for addresses.
    Seednode,
}

/// A piece of work for the outside. Effects are performed in the order in which they are given.
#[derive(PartialEq, Debug)]
pub enum Effect {
    /// Read the node table from a file.
    LoadNodeTable { preferable_services: Services, path: String },
    /// Write the node table to a file. A failure is reported and otherwise ignored.
    SaveNodeTable { path: String },
    /// Change the node table.
    NodeTable { op: NodeTableOp },
    /// Connect to a socket and shake hands, and go on with the outcome.
    Dial { session: SessionKind, socket: SocketAddr, config: NetConfig },
    /// Connect to the single socket that an address holds and shake hands, and go on with the
    /// outcome.
    DialPicked { session: SessionKind, address: Address, config: NetConfig },
    /// Shake hands on an incoming stream, and go on with the outcome.
    Accept { socket: SocketAddr, config: NetConfig },
    /// Shut an incoming stream down in both directions, whatever comes of it.
    Refuse { socket: SocketAddr },
    /// Set up the session of a new channel.
    OpenSession { channel: PeerInfo, session: SessionKind },
    /// Let a session send its first messages.
    InitializeSession { peer: PeerId },
    /// Let a session check that its channel is alive.
    MaintainSession { peer: PeerId },
    /// Tell a session that its channel is closed.
    CloseSession { peer: PeerId },
    /// Read a message from a channel, and go on with the outcome.
    ReadMessage { peer: PeerId },
    /// Note in a session's statistics that a message has been sent.
    ReportSend { peer: PeerId, command: Command, bytes: usize },
    /// Shut a channel down.
    ShutdownChannel { peer: PeerId },
    /// Set up the resolver of names, and go on with the outcome.
    StartResolver,
    /// Resolve the name of a seednode, and go on with the outcome in `P2P::on_seednode_resolved`.
    ResolveSeednode { name: String },
    /// Look after the connections at once and from then on whenever so many seconds have passed.
    StartAutoconnect { interval: u64 },
    /// Listen for incoming streams at the local address, and go on with each of them.
    Listen { config: NetConfig },
}

} // verus!
