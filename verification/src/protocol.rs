//! Protocols by which nodes tell each other of the nodes they know.
use crate::address_laws::announces;
use crate::connection_counter::Direction;
use crate::connections::{PeerId, PeerInfo};
use crate::message::{Addr, AddrV31402, AddressEntry, Command, GetAddr};
use crate::node_table::Node;
use bytes::Bytes;
use vstd::prelude::*;

verus! {

/// After how many seconds a seednode that has sent addresses is disconnected.
pub const SEEDNODE_DISCONNECT_DELAY: u64 = 60;

/// What a protocol wants to be done with its channel and its node.
#[derive(PartialEq, Debug)]
pub enum ProtocolEffect {
    /// Send a request for addresses.
    RequestAddresses { request: GetAddr },
    /// Ask for the recently active nodes, and go on with them in `AddrProtocol::on_active_nodes`.
    FindActiveNodes,
    /// Answer the message that is being handled.
    Respond { response: Addr },
    /// Put addresses into the node table.
    UpdateNodeTable { nodes: Vec<AddressEntry> },
    /// Close the channel.
    CloseChannel { peer: PeerId },
    /// Close the channel when so many seconds have passed.
    CloseChannelAfter { peer: PeerId, seconds: u64 },
}

/// How the payload of a message is to be read.
#[derive(PartialEq, Debug)]
pub enum AddrStep<'a> {
    /// Read it as `GetAddr`, and go on with the outcome in `AddrProtocol::on_getaddr`.
    ReadGetAddr { payload: &'a Bytes, version: u32 },
    /// Read it as `Addr`, and go on with the outcome in `AddrProtocol::on_addr`.
    ReadAddr { payload: &'a Bytes, version: u32 },
    /// Not at all: the message is of no concern.
    Ignore,
}

/// Asks for addresses, and answers those who ask.
#[derive(Debug)]
pub struct AddrProtocol {
    /// The node at the other end.
    pub info: PeerInfo,
    /// True if this is a connection to the seednode, to be closed after receiving addr message.
    pub is_seed_node_connection: bool,
}

impl AddrProtocol {
    pub fn new(info: PeerInfo, is_seed_node_connection: bool) -> (protocol: Self)
        ensures
            protocol == (AddrProtocol { info, is_seed_node_connection }),
    {
        AddrProtocol { info, is_seed_node_connection }
    }

    /// Asks for addresses if this node has set up the connection.
    pub fn initialize(&mut self) -> (effect: Option<ProtocolEffect>)
        ensures
            *final(self) == *old(self),
            effect == match old(self).info.direction {
                Direction::Outbound => Some(
                    ProtocolEffect::RequestAddresses { request: GetAddr },
                ),
                Direction::Inbound => None,
            },
    {
        match self.info.direction {
            Direction::Outbound => Some(ProtocolEffect::RequestAddresses { request: GetAddr }),
            Direction::Inbound => None,
        }
    }

    /// Tells by its command how a message is to be read.
    ///
    /// Normal nodes send addr message only after they receive getaddr message. Meanwhile
    /// seednodes send addr message even before they are asked for it.
    pub fn on_message<'a>(&mut self, command: &Command, payload: &'a Bytes) -> (step: AddrStep<'a>)
        ensures
            *final(self) == *old(self),
            step == if command@ == "getaddr"@ {
                AddrStep::ReadGetAddr { payload, version: old(self).info.version }
            } else if command@ == "addr"@ {
                AddrStep::ReadAddr { payload, version: old(self).info.version }
            } else {
                AddrStep::Ignore
            },
    {
        if *command == GetAddr::command() {
            AddrStep::ReadGetAddr { payload, version: self.info.version }
        } else if *command == Addr::command() {
            AddrStep::ReadAddr { payload, version: self.info.version }
        } else {
            AddrStep::Ignore
        }
    }

    /// Goes on after a message has been read as `GetAddr`.
    pub fn on_getaddr<E>(&mut self, read: Result<GetAddr, E>) -> (effect: Result<
        ProtocolEffect,
        E,
    >)
        ensures
            *final(self) == *old(self),
            match read {
                Ok(_) => effect matches Ok(effect) && effect == ProtocolEffect::FindActiveNodes,
                Err(error) => effect matches Err(e) && e == error,
            },
    {
        match read {
            Ok(_) => Ok(ProtocolEffect::FindActiveNodes),
            Err(error) => Err(error),
        }
    }

    /// Answers with the nodes that are recently active.
    pub fn on_active_nodes(&mut self, nodes: &Vec<Node>) -> (effect: ProtocolEffect)
        ensures
            *final(self) == *old(self),
            effect matches ProtocolEffect::Respond { response: Addr::V31402(addr) }
                && addr.addresses@ == announced(nodes@) && forall|i: int|
                0 <= i < nodes@.len() ==> announces(#[trigger] addr.addresses@[i], nodes@[i]),
    {
        let mut entries: Vec<AddressEntry> = Vec::new();
        let mut i: usize = 0;
        while i < nodes.len()
            invariant
                i <= nodes.len(),
                entries@ =~= announced(nodes@).take(i as int),
            decreases nodes.len() - i,
        {
            entries.push(nodes[i].entry());
            i = i + 1;
        }
        ProtocolEffect::Respond { response: Addr::new(entries) }
    }

    /// Goes on after a message has been read as `Addr`: the addresses go into the node table.
    ///
    /// Seednodes are responding with two addr messages: one with a single address, the seednode
    /// itself, and one with the contents of its node table. After the second the connection to a
    /// seednode is closed.
    pub fn on_addr<E>(&mut self, read: Result<Addr, E>) -> (effects: Result<Vec<ProtocolEffect>, E>)
        requires
            read matches Ok(addr) ==> addr is V31402,
        ensures
            *final(self) == *old(self),
            match read {
                Ok(Addr::V31402(addr)) => effects matches Ok(effects) && effects@
                    == old(self).addr_effects(addr),
                Ok(Addr::V0(_)) => true,
                Err(error) => effects matches Err(e) && e == error,
            },
    {
        match read {
            Ok(Addr::V31402(addr)) => {
                let nodes_len: usize = addr.addresses.len();
                let mut effects: Vec<ProtocolEffect> = Vec::new();
                effects.push(ProtocolEffect::UpdateNodeTable { nodes: addr.addresses });
                if self.is_seed_node_connection && nodes_len > 1 {
                    effects.push(ProtocolEffect::CloseChannel { peer: self.info.id });
                }
                Ok(effects)
            },
            Ok(Addr::V0(_)) => vstd::pervasive::unreached(),
            Err(error) => Err(error),
        }
    }

    /// What is to be done with addresses that have been received.
    pub open spec fn addr_effects(self, addr: AddrV31402) -> Seq<ProtocolEffect> {
        let update = seq![ProtocolEffect::UpdateNodeTable { nodes: addr.addresses }];
        if self.is_seed_node_connection && addr.addresses@.len() > 1 {
            update.push(ProtocolEffect::CloseChannel { peer: self.info.id })
        } else {
            update
        }
    }
}

/// Entries by which nodes are announced.
pub open spec fn announced(nodes: Seq<Node>) -> Seq<AddressEntry> {
    nodes.map_values(|node: Node| node.spec_entry())
}

/// Disconnects from a seednode that has sent addresses.
#[derive(Debug)]
pub struct SeednodeProtocol {
    /// The node at the other end.
    pub info: PeerInfo,
    /// Indicates if disconnecting has been scheduled.
    pub disconnecting: bool,
}

impl SeednodeProtocol {
    pub fn new(info: PeerInfo) -> (protocol: Self)
        ensures
            protocol == (SeednodeProtocol { info, disconnecting: false }),
    {
        SeednodeProtocol { info, disconnecting: false }
    }

    /// Whether a message with a command is the first one with addresses.
    pub open spec fn disconnects_on(self, command: Seq<char>) -> bool {
        !self.disconnecting && command == "addr"@
    }

    /// The protocol after a message with a command.
    pub open spec fn after(self, command: Seq<char>) -> SeednodeProtocol {
        SeednodeProtocol { disconnecting: self.disconnecting || command == "addr"@, ..self }
    }

    /// Schedules the end of the connection when addresses come for the first time.
    ///
    /// Seednodes send addr message more than once with different addresses, so the connection is
    /// not closed at once.
    pub fn on_message(&mut self, command: &Command, _payload: &Bytes) -> (effect: Option<
        ProtocolEffect,
    >)
        ensures
            *final(self) == old(self).after(command@),
            effect == if old(self).disconnects_on(command@) {
                Some(
                    ProtocolEffect::CloseChannelAfter {
                        peer: old(self).info.id,
                        seconds: SEEDNODE_DISCONNECT_DELAY,
                    },
                )
            } else {
                None
            },
    {
        if !self.disconnecting && *command == Addr::command() {
            self.disconnecting = true;
            Some(
                ProtocolEffect::CloseChannelAfter {
                    peer: self.info.id,
                    seconds: SEEDNODE_DISCONNECT_DELAY,
                },
            )
        } else {
            None
        }
    }
}

} // verus!
