//! What is asked of the table of known nodes.
use crate::config::InternetProtocol;
use crate::message::{AddressEntry, NetAddress, Services, SocketAddr};
use vstd::prelude::*;

verus! {

/// A node of the table.
#[derive(Clone, Copy, PartialEq, Eq, Debug)]
pub struct Node {
    /// Where the node listens.
    pub address: SocketAddr,
    /// Services that the node supports.
    pub services: Services,
    /// When the node was last active, in seconds since 1970.
    pub time: u32,
}

impl Node {
    pub fn address(&self) -> (address: SocketAddr)
        ensures
            address == self.address,
    {
        self.address
    }

    /// The entry that announces a node.
    pub open spec fn spec_entry(self) -> AddressEntry {
        AddressEntry {
            timestamp: self.time,
            address: NetAddress {
                services: self.services,
                address: self.address.spec_ip(),
                port: self.address.spec_port(),
            },
        }
    }

    pub fn entry(&self) -> (entry: AddressEntry)
        ensures
            entry == self.spec_entry(),
    {
        AddressEntry {
            timestamp: self.time,
            address: NetAddress {
                services: self.services,
                address: self.address.ip(),
                port: self.address.port(),
            },
        }
    }
}

/// A change of the node table.
#[derive(PartialEq, Debug)]
pub enum NodeTableOp {
    /// Note a node with which a connection has been set up.
    Insert { address: SocketAddr, services: Services },
    /// Note nodes of which another node has told.
    InsertMany { nodes: Vec<AddressEntry> },
    /// Note that a node has sent a message.
    NoteUsed { address: SocketAddr },
    /// Note that a node has failed.
    NoteFailure { address: SocketAddr },
    /// Add a node that is not in the table.
    Add { address: SocketAddr, services: Services },
    /// Take a node out of the table.
    Remove { address: SocketAddr },
}

/// A question to the node table.
#[derive(PartialEq, Debug)]
pub enum NodeQuery {
    /// All nodes.
    All,
    /// Nodes that have been active of late, in the order of the table.
    RecentlyActive { protocol: InternetProtocol },
    /// The `limit` best nodes that support `services` and are none of `except`.
    WithServices {
        services: Services,
        protocol: InternetProtocol,
        except: Vec<SocketAddr>,
        limit: usize,
    },
}

} // verus!
