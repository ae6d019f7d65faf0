//! Settings of the network side of a node.
use crate::message::{Services, SocketAddr};
use vstd::prelude::*;

verus! {

/// Internet protocols that a node is allowed to use.
#[derive(Clone, Copy, PartialEq, Eq, Debug, Structural)]
pub enum InternetProtocol {
    Any,
    IpV4,
    IpV6,
}

/// Settings of a single connection.
#[derive(Clone, Copy, PartialEq, Eq, Debug)]
pub struct NetConfig {
    /// Address to listen on.
    pub local_address: SocketAddr,
    /// Services that the node announces.
    pub services: Services,
}

/// Settings of the network side of a node.
#[derive(Clone, Debug)]
pub struct Config {
    /// Number of worker threads.
    pub threads: usize,
    /// Number of inbound connections to have at most.
    pub inbound_connections: u32,
    /// Number of outbound connections to have at most.
    pub outbound_connections: u32,
    /// Settings of each connection.
    pub connection: NetConfig,
    /// Nodes to connect to at start.
    pub peers: Vec<SocketAddr>,
    /// Names of the nodes to ask for addresses at start.
    pub seeds: Vec<String>,
    /// Where the node table is kept.
    pub node_table_path: String,
    /// Services by which nodes are preferred.
    pub preferable_services: Services,
    /// Internet protocols that may be used.
    pub internet_protocol: InternetProtocol,
}

} // verus!
