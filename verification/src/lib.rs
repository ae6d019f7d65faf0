//! The decision core of a Bitcoin peer-to-peer node.
//!
//! The library keeps the state of a node's network side (open channels, connection counts,
//! protocol flags) and says, for each thing that happens on the network, how that state moves on
//! and what has to be done outside: which socket to dial, which session to close, which node to
//! penalise. Sockets, timers, the node table and the wire format stay outside; they perform the
//! effects that are returned here and report back.
pub mod address_laws;
pub mod channel_laws;
pub mod client;
pub mod config;
pub mod connecting_laws;
pub mod connection_counter;
pub mod connections;
pub mod context;
pub mod domain_laws;
pub mod effect;
pub mod history;
pub mod inbound_connection_factory;
pub mod laws;
pub mod message;
pub mod network_state;
pub mod node_table;
pub mod p2p;
pub mod protocol;
pub mod reading;
pub mod seednode;
pub mod session_laws;
pub mod start_laws;
