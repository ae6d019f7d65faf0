//! Numbering of the peers that take part in synchronization.
use crate::message::Services;
use vstd::prelude::*;

verus! {

/// The synchronization side of an inbound connection.
#[derive(Clone, Copy, PartialEq, Eq, Debug)]
pub struct InboundConnection {
    /// Number of the peer, by which the synchronization node knows it.
    pub peer_index: usize,
}

/// What the list of synchronization peers has to remember of a new peer.
#[derive(PartialEq, Debug)]
pub struct PeerRegistration<O> {
    pub peer_index: usize,
    pub services: Services,
    pub outbound_connection: O,
}

/// A new synchronization session: the peer to be remembered and its inbound connection.
#[derive(PartialEq, Debug)]
pub struct SyncSession<O> {
    pub registration: PeerRegistration<O>,
    pub inbound: InboundConnection,
}

/// The session of the peer with a number.
pub open spec fn sync_session<O>(
    peer_index: usize,
    services: Services,
    outbound_connection: O,
) -> SyncSession<O> {
    SyncSession {
        registration: PeerRegistration { peer_index, services, outbound_connection },
        inbound: InboundConnection { peer_index },
    }
}

/// Inbound synchronization connection factory.
#[derive(Debug)]
pub struct InboundConnectionFactory {
    /// Throughout counter of synchronization peers.
    counter: usize,
}

impl View for InboundConnectionFactory {
    type V = nat;

    /// How many peers have been numbered so far.
    closed spec fn view(&self) -> nat {
        self.counter as nat
    }
}

impl InboundConnectionFactory {
    /// Create new inbound connection factory.
    pub fn new() -> (factory: Self)
        ensures
            factory@ == 0,
    {
        InboundConnectionFactory { counter: 0 }
    }

    /// Box inbound connection factory.
    pub fn boxed(self) -> (factory: Box<InboundConnectionFactory>)
        ensures
            factory@ == self@,
            *factory == self,
    {
        Box::new(self)
    }

    /// How many peers have been numbered so far.
    pub fn peers_created(&self) -> (count: usize)
        ensures
            count == self@,
    {
        self.counter
    }

    /// Numbers a new peer, from 1 on, and sets up its session.
    pub fn create_sync_session<O>(
        &mut self,
        _best_block_height: i32,
        services: Services,
        outbound_connection: O,
    ) -> (session: SyncSession<O>)
        requires
            old(self)@ < usize::MAX,
        ensures
            final(self)@ == old(self)@ + 1,
            session == sync_session((old(self)@ + 1) as usize, services, outbound_connection),
            session.inbound.peer_index == old(self)@ + 1,
    {
        self.counter = self.counter + 1;
        let peer_index: usize = self.counter;
        SyncSession {
            registration: PeerRegistration { peer_index, services, outbound_connection },
            inbound: InboundConnection { peer_index },
        }
    }
}

} // verus!
