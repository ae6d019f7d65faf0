//! Counting of inbound and outbound connections.
use vstd::prelude::*;

verus! {

/// Which side has set up a connection.
#[derive(Clone, Copy, PartialEq, Eq, Debug, Structural)]
pub enum Direction {
    Inbound,
    Outbound,
}

/// Numbers of connections and how many there should be at most.
pub struct ConnectionCounts {
    pub inbound: int,
    pub max_inbound: int,
    pub outbound: int,
    pub max_outbound: int,
}

impl ConnectionCounts {
    pub open spec fn current(self, direction: Direction) -> int {
        match direction {
            Direction::Inbound => self.inbound,
            Direction::Outbound => self.outbound,
        }
    }

    pub open spec fn max(self, direction: Direction) -> int {
        match direction {
            Direction::Inbound => self.max_inbound,
            Direction::Outbound => self.max_outbound,
        }
    }

    /// How many connections are missing to the maximum.
    pub open spec fn needed(self, direction: Direction) -> int {
        if self.current(direction) < self.max(direction) {
            self.max(direction) - self.current(direction)
        } else {
            0
        }
    }

    /// The counts with `by` more connections of a direction.
    pub open spec fn plus(self, direction: Direction, by: int) -> ConnectionCounts {
        match direction {
            Direction::Inbound => ConnectionCounts { inbound: self.inbound + by, ..self },
            Direction::Outbound => ConnectionCounts { outbound: self.outbound + by, ..self },
        }
    }
}

/// Counts inbound and outbound connections, those still being set up among them.
#[derive(Debug)]
pub struct ConnectionCounter {
    current_inbound_connections: usize,
    current_outbound_connections: usize,
    max_inbound_connections: u32,
    max_outbound_connections: u32,
}

impl View for ConnectionCounter {
    type V = ConnectionCounts;

    closed spec fn view(&self) -> ConnectionCounts {
        ConnectionCounts {
            inbound: self.current_inbound_connections as int,
            max_inbound: self.max_inbound_connections as int,
            outbound: self.current_outbound_connections as int,
            max_outbound: self.max_outbound_connections as int,
        }
    }
}

impl ConnectionCounter {
    pub fn new(max_inbound_connections: u32, max_outbound_connections: u32) -> (counter: Self)
        ensures
            counter@ == (ConnectionCounts {
                inbound: 0,
                max_inbound: max_inbound_connections as int,
                outbound: 0,
                max_outbound: max_outbound_connections as int,
            }),
    {
        ConnectionCounter {
            current_inbound_connections: 0,
            current_outbound_connections: 0,
            max_inbound_connections,
            max_outbound_connections,
        }
    }

    pub fn note_new_inbound_connection(&mut self)
        requires
            old(self)@.inbound < usize::MAX,
        ensures
            final(self)@ == old(self)@.plus(Direction::Inbound, 1),
    {
        self.current_inbound_connections = self.current_inbound_connections + 1;
    }

    pub fn note_new_outbound_connection(&mut self)
        requires
            old(self)@.outbound < usize::MAX,
        ensures
            final(self)@ == old(self)@.plus(Direction::Outbound, 1),
    {
        self.current_outbound_connections = self.current_outbound_connections + 1;
    }

    pub fn note_close_inbound_connection(&mut self)
        requires
            old(self)@.inbound > 0,
        ensures
            final(self)@ == old(self)@.plus(Direction::Inbound, -1),
    {
        self.current_inbound_connections = self.current_inbound_connections - 1;
    }

    pub fn note_close_outbound_connection(&mut self)
        requires
            old(self)@.outbound > 0,
        ensures
            final(self)@ == old(self)@.plus(Direction::Outbound, -1),
    {
        self.current_outbound_connections = self.current_outbound_connections - 1;
    }

    /// Number of inbound connections, and how many there should be at most.
    pub fn inbound_connections(&self) -> (counts: (usize, u32))
        ensures
            counts.0 == self@.inbound,
            counts.1 == self@.max_inbound,
    {
        (self.current_inbound_connections, self.max_inbound_connections)
    }

    /// Number of outbound connections, and how many there should be at most.
    pub fn outbound_connections(&self) -> (counts: (usize, u32))
        ensures
            counts.0 == self@.outbound,
            counts.1 == self@.max_outbound,
    {
        (self.current_outbound_connections, self.max_outbound_connections)
    }

    /// How many inbound connections are missing to the maximum.
    pub fn inbound_connections_needed(&self) -> (needed: u32)
        ensures
            needed == self@.needed(Direction::Inbound),
            needed > 0 ==> self@.inbound < usize::MAX,
    {
        missing(self.current_inbound_connections, self.max_inbound_connections)
    }

    /// How many outbound connections are missing to the maximum.
    pub fn outbound_connections_needed(&self) -> (needed: u32)
        ensures
            needed == self@.needed(Direction::Outbound),
            needed > 0 ==> self@.outbound < usize::MAX,
    {
        missing(self.current_outbound_connections, self.max_outbound_connections)
    }
}

fn missing(current: usize, max: u32) -> (needed: u32)
    ensures
        needed == if current < max {
            max - current
        } else {
            0
        },
{
    if current < max as usize {
        max - current as u32
    } else {
        0
    }
}

} // verus!
