//! The channels that are open to other nodes.
use crate::connection_counter::Direction;
use crate::message::{Services, SocketAddr};
use vstd::prelude::*;

verus! {

/// Identifies a channel for as long as the node runs.
pub type PeerId = usize;

/// What is known of the node at the other end of a channel.
#[derive(Clone, Copy, PartialEq, Eq, Debug)]
pub struct PeerInfo {
    pub id: PeerId,
    pub address: SocketAddr,
    pub direction: Direction,
    pub version: u32,
    pub magic: u32,
}

/// A connection on which both sides have shaken hands.
#[derive(Clone, Copy, PartialEq, Eq, Debug)]
pub struct Connection {
    pub address: SocketAddr,
    pub services: Services,
    pub version: u32,
    pub magic: u32,
}

/// Open channels in the order in which they were opened, and the id of the next one.
pub struct ChannelTable {
    pub channels: Seq<PeerInfo>,
    pub next_id: int,
}

impl ChannelTable {
    pub open spec fn empty() -> ChannelTable {
        ChannelTable { channels: Seq::empty(), next_id: 0 }
    }

    /// Ids grow from channel to channel, and the next id is larger than each of them.
    pub open spec fn wf(self) -> bool {
        &&& 0 <= self.next_id
        &&& forall|i: int, j: int|
            0 <= i < j < self.channels.len() ==> (#[trigger] self.channels[i]).id < (
            #[trigger] self.channels[j]).id
        &&& forall|i: int|
            0 <= i < self.channels.len() ==> (#[trigger] self.channels[i]).id < self.next_id
    }

    pub open spec fn has_at(self, id: PeerId, i: int) -> bool {
        0 <= i < self.channels.len() && self.channels[i].id == id
    }

    /// Whether a channel is open under an id.
    pub open spec fn contains(self, id: PeerId) -> bool {
        exists|i: int| #[trigger] self.has_at(id, i)
    }

    /// Where the channel with an id stands.
    pub open spec fn position(self, id: PeerId) -> int {
        choose|i: int| #[trigger] self.has_at(id, i)
    }

    /// The channel that is open under an id.
    pub open spec fn get(self, id: PeerId) -> Option<PeerInfo> {
        if self.contains(id) {
            Some(self.channels[self.position(id)])
        } else {
            None
        }
    }

    /// The table without the channel that is open under an id.
    pub open spec fn without(self, id: PeerId) -> ChannelTable {
        if self.contains(id) {
            ChannelTable { channels: self.channels.remove(self.position(id)), ..self }
        } else {
            self
        }
    }

    /// The channel that the next stored connection gets.
    pub open spec fn next_channel(self, connection: Connection, direction: Direction) -> PeerInfo {
        PeerInfo {
            id: self.next_id as usize,
            address: connection.address,
            direction,
            version: connection.version,
            magic: connection.magic,
        }
    }

    /// The table with a channel for one more connection.
    pub open spec fn with(self, connection: Connection, direction: Direction) -> ChannelTable {
        ChannelTable {
            channels: self.channels.push(self.next_channel(connection, direction)),
            next_id: self.next_id + 1,
        }
    }

    /// How many channels of a direction are open.
    pub open spec fn count(self, direction: Direction) -> nat {
        count_channels(self.channels, direction)
    }

    /// Addresses at the other ends.
    pub open spec fn addresses(self) -> Seq<SocketAddr> {
        self.channels.map_values(|channel: PeerInfo| channel.address)
    }
}

/// How many channels of a sequence have a direction.
pub open spec fn count_channels(channels: Seq<PeerInfo>, direction: Direction) -> nat
    decreases channels.len(),
{
    if channels.len() == 0 {
        0
    } else {
        count_channels(channels.drop_last(), direction) + if channels.last().direction
            == direction {
            1nat
        } else {
            0nat
        }
    }
}

/// A channel more counts for its own direction only.
pub proof fn lemma_count_push(channels: Seq<PeerInfo>, channel: PeerInfo, direction: Direction)
    ensures
        count_channels(channels.push(channel), direction) == count_channels(channels, direction)
            + if channel.direction == direction {
            1nat
        } else {
            0nat
        },
{
    assert(channels.push(channel).drop_last() =~= channels);
}

/// A channel less counts for its own direction only.
pub proof fn lemma_count_remove(channels: Seq<PeerInfo>, i: int, direction: Direction)
    requires
        0 <= i < channels.len(),
    ensures
        count_channels(channels, direction) == count_channels(channels.remove(i), direction)
            + if channels[i].direction == direction {
            1nat
        } else {
            0nat
        },
    decreases channels.len(),
{
    let removed = channels.remove(i);
    if i == channels.len() - 1 {
        assert(removed =~= channels.drop_last());
    } else {
        lemma_count_remove(channels.drop_last(), i, direction);
        assert(channels.drop_last().remove(i) =~= removed.drop_last());
        assert(removed.last() == channels.last());
    }
}

/// In a well-formed table an id stands at one place only.
pub proof fn lemma_position(table: ChannelTable, id: PeerId, i: int)
    requires
        table.wf(),
        table.has_at(id, i),
    ensures
        table.contains(id),
        table.position(id) == i,
{
    let k = table.position(id);
    assert(table.has_at(id, k));
    assert(!(i < k) && !(k < i));
}

/// The channel that is open under an id carries that id.
pub proof fn lemma_get(table: ChannelTable, id: PeerId)
    ensures
        table.get(id) matches Some(channel) ==> channel.id == id,
        table.get(id) is Some <==> table.contains(id),
{
    if table.contains(id) {
        assert(table.has_at(id, table.position(id)));
    }
}

/// A stored connection adds its own id and leaves the other channels as they are.
pub proof fn lemma_with(table: ChannelTable, connection: Connection, direction: Direction)
    requires
        table.wf(),
        table.next_id <= usize::MAX,
    ensures
        table.with(connection, direction).wf(),
        !table.contains(table.next_id as usize),
        table.with(connection, direction).get(table.next_id as usize) == Some(
            table.next_channel(connection, direction),
        ),
        forall|id: PeerId|
            id != table.next_id ==> #[trigger] table.with(connection, direction).get(id)
                == table.get(id),
{
    let after = table.with(connection, direction);
    let new = table.next_id as usize;
    assert(after.has_at(new, table.channels.len() as int));
    lemma_position(after, new, table.channels.len() as int);
    if table.contains(new) {
        assert(table.has_at(new, table.position(new)));
    }
    assert forall|id: PeerId| id != table.next_id implies #[trigger] after.get(id) == table.get(
        id,
    ) by {
        if table.contains(id) {
            let i = table.position(id);
            assert(table.has_at(id, i));
            assert(after.has_at(id, i));
            lemma_position(after, id, i);
        } else if after.contains(id) {
            let i = after.position(id);
            assert(after.has_at(id, i));
            assert(table.has_at(id, i));
        }
    }
}

/// Taking out a channel leaves the other channels as they are.
pub proof fn lemma_without(table: ChannelTable, id: PeerId)
    requires
        table.wf(),
    ensures
        table.without(id).wf(),
        !table.without(id).contains(id),
        forall|other: PeerId|
            other != id ==> #[trigger] table.without(id).get(other) == table.get(other),
{
    let after = table.without(id);
    if table.contains(id) {
        let k = table.position(id);
        assert(table.has_at(id, k));
        if after.contains(id) {
            let i = after.position(id);
            assert(after.has_at(id, i));
            let j = if i < k {
                i
            } else {
                i + 1
            };
            assert(table.has_at(id, j));
            lemma_position(table, id, j);
        }
        assert forall|other: PeerId| other != id implies #[trigger] after.get(other) == table.get(
            other,
        ) by {
            if table.contains(other) {
                let j = table.position(other);
                assert(table.has_at(other, j));
                let i = if j < k {
                    j
                } else {
                    j - 1
                };
                assert(after.has_at(other, i));
                lemma_position(after, other, i);
            } else if after.contains(other) {
                let i = after.position(other);
                assert(after.has_at(other, i));
                let j = if i < k {
                    i
                } else {
                    i + 1
                };
                assert(table.has_at(other, j));
            }
        }
    }
}

/// The channels that are open to other nodes.
#[derive(Debug)]
pub struct Connections {
    channels: Vec<PeerInfo>,
    peer_counter: usize,
}

impl View for Connections {
    type V = ChannelTable;

    closed spec fn view(&self) -> ChannelTable {
        ChannelTable { channels: self.channels@, next_id: self.peer_counter as int }
    }
}

impl Default for Connections {
    fn default() -> (connections: Connections)
        ensures
            connections@ == ChannelTable::empty(),
            connections@.wf(),
    {
        Connections { channels: Vec::new(), peer_counter: 0 }
    }
}

impl Connections {
    /// Opens a channel on a connection.
    pub fn store(&mut self, connection: &Connection, direction: Direction) -> (channel: PeerInfo)
        requires
            old(self)@.wf(),
            old(self)@.next_id < usize::MAX,
        ensures
            channel == old(self)@.next_channel(*connection, direction),
            final(self)@ == old(self)@.with(*connection, direction),
            final(self)@.wf(),
    {
        let channel = PeerInfo {
            id: self.peer_counter,
            address: connection.address,
            direction,
            version: connection.version,
            magic: connection.magic,
        };
        self.channels.push(channel);
        self.peer_counter = self.peer_counter + 1;
        channel
    }

    /// Finds where the channel with an id stands.
    fn find(&self, id: PeerId) -> (place: Option<usize>)
        requires
            self@.wf(),
        ensures
            match place {
                Some(i) => self@.has_at(id, i as int) && self@.contains(id) && self@.position(id)
                    == i,
                None => !self@.contains(id),
            },
    {
        let mut i: usize = 0;
        while i < self.channels.len()
            invariant
                self@.wf(),
                i <= self.channels.len(),
                forall|k: int| 0 <= k < i ==> !#[trigger] self@.has_at(id, k),
            decreases self.channels.len() - i,
        {
            if self.channels[i].id == id {
                proof {
                    lemma_position(self@, id, i as int);
                }
                return Some(i);
            }
            i = i + 1;
        }
        None
    }

    /// The channel that is open under an id.
    pub fn channel(&self, id: PeerId) -> (channel: Option<PeerInfo>)
        requires
            self@.wf(),
        ensures
            channel == self@.get(id),
    {
        match self.find(id) {
            Some(i) => Some(self.channels[i]),
            None => None,
        }
    }

    /// Takes out the channel that is open under an id.
    pub fn remove(&mut self, id: PeerId) -> (channel: Option<PeerInfo>)
        requires
            old(self)@.wf(),
        ensures
            channel == old(self)@.get(id),
            final(self)@ == old(self)@.without(id),
            final(self)@.wf(),
    {
        match self.find(id) {
            Some(i) => Some(self.channels.remove(i)),
            None => None,
        }
    }

    /// Takes out all channels.
    pub fn remove_all(&mut self) -> (channels: Vec<PeerInfo>)
        requires
            old(self)@.wf(),
        ensures
            channels@ == old(self)@.channels,
            final(self)@ == (ChannelTable { channels: Seq::empty(), ..old(self)@ }),
            final(self)@.wf(),
    {
        let mut channels: Vec<PeerInfo> = Vec::new();
        channels.append(&mut self.channels);
        channels
    }

    /// The id that the next channel gets.
    pub fn next_id(&self) -> (id: PeerId)
        ensures
            id == self@.next_id,
    {
        self.peer_counter
    }

    /// How many channels of a direction are open.
    pub fn count(&self, direction: Direction) -> (count: usize)
        ensures
            count == self@.count(direction),
    {
        let mut count: usize = 0;
        let mut i: usize = 0;
        while i < self.channels.len()
            invariant
                count <= i <= self.channels.len(),
                count == count_channels(self.channels@.take(i as int), direction),
            decreases self.channels.len() - i,
        {
            assert(self.channels@.take(i + 1).drop_last() =~= self.channels@.take(i as int));
            if self.channels[i].direction == direction {
                count = count + 1;
            }
            i = i + 1;
        }
        assert(self.channels@.take(i as int) =~= self.channels@);
        count
    }

    /// All open channels.
    pub fn channels(&self) -> (channels: &Vec<PeerInfo>)
        ensures
            channels@ == self@.channels,
    {
        &self.channels
    }

    /// Addresses of the nodes to which channels are open.
    pub fn addresses(&self) -> (addresses: Vec<SocketAddr>)
        ensures
            addresses@ == self@.addresses(),
    {
        let mut addresses: Vec<SocketAddr> = Vec::new();
        let mut i: usize = 0;
        while i < self.channels.len()
            invariant
                i <= self.channels.len(),
                addresses@ =~= self@.addresses().take(i as int),
            decreases self.channels.len() - i,
        {
            addresses.push(self.channels[i].address);
            i = i + 1;
        }
        addresses
    }
}

} // verus!
