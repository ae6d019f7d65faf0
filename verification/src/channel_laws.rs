//! What each operation on channels does, whatever the state it finds.
//!
//! The laws here speak of calls: of what a call was given, what it has returned, and the state
//! before and after it.
use crate::connection_counter::{ConnectionCounts, Direction};
use crate::connections::{
    count_channels, lemma_position, ChannelTable, Connection, Connections, PeerId, PeerInfo,
};
use crate::context::{Context, Envelope, Incoming, Outgoing, ReadError, Received};
use crate::effect::{Effect, SessionKind};
use crate::message::{Command, SocketAddr};
use crate::network_state::{Handshake, NetworkState};
use crate::node_table::NodeTableOp;
use crate::p2p::P2P;
use vstd::prelude::*;

verus! {

/// Whether a completed handshake has led from one state to another: the node is noted with its
/// services; a channel with an id that no open channel has joins the others and carries what the
/// two sides agreed on; the session of that very channel, and of no other, is opened, initialized
/// and read from, in this order, each once; and nothing else happens.
pub open spec fn opens_a_channel(
    before: NetworkState,
    after: NetworkState,
    direction: Direction,
    session: SessionKind,
    connection: Connection,
    effects: Seq<Effect>,
) -> bool {
    &&& effects.len() == 4
    &&& effects[0] == (Effect::NodeTable {
        op: NodeTableOp::Insert { address: connection.address, services: connection.services },
    })
    &&& effects[1] matches Effect::OpenSession { channel, session: opened }
    &&& opened == session
    &&& channel.address == connection.address
    &&& channel.version == connection.version
    &&& channel.magic == connection.magic
    &&& channel.direction == direction
    &&& channel.id == before.connections.next_id
    &&& forall|i: int|
        0 <= i < before.connections.channels.len() ==> (
        #[trigger] before.connections.channels[i]).id != channel.id
    &&& effects[2] == (Effect::InitializeSession { peer: channel.id })
    &&& effects[3] == (Effect::ReadMessage { peer: channel.id })
    &&& after.connections.channels == before.connections.channels.push(channel)
    &&& after.connections.next_id == before.connections.next_id + 1
    &&& after.counts == before.counts
    &&& after.sync_sessions == before.sync_sessions
    &&& after.config == before.config
}

/// Whether the counts of two states differ by one connection less of a direction, and in nothing
/// else.
pub open spec fn one_less(
    before: ConnectionCounts,
    after: ConnectionCounts,
    direction: Direction,
) -> bool {
    &&& after.inbound == before.inbound - if direction == Direction::Inbound {
        1int
    } else {
        0int
    }
    &&& after.outbound == before.outbound - if direction == Direction::Outbound {
        1int
    } else {
        0int
    }
    &&& after.max_inbound == before.max_inbound
    &&& after.max_outbound == before.max_outbound
}

/// Whether a failed handshake has led from one state to another: the failure of the node on the
/// socket is noted, there is one connection less of its direction, and nothing else happens.
pub open spec fn gives_up_a_handshake(
    before: NetworkState,
    after: NetworkState,
    direction: Direction,
    socket: SocketAddr,
    effects: Seq<Effect>,
) -> bool {
    &&& effects.len() == 1
    &&& effects[0] == (Effect::NodeTable { op: NodeTableOp::NoteFailure { address: socket } })
    &&& one_less(before.counts, after.counts, direction)
    &&& after.connections == before.connections
    &&& after.sync_sessions == before.sync_sessions
    &&& after.config == before.config
}

/// Whether no channel is open under an id.
pub open spec fn nowhere(channels: Seq<PeerInfo>, id: PeerId) -> bool {
    forall|i: int| 0 <= i < channels.len() ==> (#[trigger] channels[i]).id != id
}

/// Whether closing the channel with an id has led from one state to another. If there is no such
/// channel, nothing happens. Otherwise its session is told, then the channel is shut down, then
/// its node is penalised if there was an error; the channel is taken out from among the others,
/// which keep their order; and there is one connection less of its direction.
pub open spec fn closes_a_channel(
    before: NetworkState,
    after: NetworkState,
    id: PeerId,
    error: bool,
    effects: Seq<Effect>,
) -> bool {
    &&& nowhere(before.connections.channels, id) ==> effects.len() == 0 && after == before
    &&& forall|i: int|
        0 <= i < before.connections.channels.len() && (
        #[trigger] before.connections.channels[i]).id == id ==> {
            let channel = before.connections.channels[i];
            &&& effects.len() == if error {
                3int
            } else {
                2int
            }
            &&& effects[0] == (Effect::CloseSession { peer: id })
            &&& effects[1] == (Effect::ShutdownChannel { peer: id })
            &&& error ==> effects[2] == (Effect::NodeTable {
                op: NodeTableOp::NoteFailure { address: channel.address },
            })
            &&& after.connections.channels == before.connections.channels.remove(i)
            &&& after.connections.next_id == before.connections.next_id
            &&& one_less(before.counts, after.counts, channel.direction)
            &&& after.sync_sessions == before.sync_sessions
            &&& after.config == before.config
        }
}

proof fn lemma_nowhere(table: ChannelTable, id: PeerId)
    ensures
        nowhere(table.channels, id) <==> !table.contains(id),
        table.contains(id) ==> table.has_at(id, table.position(id)),
{
    if table.contains(id) {
        assert(table.has_at(id, table.position(id)));
    } else {
        assert forall|i: int| 0 <= i < table.channels.len() implies (
        #[trigger] table.channels[i]).id != id by {
            assert(!table.has_at(id, i));
        }
    }
}

proof fn lemma_closes(state: NetworkState, id: PeerId)
    requires
        state.wf(),
    ensures
        closes_a_channel(state, state.closed(id), id, false, state.closed_effects(id)),
        closes_a_channel(state, state.closed(id), id, true, state.closed_with_error_effects(id)),
{
    lemma_nowhere(state.connections, id);
    assert forall|i: int|
        0 <= i < state.connections.channels.len() && (
        #[trigger] state.connections.channels[i]).id == id implies state.connections.contains(id)
        && state.connections.position(id) == i by {
        lemma_position(state.connections, id, i);
    }
}

/// A dialled connection whose handshake is completed gets a channel of its own, whose session is
/// opened as the kind that was asked for, initialized, and read from.
pub proof fn law_completed_dial_opens_a_channel(
    context: &mut Context,
    session: SessionKind,
    socket: SocketAddr,
    connection: Connection,
    effects: Vec<Effect>,
)
    requires
        old(context)@.wf(),
        old(context)@.connections.next_id < usize::MAX,
        call_ensures(
            Context::connect_future,
            (context, session, socket, Handshake::Completed { connection }),
            effects,
        ),
    ensures
        opens_a_channel(
            old(context)@,
            final(context)@,
            Direction::Outbound,
            session,
            connection,
            effects@,
        ),
{
}

/// An accepted connection whose handshake is completed gets a channel of its own, whose session
/// is opened as that of an ordinary node, initialized, and read from.
pub proof fn law_completed_accept_opens_a_channel(
    context: &mut Context,
    socket: SocketAddr,
    connection: Connection,
    effects: Vec<Effect>,
)
    requires
        old(context)@.wf(),
        old(context)@.connections.next_id < usize::MAX,
        call_ensures(
            Context::accept_connection_future,
            (context, socket, Handshake::Completed { connection }),
            effects,
        ),
    ensures
        opens_a_channel(
            old(context)@,
            final(context)@,
            Direction::Inbound,
            SessionKind::Normal,
            connection,
            effects@,
        ),
{
}

/// However the handshake of a dialled connection fails, its node is penalised and the connection
/// no longer counted.
pub proof fn law_failed_dial_is_given_up(
    context: &mut Context,
    session: SessionKind,
    socket: SocketAddr,
    handshake: Handshake,
    effects: Vec<Effect>,
)
    requires
        !(handshake is Completed),
        call_ensures(
            Context::connect_future,
            (context, session, socket, handshake),
            effects,
        ),
    ensures
        gives_up_a_handshake(
            old(context)@,
            final(context)@,
            Direction::Outbound,
            socket,
            effects@,
        ),
{
}

/// However the handshake of an accepted connection fails, its node is penalised and the
/// connection no longer counted.
pub proof fn law_failed_accept_is_given_up(
    context: &mut Context,
    socket: SocketAddr,
    handshake: Handshake,
    effects: Vec<Effect>,
)
    requires
        !(handshake is Completed),
        call_ensures(Context::accept_connection_future, (context, socket, handshake), effects),
    ensures
        gives_up_a_handshake(
            old(context)@,
            final(context)@,
            Direction::Inbound,
            socket,
            effects@,
        ),
{
}

/// A look after the sessions checks each open channel once, and no other: an id is named just if
/// a channel is open under it, none is named twice, and nothing else is asked for.
pub proof fn law_maintain_checks_each_open_channel_once(context: &Context, effects: Vec<Effect>)
    requires
        context@.wf(),
        call_ensures(Context::maintain, (context,), effects),
    ensures
        forall|i: int| 0 <= i < effects@.len() ==> #[trigger] effects@[i] is MaintainSession,
        forall|id: PeerId|
            effects@.contains(Effect::MaintainSession { peer: id })
                <==> #[trigger] context@.connections.contains(id),
        forall|id: PeerId|
            effects@.contains(Effect::MaintainSession { peer: id }) <==> !#[trigger] nowhere(
                context@.connections.channels,
                id,
            ),
        forall|i: int, j: int|
            0 <= i < j < effects@.len() ==> #[trigger] effects@[i] != #[trigger] effects@[j],
        effects@.len() == context@.connections.channels.len(),
{
    let channels = context@.connections.channels;
    assert forall|id: PeerId|
        effects@.contains(Effect::MaintainSession { peer: id }) <==> !#[trigger] nowhere(
            channels,
            id,
        ) by {
        if effects@.contains(Effect::MaintainSession { peer: id }) {
            let i = choose|i: int|
                0 <= i < effects@.len() && effects@[i] == (Effect::MaintainSession { peer: id });
            assert(channels[i].id == id);
        }
        if !nowhere(channels, id) {
            let i = choose|i: int|
                0 <= i < channels.len() && (#[trigger] channels[i]).id == id;
            assert(effects@[i] == (Effect::MaintainSession { peer: id }));
        }
    }
    assert forall|id: PeerId|
        effects@.contains(Effect::MaintainSession { peer: id })
            <==> #[trigger] context@.connections.contains(id) by {
        lemma_nowhere(context@.connections, id);
    }
    assert forall|i: int, j: int| 0 <= i < j < effects@.len() implies #[trigger] effects@[i]
        != #[trigger] effects@[j] by {
        assert(channels[i].id < channels[j].id);
    }
}

/// Closing a channel tells its session, shuts the channel down and stops counting it; with an id
/// that has no channel it does nothing.
pub proof fn law_close_channel_closes_one(
    context: &mut Context,
    id: PeerId,
    effects: Vec<Effect>,
)
    requires
        old(context)@.wf(),
        call_ensures(Context::close_channel, (context, id), effects),
    ensures
        closes_a_channel(old(context)@, final(context)@, id, false, effects@),
{
    lemma_closes(old(context)@, id);
}

/// Closing a channel because of an error tells its session, shuts the channel down, penalises the
/// node at its other end and stops counting it; with an id that has no channel it does nothing.
pub proof fn law_close_channel_with_error_closes_one(
    context: &mut Context,
    id: PeerId,
    effects: Vec<Effect>,
)
    requires
        old(context)@.wf(),
        call_ensures(Context::close_channel_with_error, (context, id), effects),
    ensures
        closes_a_channel(old(context)@, final(context)@, id, true, effects@),
{
    lemma_closes(old(context)@, id);
}

/// A message that has come in is given to the session of its channel as it came, and nothing
/// changes. Anything else closes the channel because of an error, and the error is reported as
/// one of the protocol or of the network, as it was met.
pub proof fn law_what_comes_in_is_handled_or_closes_the_channel<E, F>(
    context: &mut Context,
    channel: &PeerInfo,
    incoming: Incoming<E, F>,
    received: Received<E, F>,
)
    requires
        old(context)@.wf(),
        call_ensures(Context::on_message, (context, channel, incoming), received),
    ensures
        match incoming {
            Incoming::Message { command, payload } => {
                &&& received == (Received::<E, F>::Handle { peer: channel.id, command, payload })
                &&& final(context)@ == old(context)@
            },
            Incoming::ProtocolError { error } => {
                &&& received matches Received::Fail { effects, error: reported }
                &&& reported == (ReadError::<E, F>::Protocol { error })
                &&& closes_a_channel(
                    old(context)@,
                    final(context)@,
                    channel.id,
                    true,
                    effects@,
                )
            },
            Incoming::NetworkError { error } => {
                &&& received matches Received::Fail { effects, error: reported }
                &&& reported == (ReadError::<E, F>::Network { error })
                &&& closes_a_channel(
                    old(context)@,
                    final(context)@,
                    channel.id,
                    true,
                    effects@,
                )
            },
        },
{
    lemma_closes(old(context)@, channel.id);
}

/// After a message that the session has accepted, the node of its channel is noted as used, then
/// the next message is read from that channel, and nothing changes. If the session has found an
/// error, the channel is closed because of it. The outcome is handed on either way.
pub proof fn law_handled_message_leads_to_the_next<E>(
    context: &mut Context,
    channel: &PeerInfo,
    handled: Result<(), E>,
    done: (Vec<Effect>, Result<(), E>),
)
    requires
        old(context)@.wf(),
        call_ensures(Context::on_message_handled, (context, channel, handled), done),
    ensures
        done.1 == handled,
        handled is Ok ==> {
            &&& done.0@.len() == 2
            &&& done.0@[0] == (Effect::NodeTable {
                op: NodeTableOp::NoteUsed { address: channel.address },
            })
            &&& done.0@[1] == (Effect::ReadMessage { peer: channel.id })
            &&& final(context)@ == old(context)@
        },
        handled is Err ==> closes_a_channel(
            old(context)@,
            final(context)@,
            channel.id,
            true,
            done.0@,
        ),
{
    lemma_closes(old(context)@, channel.id);
}

/// A message to a peer is serialized with the magic and the version of the channel that is open
/// under the peer's id, and with the flags that were asked for; there is nothing to serialize
/// just if no channel is.
pub proof fn law_message_is_serialized_for_its_channel(
    context: &Context,
    peer: PeerId,
    serialization_flags: u32,
    envelope: Option<Envelope>,
)
    requires
        context@.wf(),
        call_ensures(Context::send_to_peer, (context, peer, serialization_flags), envelope),
    ensures
        envelope is None <==> nowhere(context@.connections.channels, peer),
        envelope matches Some(envelope) ==> {
            &&& envelope.channel.id == peer
            &&& context@.connections.channels.contains(envelope.channel)
            &&& envelope.magic == envelope.channel.magic
            &&& envelope.version == envelope.channel.version
            &&& envelope.serialization_flags == serialization_flags
        },
{
    lemma_nowhere(context@.connections, peer);
}

/// A message that is serialized already goes as it is to the peer, just if a channel is open under
/// the peer's id.
pub proof fn law_serialized_message_goes_to_its_peer<T>(
    context: &Context,
    peer: PeerId,
    message: T,
    outgoing: Option<Outgoing<T>>,
)
    requires
        context@.wf(),
        call_ensures(Context::send_message_to_peer, (context, peer, message), outgoing),
    ensures
        outgoing is None <==> nowhere(context@.connections.channels, peer),
        outgoing matches Some(outgoing) ==> outgoing.peer == peer && outgoing.message == message,
{
    lemma_nowhere(context@.connections, peer);
}

/// A message goes out on the channel it was meant for, unchanged, and is reported to the session
/// of that channel with its command and its length in bytes.
pub proof fn law_sent_message_is_reported(
    channel: &PeerInfo,
    command: Command,
    message: Vec<u8>,
    sending: (Effect, Outgoing<Vec<u8>>),
)
    requires
        call_ensures(Context::send_serialized, (channel, command, message), sending),
    ensures
        sending.0 matches Effect::ReportSend { peer, command: reported, bytes } && peer
            == channel.id && reported == command && bytes == message@.len(),
        sending.1.peer == channel.id,
        sending.1.message@ == message@,
{
}

/// A message is sent on the channel it was given for, unchanged; and a failure to write it comes
/// back as it is, while success comes back as success.
pub proof fn law_outcome_of_sending_is_handed_on<T, W, F>(
    channel: &PeerInfo,
    message: T,
    outgoing: Outgoing<T>,
    written: Result<W, F>,
    sent: Result<(), F>,
)
    requires
        call_ensures(Context::send, (channel, message), outgoing),
        call_ensures(Context::sent, (written,), sent),
    ensures
        outgoing.peer == channel.id,
        outgoing.message == message,
        written is Ok <==> sent is Ok,
        written matches Err(error) ==> sent == Err::<(), F>(error),
{
}

/// Whether all channels have been taken out of a state and shut down, each once and in turn, with
/// nothing else changed.
pub open spec fn shuts_down_all(
    before: NetworkState,
    after: NetworkState,
    effects: Seq<Effect>,
) -> bool {
    &&& effects.len() == before.connections.channels.len()
    &&& forall|i: int|
        0 <= i < effects.len() ==> #[trigger] effects[i] == (Effect::ShutdownChannel {
            peer: before.connections.channels[i].id,
        })
    &&& after.connections.channels.len() == 0
    &&& after.connections.next_id == before.connections.next_id
    &&& after.counts == before.counts
    &&& after.sync_sessions == before.sync_sessions
    &&& after.config == before.config
}

/// Giving the network side up shuts down each open channel once, and leaves none open.
pub proof fn law_shutdown_leaves_no_channel(
    context: &mut Context,
    context_effects: Vec<Effect>,
    p2p: &mut P2P,
    p2p_effects: Vec<Effect>,
)
    requires
        call_ensures(Context::shutdown, (context,), context_effects),
        call_ensures(P2P::shutdown, (p2p,), p2p_effects),
    ensures
        shuts_down_all(old(context)@, final(context)@, context_effects@),
        shuts_down_all(old(p2p)@, final(p2p)@, p2p_effects@),
{
}

/// A stored connection becomes the last of the open channels, with what the connection holds, the
/// direction it was stored with and an id that no open channel has; the others stay as they are.
pub proof fn law_stored_connection_becomes_a_channel(
    connections: &mut Connections,
    connection: &Connection,
    direction: Direction,
    channel: PeerInfo,
)
    requires
        old(connections)@.wf(),
        old(connections)@.next_id < usize::MAX,
        call_ensures(Connections::store, (connections, connection, direction), channel),
    ensures
        channel.address == connection.address,
        channel.version == connection.version,
        channel.magic == connection.magic,
        channel.direction == direction,
        channel.id == old(connections)@.next_id,
        nowhere(old(connections)@.channels, channel.id),
        final(connections)@.channels == old(connections)@.channels.push(channel),
        final(connections)@.next_id == old(connections)@.next_id + 1,
{
}

/// A channel is found by its id, or taken out by it, just if it is open: what comes back is one of
/// the open channels and has that id. What is not taken out stays, in its order.
pub proof fn law_channels_are_found_by_their_id(
    connections: &Connections,
    found: Option<PeerInfo>,
    changed: &mut Connections,
    removed: Option<PeerInfo>,
    id: PeerId,
)
    requires
        connections@.wf(),
        old(changed)@.wf(),
        call_ensures(Connections::channel, (connections, id), found),
        call_ensures(Connections::remove, (changed, id), removed),
    ensures
        found is None <==> nowhere(connections@.channels, id),
        found matches Some(channel) ==> channel.id == id && connections@.channels.contains(
            channel,
        ),
        removed is None <==> nowhere(old(changed)@.channels, id),
        removed is None ==> final(changed)@.channels == old(changed)@.channels,
        removed matches Some(channel) ==> channel.id == id && exists|i: int|
            0 <= i < old(changed)@.channels.len() && #[trigger] old(changed)@.channels[i]
                == channel && final(changed)@.channels == old(changed)@.channels.remove(i),
        final(changed)@.next_id == old(changed)@.next_id,
{
    lemma_nowhere(connections@, id);
    lemma_nowhere(old(changed)@, id);
    if old(changed)@.contains(id) {
        let i = old(changed)@.position(id);
        assert(old(changed)@.channels[i] == removed->0);
    }
}

/// How many channels of a direction there are is how many are left of the open ones when those of
/// the other direction are passed over.
pub proof fn law_channels_are_counted_by_direction(
    connections: &Connections,
    direction: Direction,
    count: usize,
)
    requires
        call_ensures(Connections::count, (connections, direction), count),
    ensures
        count == connections@.channels.filter(
            |channel: PeerInfo| channel.direction == direction,
        ).len(),
{
    lemma_count_is_filter(connections@.channels, direction);
}

/// Counting the channels of a direction is counting what is left when the others are passed over.
pub proof fn lemma_count_is_filter(channels: Seq<PeerInfo>, direction: Direction)
    ensures
        count_channels(channels, direction) == channels.filter(
            |channel: PeerInfo| channel.direction == direction,
        ).len(),
    decreases channels.len(),
{
    reveal(Seq::filter);
    if channels.len() > 0 {
        lemma_count_is_filter(channels.drop_last(), direction);
    }
}

/// All open channels are taken out at once, and come back in their order.
pub proof fn law_all_channels_are_taken_out(connections: &mut Connections, channels: Vec<PeerInfo>)
    requires
        call_ensures(Connections::remove_all, (connections,), channels),
    ensures
        channels@ == old(connections)@.channels,
        final(connections)@.channels.len() == 0,
        final(connections)@.next_id == old(connections)@.next_id,
{
}

/// What is told of the open channels is so: the channels themselves, the address of each in turn,
/// and the id that the next one gets. At first there are none, and the first id is 0.
pub proof fn law_open_channels_are_told_of(
    connections: &Connections,
    channels: &Vec<PeerInfo>,
    addresses: Vec<SocketAddr>,
    next_id: PeerId,
    fresh: Connections,
)
    requires
        call_ensures(Connections::channels, (connections,), channels),
        call_ensures(Connections::addresses, (connections,), addresses),
        call_ensures(Connections::next_id, (connections,), next_id),
        call_ensures(<Connections as Default>::default, (), fresh),
    ensures
        channels@ == connections@.channels,
        addresses@.len() == channels@.len(),
        forall|i: int|
            0 <= i < channels@.len() ==> #[trigger] addresses@[i] == channels@[i].address,
        next_id == connections@.next_id,
        fresh@.channels.len() == 0,
        fresh@.next_id == 0,
{
}

} // verus!
