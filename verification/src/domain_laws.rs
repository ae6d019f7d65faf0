//! When operations can be called: in every state that a node can be in, as long as its counters
//! do not overflow.
use crate::channel_laws::lemma_count_is_filter;
use crate::config::{Config, NetConfig};
use crate::connection_counter::Direction;
use crate::connections::{Connection, Connections, PeerId, PeerInfo};
use crate::context::{Context, Incoming};
use crate::effect::SessionKind;
use crate::inbound_connection_factory::InboundConnectionFactory;
use crate::message::{Addr, Command, GetAddr, Services, SocketAddr};
use crate::network_state::{Handshake, NetworkState};
use crate::node_table::Node;
use crate::p2p::P2P;
use crate::protocol::{AddrProtocol, SeednodeProtocol};
use crate::seednode::{pick_even_address, SeednodeAnswer};
use abstract_ns::Address;
use bytes::Bytes;
use vstd::prelude::*;

verus! {

/// How many channels of a direction are among some.
pub open spec fn how_many(channels: Seq<PeerInfo>, direction: Direction) -> nat {
    channels.filter(|channel: PeerInfo| channel.direction == direction).len()
}

/// A state is well-formed just if the ids of its channels grow in their order and are below the
/// next id, and as many connections are counted in each direction as have a channel, or more.
pub proof fn law_well_formed_states(state: NetworkState)
    ensures
        state.wf() <==> {
            let channels = state.connections.channels;
            &&& state.connections.next_id >= 0
            &&& forall|i: int, j: int|
                0 <= i < j < channels.len() ==> (#[trigger] channels[i]).id < (
                #[trigger] channels[j]).id
            &&& forall|i: int|
                0 <= i < channels.len() ==> (#[trigger] channels[i]).id
                    < state.connections.next_id
            &&& state.counts.inbound >= how_many(channels, Direction::Inbound)
            &&& state.counts.outbound >= how_many(channels, Direction::Outbound)
        },
{
    lemma_count_is_filter(state.connections.channels, Direction::Inbound);
    lemma_count_is_filter(state.connections.channels, Direction::Outbound);
}

/// A node can be started with any settings that ask for at least one thread, whatever has come of
/// reading its node table.
pub proof fn law_any_node_can_be_started<E>(
    local_sync_node: Box<InboundConnectionFactory>,
    config: Config,
    node_table: Result<(), E>,
)
    ensures
        call_requires(Context::load_node_table, (&config,)),
        call_requires(Context::new, (local_sync_node, config, node_table)),
        config.threads > 0 ==> call_requires(
            P2P::new,
            (config, local_sync_node, node_table),
        ),
{
}

/// In every state a node can be asked what it knows and what it is missing.
pub proof fn law_nodes_can_always_be_asked(
    p2p: &P2P,
    context: &Context,
    peer: PeerId,
    flags: u32,
    message: Vec<u8>,
    nodes: Vec<Node>,
    address: SocketAddr,
    direction: Direction,
    name: &String,
)
    requires
        context@.wf(),
    ensures
        call_requires(P2P::context, (p2p,)),
        call_requires(P2P::connect_to_seednode, (p2p, name)),
        call_requires(Context::maintain, (context,)),
        call_requires(Context::autoconnect, (context,)),
        call_requires(Context::send_to_peer, (context, peer, flags)),
        call_requires(Context::send_message_to_peer, (context, peer, message)),
        call_requires(Context::pending, (context, direction)),
        call_requires(Context::nodes, (context,)),
        call_requires(Context::recently_active_query, (context,)),
        call_requires(Context::node_table_entries, (context, nodes)),
        call_requires(Context::penalize_node, (context, &address)),
        call_requires(Context::add_node, (context, address)),
        call_requires(Context::remove_node, (context, address)),
        call_requires(Context::connections, (context,)),
        call_requires(Context::connection_counter, (context,)),
        call_requires(Context::config, (context,)),
{
}

/// In every state streams and messages can come in, and channels be closed, whether they are open
/// or not.
pub proof fn law_anything_can_come_in<E, F>(
    context: &mut Context,
    socket: SocketAddr,
    config: NetConfig,
    channel: &PeerInfo,
    incoming: Incoming<E, F>,
    handled: Result<(), E>,
    id: PeerId,
)
    requires
        old(context)@.wf(),
    ensures
        call_requires(Context::listen, (context, socket, config)),
        call_requires(Context::on_message, (context, channel, incoming)),
        call_requires(Context::on_message_handled, (context, channel, handled)),
        call_requires(Context::close_channel, (context, id)),
        call_requires(Context::close_channel_with_error, (context, id)),
        call_requires(Context::shutdown, (context,)),
{
}

/// In every state connections can be begun as long as they can be counted.
pub proof fn law_connections_can_be_begun(
    context: &mut Context,
    session: SessionKind,
    socket: SocketAddr,
    address: Address,
    config: NetConfig,
    peers: &Vec<Node>,
)
    requires
        old(context)@.wf(),
    ensures
        old(context)@.counts.outbound < usize::MAX ==> {
            &&& call_requires(Context::connect, (context, session, socket))
            &&& call_requires(Context::connect_normal, (context, socket))
            &&& call_requires(Context::connect_picked, (context, session, address))
        },
        old(context)@.counts.outbound + peers@.len() <= usize::MAX ==> call_requires(
            Context::connect_to_found,
            (context, peers),
        ),
        old(context)@.counts.inbound < usize::MAX ==> call_requires(
            Context::accept_connection,
            (context, socket, config),
        ),
{
}

/// In every state in which more connections of a direction are counted than have a channel, a
/// handshake can end, in whatever way, as long as there are ids left.
pub proof fn law_handshakes_can_end(
    context: &mut Context,
    session: SessionKind,
    socket: SocketAddr,
    handshake: Handshake,
)
    requires
        old(context)@.wf(),
        handshake is Completed ==> old(context)@.connections.next_id < usize::MAX,
    ensures
        old(context)@.counts.outbound > how_many(
            old(context)@.connections.channels,
            Direction::Outbound,
        ) ==> call_requires(Context::connect_future, (context, session, socket, handshake)),
        old(context)@.counts.inbound > how_many(
            old(context)@.connections.channels,
            Direction::Inbound,
        ) ==> call_requires(Context::accept_connection_future, (context, socket, handshake)),
{
    lemma_count_is_filter(old(context)@.connections.channels, Direction::Inbound);
    lemma_count_is_filter(old(context)@.connections.channels, Direction::Outbound);
}

/// In every state a node can run, meet its seednodes and be given up, as long as its connections
/// can be counted.
pub proof fn law_nodes_can_run<E>(
    p2p: &mut P2P,
    session: SessionKind,
    socket: SocketAddr,
    resolved: &Result<Address, E>,
    answer: SeednodeAnswer,
)
    requires
        old(p2p)@.wf(),
    ensures
        old(p2p)@.counts.outbound + old(p2p)@.config.peers@.len() <= usize::MAX
            ==> call_requires(P2P::run, (p2p,)),
        old(p2p)@.counts.outbound < usize::MAX ==> {
            &&& call_requires(P2P::connect, (p2p, session, socket))
            &&& call_requires(P2P::on_seednode_resolved, (p2p, resolved))
            &&& call_requires(P2P::on_seednode_answer, (p2p, answer))
        },
        !(answer is Picked) ==> call_requires(P2P::on_seednode_answer, (p2p, answer)),
        call_requires(P2P::shutdown, (p2p,)),
        call_requires(pick_even_address, (resolved,)),
{
}

/// In every state synchronization sessions can be created as long as they can be numbered.
pub proof fn law_sync_sessions_can_be_created<O>(
    context: &mut Context,
    height: i32,
    services: Services,
    outbound_connection: O,
)
    requires
        old(context)@.wf(),
        old(context)@.sync_sessions < usize::MAX,
    ensures
        call_requires(
            Context::create_sync_session,
            (context, height, services, outbound_connection),
        ),
{
}

/// Every well-formed table of channels takes one more connection as long as there are ids left,
/// and can be searched for any id.
pub proof fn law_channels_can_be_stored_and_found(
    connections: &mut Connections,
    unchanged: &Connections,
    connection: &Connection,
    direction: Direction,
    id: PeerId,
)
    requires
        old(connections)@.wf(),
        unchanged@.wf(),
    ensures
        old(connections)@.next_id < usize::MAX ==> call_requires(
            Connections::store,
            (connections, connection, direction),
        ),
        call_requires(Connections::remove, (connections, id)),
        call_requires(Connections::remove_all, (connections,)),
        call_requires(Connections::channel, (unchanged, id)),
        call_requires(Connections::count, (unchanged, direction)),
        call_requires(Connections::addresses, (unchanged,)),
{
}

/// Every message can be given to the protocols, addresses in the old format excepted.
pub proof fn law_protocols_take_every_message<E>(
    protocol: &mut AddrProtocol,
    seednode: &mut SeednodeProtocol,
    command: &Command,
    payload: &Bytes,
    request: Result<GetAddr, E>,
    nodes: &Vec<Node>,
    read: Result<Addr, E>,
)
    ensures
        call_requires(AddrProtocol::initialize, (protocol,)),
        call_requires(AddrProtocol::on_message, (protocol, command, payload)),
        call_requires(AddrProtocol::on_getaddr, (protocol, request)),
        call_requires(AddrProtocol::on_active_nodes, (protocol, nodes)),
        !(read is Ok && read->Ok_0 is V0) ==> call_requires(
            AddrProtocol::on_addr,
            (protocol, read),
        ),
        call_requires(SeednodeProtocol::on_message, (seednode, command, payload)),
{
}

} // verus!
