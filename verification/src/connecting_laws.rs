//! What each operation that begins, counts or refuses connections does, whatever the state it
//! finds.
use crate::channel_laws::lemma_count_is_filter;
use crate::config::NetConfig;
use crate::connection_counter::{ConnectionCounter, Direction};
use crate::connections::PeerInfo;
use crate::context::{Autoconnect, Context};
use crate::effect::{Effect, SessionKind};
use crate::message::SocketAddr;
use crate::network_state::NetworkState;
use crate::node_table::{Node, NodeQuery};
use crate::p2p::P2P;
use abstract_ns::Address;
use vstd::prelude::*;

verus! {

/// Whether so many more connections are counted in each direction, and nothing else has changed.
pub open spec fn counts_more(
    before: NetworkState,
    after: NetworkState,
    inbound: int,
    outbound: int,
) -> bool {
    &&& after.counts.inbound == before.counts.inbound + inbound
    &&& after.counts.outbound == before.counts.outbound + outbound
    &&& after.counts.max_inbound == before.counts.max_inbound
    &&& after.counts.max_outbound == before.counts.max_outbound
    &&& after.connections == before.connections
    &&& after.sync_sessions == before.sync_sessions
    &&& after.config == before.config
}

/// A counter begins at nothing, and keeps the maxima it was made with.
pub proof fn law_counter_begins_at_zero(
    max_inbound: u32,
    max_outbound: u32,
    counter: ConnectionCounter,
)
    requires
        call_ensures(ConnectionCounter::new, (max_inbound, max_outbound), counter),
    ensures
        counter@.inbound == 0,
        counter@.outbound == 0,
        counter@.max_inbound == max_inbound,
        counter@.max_outbound == max_outbound,
{
}

/// A new connection counts for one more in its own direction, and a closed one for one less; the
/// other direction and the maxima stay as they are.
pub proof fn law_counter_counts_by_one(
    new_inbound: &mut ConnectionCounter,
    new_outbound: &mut ConnectionCounter,
    closed_inbound: &mut ConnectionCounter,
    closed_outbound: &mut ConnectionCounter,
)
    requires
        call_ensures(ConnectionCounter::note_new_inbound_connection, (new_inbound,), ()),
        call_ensures(ConnectionCounter::note_new_outbound_connection, (new_outbound,), ()),
        call_ensures(ConnectionCounter::note_close_inbound_connection, (closed_inbound,), ()),
        call_ensures(ConnectionCounter::note_close_outbound_connection, (closed_outbound,), ()),
    ensures
        final(new_inbound)@.inbound == old(new_inbound)@.inbound + 1,
        final(new_inbound)@.outbound == old(new_inbound)@.outbound,
        final(new_inbound)@.max_inbound == old(new_inbound)@.max_inbound,
        final(new_inbound)@.max_outbound == old(new_inbound)@.max_outbound,
        final(new_outbound)@.inbound == old(new_outbound)@.inbound,
        final(new_outbound)@.outbound == old(new_outbound)@.outbound + 1,
        final(new_outbound)@.max_inbound == old(new_outbound)@.max_inbound,
        final(new_outbound)@.max_outbound == old(new_outbound)@.max_outbound,
        final(closed_inbound)@.inbound == old(closed_inbound)@.inbound - 1,
        final(closed_inbound)@.outbound == old(closed_inbound)@.outbound,
        final(closed_inbound)@.max_inbound == old(closed_inbound)@.max_inbound,
        final(closed_inbound)@.max_outbound == old(closed_inbound)@.max_outbound,
        final(closed_outbound)@.inbound == old(closed_outbound)@.inbound,
        final(closed_outbound)@.outbound == old(closed_outbound)@.outbound - 1,
        final(closed_outbound)@.max_inbound == old(closed_outbound)@.max_inbound,
        final(closed_outbound)@.max_outbound == old(closed_outbound)@.max_outbound,
{
}

/// The connections that are needed fill those that are counted up to the maximum, and none is
/// needed once the maximum is reached or passed.
pub proof fn law_needed_connections_fill_up_to_the_maximum(
    counter: &ConnectionCounter,
    inbound: (usize, u32),
    outbound: (usize, u32),
    inbound_needed: u32,
    outbound_needed: u32,
)
    requires
        call_ensures(ConnectionCounter::inbound_connections, (counter,), inbound),
        call_ensures(ConnectionCounter::outbound_connections, (counter,), outbound),
        call_ensures(ConnectionCounter::inbound_connections_needed, (counter,), inbound_needed),
        call_ensures(ConnectionCounter::outbound_connections_needed, (counter,), outbound_needed),
    ensures
        inbound.0 == counter@.inbound && inbound.1 == counter@.max_inbound,
        outbound.0 == counter@.outbound && outbound.1 == counter@.max_outbound,
        inbound.0 <= inbound.1 ==> inbound.0 + inbound_needed == inbound.1,
        inbound.0 >= inbound.1 ==> inbound_needed == 0,
        outbound.0 <= outbound.1 ==> outbound.0 + outbound_needed == outbound.1,
        outbound.0 >= outbound.1 ==> outbound_needed == 0,
{
}

/// To connect to a socket is to count one more outbound connection and to dial that socket, with
/// the kind of session that was asked for and the settings of the node.
pub proof fn law_connect_dials_the_socket(
    context: &mut Context,
    p2p: &mut P2P,
    session: SessionKind,
    socket: SocketAddr,
    context_effect: Effect,
    p2p_effect: Effect,
)
    requires
        call_ensures(Context::connect, (context, session, socket), context_effect),
        call_ensures(P2P::connect, (p2p, session, socket), p2p_effect),
    ensures
        counts_more(old(context)@, final(context)@, 0, 1),
        context_effect == (Effect::Dial {
            session,
            socket,
            config: old(context)@.config.connection,
        }),
        counts_more(old(p2p)@, final(p2p)@, 0, 1),
        p2p_effect == (Effect::Dial { session, socket, config: old(p2p)@.config.connection }),
{
}

/// An ordinary node is connected to with an ordinary session, a picked address with the session
/// that was asked for, and each counts for one outbound connection.
pub proof fn law_connect_normal_and_picked(
    normal: &mut Context,
    socket: SocketAddr,
    normal_effect: Effect,
    picked: &mut Context,
    session: SessionKind,
    address: Address,
    picked_effect: Effect,
)
    requires
        call_ensures(Context::connect_normal, (normal, socket), normal_effect),
        call_ensures(Context::connect_picked, (picked, session, address), picked_effect),
    ensures
        counts_more(old(normal)@, final(normal)@, 0, 1),
        normal_effect == (Effect::Dial {
            session: SessionKind::Normal,
            socket,
            config: old(normal)@.config.connection,
        }),
        counts_more(old(picked)@, final(picked)@, 0, 1),
        picked_effect == (Effect::DialPicked {
            session,
            address,
            config: old(picked)@.config.connection,
        }),
{
}

/// To accept a connection is to count one more inbound connection and to shake hands on its
/// stream, with the settings that were given.
pub proof fn law_accept_shakes_hands(
    context: &mut Context,
    socket: SocketAddr,
    config: NetConfig,
    effect: Effect,
)
    requires
        call_ensures(Context::accept_connection, (context, socket, config), effect),
    ensures
        counts_more(old(context)@, final(context)@, 1, 0),
        effect == (Effect::Accept { socket, config }),
{
}

/// An incoming stream is accepted, and counted, as long as there are fewer inbound connections
/// than the maximum; from then on it is refused, and nothing changes.
pub proof fn law_listen_accepts_below_the_maximum(
    context: &mut Context,
    socket: SocketAddr,
    config: NetConfig,
    effect: Effect,
)
    requires
        call_ensures(Context::listen, (context, socket, config), effect),
    ensures
        old(context)@.counts.inbound < old(context)@.counts.max_inbound ==> {
            &&& counts_more(old(context)@, final(context)@, 1, 0)
            &&& effect == (Effect::Accept { socket, config })
        },
        old(context)@.counts.inbound >= old(context)@.counts.max_inbound ==> {
            &&& final(context)@ == old(context)@
            &&& effect == (Effect::Refuse { socket })
        },
{
}

/// When outbound connections are missing to the maximum, just as many nodes are asked for, with
/// any services, reachable by the protocols of the settings, and not at an address to which a
/// channel is open; nothing is done yet. When none is missing, no node is asked for, and the node
/// table is saved where the settings say.
pub proof fn law_autoconnect_asks_for_what_is_missing(context: &Context, tick: Autoconnect)
    requires
        call_ensures(Context::autoconnect, (context,), tick),
    ensures
        context@.counts.outbound >= context@.counts.max_outbound ==> {
            &&& tick.query is None
            &&& tick.effects@.len() == 1
            &&& tick.effects@[0] == (Effect::SaveNodeTable {
                path: context@.config.node_table_path,
            })
        },
        context@.counts.outbound < context@.counts.max_outbound ==> {
            &&& tick.effects@.len() == 0
            &&& tick.query matches Some(
                NodeQuery::WithServices { services, protocol, except, limit },
            )
            &&& services.bits == 0
            &&& protocol == context@.config.internet_protocol
            &&& context@.counts.outbound + limit == context@.counts.max_outbound
            &&& except@.len() == context@.connections.channels.len()
            &&& forall|i: int|
                0 <= i < except@.len() ==> #[trigger] except@[i]
                    == context@.connections.channels[i].address
        },
{
}

/// Each node that was found is dialled once, in turn and with an ordinary session, and counted;
/// then the node table is saved where the settings say.
pub proof fn law_found_nodes_are_dialled(
    context: &mut Context,
    peers: &Vec<Node>,
    effects: Vec<Effect>,
)
    requires
        call_ensures(Context::connect_to_found, (context, peers), effects),
    ensures
        counts_more(old(context)@, final(context)@, 0, peers@.len() as int),
        effects@.len() == peers@.len() + 1,
        forall|i: int|
            0 <= i < peers@.len() ==> #[trigger] effects@[i] == (Effect::Dial {
                session: SessionKind::Normal,
                socket: peers@[i].address,
                config: old(context)@.config.connection,
            }),
        effects@[peers@.len() as int] == (Effect::SaveNodeTable {
            path: old(context)@.config.node_table_path,
        }),
{
}

/// The handshakes that are under way in a direction are the connections counted in it without
/// those whose channel is open.
pub proof fn law_pending_handshakes_have_no_channel(
    context: &Context,
    direction: Direction,
    pending: usize,
)
    requires
        call_ensures(Context::pending, (context, direction), pending),
    ensures
        pending + context@.connections.channels.filter(
            |channel: PeerInfo| channel.direction == direction,
        ).len() == match direction {
            Direction::Inbound => context@.counts.inbound,
            Direction::Outbound => context@.counts.outbound,
        },
{
    lemma_count_is_filter(context@.connections.channels, direction);
}

} // verus!
