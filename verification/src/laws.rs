//! What holds of several operations together.
use crate::config::NetConfig;
use crate::connection_counter::{ConnectionCounts, Direction};
use crate::connections::{
    lemma_count_push, lemma_get, lemma_position, lemma_with, lemma_without, Connection, PeerId,
};
use crate::context::{limited, ACTIVE_NODES_LIMIT};
use crate::effect::{Effect, SessionKind};
use crate::message::{AddrV31402, SocketAddr};
use crate::network_state::{note_failure, Handshake, NetworkState};
use crate::node_table::Node;
use crate::protocol::{announced, AddrProtocol, ProtocolEffect, SeednodeProtocol};
use vstd::prelude::*;

verus! {

/// A connection that fails to be set up leaves no trace in the state: its failed handshake undoes
/// what its beginning has done.
pub proof fn law_failed_handshake_undoes_begin(
    state: NetworkState,
    direction: Direction,
    handshake: Handshake,
)
    requires
        !(handshake is Completed),
    ensures
        state.begun(direction, 1).settled(direction, handshake) == state,
{
}

/// A handshake that ends keeps the counted connections of its direction equal to the handshakes
/// in progress and the open channels: if it is completed, one unit moves from those in progress
/// to those open; if it fails, there is one less in progress and one less counted. The other
/// direction is untouched.
pub proof fn law_settling_keeps_the_balance(
    state: NetworkState,
    direction: Direction,
    other: Direction,
    handshake: Handshake,
    in_progress: int,
)
    requires
        state.counts.current(direction) == in_progress + state.connections.count(direction),
        other != direction,
    ensures
        ({
            let after = state.settled(direction, handshake);
            &&& after.counts.current(direction) == (in_progress - 1) + after.connections.count(
                direction,
            )
            &&& after.connections.count(direction) == state.connections.count(direction)
                + if handshake is Completed {
                1int
            } else {
                0int
            }
            &&& after.counts.current(other) == state.counts.current(other)
            &&& after.connections.count(other) == state.connections.count(other)
        }),
{
    if let Handshake::Completed { connection } = handshake {
        let channel = state.connections.next_channel(connection, direction);
        lemma_count_push(state.connections.channels, channel, direction);
        lemma_count_push(state.connections.channels, channel, other);
    }
}

/// Each failed handshake penalises the node on whose socket it failed, and does nothing else.
pub proof fn law_failed_handshake_penalises_the_node(
    state: NetworkState,
    direction: Direction,
    session: SessionKind,
    socket: SocketAddr,
    handshake: Handshake,
)
    requires
        !(handshake is Completed),
    ensures
        state.settled_effects(direction, session, socket, handshake) == seq![note_failure(socket)],
{
}

/// A channel that is closed again leaves the channels and the counts as they were before its
/// connection began to be set up; only its id is used up.
pub proof fn law_close_undoes_connect(
    state: NetworkState,
    direction: Direction,
    connection: Connection,
)
    requires
        state.wf(),
        state.connections.next_id < usize::MAX,
    ensures
        ({
            let id = state.connections.next_id as usize;
            let open = state.begun(direction, 1).settled(
                direction,
                Handshake::Completed { connection },
            );
            &&& open.connections.contains(id)
            &&& open.closed(id).connections.channels == state.connections.channels
            &&& open.closed(id).counts == state.counts
            &&& open.closed(id).connections.next_id == state.connections.next_id + 1
        }),
{
    let id = state.connections.next_id as usize;
    let table = state.connections.with(connection, direction);
    lemma_with(state.connections, connection, direction);
    assert(table.has_at(id, state.connections.channels.len() as int));
    lemma_position(table, id, state.connections.channels.len() as int);
    assert(table.channels.remove(table.position(id)) =~= state.connections.channels);
}

/// Closing a channel a second time changes nothing and asks for nothing, be it because of an
/// error or not.
pub proof fn law_second_close_does_nothing(state: NetworkState, id: PeerId)
    requires
        state.wf(),
    ensures
        state.closed(id).closed(id) == state.closed(id),
        state.closed(id).closed_effects(id) == Seq::<Effect>::empty(),
        state.closed(id).closed_with_error_effects(id) == Seq::<Effect>::empty(),
{
    lemma_get(state.connections, id);
    lemma_without(state.connections, id);
    lemma_get(state.connections.without(id), id);
}

/// Closing a channel leaves every other channel open as it is, and its own id without a channel,
/// so that nothing can be sent to it any more.
pub proof fn law_close_touches_one_channel(state: NetworkState, id: PeerId, other: PeerId)
    requires
        state.wf(),
    ensures
        state.closed(id).connections.get(id) is None,
        other != id ==> state.closed(id).connections.get(other) == state.connections.get(other),
{
    lemma_get(state.connections, id);
    lemma_without(state.connections, id);
    lemma_get(state.connections.without(id), id);
    assert(other != id ==> state.connections.without(id).get(other) == state.connections.get(
        other,
    ));
}

/// Closing a channel because of an error does what closing it does otherwise, and penalises its
/// node besides.
pub proof fn law_error_close_adds_the_penalty(state: NetworkState, id: PeerId)
    ensures
        state.closed_with_error_effects(id) == match state.connections.get(id) {
            Some(channel) => state.closed_effects(id).push(note_failure(channel.address)),
            None => state.closed_effects(id),
        },
{
    lemma_get(state.connections, id);
    if let Some(channel) = state.connections.get(id) {
        assert(state.closed_with_error_effects(id) =~= state.closed_effects(id).push(
            note_failure(channel.address),
        ));
    }
}

/// A stream that comes in is refused exactly when the maximum of inbound connections has been
/// reached, and accepting it never leads beyond that maximum.
pub proof fn law_listen_stops_at_the_maximum(
    state: NetworkState,
    socket: SocketAddr,
    config: NetConfig,
)
    ensures
        state.listened_effect(socket, config) is Refuse <==> state.counts.inbound
            >= state.counts.max_inbound,
        state.listened_effect(socket, config) is Refuse ==> state.listened() == state,
        state.counts.inbound <= state.counts.max_inbound ==> state.listened().counts.inbound
            <= state.counts.max_inbound,
{
}

/// A look after the connections leads to one more outbound connection for each node that was
/// found and changes nothing else. If the node table has found at most as many nodes as it was
/// asked for, that is never beyond the maximum; if just as many, it is the maximum, so that no
/// more are asked for.
pub proof fn law_autoconnect_stays_within_the_maximum(state: NetworkState, found: Seq<Node>)
    requires
        state.counts.outbound <= state.counts.max_outbound,
        found.len() <= state.counts.needed(Direction::Outbound),
    ensures
        ({
            let after = state.begun(Direction::Outbound, found.len() as int);
            &&& after.counts.outbound == state.counts.outbound + found.len()
            &&& after.counts.outbound <= after.counts.max_outbound
            &&& after.counts.max_outbound == state.counts.max_outbound
            &&& after.counts.inbound == state.counts.inbound
            &&& after.counts.max_inbound == state.counts.max_inbound
            &&& after.connections == state.connections
            &&& after.counts.needed(Direction::Outbound) == state.counts.needed(
                Direction::Outbound,
            ) - found.len()
        }),
{
}

/// Setting up several connections counts as much as setting them up one after another.
pub proof fn law_beginnings_add_up(
    state: NetworkState,
    direction: Direction,
    first: int,
    second: int,
)
    ensures
        state.begun(direction, first).begun(direction, second) == state.begun(
            direction,
            first + second,
        ),
{
}

/// Counting a connection in one direction leaves the other direction and both maxima alone.
pub proof fn law_directions_are_counted_apart(
    counts: ConnectionCounts,
    direction: Direction,
    other: Direction,
    by: int,
)
    ensures
        counts.plus(direction, by).max(other) == counts.max(other),
        other != direction ==> counts.plus(direction, by).current(other) == counts.current(other),
{
}

/// An answer to a request for addresses tells of at most `ACTIVE_NODES_LIMIT` nodes: of the first
/// ones that the node table gives, each as the table has it.
pub proof fn law_answers_are_limited(nodes: Seq<Node>)
    ensures
        announced(limited(nodes)).len() <= ACTIVE_NODES_LIMIT,
        announced(limited(nodes)).len() <= nodes.len(),
        forall|i: int|
            0 <= i < announced(limited(nodes)).len() ==> #[trigger] announced(limited(nodes))[i]
                == nodes[i].spec_entry(),
        nodes.len() <= ACTIVE_NODES_LIMIT ==> announced(limited(nodes)) == announced(nodes),
{
}

/// Receiving addresses closes the channel exactly when it leads to a seednode and there are
/// several addresses; and in any case the addresses are put into the node table first.
pub proof fn law_only_seednodes_are_left(protocol: AddrProtocol, addr: AddrV31402)
    ensures
        protocol.addr_effects(addr)[0] == (ProtocolEffect::UpdateNodeTable {
            nodes: addr.addresses,
        }),
        protocol.addr_effects(addr).contains(
            ProtocolEffect::CloseChannel { peer: protocol.info.id },
        ) <==> protocol.is_seed_node_connection && addr.addresses@.len() > 1,
{
    let close = ProtocolEffect::CloseChannel { peer: protocol.info.id };
    let effects = protocol.addr_effects(addr);
    if protocol.is_seed_node_connection && addr.addresses@.len() > 1 {
        assert(effects[1] == close);
    } else {
        assert(effects.len() == 1 && effects[0] != close);
    }
}

/// A seednode protocol after messages with some commands.
pub open spec fn seednode_after(
    protocol: SeednodeProtocol,
    commands: Seq<Seq<char>>,
) -> SeednodeProtocol
    decreases commands.len(),
{
    if commands.len() == 0 {
        protocol
    } else {
        seednode_after(protocol, commands.drop_last()).after(commands.last())
    }
}

/// How often a seednode protocol schedules the end of its connection on messages with some
/// commands.
pub open spec fn disconnects(protocol: SeednodeProtocol, commands: Seq<Seq<char>>) -> nat
    decreases commands.len(),
{
    if commands.len() == 0 {
        0
    } else {
        disconnects(protocol, commands.drop_last()) + if seednode_after(
            protocol,
            commands.drop_last(),
        ).disconnects_on(commands.last()) {
            1nat
        } else {
            0nat
        }
    }
}

/// However many messages come, a seednode is disconnected once if addresses are among them, and
/// not at all if none are.
pub proof fn law_seednode_is_disconnected_once(
    protocol: SeednodeProtocol,
    commands: Seq<Seq<char>>,
)
    requires
        !protocol.disconnecting,
    ensures
        disconnects(protocol, commands) == if commands.contains("addr"@) {
            1nat
        } else {
            0nat
        },
        seednode_after(protocol, commands).disconnecting <==> commands.contains("addr"@),
    decreases commands.len(),
{
    if commands.len() > 0 {
        let earlier = commands.drop_last();
        law_seednode_is_disconnected_once(protocol, earlier);
        if earlier.contains("addr"@) {
            let i = choose|i: int| 0 <= i < earlier.len() && earlier[i] == "addr"@;
            assert(commands[i] == "addr"@);
        }
        if commands.last() == "addr"@ {
            assert(commands[commands.len() - 1] == "addr"@);
        }
        if commands.contains("addr"@) {
            let i = choose|i: int| 0 <= i < commands.len() && commands[i] == "addr"@;
            if i < earlier.len() {
                assert(earlier[i] == "addr"@);
            }
        }
    }
}

} // verus!
