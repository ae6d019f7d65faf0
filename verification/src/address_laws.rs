//! What each operation that exchanges addresses, or asks for a change of the node table, does,
//! whatever it is given.
use crate::connection_counter::Direction;
use crate::connections::PeerInfo;
use crate::context::Context;
use crate::effect::Effect;
use crate::message::{
    Addr, AddrV31402, AddressEntry, Command, GetAddr, IpAddress, Services, SocketAddr,
};
use crate::node_table::{Node, NodeQuery, NodeTableOp};
use crate::protocol::{AddrProtocol, AddrStep, ProtocolEffect, SeednodeProtocol};
use bytes::Bytes;
use vstd::prelude::*;

verus! {

/// Whether an entry announces a node: with each byte of its ip in its place, its port, its services
/// and the time at which it was last active.
pub open spec fn announces(entry: AddressEntry, node: Node) -> bool {
    &&& entry.timestamp == node.time
    &&& entry.address.services.bits == node.services.bits
    &&& match node.address {
        SocketAddr::V4 { ip, port } => {
            &&& entry.address.port == port
            &&& entry.address.address matches IpAddress::V4(announced)
            &&& forall|k: int| 0 <= k < 4 ==> #[trigger] announced@[k] == ip@[k]
        },
        SocketAddr::V6 { ip, port, .. } => {
            &&& entry.address.port == port
            &&& entry.address.address matches IpAddress::V6(announced)
            &&& forall|k: int| 0 <= k < 16 ==> #[trigger] announced@[k] == ip@[k]
        },
    }
}

/// The ip and the port of a socket are those that it was made of, and its entry announces a node
/// by these.
pub proof fn law_node_is_announced_as_it_is(
    node: &Node,
    address: SocketAddr,
    ip: IpAddress,
    port: u16,
    entry: AddressEntry,
)
    requires
        call_ensures(Node::address, (node,), address),
        call_ensures(SocketAddr::ip, (&address,), ip),
        call_ensures(SocketAddr::port, (&address,), port),
        call_ensures(Node::entry, (node,), entry),
    ensures
        address == node.address,
        match node.address {
            SocketAddr::V4 { ip: own, port: p } => ip == IpAddress::V4(own) && port == p,
            SocketAddr::V6 { ip: own, port: p, .. } => ip == IpAddress::V6(own) && port == p,
        },
        announces(entry, *node),
{
}

/// A request for addresses is answered with an entry for each of the nodes, in their order, which
/// announces that node; the protocol itself does not change.
pub proof fn law_active_nodes_are_announced(
    protocol: &mut AddrProtocol,
    nodes: &Vec<Node>,
    effect: ProtocolEffect,
)
    requires
        call_ensures(AddrProtocol::on_active_nodes, (protocol, nodes), effect),
    ensures
        *final(protocol) == *old(protocol),
        effect matches ProtocolEffect::Respond { response: Addr::V31402(addr) } && {
            &&& addr.addresses@.len() == nodes@.len()
            &&& forall|i: int|
                0 <= i < nodes@.len() ==> announces(#[trigger] addr.addresses@[i], nodes@[i])
        },
{
}

/// Of the recently active nodes the first 1000 are told of, or all if they are fewer, each as it
/// is and in the order of the node table.
pub proof fn law_active_nodes_are_limited(
    context: &Context,
    recently_active: Vec<Node>,
    entries: Vec<Node>,
)
    requires
        call_ensures(Context::node_table_entries, (context, recently_active), entries),
    ensures
        recently_active@.len() <= 1000 ==> entries@.len() == recently_active@.len(),
        recently_active@.len() >= 1000 ==> entries@.len() == 1000,
        forall|i: int| 0 <= i < entries@.len() ==> #[trigger] entries@[i] == recently_active@[i],
{
}

/// Addresses are asked for, once, just if this node has set up the connection; the protocol itself
/// does not change.
pub proof fn law_outbound_peers_are_asked_for_addresses(
    info: PeerInfo,
    is_seed_node_connection: bool,
    fresh: AddrProtocol,
    protocol: &mut AddrProtocol,
    effect: Option<ProtocolEffect>,
)
    requires
        call_ensures(AddrProtocol::new, (info, is_seed_node_connection), fresh),
        call_ensures(AddrProtocol::initialize, (protocol,), effect),
    ensures
        fresh.info == info,
        fresh.is_seed_node_connection == is_seed_node_connection,
        *final(protocol) == *old(protocol),
        effect is Some <==> old(protocol).info.direction == Direction::Outbound,
        effect is Some ==> effect->0 == (ProtocolEffect::RequestAddresses { request: GetAddr }),
{
}

/// Letters of the command that asks for addresses.
pub open spec fn getaddr_letters() -> Seq<char> {
    seq!['g', 'e', 't', 'a', 'd', 'd', 'r']
}

/// Letters of the command that brings addresses.
pub open spec fn addr_letters() -> Seq<char> {
    seq!['a', 'd', 'd', 'r']
}

proof fn lemma_letters()
    ensures
        "getaddr"@ == getaddr_letters(),
        "addr"@ == addr_letters(),
        getaddr_letters().len() != addr_letters().len(),
{
    reveal_strlit("getaddr");
    reveal_strlit("addr");
    assert("getaddr"@ =~= getaddr_letters());
    assert("addr"@ =~= addr_letters());
}

/// Commands are known by their names, which are `getaddr` and `addr`, and two are the same just
/// if their names are.
pub proof fn law_commands_are_known_by_their_names(
    name: &str,
    command: Command,
    other: Command,
    same: bool,
    known_by: &str,
    getaddr: Command,
    addr: Command,
)
    requires
        call_ensures(Command::new, (name,), command),
        call_ensures(<Command as PartialEq>::eq, (&command, &other), same),
        call_ensures(Command::name, (&command,), known_by),
        call_ensures(GetAddr::command, (), getaddr),
        call_ensures(Addr::command, (), addr),
    ensures
        command@ == name@,
        same <==> command@ == other@,
        known_by@ == name@,
        getaddr@ == getaddr_letters(),
        addr@ == addr_letters(),
{
    lemma_letters();
}

/// A message is read as a request for addresses just if its command says so, as addresses just if
/// its command says so, and else not at all; it is read whole, and by the version that was agreed
/// on with the peer. The protocol itself does not change.
pub proof fn law_messages_are_read_by_their_command<'a>(
    protocol: &mut AddrProtocol,
    command: &Command,
    payload: &'a Bytes,
    step: AddrStep<'a>,
)
    requires
        call_ensures(AddrProtocol::on_message, (protocol, command, payload), step),
    ensures
        *final(protocol) == *old(protocol),
        step is ReadGetAddr <==> command@ == getaddr_letters(),
        step is ReadAddr <==> command@ == addr_letters(),
        step matches AddrStep::ReadGetAddr { payload: p, version } ==> p == payload && version
            == old(protocol).info.version,
        step matches AddrStep::ReadAddr { payload: p, version } ==> p == payload && version
            == old(protocol).info.version,
{
    lemma_letters();
}

/// A request for addresses that could be read leads to a look for the active nodes; one that could
/// not is reported as it is. The protocol itself does not change.
pub proof fn law_requests_for_addresses_are_answered<E>(
    protocol: &mut AddrProtocol,
    read: Result<GetAddr, E>,
    effect: Result<ProtocolEffect, E>,
)
    requires
        call_ensures(AddrProtocol::on_getaddr, (protocol, read), effect),
    ensures
        *final(protocol) == *old(protocol),
        read is Ok ==> effect == Ok::<ProtocolEffect, E>(ProtocolEffect::FindActiveNodes),
        read matches Err(error) ==> effect == Err::<ProtocolEffect, E>(error),
{
}

/// Addresses that were received are put into the node table, just as they came. After that the
/// channel they came on is closed just if it leads to a seednode and there are at least two of
/// them. What could not be read is reported as it is. The protocol itself does not change.
pub proof fn law_received_addresses_go_to_the_node_table<E>(
    protocol: &mut AddrProtocol,
    read: Result<Addr, E>,
    outcome: Result<Vec<ProtocolEffect>, E>,
)
    requires
        call_ensures(AddrProtocol::on_addr, (protocol, read), outcome),
    ensures
        *final(protocol) == *old(protocol),
        read matches Ok(Addr::V31402(addr)) ==> {
            &&& outcome matches Ok(effects)
            &&& effects@.len() >= 1
            &&& effects@[0] == (ProtocolEffect::UpdateNodeTable { nodes: addr.addresses })
            &&& if old(protocol).is_seed_node_connection && addr.addresses@.len() >= 2 {
                &&& effects@.len() == 2
                &&& effects@[1] == (ProtocolEffect::CloseChannel { peer: old(protocol).info.id })
            } else {
                effects@.len() == 1
            }
        },
        read matches Err(error) ==> outcome == Err::<Vec<ProtocolEffect>, E>(error),
{
}

/// The first message with addresses has the channel to a seednode closed 60 seconds later. No
/// message before or after it does so, whatever is in them, and it is only remembered that the
/// closing has been asked for.
pub proof fn law_first_addresses_end_a_seednode_connection(
    info: PeerInfo,
    fresh: SeednodeProtocol,
    protocol: &mut SeednodeProtocol,
    command: &Command,
    payload: &Bytes,
    effect: Option<ProtocolEffect>,
)
    requires
        call_ensures(SeednodeProtocol::new, (info,), fresh),
        call_ensures(SeednodeProtocol::on_message, (protocol, command, payload), effect),
    ensures
        fresh.info == info,
        !fresh.disconnecting,
        final(protocol).info == old(protocol).info,
        final(protocol).disconnecting <==> old(protocol).disconnecting || command@
            == addr_letters(),
        effect is Some <==> !old(protocol).disconnecting && final(protocol).disconnecting,
        effect is Some ==> effect->0 == (ProtocolEffect::CloseChannelAfter {
            peer: old(protocol).info.id,
            seconds: 60,
        }),
{
    lemma_letters();
}

/// An answer carries its entries in the format with a time for each.
pub proof fn law_answer_carries_its_entries(
    addresses: Vec<AddressEntry>,
    addr: Addr,
    services: Services,
)
    requires
        call_ensures(Addr::new, (addresses,), addr),
        call_ensures(<Services as Default>::default, (), services),
    ensures
        addr matches Addr::V31402(AddrV31402 { addresses: carried }) && carried@ == addresses@,
        services.bits == 0,
{
}

/// What is to be changed in the node table is just what was asked for: the addresses that came in
/// are noted, the node that is to be penalised is penalised, the one to be added is added with the
/// services of this node's settings, the one to be removed is removed.
pub proof fn law_node_table_is_changed_as_asked(
    context: &Context,
    nodes: Vec<AddressEntry>,
    address: SocketAddr,
    update: Effect,
    penalty: Effect,
    addition: Effect,
    removal: Effect,
)
    requires
        call_ensures(Context::update_node_table, (context, nodes), update),
        call_ensures(Context::penalize_node, (context, &address), penalty),
        call_ensures(Context::add_node, (context, address), addition),
        call_ensures(Context::remove_node, (context, address), removal),
    ensures
        update == (Effect::NodeTable { op: NodeTableOp::InsertMany { nodes } }),
        penalty == (Effect::NodeTable { op: NodeTableOp::NoteFailure { address } }),
        addition == (Effect::NodeTable {
            op: NodeTableOp::Add { address, services: context@.config.connection.services },
        }),
        removal == (Effect::NodeTable { op: NodeTableOp::Remove { address } }),
{
}

/// The node table is asked for all its nodes, or for those that are recently active and can be
/// reached by the protocols of the settings.
pub proof fn law_node_table_is_asked(context: &Context, all: NodeQuery, active: NodeQuery)
    requires
        call_ensures(Context::nodes, (context,), all),
        call_ensures(Context::recently_active_query, (context,), active),
    ensures
        all == NodeQuery::All,
        active == (NodeQuery::RecentlyActive { protocol: context@.config.internet_protocol }),
{
}

} // verus!
