//! What each operation that starts a node, or meets its seednodes and its synchronization peers,
//! does, whatever the state it finds.
use crate::client::{run, Startup};
use crate::config::Config;
use crate::connecting_laws::counts_more;
use crate::connection_counter::ConnectionCounter;
use crate::connections::Connections;
use crate::context::Context;
use crate::effect::{Effect, SessionKind};
use crate::inbound_connection_factory::{InboundConnectionFactory, SyncSession};
use crate::message::{Services, SocketAddr};
use crate::network_state::NetworkState;
use crate::p2p::{answered, answered_effect, SeednodeStep, P2P};
use crate::seednode::{
    all_weigh, answers, best_addresses, may_be_picked, pick_address, pick_even_address,
    picked_from, total_weight, SeednodeAnswer,
};
use abstract_ns::Address;
use vstd::prelude::*;

verus! {

/// Whether a state is that of a node that has just started with some settings: no channel is open,
/// the first one will have the id 0, nothing is counted, and the maxima are those of the settings.
pub open spec fn just_started(state: NetworkState, config: Config, sync_sessions: nat) -> bool {
    &&& state.connections.channels.len() == 0
    &&& state.connections.next_id == 0
    &&& state.counts.inbound == 0
    &&& state.counts.outbound == 0
    &&& state.counts.max_inbound == config.inbound_connections
    &&& state.counts.max_outbound == config.outbound_connections
    &&& state.sync_sessions == sync_sessions
    &&& state.config == config
}

/// A node starts afresh with its settings, just if its node table could be read, from where the
/// settings say and with the services they prefer; otherwise it starts with the error of that.
pub proof fn law_node_starts_afresh<E>(
    config: Config,
    table_effect: Effect,
    local_sync_node: Box<InboundConnectionFactory>,
    node_table: Result<(), E>,
    context: Result<Context, E>,
    p2p: Result<P2P, E>,
)
    requires
        call_ensures(Context::load_node_table, (&config,), table_effect),
        call_ensures(Context::new, (local_sync_node, config, node_table), context),
        call_ensures(P2P::new, (config, local_sync_node, node_table), p2p),
    ensures
        table_effect == (Effect::LoadNodeTable {
            preferable_services: config.preferable_services,
            path: config.node_table_path,
        }),
        node_table is Ok ==> {
            &&& context matches Ok(context)
            &&& just_started(context@, config, local_sync_node@)
        },
        node_table is Ok ==> {
            &&& p2p matches Ok(p2p)
            &&& just_started(p2p@, config, local_sync_node@)
        },
        node_table matches Err(error) ==> {
            &&& context matches Err(e)
            &&& e == error
        },
        node_table matches Err(error) ==> {
            &&& p2p matches Err(e)
            &&& e == error
        },
{
}

/// What is told of the state is so.
pub proof fn law_state_is_told_of(
    p2p: &P2P,
    context: &Context,
    connections: &Connections,
    counter: &ConnectionCounter,
    sync_node: &InboundConnectionFactory,
    created: usize,
    config: &Config,
)
    requires
        call_ensures(P2P::context, (p2p,), context),
        call_ensures(Context::connections, (context,), connections),
        call_ensures(Context::connection_counter, (context,), counter),
        call_ensures(Context::local_sync_node, (context,), sync_node),
        call_ensures(InboundConnectionFactory::peers_created, (sync_node,), created),
        call_ensures(Context::config, (context,), config),
    ensures
        context@ == p2p@,
        connections@ == p2p@.connections,
        counter@ == p2p@.counts,
        sync_node@ == p2p@.sync_sessions,
        created == p2p@.sync_sessions,
        *config == p2p@.config,
{
}

/// What is changed in the context of a node is changed in the node.
pub proof fn law_context_is_that_of_the_node(p2p: &mut P2P, context: &mut Context)
    requires
        call_ensures(P2P::context_mut, (p2p,), context),
    ensures
        old(context)@ == old(p2p)@,
        final(p2p)@ == final(context)@,
{
}

/// At its start a node dials each of the peers of its settings once, in turn and with an ordinary
/// session, and counts them; then it has the resolver set up.
pub proof fn law_start_dials_the_peers(p2p: &mut P2P, effects: Vec<Effect>)
    requires
        call_ensures(P2P::run, (p2p,), effects),
    ensures
        ({
            let config = old(p2p)@.config;
            &&& counts_more(old(p2p)@, final(p2p)@, 0, config.peers@.len() as int)
            &&& effects@.len() == config.peers@.len() + 1
            &&& forall|i: int|
                0 <= i < config.peers@.len() ==> #[trigger] effects@[i] == (Effect::Dial {
                    session: SessionKind::Normal,
                    socket: config.peers@[i],
                    config: config.connection,
                })
            &&& effects@[config.peers@.len() as int] == Effect::StartResolver
        }),
{
}

/// Once there is a resolver, a node resolves each of the seednodes of its settings once and in
/// turn, then looks after its connections every 10 seconds, then listens with its settings;
/// without one it does none of this, and reports why.
pub proof fn law_start_goes_on_with_a_resolver<E>(
    p2p: &P2P,
    resolver: Result<(), E>,
    outcome: Result<Vec<Effect>, E>,
)
    requires
        call_ensures(P2P::run_with_resolver, (p2p, resolver), outcome),
    ensures
        resolver is Ok ==> {
            let seeds = p2p@.config.seeds@;
            &&& outcome matches Ok(effects)
            &&& effects@.len() == seeds.len() + 2
            &&& forall|i: int|
                0 <= i < seeds.len() ==> #[trigger] effects@[i] == (Effect::ResolveSeednode {
                    name: seeds[i],
                })
            &&& effects@[seeds.len() as int] == (Effect::StartAutoconnect { interval: 10 })
            &&& effects@[seeds.len() as int + 1] == (Effect::Listen { config: p2p@.config.connection })
        },
        resolver matches Err(error) ==> {
            &&& outcome matches Err(e)
            &&& e == error
        },
{
}

/// A seednode is connected to by having its own name resolved.
pub proof fn law_seednode_is_resolved_by_its_name(p2p: &P2P, seednode: &String, effect: Effect)
    requires
        call_ensures(P2P::connect_to_seednode, (p2p, seednode), effect),
    ensures
        effect == (Effect::ResolveSeednode { name: *seednode }),
{
}

/// Whatever the state, an address that was picked for a seednode is dialled, with a seednode
/// session and the settings of the node, and counts for one more outbound connection. Nothing is
/// done and nothing changes just if there is no address or the name could not be resolved.
pub proof fn law_picked_seednode_is_dialled(
    p2p: &mut P2P,
    answer: SeednodeAnswer,
    effect: Option<Effect>,
)
    requires
        call_ensures(P2P::on_seednode_answer, (p2p, answer), effect),
    ensures
        answer matches SeednodeAnswer::Picked { address } ==> {
            &&& effect == Some(
                Effect::DialPicked {
                    session: SessionKind::Seednode,
                    address,
                    config: old(p2p)@.config.connection,
                },
            )
            &&& counts_more(old(p2p)@, final(p2p)@, 0, 1)
        },
        !(answer is Picked) ==> effect is None && final(p2p)@ == old(p2p)@,
        effect is None <==> answer is NoAddress || answer is Failed,
{
}

/// The weight of some addresses together is the sum of the weights of each.
pub proof fn law_weights_add_up(addresses: Seq<(u64, SocketAddr)>, weight: u64, socket: SocketAddr)
    ensures
        total_weight(Seq::empty()) == 0,
        total_weight(addresses.push((weight, socket))) == total_weight(addresses) + weight,
{
    assert(addresses.push((weight, socket)).drop_last() =~= addresses);
}

/// Addresses that weigh nothing together weigh nothing each.
proof fn lemma_weightless(addresses: Seq<(u64, SocketAddr)>)
    ensures
        total_weight(addresses) >= 0,
        total_weight(addresses) == 0 ==> forall|i: int|
            0 <= i < addresses.len() ==> (#[trigger] addresses[i]).0 == 0,
    decreases addresses.len(),
{
    if addresses.len() > 0 {
        let earlier = addresses.drop_last();
        lemma_weightless(earlier);
        assert forall|i: int|
            total_weight(addresses) == 0 && 0 <= i < addresses.len() implies (
        #[trigger] addresses[i]).0 == 0 by {
            if i < earlier.len() {
                assert(earlier[i].0 == 0);
            }
        }
    }
}

/// Whether an address holds just one of some others: one that has a weight, or the first one if
/// none has.
pub open spec fn holds_one_of(address: Address, others: Seq<(u64, SocketAddr)>) -> bool {
    exists|i: int|
        {
            &&& 0 <= i < others.len()
            &&& best_addresses(address).len() == 1
            &&& best_addresses(address)[0].1 == (#[trigger] others[i]).1
            &&& others[i].0 > 0 || (i == 0 && forall|k: int|
                0 <= k < others.len() ==> (#[trigger] others[k]).0 == 0)
        }
}

/// One of the best addresses of a seednode is picked if it has any: one that has a weight, or the
/// first one if none has. Otherwise it is told apart whether there is no address or the name could
/// not be resolved.
pub proof fn law_one_address_is_picked<E>(
    resolved: &Result<Address, E>,
    answer: SeednodeAnswer,
)
    requires
        call_ensures(pick_address, (resolved,), answer),
    ensures
        answer is Failed <==> resolved is Err,
        answer is NoAddress <==> resolved is Ok && best_addresses(resolved->Ok_0).len() == 0,
        answer matches SeednodeAnswer::Picked { address } ==> resolved is Ok && holds_one_of(
            address,
            best_addresses(resolved->Ok_0),
        ),
{
    if let Ok(found) = *resolved {
        lemma_picked(found, answer);
    }
}

proof fn lemma_picked(found: Address, answer: SeednodeAnswer)
    requires
        answer matches SeednodeAnswer::Picked { address } ==> picked_from(
            best_addresses(found),
            address,
        ),
    ensures
        answer matches SeednodeAnswer::Picked { address } ==> holds_one_of(
            address,
            best_addresses(found),
        ),
{
    let best = best_addresses(found);
    lemma_weightless(best);
    if let SeednodeAnswer::Picked { address } = answer {
        let i = choose|i: int| #[trigger]
            may_be_picked(best, i) && best_addresses(address)
                == seq![(0u64, best[i].1)];
        assert(may_be_picked(best, i));
        assert(best_addresses(address)[0].1 == best[i].1);
    }
}

/// An address is picked at once just if the best addresses have all the weight 1, or all none, and
/// then as it is otherwise.
pub proof fn law_even_addresses_are_picked_at_once<E>(
    resolved: &Result<Address, E>,
    answer: Option<SeednodeAnswer>,
)
    requires
        call_ensures(pick_even_address, (resolved,), answer),
    ensures
        resolved is Err ==> answer == Some(SeednodeAnswer::Failed),
        resolved matches Ok(found) ==> {
            let best = best_addresses(*found);
            if best.len() == 0 {
                answer == Some(SeednodeAnswer::NoAddress)
            } else if each_weighs(best, 1) || each_weighs(best, 0) {
                &&& answer matches Some(SeednodeAnswer::Picked { address })
                &&& holds_one_of(address, best)
            } else {
                answer is None
            }
        },
{
    if let Ok(found) = *resolved {
        let best = best_addresses(found);
        assert(all_weigh(best, 1) <==> each_weighs(best, 1));
        assert(all_weigh(best, 0) <==> each_weighs(best, 0));
        if let Some(answer) = answer {
            lemma_picked(found, answer);
        }
    }
}

/// Whether each of some addresses has a given weight.
pub open spec fn each_weighs(addresses: Seq<(u64, SocketAddr)>, weight: int) -> bool {
    forall|i: int| 0 <= i < addresses.len() ==> (#[trigger] addresses[i]).0 == weight
}

/// A seednode whose best addresses have all the weight 1, or all none, is dealt with at once:
/// whatever else is connected, one of them is dialled, with a seednode session and the settings of
/// the node, and counts for one more outbound connection. Nothing is done and nothing changes if
/// it has no address, or could not be resolved. Where the weights differ, nothing is done yet, and
/// that is told.
pub proof fn law_resolved_seednode_is_dialled<E>(
    p2p: &mut P2P,
    resolved: &Result<Address, E>,
    step: SeednodeStep,
)
    requires
        call_ensures(P2P::on_seednode_resolved, (p2p, resolved), step),
    ensures
        resolved is Err ==> {
            &&& step == (SeednodeStep::Done { effect: None })
            &&& final(p2p)@ == old(p2p)@
        },
        resolved matches Ok(found) ==> {
            let best = best_addresses(*found);
            if best.len() == 0 {
                &&& step == (SeednodeStep::Done { effect: None })
                &&& final(p2p)@ == old(p2p)@
            } else if each_weighs(best, 1) || each_weighs(best, 0) {
                &&& step matches SeednodeStep::Done {
                    effect: Some(Effect::DialPicked { session, address, config }),
                }
                &&& session == SessionKind::Seednode
                &&& config == old(p2p)@.config.connection
                &&& holds_one_of(address, best)
                &&& counts_more(old(p2p)@, final(p2p)@, 0, 1)
            } else {
                &&& step == SeednodeStep::Uneven
                &&& final(p2p)@ == old(p2p)@
            }
        },
{
    if let Ok(found) = *resolved {
        let best = best_addresses(found);
        assert(all_weigh(best, 1) <==> each_weighs(best, 1));
        assert(all_weigh(best, 0) <==> each_weighs(best, 0));
        if let SeednodeStep::Done { effect } = step {
            let answer = choose|answer: SeednodeAnswer|
                {
                    &&& #[trigger] answers(*resolved, answer)
                    &&& final(p2p)@ == answered(old(p2p)@, answer)
                    &&& effect == answered_effect(old(p2p)@, answer)
                };
            lemma_picked(found, answer);
        }
    }
}

/// A synchronization peer gets the number after the last one that was given; it is remembered
/// under that number, with its services and its outbound connection, and its inbound connection
/// has the same number. Nothing else changes.
pub proof fn law_sync_session_gets_the_next_number<O>(
    factory: &mut InboundConnectionFactory,
    factory_session: SyncSession<O>,
    context: &mut Context,
    context_session: SyncSession<O>,
    height: i32,
    services: Services,
    outbound_connection: O,
)
    requires
        old(factory)@ < usize::MAX,
        old(context)@.sync_sessions < usize::MAX,
        call_ensures(
            InboundConnectionFactory::create_sync_session,
            (factory, height, services, outbound_connection),
            factory_session,
        ),
        call_ensures(
            Context::create_sync_session,
            (context, height, services, outbound_connection),
            context_session,
        ),
    ensures
        final(factory)@ == old(factory)@ + 1,
        factory_session.inbound.peer_index == old(factory)@ + 1,
        factory_session.registration.peer_index == old(factory)@ + 1,
        factory_session.registration.services == services,
        factory_session.registration.outbound_connection == outbound_connection,
        final(context)@.sync_sessions == old(context)@.sync_sessions + 1,
        final(context)@.connections == old(context)@.connections,
        final(context)@.counts == old(context)@.counts,
        final(context)@.config == old(context)@.config,
        context_session.inbound.peer_index == old(context)@.sync_sessions + 1,
        context_session.registration.peer_index == old(context)@.sync_sessions + 1,
        context_session.registration.services == services,
        context_session.registration.outbound_connection == outbound_connection,
{
}

/// A factory of synchronization sessions has given no number yet, and a box does not change that.
pub proof fn law_sync_numbers_begin_afresh(
    factory: InboundConnectionFactory,
    boxed: Box<InboundConnectionFactory>,
)
    requires
        call_ensures(InboundConnectionFactory::new, (), factory),
        call_ensures(InboundConnectionFactory::boxed, (factory,), boxed),
    ensures
        factory@ == 0,
        boxed@ == 0,
{
}

/// The client starts just if its settings are valid, and otherwise reports what is wrong with
/// them. Log lines go where the environment says just if quiet was asked for, else to the console
/// under Windows and to a file elsewhere. Blocks are imported, or the chain rolled back, just if
/// that subcommand came with its arguments; in all other cases the client runs as a node.
pub proof fn law_client_starts_as_it_is_told(
    quiet: Result<bool, String>,
    windows: bool,
    subcommand: &String,
    has_arguments: bool,
    startup: Result<Startup, String>,
)
    requires
        call_ensures(
            run,
            (quiet, windows, subcommand, has_arguments),
            startup,
        ),
    ensures
        quiet matches Err(error) ==> startup == Err::<Startup, String>(error),
        quiet matches Ok(quiet) ==> {
            &&& startup matches Ok(startup)
            &&& startup.logging is Environment <==> quiet
            &&& startup.logging is Console <==> !quiet && windows
            &&& startup.logging is File <==> !quiet && !windows
            &&& startup.command is Import <==> has_arguments && subcommand@ == seq![
                'i',
                'm',
                'p',
                'o',
                'r',
                't',
            ]
            &&& startup.command is Rollback <==> has_arguments && subcommand@ == seq![
                'r',
                'o',
                'l',
                'l',
                'b',
                'a',
                'c',
                'k',
            ]
        },
{
    reveal_strlit("import");
    reveal_strlit("rollback");
    assert("import"@ =~= seq!['i', 'm', 'p', 'o', 'r', 't']);
    assert("rollback"@ =~= seq!['r', 'o', 'l', 'l', 'b', 'a', 'c', 'k']);
    assert("import"@.len() != "rollback"@.len());
}

} // verus!
