//! What holds of sessions after any course of events.
use crate::config::{Config, NetConfig};
use crate::connection_counter::Direction;
use crate::connections::{lemma_get, lemma_with, lemma_without, Connection, PeerId, PeerInfo};
use crate::context::{Context, Envelope, Incoming, Received};
use crate::effect::{Effect, SessionKind};
use crate::channel_laws::law_maintain_checks_each_open_channel_once;
use crate::history::{
    closed, law_connections_are_counted, law_sessions_open_and_close_once, opened, Event,
};
use crate::inbound_connection_factory::SyncSession;
use crate::message::{Services, SocketAddr};
use crate::network_state::{Handshake, NetworkState};
use vstd::prelude::*;

verus! {

/// What begins a connection is an event of the history: a dialled connection begins an outbound
/// one, an accepted one an inbound one, and an incoming stream is met as such.
pub proof fn law_beginnings_are_events(
    dialling: &mut Context,
    session: SessionKind,
    accepting: &mut Context,
    listening: &mut Context,
    socket: SocketAddr,
    config: NetConfig,
    effect: Effect,
)
    ensures
        call_ensures(Context::connect, (dialling, session, socket), effect) ==> final(dialling)@
            == old(dialling)@.after(Event::Begin { direction: Direction::Outbound }),
        call_ensures(Context::accept_connection, (accepting, socket, config), effect)
            ==> final(accepting)@ == old(accepting)@.after(
            Event::Begin { direction: Direction::Inbound },
        ),
        call_ensures(Context::listen, (listening, socket, config), effect) ==> final(listening)@
            == old(listening)@.after(Event::Listen),
{
}

/// What ends a handshake is an event of the history: in the direction in which the connection was
/// begun, on its socket, and with what has come of it.
pub proof fn law_ends_of_handshakes_are_events(
    dialling: &mut Context,
    session: SessionKind,
    accepting: &mut Context,
    socket: SocketAddr,
    handshake: Handshake,
    effects: Vec<Effect>,
)
    ensures
        call_ensures(Context::connect_future, (dialling, session, socket, handshake), effects)
            ==> {
            let event = Event::Settle {
                direction: Direction::Outbound,
                session,
                socket,
                handshake,
            };
            &&& final(dialling)@ == old(dialling)@.after(event)
            &&& effects@ == old(dialling)@.effects_of(event)
        },
        call_ensures(Context::accept_connection_future, (accepting, socket, handshake), effects)
            ==> {
            let event = Event::Settle {
                direction: Direction::Inbound,
                session: SessionKind::Normal,
                socket,
                handshake,
            };
            &&& final(accepting)@ == old(accepting)@.after(event)
            &&& effects@ == old(accepting)@.effects_of(event)
        },
{
}

/// What closes a channel is an event of the history.
pub proof fn law_closings_are_events(
    closing: &mut Context,
    failing: &mut Context,
    id: PeerId,
    effects: Vec<Effect>,
)
    ensures
        call_ensures(Context::close_channel, (closing, id), effects) ==> {
            &&& final(closing)@ == old(closing)@.after(Event::Close { id })
            &&& effects@ == old(closing)@.effects_of(Event::Close { id })
        },
        call_ensures(Context::close_channel_with_error, (failing, id), effects) ==> {
            &&& final(failing)@ == old(failing)@.after(Event::CloseWithError { id })
            &&& effects@ == old(failing)@.effects_of(Event::CloseWithError { id })
        },
{
}

/// What is met on a channel is an event of the history: a message that its session has handled, or
/// a failure that closes the channel.
pub proof fn law_readings_are_events<E, F>(
    reading: &mut Context,
    handling: &mut Context,
    channel: &PeerInfo,
    incoming: Incoming<E, F>,
    received: Received<E, F>,
    handled: Result<(), E>,
    done: (Vec<Effect>, Result<(), E>),
)
    ensures
        call_ensures(Context::on_message, (reading, channel, incoming), received) && !(
        incoming is Message) ==> {
            let event = Event::CloseWithError { id: channel.id };
            &&& final(reading)@ == old(reading)@.after(event)
            &&& received matches Received::Fail { effects, .. }
            &&& effects@ == old(reading)@.effects_of(event)
        },
        call_ensures(Context::on_message_handled, (handling, channel, handled), done) ==> {
            let event = if handled is Ok {
                Event::HandleMessage { channel: *channel }
            } else {
                Event::CloseWithError { id: channel.id }
            };
            &&& final(handling)@ == old(handling)@.after(event)
            &&& done.0@ == old(handling)@.effects_of(event)
        },
{
}

/// What creates a synchronization session is an event of the history.
pub proof fn law_sync_sessions_are_events<O>(
    context: &mut Context,
    height: i32,
    services: Services,
    outbound_connection: O,
    session: SyncSession<O>,
)
    ensures
        call_ensures(
            Context::create_sync_session,
            (context, height, services, outbound_connection),
            session,
        ) ==> final(context)@ == old(context)@.after(Event::CreateSyncSession),
{
}

/// Ids of the sessions that effects initialize, in turn.
pub open spec fn initialized(effects: Seq<Effect>) -> Seq<PeerId>
    decreases effects.len(),
{
    if effects.len() == 0 {
        Seq::empty()
    } else {
        let before = initialized(effects.drop_last());
        match effects.last() {
            Effect::InitializeSession { peer } => before.push(peer),
            _ => before,
        }
    }
}

/// Ids of the channels that effects read from, in turn.
pub open spec fn read_from(effects: Seq<Effect>) -> Seq<PeerId>
    decreases effects.len(),
{
    if effects.len() == 0 {
        Seq::empty()
    } else {
        let before = read_from(effects.drop_last());
        match effects.last() {
            Effect::ReadMessage { peer } => before.push(peer),
            _ => before,
        }
    }
}

proof fn lemma_parts_add(first: Seq<Effect>, second: Seq<Effect>)
    ensures
        opened(first + second) == opened(first) + opened(second),
        initialized(first + second) == initialized(first) + initialized(second),
        read_from(first + second) == read_from(first) + read_from(second),
    decreases second.len(),
{
    if second.len() == 0 {
        assert(first + second =~= first);
        assert(opened(first) + opened(second) =~= opened(first));
        assert(initialized(first) + initialized(second) =~= initialized(first));
        assert(read_from(first) + read_from(second) =~= read_from(first));
    } else {
        lemma_parts_add(first, second.drop_last());
        assert((first + second).drop_last() =~= first + second.drop_last());
        assert((first + second).last() == second.last());
        assert(opened(first + second) =~= opened(first) + opened(second));
        assert(initialized(first + second) =~= initialized(first) + initialized(second));
        assert(read_from(first + second) =~= read_from(first) + read_from(second));
    }
}

/// What a single event opens it initializes, and reads from unless it is a handled message.
proof fn lemma_parts_of_event(state: NetworkState, event: Event)
    ensures
        opened(state.effects_of(event)) == match event {
            Event::Settle { handshake: Handshake::Completed { .. }, .. } => seq![
                state.connections.next_id as usize,
            ],
            _ => Seq::empty(),
        },
        initialized(state.effects_of(event)) == opened(state.effects_of(event)),
        !(event is HandleMessage) ==> read_from(state.effects_of(event)) == opened(
            state.effects_of(event),
        ),
{
    let effects = state.effects_of(event);
    reveal_with_fuel(opened, 5);
    reveal_with_fuel(initialized, 5);
    reveal_with_fuel(read_from, 5);
    if effects.len() > 0 {
        let e1 = effects.drop_last();
        if e1.len() > 0 {
            let e2 = e1.drop_last();
            if e2.len() > 0 {
                let e3 = e2.drop_last();
                if e3.len() > 0 {
                    assert(e3.drop_last().len() == 0);
                }
            }
        }
    }
    assert(opened(effects) =~= match event {
        Event::Settle { handshake: Handshake::Completed { .. }, .. } => seq![
            state.connections.next_id as usize,
        ],
        _ => Seq::empty(),
    });
    assert(initialized(effects) =~= opened(effects));
    assert(!(event is HandleMessage) ==> read_from(effects) =~= opened(effects));
}

/// Whatever happens after the start, the sessions that are initialized are those that are opened,
/// in the same order, each once.
pub proof fn law_opened_sessions_are_initialized_in_turn(
    config: Config,
    sync_sessions: nat,
    events: Seq<Event>,
)
    ensures
        ({
            let effects = NetworkState::initial(config, sync_sessions).effects_of_all(events);
            initialized(effects) == opened(effects)
        }),
    decreases events.len(),
{
    if events.len() > 0 {
        let start = NetworkState::initial(config, sync_sessions);
        let earlier = events.drop_last();
        let before = start.after_all(earlier);
        law_opened_sessions_are_initialized_in_turn(config, sync_sessions, earlier);
        lemma_parts_add(start.effects_of_all(earlier), before.effects_of(events.last()));
        lemma_parts_of_event(before, events.last());
    }
}

/// As long as no message has been handled, the channels that are read from are those whose
/// sessions are opened, in the same order, each once: a handshake reads from no other channel.
pub proof fn law_handshakes_read_from_what_they_open(
    config: Config,
    sync_sessions: nat,
    events: Seq<Event>,
)
    requires
        forall|i: int| 0 <= i < events.len() ==> !(#[trigger] events[i] is HandleMessage),
    ensures
        ({
            let effects = NetworkState::initial(config, sync_sessions).effects_of_all(events);
            read_from(effects) == opened(effects)
        }),
    decreases events.len(),
{
    if events.len() > 0 {
        let start = NetworkState::initial(config, sync_sessions);
        let earlier = events.drop_last();
        let before = start.after_all(earlier);
        assert forall|i: int| 0 <= i < earlier.len() implies !(
        #[trigger] earlier[i] is HandleMessage) by {
            assert(earlier[i] == events[i]);
        }
        assert(events.last() == events[events.len() - 1]);
        law_handshakes_read_from_what_they_open(config, sync_sessions, earlier);
        lemma_parts_add(start.effects_of_all(earlier), before.effects_of(events.last()));
        lemma_parts_of_event(before, events.last());
    }
}

/// Whatever happens after the start, the sessions that are opened have the ids 0, 1, 2 and so on:
/// none is left out or given twice, however many were closed in between.
pub proof fn law_ids_are_given_in_turn(config: Config, sync_sessions: nat, events: Seq<Event>)
    requires
        NetworkState::initial(config, sync_sessions).allows_all(events),
    ensures
        ({
            let start = NetworkState::initial(config, sync_sessions);
            let ids = opened(start.effects_of_all(events));
            &&& forall|i: int| 0 <= i < ids.len() ==> #[trigger] ids[i] == i
            &&& start.after_all(events).connections.next_id == ids.len()
        }),
    decreases events.len(),
{
    if events.len() > 0 {
        let start = NetworkState::initial(config, sync_sessions);
        let earlier = events.drop_last();
        let before = start.after_all(earlier);
        law_ids_are_given_in_turn(config, sync_sessions, earlier);
        lemma_parts_add(start.effects_of_all(earlier), before.effects_of(events.last()));
        lemma_parts_of_event(before, events.last());
    }
}

/// Whatever has happened since the start, a look after the sessions checks just those that have
/// been opened and not closed.
pub proof fn law_maintain_checks_what_was_not_closed(
    config: Config,
    sync_sessions: nat,
    events: Seq<Event>,
    context: &Context,
    effects: Vec<Effect>,
)
    requires
        NetworkState::initial(config, sync_sessions).allows_all(events),
        context@ == NetworkState::initial(config, sync_sessions).after_all(events),
        call_ensures(Context::maintain, (context,), effects),
    ensures
        ({
            let past = NetworkState::initial(config, sync_sessions).effects_of_all(events);
            forall|id: PeerId|
                effects@.contains(Effect::MaintainSession { peer: id }) <==> #[trigger] opened(
                    past,
                ).contains(id) && !closed(past).contains(id)
        }),
{
    let past = NetworkState::initial(config, sync_sessions).effects_of_all(events);
    law_connections_are_counted(config, sync_sessions, events, Direction::Inbound);
    law_sessions_open_and_close_once(config, sync_sessions, events);
    law_maintain_checks_each_open_channel_once(context, effects);
    assert forall|id: PeerId|
        effects@.contains(Effect::MaintainSession { peer: id }) <==> #[trigger] opened(
            past,
        ).contains(id) && !closed(past).contains(id) by {
        assert(context@.connections.contains(id) <==> opened(past).contains(id) && !closed(
            past,
        ).contains(id));
    }
}

/// Whether an event closes the channel with an id, if there is one.
pub open spec fn closes(event: Event, id: PeerId) -> bool {
    event == (Event::Close { id }) || event == (Event::CloseWithError { id })
}

/// Whether one of some events, later than a given one, closes the channel with an id.
pub open spec fn closes_after(events: Seq<Event>, at: int, id: PeerId) -> bool {
    exists|j: int| at < j < events.len() && closes(#[trigger] events[j], id)
}

/// The channel that a completed handshake opened stays as it is until it is closed.
proof fn lemma_channel_stays(
    config: Config,
    sync_sessions: nat,
    events: Seq<Event>,
    at: int,
    connection: Connection,
    direction: Direction,
)
    requires
        NetworkState::initial(config, sync_sessions).allows_all(events),
        0 <= at < events.len(),
        events[at] matches Event::Settle { direction: d, handshake, .. } && d == direction
            && handshake == (Handshake::Completed { connection }),
    ensures
        ({
            let start = NetworkState::initial(config, sync_sessions);
            let table = start.after_all(events.take(at)).connections;
            let id = table.next_id as usize;
            let now = start.after_all(events).connections;
            &&& 0 <= table.next_id < usize::MAX
            &&& id < now.next_id
            &&& now.get(id) == if closes_after(events, at, id) {
                None
            } else {
                Some(table.next_channel(connection, direction))
            }
        }),
    decreases events.len(),
{
    let start = NetworkState::initial(config, sync_sessions);
    let table = start.after_all(events.take(at)).connections;
    let id = table.next_id as usize;
    let earlier = events.drop_last();
    let event = events.last();
    let before = start.after_all(earlier);
    law_connections_are_counted(config, sync_sessions, earlier, Direction::Inbound);
    if at == events.len() - 1 {
        assert(events.take(at) =~= earlier);
        lemma_with(table, connection, direction);
    } else {
        lemma_channel_stays(config, sync_sessions, earlier, at, connection, direction);
        assert(earlier.take(at) =~= events.take(at));
        if closes_after(earlier, at, id) {
            let j = choose|j: int| at < j < earlier.len() && closes(#[trigger] earlier[j], id);
            assert(events[j] == earlier[j]);
        }
        if closes_after(events, at, id) && !closes_after(earlier, at, id) {
            let j = choose|j: int| at < j < events.len() && closes(#[trigger] events[j], id);
            if j < earlier.len() {
                assert(earlier[j] == events[j]);
            }
        }
        if closes(event, id) {
            assert(events[events.len() - 1] == event);
        }
        match event {
            Event::Settle { direction: d, handshake: Handshake::Completed { connection: c }, .. } => {
                lemma_with(before.connections, c, d);
                assert(before.connections.with(c, d).get(id) == before.connections.get(id));
            },
            Event::Close { id: x } => {
                lemma_close_keeps(before, x, id);
            },
            Event::CloseWithError { id: x } => {
                lemma_close_keeps(before, x, id);
            },
            _ => {},
        }
    }
}

proof fn lemma_close_keeps(before: NetworkState, x: PeerId, id: PeerId)
    requires
        before.wf(),
    ensures
        before.closed(x).connections.get(id) == if x == id {
            None
        } else {
            before.connections.get(id)
        },
        before.closed(x).connections.next_id == before.connections.next_id,
{
    lemma_get(before.connections, x);
    lemma_without(before.connections, x);
    lemma_get(before.connections.without(x), x);
    assert(x != id ==> before.connections.without(x).get(id) == before.connections.get(id));
}

/// When a handshake has been completed, messages to the channel that it opened are serialized with
/// the magic and the version that the two sides agreed on, for the node at the address they agreed
/// on, whatever happens to other channels, until that channel is closed; from then on there is
/// nothing to serialize.
pub proof fn law_messages_go_out_as_agreed_on(
    config: Config,
    sync_sessions: nat,
    events: Seq<Event>,
    at: int,
    connection: Connection,
    opened_as: PeerInfo,
    context: &Context,
    serialization_flags: u32,
    envelope: Option<Envelope>,
)
    requires
        NetworkState::initial(config, sync_sessions).allows_all(events),
        0 <= at < events.len(),
        events[at] matches Event::Settle { handshake, .. } && handshake == (Handshake::Completed {
            connection,
        }),
        NetworkState::initial(config, sync_sessions).after_all(events.take(at)).effects_of(
            events[at],
        )[1] matches Effect::OpenSession { channel, .. } && channel == opened_as,
        context@ == NetworkState::initial(config, sync_sessions).after_all(events),
        call_ensures(
            Context::send_to_peer,
            (context, opened_as.id, serialization_flags),
            envelope,
        ),
    ensures
        envelope is None <==> closes_after(events, at, opened_as.id),
        envelope matches Some(envelope) ==> {
            &&& envelope.magic == connection.magic
            &&& envelope.version == connection.version
            &&& envelope.serialization_flags == serialization_flags
            &&& envelope.channel.id == opened_as.id
            &&& envelope.channel.address == connection.address
            &&& envelope.channel.magic == connection.magic
            &&& envelope.channel.version == connection.version
            &&& Some(envelope.channel.direction) == match events[at] {
                Event::Settle { direction, .. } => Some(direction),
                _ => None,
            }
        },
{
    if let Event::Settle { direction, .. } = events[at] {
        lemma_channel_stays(config, sync_sessions, events, at, connection, direction);
    }
}

} // verus!
