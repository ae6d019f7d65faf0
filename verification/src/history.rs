//! Histories: what holds of the network side after any course of events.
use crate::config::Config;
use crate::connection_counter::Direction;
use crate::connections::{
    lemma_get, lemma_with, lemma_without, ChannelTable, Connection, PeerId, PeerInfo,
};
use crate::effect::{Effect, SessionKind};
use crate::message::SocketAddr;
use crate::network_state::{
    handled_effects, lemma_closed, lemma_settled, shutdown_effects, Handshake, NetworkState,
};
use vstd::prelude::*;

verus! {

/// Something that happens to the network side, from its start until it is given up.
pub enum Event {
    /// A connection begins to be set up.
    Begin { direction: Direction },
    /// A stream comes in.
    Listen,
    /// A handshake ends.
    Settle {
        direction: Direction,
        session: SessionKind,
        socket: SocketAddr,
        handshake: Handshake,
    },
    /// A channel is closed.
    Close { id: PeerId },
    /// A channel is closed because of an error.
    CloseWithError { id: PeerId },
    /// The session of a channel has handled a message.
    HandleMessage { channel: PeerInfo },
    /// A synchronization session is created.
    CreateSyncSession,
}

impl NetworkState {
    /// Whether an event can happen: only a handshake that is under way can end, and it can be
    /// completed, and a synchronization session created, only while there are ids left.
    pub open spec fn allows(self, event: Event) -> bool {
        match event {
            Event::Settle { direction, handshake, .. } => {
                &&& self.pending(direction) > 0
                &&& handshake is Completed ==> self.connections.next_id < usize::MAX
            },
            Event::CreateSyncSession => self.sync_sessions < usize::MAX,
            _ => true,
        }
    }

    /// State after an event.
    pub open spec fn after(self, event: Event) -> NetworkState {
        match event {
            Event::Begin { direction } => self.begun(direction, 1),
            Event::Listen => self.listened(),
            Event::Settle { direction, handshake, .. } => self.settled(direction, handshake),
            Event::Close { id } => self.closed(id),
            Event::CloseWithError { id } => self.closed(id),
            Event::HandleMessage { .. } => self,
            Event::CreateSyncSession => self.synced(),
        }
    }

    /// What an event has done to sessions and to the node table.
    pub open spec fn effects_of(self, event: Event) -> Seq<Effect> {
        match event {
            Event::Settle { direction, session, socket, handshake } => self.settled_effects(
                direction,
                session,
                socket,
                handshake,
            ),
            Event::Close { id } => self.closed_effects(id),
            Event::CloseWithError { id } => self.closed_with_error_effects(id),
            Event::HandleMessage { channel } => handled_effects(channel),
            _ => Seq::empty(),
        }
    }

    /// State after several events in turn.
    pub open spec fn after_all(self, events: Seq<Event>) -> NetworkState
        decreases events.len(),
    {
        if events.len() == 0 {
            self
        } else {
            self.after_all(events.drop_last()).after(events.last())
        }
    }

    /// What several events in turn have done to sessions and to the node table.
    pub open spec fn effects_of_all(self, events: Seq<Event>) -> Seq<Effect>
        decreases events.len(),
    {
        if events.len() == 0 {
            Seq::empty()
        } else {
            self.effects_of_all(events.drop_last()) + self.after_all(
                events.drop_last(),
            ).effects_of(events.last())
        }
    }

    /// Whether several events can happen in turn.
    pub open spec fn allows_all(self, events: Seq<Event>) -> bool
        decreases events.len(),
    {
        events.len() > 0 ==> {
            &&& self.allows_all(events.drop_last())
            &&& self.after_all(events.drop_last()).allows(events.last())
        }
    }
}

/// Ids of the sessions that effects open, in turn.
pub open spec fn opened(effects: Seq<Effect>) -> Seq<PeerId>
    decreases effects.len(),
{
    if effects.len() == 0 {
        Seq::empty()
    } else {
        let before = opened(effects.drop_last());
        match effects.last() {
            Effect::OpenSession { channel, .. } => before.push(channel.id),
            _ => before,
        }
    }
}

/// Ids of the sessions that effects close, in turn.
pub open spec fn closed(effects: Seq<Effect>) -> Seq<PeerId>
    decreases effects.len(),
{
    if effects.len() == 0 {
        Seq::empty()
    } else {
        let before = closed(effects.drop_last());
        match effects.last() {
            Effect::CloseSession { peer } => before.push(peer),
            _ => before,
        }
    }
}

/// Ids of the channels that effects shut down, in turn.
pub open spec fn shut(effects: Seq<Effect>) -> Seq<PeerId>
    decreases effects.len(),
{
    if effects.len() == 0 {
        Seq::empty()
    } else {
        let before = shut(effects.drop_last());
        match effects.last() {
            Effect::ShutdownChannel { peer } => before.push(peer),
            _ => before,
        }
    }
}

/// How many of some events begin to set up a connection of a direction, seen from a state.
pub open spec fn begins(start: NetworkState, events: Seq<Event>, direction: Direction) -> int
    decreases events.len(),
{
    if events.len() == 0 {
        0
    } else {
        let before = begins(start, events.drop_last(), direction);
        match events.last() {
            Event::Begin { direction: d } if d == direction => before + 1,
            Event::Listen if direction == Direction::Inbound && start.after_all(
                events.drop_last(),
            ).counts.needed(Direction::Inbound) > 0 => before + 1,
            _ => before,
        }
    }
}

/// How many of some events end a handshake of a direction.
pub open spec fn settles(events: Seq<Event>, direction: Direction) -> int
    decreases events.len(),
{
    if events.len() == 0 {
        0
    } else {
        let before = settles(events.drop_last(), direction);
        match events.last() {
            Event::Settle { direction: d, .. } if d == direction => before + 1,
            _ => before,
        }
    }
}

proof fn lemma_opened_closed_add(first: Seq<Effect>, second: Seq<Effect>)
    ensures
        opened(first + second) == opened(first) + opened(second),
        closed(first + second) == closed(first) + closed(second),
        shut(first + second) == shut(first) + shut(second),
    decreases second.len(),
{
    if second.len() == 0 {
        assert(first + second =~= first);
        assert(opened(first) + opened(second) =~= opened(first));
        assert(closed(first) + closed(second) =~= closed(first));
        assert(shut(first) + shut(second) =~= shut(first));
    } else {
        lemma_opened_closed_add(first, second.drop_last());
        assert((first + second).drop_last() =~= first + second.drop_last());
        assert((first + second).last() == second.last());
        assert(opened(first + second) =~= opened(first) + opened(second));
        assert(closed(first + second) =~= closed(first) + closed(second));
        assert(shut(first + second) =~= shut(first) + shut(second));
    }
}

/// Opens and closes of a single event.
proof fn lemma_event_effects(state: NetworkState, event: Event)
    requires
        state.wf(),
        state.allows(event),
    ensures
        opened(state.effects_of(event)) == match event {
            Event::Settle { handshake: Handshake::Completed { .. }, .. } => seq![
                state.connections.next_id as usize,
            ],
            _ => Seq::empty(),
        },
        closed(state.effects_of(event)) == match event {
            Event::Close { id } if state.connections.contains(id) => seq![id],
            Event::CloseWithError { id } if state.connections.contains(id) => seq![id],
            _ => Seq::empty(),
        },
        shut(state.effects_of(event)) == closed(state.effects_of(event)),
{
    let effects = state.effects_of(event);
    reveal_with_fuel(opened, 5);
    reveal_with_fuel(closed, 5);
    reveal_with_fuel(shut, 5);
    match event {
        Event::Close { id } => {
            lemma_get(state.connections, id);
        },
        Event::CloseWithError { id } => {
            lemma_get(state.connections, id);
        },
        _ => {},
    }
    if effects.len() > 0 {
        let e1 = effects.drop_last();
        if e1.len() > 0 {
            let e2 = e1.drop_last();
            if e2.len() > 0 {
                let e3 = e2.drop_last();
                if e3.len() > 0 {
                    assert(e3.drop_last().len() == 0);
                }
            }
        }
    }
    assert(opened(effects) =~= match event {
        Event::Settle { handshake: Handshake::Completed { .. }, .. } => seq![
            state.connections.next_id as usize,
        ],
        _ => Seq::empty(),
    });
    assert(closed(effects) =~= match event {
        Event::Close { id } if state.connections.contains(id) => seq![id],
        Event::CloseWithError { id } if state.connections.contains(id) => seq![id],
        _ => Seq::empty(),
    });
    assert(shut(effects) =~= closed(effects));
}

/// An event keeps the state well-formed.
pub proof fn lemma_after(state: NetworkState, event: Event)
    requires
        state.wf(),
        state.allows(event),
    ensures
        state.after(event).wf(),
{
    match event {
        Event::Settle { direction, handshake, .. } => {
            lemma_settled(state, direction, handshake);
        },
        Event::Close { id } => {
            lemma_closed(state, id);
        },
        Event::CloseWithError { id } => {
            lemma_closed(state, id);
        },
        _ => {},
    }
}

/// Whatever happens after the start, the state stays well-formed, and the connections that are
/// counted in a direction are those with an open channel and those whose handshake is under way:
/// as many as have begun and not yet ended.
pub proof fn law_connections_are_counted(
    config: Config,
    sync_sessions: nat,
    events: Seq<Event>,
    direction: Direction,
)
    requires
        NetworkState::initial(config, sync_sessions).allows_all(events),
    ensures
        ({
            let start = NetworkState::initial(config, sync_sessions);
            let state = start.after_all(events);
            &&& state.wf()
            &&& state.counts.current(direction) == state.connections.count(direction) + begins(
                start,
                events,
                direction,
            ) - settles(events, direction)
            &&& settles(events, direction) <= begins(start, events, direction)
        }),
    decreases events.len(),
{
    let start = NetworkState::initial(config, sync_sessions);
    if events.len() > 0 {
        let before = start.after_all(events.drop_last());
        law_connections_are_counted(config, sync_sessions, events.drop_last(), direction);
        lemma_after(before, events.last());
        match events.last() {
            Event::Settle { direction: d, handshake, .. } => {
                lemma_settled(before, d, handshake);
                assert(before.settled(d, handshake).pending(direction) == before.pending(
                    direction,
                ) - if direction == d {
                    1int
                } else {
                    0int
                });
            },
            Event::Close { id } => {
                lemma_closed(before, id);
                assert(before.closed(id).pending(direction) == before.pending(direction));
            },
            Event::CloseWithError { id } => {
                lemma_closed(before, id);
                assert(before.closed(id).pending(direction) == before.pending(direction));
            },
            _ => {},
        }
    }
}

/// As long as inbound connections come about through incoming streams alone, there are never more
/// of them than the settings allow.
pub proof fn law_inbound_connections_stay_within_maximum(
    config: Config,
    sync_sessions: nat,
    events: Seq<Event>,
)
    requires
        NetworkState::initial(config, sync_sessions).allows_all(events),
        forall|i: int|
            0 <= i < events.len() ==> #[trigger] events[i] != (Event::Begin {
                direction: Direction::Inbound,
            }),
    ensures
        NetworkState::initial(config, sync_sessions).after_all(events).counts.inbound
            <= config.inbound_connections,
        NetworkState::initial(config, sync_sessions).after_all(events).counts.max_inbound
            == config.inbound_connections,
    decreases events.len(),
{
    if events.len() > 0 {
        let earlier = events.drop_last();
        assert forall|i: int| 0 <= i < earlier.len() implies #[trigger] earlier[i] != (
        Event::Begin { direction: Direction::Inbound }) by {
            assert(earlier[i] == events[i]);
        }
        law_inbound_connections_stay_within_maximum(config, sync_sessions, earlier);
        assert(events.last() == events[events.len() - 1]);
    }
}

/// Whether a table of open channels agrees with the ids of the sessions that have been opened and
/// closed: no id was opened or closed twice, none was closed without having been opened, and the
/// ids that were opened and not closed are those of the open channels.
pub open spec fn sessions_agree(
    table: ChannelTable,
    opened_ids: Seq<PeerId>,
    closed_ids: Seq<PeerId>,
) -> bool {
    &&& opened_ids.no_duplicates()
    &&& closed_ids.no_duplicates()
    &&& forall|id: PeerId| #[trigger] opened_ids.contains(id) ==> id < table.next_id
    &&& forall|id: PeerId| #[trigger] closed_ids.contains(id) ==> opened_ids.contains(id)
    &&& forall|id: PeerId| #[trigger]
        table.contains(id) <==> opened_ids.contains(id) && !closed_ids.contains(id)
}

/// Whatever happens after the start, no id is given to two sessions, no session is closed twice
/// or without having been opened, and the sessions that have been opened and not closed are those
/// of the open channels.
pub proof fn law_sessions_open_and_close_once(
    config: Config,
    sync_sessions: nat,
    events: Seq<Event>,
)
    requires
        NetworkState::initial(config, sync_sessions).allows_all(events),
    ensures
        ({
            let start = NetworkState::initial(config, sync_sessions);
            let effects = start.effects_of_all(events);
            sessions_agree(start.after_all(events).connections, opened(effects), closed(effects))
        }),
    decreases events.len(),
{
    let start = NetworkState::initial(config, sync_sessions);
    let state = start.after_all(events);
    let effects = start.effects_of_all(events);
    if events.len() == 0 {
        assert forall|id: PeerId| !#[trigger] state.connections.contains(id) by {
            if state.connections.contains(id) {
                assert(state.connections.has_at(id, state.connections.position(id)));
            }
        }
    } else {
        let event = events.last();
        let before = start.after_all(events.drop_last());
        let past = start.effects_of_all(events.drop_last());
        law_sessions_open_and_close_once(config, sync_sessions, events.drop_last());
        law_connections_are_counted(
            config,
            sync_sessions,
            events.drop_last(),
            Direction::Inbound,
        );
        lemma_opened_closed_add(past, before.effects_of(event));
        lemma_event_effects(before, event);
        match event {
            Event::Settle { direction, handshake: Handshake::Completed { connection }, .. } => {
                lemma_open_step(
                    before.connections,
                    connection,
                    direction,
                    opened(past),
                    closed(past),
                );
                assert(opened(effects) =~= opened(past).push(before.connections.next_id as usize));
                assert(closed(effects) =~= closed(past));
            },
            Event::Close { id } => {
                lemma_close_step(before, opened(past), closed(past), id);
                assert(opened(effects) =~= opened(past));
                assert(closed(effects) =~= if before.connections.contains(id) {
                    closed(past).push(id)
                } else {
                    closed(past)
                });
            },
            Event::CloseWithError { id } => {
                lemma_close_step(before, opened(past), closed(past), id);
                assert(opened(effects) =~= opened(past));
                assert(closed(effects) =~= if before.connections.contains(id) {
                    closed(past).push(id)
                } else {
                    closed(past)
                });
            },
            _ => {
                assert(opened(effects) =~= opened(past));
                assert(closed(effects) =~= closed(past));
                assert(state.connections == before.connections);
            },
        }
    }
}

/// Whatever happens between the start and the end, every channel that was opened is shut down
/// once: when it is closed, or when the network side is given up; and no other channel is.
pub proof fn law_every_channel_is_shut_down_once(
    config: Config,
    sync_sessions: nat,
    events: Seq<Event>,
)
    requires
        NetworkState::initial(config, sync_sessions).allows_all(events),
    ensures
        ({
            let start = NetworkState::initial(config, sync_sessions);
            let effects = start.effects_of_all(events);
            let last = start.after_all(events);
            let all = effects + shutdown_effects(last.connections.channels);
            &&& shut(all).no_duplicates()
            &&& forall|id: PeerId| #[trigger] shut(all).contains(id) <==> opened(all).contains(id)
            &&& last.emptied().connections.channels.len() == 0
        }),
{
    let start = NetworkState::initial(config, sync_sessions);
    let effects = start.effects_of_all(events);
    let table = start.after_all(events).connections;
    let ending = shutdown_effects(table.channels);
    let all = effects + ending;
    law_sessions_open_and_close_once(config, sync_sessions, events);
    law_connections_are_counted(config, sync_sessions, events, Direction::Inbound);
    lemma_shut_is_closed(config, sync_sessions, events);
    lemma_shutdown_effects(table.channels);
    lemma_opened_closed_add(effects, ending);
    assert(opened(all) =~= opened(effects));
    let first = closed(effects);
    let second = shut(ending);
    assert(shut(all) == first + second);
    assert forall|i: int| 0 <= i < second.len() implies table.contains(#[trigger] second[i]) by {
        assert(table.has_at(second[i], i));
    }
    assert forall|i: int, j: int|
        0 <= i < shut(all).len() && 0 <= j < shut(all).len() && i != j implies shut(all)[i] != shut(
        all,
    )[j] by {
        if i < first.len() && j < first.len() {
            assert(first[i] != first[j]);
        } else if i < first.len() {
            assert(table.contains(second[j - first.len()]));
            assert(first.contains(first[i]));
        } else if j < first.len() {
            assert(table.contains(second[i - first.len()]));
            assert(first.contains(first[j]));
        } else {
            let a = i - first.len();
            let b = j - first.len();
            assert(table.channels[a].id == second[a] && table.channels[b].id == second[b]);
        }
    }
    assert forall|id: PeerId| #[trigger]
        shut(all).contains(id) <==> opened(all).contains(id) by {
        if shut(all).contains(id) {
            let i = choose|i: int| 0 <= i < shut(all).len() && shut(all)[i] == id;
            if i < first.len() {
                assert(first[i] == id);
                assert(first.contains(id));
            } else {
                assert(second[i - first.len()] == id);
                assert(table.contains(id));
            }
        }
        if opened(all).contains(id) {
            if first.contains(id) {
                let i = choose|i: int| 0 <= i < first.len() && first[i] == id;
                assert(shut(all)[i] == id);
            } else {
                assert(table.contains(id));
                let i = table.position(id);
                assert(table.has_at(id, i));
                assert(second[i] == id);
                assert(shut(all)[first.len() + i] == id);
            }
        }
    }
}

/// Channels are shut down just as their sessions are closed.
proof fn lemma_shut_is_closed(config: Config, sync_sessions: nat, events: Seq<Event>)
    requires
        NetworkState::initial(config, sync_sessions).allows_all(events),
    ensures
        shut(NetworkState::initial(config, sync_sessions).effects_of_all(events)) == closed(
            NetworkState::initial(config, sync_sessions).effects_of_all(events),
        ),
    decreases events.len(),
{
    if events.len() > 0 {
        let start = NetworkState::initial(config, sync_sessions);
        let earlier = events.drop_last();
        let before = start.after_all(earlier);
        lemma_shut_is_closed(config, sync_sessions, earlier);
        law_connections_are_counted(config, sync_sessions, earlier, Direction::Inbound);
        lemma_opened_closed_add(
            start.effects_of_all(earlier),
            before.effects_of(events.last()),
        );
        lemma_event_effects(before, events.last());
    }
}

/// Shutting channels down opens and closes no session, and shuts each of them down once.
proof fn lemma_shutdown_effects(channels: Seq<PeerInfo>)
    ensures
        opened(shutdown_effects(channels)) == Seq::<PeerId>::empty(),
        shut(shutdown_effects(channels)).len() == channels.len(),
        forall|i: int|
            0 <= i < channels.len() ==> #[trigger] shut(shutdown_effects(channels))[i]
                == channels[i].id,
    decreases channels.len(),
{
    if channels.len() > 0 {
        lemma_shutdown_effects(channels.drop_last());
        assert(shutdown_effects(channels).drop_last() =~= shutdown_effects(channels.drop_last()));
    }
}

/// How many of some events create a synchronization session.
pub open spec fn sync_creations(events: Seq<Event>) -> nat
    decreases events.len(),
{
    if events.len() == 0 {
        0
    } else {
        sync_creations(events.drop_last()) + if events.last() is CreateSyncSession {
            1nat
        } else {
            0nat
        }
    }
}

/// Numbers that peers get for synchronization while some events happen, in turn.
pub open spec fn sync_indices(start: NetworkState, events: Seq<Event>) -> Seq<usize>
    decreases events.len(),
{
    if events.len() == 0 {
        Seq::empty()
    } else {
        let before = sync_indices(start, events.drop_last());
        if events.last() is CreateSyncSession {
            before.push(start.after_all(events.drop_last()).next_sync_index())
        } else {
            before
        }
    }
}

/// Whatever happens after the start, the peers that take part in synchronization are numbered
/// 1, 2, 3 and so on: no number is left out or given twice.
pub proof fn law_sync_peers_are_numbered_in_turn(config: Config, events: Seq<Event>)
    requires
        NetworkState::initial(config, 0).allows_all(events),
    ensures
        NetworkState::initial(config, 0).after_all(events).sync_sessions == sync_creations(events),
        sync_indices(NetworkState::initial(config, 0), events).len() == sync_creations(events),
        forall|i: int|
            0 <= i < sync_creations(events) ==> #[trigger] sync_indices(
                NetworkState::initial(config, 0),
                events,
            )[i] == i + 1,
    decreases events.len(),
{
    if events.len() > 0 {
        law_sync_peers_are_numbered_in_turn(config, events.drop_last());
    }
}

proof fn lemma_push_contains(ids: Seq<PeerId>, id: PeerId)
    ensures
        forall|x: PeerId| #[trigger] ids.push(id).contains(x) <==> ids.contains(x) || x == id,
{
    assert forall|x: PeerId| #[trigger] ids.push(id).contains(x) <==> ids.contains(x) || x
        == id by {
        if ids.contains(x) {
            let i = choose|i: int| 0 <= i < ids.len() && ids[i] == x;
            assert(ids.push(id)[i] == x);
        }
        if x == id {
            assert(ids.push(id)[ids.len() as int] == x);
        }
        if ids.push(id).contains(x) {
            let i = choose|i: int| 0 <= i < ids.push(id).len() && ids.push(id)[i] == x;
            if i < ids.len() {
                assert(ids[i] == x);
            }
        }
    }
}

/// Opening a channel adds its id to those that have been opened.
proof fn lemma_open_step(
    table: ChannelTable,
    connection: Connection,
    direction: Direction,
    opened_ids: Seq<PeerId>,
    closed_ids: Seq<PeerId>,
)
    requires
        table.wf(),
        table.next_id < usize::MAX,
        sessions_agree(table, opened_ids, closed_ids),
    ensures
        sessions_agree(
            table.with(connection, direction),
            opened_ids.push(table.next_id as usize),
            closed_ids,
        ),
{
    let new = table.next_id as usize;
    let after = table.with(connection, direction);
    lemma_with(table, connection, direction);
    lemma_push_contains(opened_ids, new);
    assert(!opened_ids.contains(new));
    assert forall|id: PeerId| #[trigger] closed_ids.contains(id) implies opened_ids.push(
        new,
    ).contains(id) by {}
    assert forall|id: PeerId| #[trigger]
        after.contains(id) <==> opened_ids.push(new).contains(id) && !closed_ids.contains(id) by {
        lemma_get(table, id);
        lemma_get(after, id);
        assert(id != new ==> table.with(connection, direction).get(id) == table.get(id));
    }
}

/// Closing a channel adds its id to those that have been closed.
proof fn lemma_close_step(
    before: NetworkState,
    opened_ids: Seq<PeerId>,
    closed_ids: Seq<PeerId>,
    id: PeerId,
)
    requires
        before.wf(),
        sessions_agree(before.connections, opened_ids, closed_ids),
    ensures
        sessions_agree(
            before.closed(id).connections,
            opened_ids,
            if before.connections.contains(id) {
                closed_ids.push(id)
            } else {
                closed_ids
            },
        ),
{
    let table = before.connections;
    lemma_get(table, id);
    if table.contains(id) {
        lemma_without(table, id);
        lemma_push_contains(closed_ids, id);
        let after = before.closed(id).connections;
        assert(after == table.without(id));
        assert forall|x: PeerId| #[trigger]
            after.contains(x) <==> opened_ids.contains(x) && !closed_ids.push(id).contains(x) by {
            lemma_get(table, x);
            lemma_get(table.without(id), x);
            assert(x != id ==> table.without(id).get(x) == table.get(x));
        }
    }
}

} // verus!
