use bytes::Bytes;
use p2p::config::{Config, InternetProtocol, NetConfig};
use p2p::connection_counter::Direction;
use p2p::connections::{Connection, PeerInfo};
use p2p::context::{Context, Envelope, Incoming, Outgoing, ReadError, Received};
use p2p::effect::{Effect, SessionKind};
use p2p::inbound_connection_factory::InboundConnectionFactory;
use p2p::message::{AddressEntry, Command, NetAddress, Services, SocketAddr};
use p2p::network_state::Handshake;
use p2p::node_table::{Node, NodeQuery, NodeTableOp};

fn socket(last: u8) -> SocketAddr {
    SocketAddr::V4 { ip: [10, 0, 0, last], port: 8333 }
}

fn services(bits: u64) -> Services {
    Services { bits }
}

fn config(inbound: u32, outbound: u32) -> Config {
    Config {
        threads: 4,
        inbound_connections: inbound,
        outbound_connections: outbound,
        connection: NetConfig { local_address: socket(200), services: services(5) },
        peers: vec![],
        seeds: vec![],
        node_table_path: "nodes.csv".to_string(),
        preferable_services: services(1),
        internet_protocol: InternetProtocol::IpV4,
    }
}

fn context(inbound: u32, outbound: u32) -> Context {
    let factory = InboundConnectionFactory::new().boxed();
    Context::new::<String>(factory, config(inbound, outbound), Ok(())).unwrap()
}

fn connection(last: u8) -> Connection {
    Connection { address: socket(last), services: services(9), version: 70_014, magic: 0xd9b4_bef9 }
}

fn completed(last: u8) -> Handshake {
    Handshake::Completed { connection: connection(last) }
}

fn channel(id: usize, last: u8, direction: Direction) -> PeerInfo {
    PeerInfo { id, address: socket(last), direction, version: 70_014, magic: 0xd9b4_bef9 }
}

fn failure(last: u8) -> Effect {
    Effect::NodeTable { op: NodeTableOp::NoteFailure { address: socket(last) } }
}

fn save() -> Effect {
    Effect::SaveNodeTable { path: "nodes.csv".to_string() }
}

fn dial(session: SessionKind, last: u8) -> Effect {
    Effect::Dial {
        session,
        socket: socket(last),
        config: NetConfig { local_address: socket(200), services: services(5) },
    }
}

fn open_outbound(context: &mut Context, last: u8) -> usize {
    context.connect(SessionKind::Normal, socket(last));
    let id = context.connections().next_id();
    context.connect_future(SessionKind::Normal, socket(last), completed(last));
    id
}

fn open_inbound(context: &mut Context, last: u8) -> usize {
    let net = context.config().connection;
    context.accept_connection(socket(last), net);
    let id = context.connections().next_id();
    context.accept_connection_future(socket(last), completed(last));
    id
}

fn counts(context: &Context) -> (usize, usize) {
    (
        context.connection_counter().inbound_connections().0,
        context.connection_counter().outbound_connections().0,
    )
}

#[test]
fn node_table_is_loaded_from_the_settings() {
    assert_eq!(
        Context::load_node_table(&config(1, 1)),
        Effect::LoadNodeTable { preferable_services: services(1), path: "nodes.csv".to_string() }
    );
}

#[test]
fn new_context_is_empty() {
    let context = context(3, 7);
    assert_eq!(context.connection_counter().inbound_connections(), (0, 3));
    assert_eq!(context.connection_counter().outbound_connections(), (0, 7));
    assert!(context.connections().channels().is_empty());
    assert_eq!(context.local_sync_node().peers_created(), 0);
    assert_eq!(context.pending(Direction::Inbound), 0);
    assert_eq!(context.pending(Direction::Outbound), 0);
}

#[test]
fn new_context_fails_with_the_error_of_the_node_table() {
    let factory = InboundConnectionFactory::new().boxed();
    let error = Context::new(factory, config(1, 1), Err("unreadable".to_string())).unwrap_err();
    assert_eq!(error, "unreadable");
}

#[test]
fn connect_counts_and_dials() {
    let mut context = context(2, 2);
    assert_eq!(context.connect(SessionKind::Seednode, socket(1)), dial(SessionKind::Seednode, 1));
    assert_eq!(counts(&context), (0, 1));
    assert_eq!(context.pending(Direction::Outbound), 1);
    assert_eq!(context.connect_normal(socket(2)), dial(SessionKind::Normal, 2));
    assert_eq!(counts(&context), (0, 2));
}

#[test]
fn completed_outbound_handshake_opens_a_channel() {
    let mut context = context(2, 2);
    context.connect(SessionKind::Seednode, socket(1));
    // the other side may know itself by another address than the one that was dialled
    let effects = context.connect_future(SessionKind::Seednode, socket(1), completed(7));
    assert_eq!(
        effects,
        vec![
            Effect::NodeTable {
                op: NodeTableOp::Insert { address: socket(7), services: services(9) },
            },
            Effect::OpenSession {
                channel: channel(0, 7, Direction::Outbound),
                session: SessionKind::Seednode,
            },
            Effect::InitializeSession { peer: 0 },
            Effect::ReadMessage { peer: 0 },
        ]
    );
    assert_eq!(counts(&context), (0, 1));
    assert_eq!(context.pending(Direction::Outbound), 0);
    assert_eq!(context.connections().channel(0), Some(channel(0, 7, Direction::Outbound)));
    assert_eq!(context.connections().addresses(), vec![socket(7)]);
}

#[test]
fn failed_outbound_handshake_undoes_connect() {
    for handshake in [Handshake::Rejected, Handshake::TimedOut, Handshake::NetworkFailure] {
        let mut context = context(2, 2);
        context.connect(SessionKind::Normal, socket(1));
        let effects = context.connect_future(SessionKind::Normal, socket(1), handshake);
        assert_eq!(effects, vec![failure(1)]);
        assert_eq!(counts(&context), (0, 0));
        assert!(context.connections().channels().is_empty());
    }
}

#[test]
fn completed_inbound_handshake_opens_a_normal_session() {
    let mut context = context(2, 2);
    let net = context.config().connection;
    assert_eq!(
        context.accept_connection(socket(3), net),
        Effect::Accept { socket: socket(3), config: net }
    );
    let effects = context.accept_connection_future(socket(3), completed(3));
    assert_eq!(
        effects,
        vec![
            Effect::NodeTable {
                op: NodeTableOp::Insert { address: socket(3), services: services(9) },
            },
            Effect::OpenSession {
                channel: channel(0, 3, Direction::Inbound),
                session: SessionKind::Normal,
            },
            Effect::InitializeSession { peer: 0 },
            Effect::ReadMessage { peer: 0 },
        ]
    );
    assert_eq!(counts(&context), (1, 0));
}

#[test]
fn failed_inbound_handshake_undoes_accept() {
    for handshake in [Handshake::Rejected, Handshake::TimedOut, Handshake::NetworkFailure] {
        let mut context = context(2, 2);
        let net = context.config().connection;
        context.accept_connection(socket(3), net);
        assert_eq!(context.accept_connection_future(socket(3), handshake), vec![failure(3)]);
        assert_eq!(counts(&context), (0, 0));
    }
}

#[test]
fn listen_refuses_beyond_the_maximum() {
    let mut context = context(2, 0);
    let net = NetConfig { local_address: socket(9), services: services(0) };
    for last in [1, 2] {
        assert_eq!(
            context.listen(socket(last), net),
            Effect::Accept { socket: socket(last), config: net }
        );
    }
    assert_eq!(context.listen(socket(3), net), Effect::Refuse { socket: socket(3) });
    assert_eq!(counts(&context), (2, 0));
    // one that fails makes room again
    context.accept_connection_future(socket(1), Handshake::TimedOut);
    assert_eq!(
        context.listen(socket(3), net),
        Effect::Accept { socket: socket(3), config: net }
    );
    assert_eq!(counts(&context), (2, 0));
}

#[test]
fn listen_refuses_everything_at_a_maximum_of_zero() {
    let mut context = context(0, 5);
    let net = context.config().connection;
    assert_eq!(context.listen(socket(1), net), Effect::Refuse { socket: socket(1) });
    assert_eq!(counts(&context), (0, 0));
}

#[test]
fn close_channel_undoes_connect() {
    let mut context = context(2, 2);
    let first = open_outbound(&mut context, 1);
    let second = open_inbound(&mut context, 2);
    assert_eq!((first, second), (0, 1));
    assert_eq!(counts(&context), (1, 1));
    assert_eq!(
        context.close_channel(first),
        vec![Effect::CloseSession { peer: 0 }, Effect::ShutdownChannel { peer: 0 }]
    );
    assert_eq!(counts(&context), (1, 0));
    assert_eq!(context.connections().channel(0), None);
    assert_eq!(context.connections().channel(1), Some(channel(1, 2, Direction::Inbound)));
    context.close_channel(second);
    assert_eq!(counts(&context), (0, 0));
    assert!(context.connections().channels().is_empty());
}

#[test]
fn second_close_does_nothing() {
    let mut context = context(2, 2);
    let id = open_outbound(&mut context, 1);
    context.close_channel(id);
    assert_eq!(context.close_channel(id), vec![]);
    assert_eq!(context.close_channel_with_error(id), vec![]);
    assert_eq!(context.close_channel(99), vec![]);
    assert_eq!(counts(&context), (0, 0));
}

#[test]
fn close_with_error_penalises_the_node() {
    let mut context = context(2, 2);
    let id = open_inbound(&mut context, 6);
    assert_eq!(
        context.close_channel_with_error(id),
        vec![
            Effect::CloseSession { peer: 0 },
            Effect::ShutdownChannel { peer: 0 },
            failure(6),
        ]
    );
    assert_eq!(counts(&context), (0, 0));
}

#[test]
fn ids_are_never_used_again() {
    let mut context = context(9, 9);
    let mut ids = Vec::new();
    for last in 0..5 {
        let id = open_outbound(&mut context, last);
        context.close_channel(id);
        ids.push(id);
        ids.push(open_inbound(&mut context, last));
    }
    assert_eq!(ids, vec![0, 1, 2, 3, 4, 5, 6, 7, 8, 9]);
    assert_eq!(counts(&context), (5, 0));
}

#[test]
fn autoconnect_asks_for_what_is_missing() {
    let mut context = context(9, 4);
    open_outbound(&mut context, 1);
    open_inbound(&mut context, 2);
    context.connect(SessionKind::Normal, socket(3));
    assert_eq!(
        context.maintain(),
        vec![Effect::MaintainSession { peer: 0 }, Effect::MaintainSession { peer: 1 }]
    );
    let tick = context.autoconnect();
    assert_eq!(tick.effects, vec![]);
    assert_eq!(
        tick.query,
        Some(NodeQuery::WithServices {
            services: services(0),
            protocol: InternetProtocol::IpV4,
            except: vec![socket(1), socket(2)],
            limit: 2,
        })
    );
}

#[test]
fn autoconnect_saves_the_node_table_at_the_maximum() {
    let mut context = context(9, 1);
    open_outbound(&mut context, 1);
    assert_eq!(context.maintain(), vec![Effect::MaintainSession { peer: 0 }]);
    let tick = context.autoconnect();
    assert_eq!(tick.effects, vec![save()]);
    assert_eq!(tick.query, None);
}

#[test]
fn channel_closed_by_its_session_is_replaced_in_the_same_tick() {
    let mut context = context(9, 1);
    let id = open_outbound(&mut context, 1);
    assert_eq!(context.maintain(), vec![Effect::MaintainSession { peer: id }]);
    context.close_channel(id);
    let tick = context.autoconnect();
    assert_eq!(tick.effects, vec![]);
    assert_eq!(
        tick.query,
        Some(NodeQuery::WithServices {
            services: services(0),
            protocol: InternetProtocol::IpV4,
            except: vec![],
            limit: 1,
        })
    );
}

#[test]
fn maintain_without_channels_asks_for_nothing() {
    assert_eq!(context(1, 1).maintain(), vec![]);
}

#[test]
fn found_nodes_are_connected_to_until_the_maximum() {
    let mut context = context(9, 2);
    let peers = vec![
        Node { address: socket(4), services: services(1), time: 11 },
        Node { address: socket(5), services: services(1), time: 12 },
    ];
    assert_eq!(
        context.connect_to_found(&peers),
        vec![dial(SessionKind::Normal, 4), dial(SessionKind::Normal, 5), save()]
    );
    assert_eq!(counts(&context), (0, 2));
    assert_eq!(context.autoconnect().query, None);
}

#[test]
fn nothing_found_still_saves_the_node_table() {
    let mut context = context(9, 2);
    assert_eq!(context.connect_to_found(&vec![]), vec![save()]);
    assert_eq!(counts(&context), (0, 0));
}

#[test]
fn message_is_handed_to_the_session() {
    let mut context = context(9, 9);
    let id = open_outbound(&mut context, 1);
    let info = context.connections().channel(id).unwrap();
    let incoming: Incoming<String, String> =
        Incoming::Message { command: Command::new("ping"), payload: Bytes::from("abc") };
    assert_eq!(
        context.on_message(&info, incoming),
        Received::Handle {
            peer: 0,
            command: Command::new("ping"),
            payload: Bytes::from("abc"),
        }
    );
    assert_eq!(counts(&context), (0, 1));
}

#[test]
fn handled_message_lets_the_next_be_read() {
    let mut context = context(9, 9);
    let id = open_outbound(&mut context, 1);
    let info = context.connections().channel(id).unwrap();
    let (effects, result) = context.on_message_handled::<String>(&info, Ok(()));
    assert_eq!(
        effects,
        vec![
            Effect::NodeTable { op: NodeTableOp::NoteUsed { address: socket(1) } },
            Effect::ReadMessage { peer: 0 },
        ]
    );
    assert_eq!(result, Ok(()));
    assert_eq!(counts(&context), (0, 1));
}

#[test]
fn error_of_a_session_closes_the_channel() {
    let mut context = context(9, 9);
    let id = open_outbound(&mut context, 1);
    let info = context.connections().channel(id).unwrap();
    let (effects, result) = context.on_message_handled(&info, Err("bad".to_string()));
    assert_eq!(
        effects,
        vec![
            Effect::CloseSession { peer: 0 },
            Effect::ShutdownChannel { peer: 0 },
            failure(1),
        ]
    );
    assert_eq!(result, Err("bad".to_string()));
    assert_eq!(counts(&context), (0, 0));
}

#[test]
fn errors_of_reading_close_the_channel() {
    for network in [false, true] {
        let mut context = context(9, 9);
        let id = open_inbound(&mut context, 1);
        let info = context.connections().channel(id).unwrap();
        let (incoming, error) = if network {
            (
                Incoming::NetworkError { error: 7 },
                ReadError::Network { error: 7 },
            )
        } else {
            (
                Incoming::ProtocolError { error: "bad".to_string() },
                ReadError::Protocol { error: "bad".to_string() },
            )
        };
        let effects = vec![
            Effect::CloseSession { peer: 0 },
            Effect::ShutdownChannel { peer: 0 },
            failure(1),
        ];
        assert_eq!(context.on_message(&info, incoming), Received::Fail { effects, error });
        assert_eq!(counts(&context), (0, 0));
    }
}

#[test]
fn error_on_a_closed_channel_asks_for_nothing() {
    let mut context = context(9, 9);
    let id = open_inbound(&mut context, 1);
    let info = context.connections().channel(id).unwrap();
    context.close_channel(id);
    let incoming: Incoming<String, u8> = Incoming::NetworkError { error: 1 };
    assert_eq!(
        context.on_message(&info, incoming),
        Received::Fail { effects: vec![], error: ReadError::Network { error: 1 } }
    );
    assert_eq!(counts(&context), (0, 0));
}

#[test]
fn messages_are_sent_to_open_channels_only() {
    let mut context = context(9, 9);
    let id = open_outbound(&mut context, 1);
    let info = context.connections().channel(id).unwrap();
    assert_eq!(
        context.send_to_peer(id, 3),
        Some(Envelope {
            channel: info,
            magic: 0xd9b4_bef9,
            version: 70_014,
            serialization_flags: 3,
        })
    );
    assert_eq!(
        Context::send_serialized(&info, Command::new("getaddr"), vec![1, 2, 3]),
        (
            Effect::ReportSend { peer: id, command: Command::new("getaddr"), bytes: 3 },
            Outgoing { peer: id, message: vec![1, 2, 3] },
        )
    );
    assert_eq!(
        context.send_message_to_peer(id, "raw"),
        Some(Outgoing { peer: id, message: "raw" })
    );
    assert_eq!(Context::send(&info, 17), Outgoing { peer: id, message: 17 });
    context.close_channel(id);
    assert_eq!(context.send_to_peer(id, 3), None);
    assert_eq!(context.send_message_to_peer(id, "raw"), None);
}

#[test]
fn failure_to_write_is_reported() {
    assert_eq!(Context::sent::<u8, String>(Ok(4)), Ok(()));
    assert_eq!(Context::sent::<u8, String>(Err("gone".to_string())), Err("gone".to_string()));
}

#[test]
fn node_table_is_asked_and_changed() {
    let context = context(1, 1);
    assert_eq!(context.nodes(), NodeQuery::All);
    assert_eq!(
        context.recently_active_query(),
        NodeQuery::RecentlyActive { protocol: InternetProtocol::IpV4 }
    );
    assert_eq!(context.penalize_node(&socket(4)), failure(4));
    assert_eq!(
        context.add_node(socket(4)),
        Effect::NodeTable { op: NodeTableOp::Add { address: socket(4), services: services(5) } }
    );
    assert_eq!(
        context.remove_node(socket(4)),
        Effect::NodeTable { op: NodeTableOp::Remove { address: socket(4) } }
    );
    let entry = AddressEntry {
        timestamp: 5,
        address: NetAddress { services: services(2), address: socket(4).ip(), port: 8333 },
    };
    assert_eq!(
        context.update_node_table(vec![entry]),
        Effect::NodeTable { op: NodeTableOp::InsertMany { nodes: vec![entry] } }
    );
}

#[test]
fn node_table_entries_are_limited() {
    let context = context(1, 1);
    let node = |time: u32| Node { address: socket(1), services: services(0), time };
    let few: Vec<Node> = (0..1000).map(node).collect();
    assert_eq!(context.node_table_entries(few.clone()), few);
    let many: Vec<Node> = (0..1001).map(node).collect();
    assert_eq!(context.node_table_entries(many), few);
    assert_eq!(context.node_table_entries(vec![]), vec![]);
}

#[test]
fn shutdown_takes_out_all_channels() {
    let mut context = context(9, 9);
    open_outbound(&mut context, 1);
    open_inbound(&mut context, 2);
    assert_eq!(
        context.shutdown(),
        vec![Effect::ShutdownChannel { peer: 0 }, Effect::ShutdownChannel { peer: 1 }]
    );
    assert!(context.connections().channels().is_empty());
    assert_eq!(context.shutdown(), vec![]);
}

#[test]
fn sync_sessions_are_numbered_from_one() {
    let mut context = context(1, 1);
    let first = context.create_sync_session(100, services(3), "first");
    assert_eq!(first.registration.peer_index, 1);
    assert_eq!(first.registration.services, services(3));
    assert_eq!(first.registration.outbound_connection, "first");
    assert_eq!(first.inbound.peer_index, 1);
    let second = context.create_sync_session(100, services(3), "second");
    assert_eq!(second.registration.peer_index, 2);
    assert_eq!(second.inbound.peer_index, 2);
    assert_eq!(context.local_sync_node().peers_created(), 2);
}

#[test]
fn counted_connections_are_open_or_pending() {
    let mut context = context(6, 6);
    let net = context.config().connection;
    let mut seed: u32 = 17;
    for _ in 0..2000 {
        seed = seed.wrapping_mul(1_664_525).wrapping_add(1_013_904_223);
        let last = (seed >> 8) as u8;
        let handshake = match (seed >> 16) % 4 {
            0 | 1 => completed(last),
            2 => Handshake::Rejected,
            _ => Handshake::NetworkFailure,
        };
        match (seed >> 24) % 5 {
            0 => {
                context.connect_normal(socket(last));
            }
            1 => {
                context.listen(socket(last), net);
            }
            2 => {
                if context.pending(Direction::Outbound) > 0 {
                    context.connect_future(SessionKind::Normal, socket(last), handshake);
                }
            }
            3 => {
                if context.pending(Direction::Inbound) > 0 {
                    context.accept_connection_future(socket(last), handshake);
                }
            }
            _ => {
                let next = context.connections().next_id();
                let id = if next == 0 { 0 } else { (seed as usize >> 4) % next };
                let open = context.connections().channel(id).is_some();
                let effects = context.close_channel(id);
                assert_eq!(effects.len(), if open { 2 } else { 0 });
            }
        }
        let (inbound, outbound) = counts(&context);
        let connections = context.connections();
        assert_eq!(
            inbound,
            connections.count(Direction::Inbound) + context.pending(Direction::Inbound)
        );
        assert_eq!(
            outbound,
            connections.count(Direction::Outbound) + context.pending(Direction::Outbound)
        );
        assert!(inbound <= 6);
        let ids: Vec<usize> = connections.channels().iter().map(|channel| channel.id).collect();
        assert!(ids.windows(2).all(|pair| pair[0] < pair[1]));
    }
}

#[test]
fn reading_ends_with_the_first_failure() {
    let mut context = context(9, 9);
    let id = open_inbound(&mut context, 1);
    let info = context.connections().channel(id).unwrap();
    let mut effects = Vec::new();
    let mut given = Vec::new();
    let outcomes =
        [("a", Ok(())), ("b", Ok(())), ("c", Err("bad".to_string())), ("d", Ok(()))];
    for (text, outcome) in outcomes {
        let incoming: Incoming<String, String> =
            Incoming::Message { command: Command::new("inv"), payload: Bytes::from(text) };
        match context.on_message(&info, incoming) {
            Received::Handle { payload, .. } => given.push(payload),
            other => panic!("message was not handled: {:?}", other),
        }
        let (done, _) = context.on_message_handled(&info, outcome);
        let goes_on = done.contains(&Effect::ReadMessage { peer: id });
        effects.extend(done);
        if !goes_on {
            break;
        }
    }
    assert_eq!(given, vec![Bytes::from("a"), Bytes::from("b"), Bytes::from("c")]);
    let used = || Effect::NodeTable { op: NodeTableOp::NoteUsed { address: socket(1) } };
    assert_eq!(
        effects,
        vec![
            used(),
            Effect::ReadMessage { peer: id },
            used(),
            Effect::ReadMessage { peer: id },
            Effect::CloseSession { peer: id },
            Effect::ShutdownChannel { peer: id },
            failure(1),
        ]
    );
}

#[test]
fn every_channel_is_shut_down_once() {
    let mut context = context(9, 9);
    let mut effects = Vec::new();
    for last in 0..4 {
        open_outbound(&mut context, last);
    }
    effects.extend(context.close_channel(2));
    effects.extend(context.close_channel_with_error(0));
    effects.extend(context.close_channel(2));
    effects.extend(context.shutdown());
    for id in 0..4 {
        let shut = effects.iter().filter(|e| **e == Effect::ShutdownChannel { peer: id }).count();
        assert_eq!(shut, 1);
    }
}
