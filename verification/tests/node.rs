use abstract_ns::{Address, AddressBuilder};
use p2p::client::{run, ClientCommand, Logging, Startup, PROTOCOL_MINIMUM, PROTOCOL_VERSION};
use p2p::client::{LOG_INFO, REGTEST_USER_AGENT, USER_AGENT};
use p2p::config::{Config, InternetProtocol, NetConfig};
use p2p::connection_counter::{ConnectionCounter, Direction};
use p2p::effect::{Effect, SessionKind};
use p2p::inbound_connection_factory::{InboundConnection, InboundConnectionFactory};
use p2p::message::{Services, SocketAddr};
use p2p::network_state::Handshake;
use p2p::p2p::{SeednodeStep, P2P};
use p2p::seednode::SeednodeAnswer;

fn socket(last: u8) -> SocketAddr {
    SocketAddr::V4 { ip: [192, 168, 0, last], port: 8333 }
}

fn net() -> NetConfig {
    NetConfig { local_address: socket(250), services: Services { bits: 1 } }
}

fn config() -> Config {
    Config {
        threads: 1,
        inbound_connections: 10,
        outbound_connections: 10,
        connection: net(),
        peers: vec![socket(1), socket(2)],
        seeds: vec!["seed.one:8333".to_string(), "seed.two:8333".to_string()],
        node_table_path: "nodes".to_string(),
        preferable_services: Services::default(),
        internet_protocol: InternetProtocol::Any,
    }
}

fn node() -> P2P {
    P2P::new::<String>(config(), InboundConnectionFactory::new().boxed(), Ok(())).unwrap()
}

fn dial(session: SessionKind, last: u8) -> Effect {
    Effect::Dial { session, socket: socket(last), config: net() }
}

fn single(weight: u64, text: &str) -> Address {
    let mut builder = AddressBuilder::new();
    builder.add_addresses(&[(weight, text.parse().unwrap())]);
    builder.into_address()
}

fn dial_picked(text: &str) -> Effect {
    Effect::DialPicked {
        session: SessionKind::Seednode,
        address: single(0, text),
        config: net(),
    }
}

#[test]
fn new_node_fails_with_the_error_of_the_node_table() {
    let factory = InboundConnectionFactory::new().boxed();
    assert_eq!(P2P::new(config(), factory, Err(13)).unwrap_err(), 13);
}

#[test]
fn run_connects_to_the_peers_of_the_settings() {
    let mut node = node();
    assert_eq!(
        node.run(),
        vec![
            dial(SessionKind::Normal, 1),
            dial(SessionKind::Normal, 2),
            Effect::StartResolver,
        ]
    );
    assert_eq!(node.context().connection_counter().outbound_connections(), (2, 10));
    assert_eq!(node.context().pending(Direction::Outbound), 2);
}

#[test]
fn run_goes_on_with_the_resolver() {
    let node = node();
    assert_eq!(
        node.run_with_resolver::<String>(Ok(())),
        Ok(vec![
            Effect::ResolveSeednode { name: "seed.one:8333".to_string() },
            Effect::ResolveSeednode { name: "seed.two:8333".to_string() },
            Effect::StartAutoconnect { interval: 10 },
            Effect::Listen { config: net() },
        ])
    );
    assert_eq!(node.run_with_resolver(Err("no resolver")), Err("no resolver"));
}

#[test]
fn connect_dials() {
    let mut node = node();
    assert_eq!(node.connect(SessionKind::Normal, socket(5)), dial(SessionKind::Normal, 5));
    assert_eq!(node.context().connection_counter().outbound_connections(), (1, 10));
}

#[test]
fn resolved_seednode_is_connected_to() {
    let mut node = node();
    assert_eq!(
        node.connect_to_seednode(&"seed".to_string()),
        Effect::ResolveSeednode { name: "seed".to_string() }
    );
    assert_eq!(
        node.on_seednode_answer(SeednodeAnswer::Picked { address: single(0, "10.0.0.1:8333") }),
        Some(dial_picked("10.0.0.1:8333"))
    );
    assert_eq!(node.context().connection_counter().outbound_connections(), (1, 10));
    assert_eq!(node.on_seednode_answer(SeednodeAnswer::NoAddress), None);
    assert_eq!(node.on_seednode_answer(SeednodeAnswer::Failed), None);
    assert_eq!(node.context().connection_counter().outbound_connections(), (1, 10));
}

#[test]
fn seednode_with_evenly_weighted_addresses_is_connected_to() {
    let mut node = node();
    for weight in [0, 1] {
        let found: Result<Address, String> = Ok(single(weight, "10.0.0.7:8333"));
        assert_eq!(
            node.on_seednode_resolved(&found),
            SeednodeStep::Done { effect: Some(dial_picked("10.0.0.7:8333")) }
        );
    }
    assert_eq!(node.context().connection_counter().outbound_connections(), (2, 10));
    let uneven: Result<Address, String> = Ok(single(2, "10.0.0.7:8333"));
    assert_eq!(node.on_seednode_resolved(&uneven), SeednodeStep::Uneven);
    let empty: Result<Address, String> = Ok(AddressBuilder::new().into_address());
    assert_eq!(node.on_seednode_resolved(&empty), SeednodeStep::Done { effect: None });
    let failed: Result<Address, String> = Err("no such name".to_string());
    assert_eq!(node.on_seednode_resolved(&failed), SeednodeStep::Done { effect: None });
    assert_eq!(node.context().connection_counter().outbound_connections(), (2, 10));
}

#[test]
fn context_can_be_changed_through_the_node() {
    let mut node = node();
    node.context_mut().connect_normal(socket(6));
    let effects =
        node.context_mut().connect_future(SessionKind::Normal, socket(6), Handshake::TimedOut);
    assert_eq!(effects.len(), 1);
    assert_eq!(node.context().connection_counter().outbound_connections(), (0, 10));
    assert_eq!(node.shutdown(), vec![]);
}

#[test]
fn counter_knows_what_is_missing() {
    let mut counter = ConnectionCounter::new(1, 2);
    assert_eq!(counter.inbound_connections_needed(), 1);
    assert_eq!(counter.outbound_connections_needed(), 2);
    counter.note_new_inbound_connection();
    counter.note_new_inbound_connection();
    counter.note_new_outbound_connection();
    assert_eq!(counter.inbound_connections(), (2, 1));
    assert_eq!(counter.inbound_connections_needed(), 0);
    assert_eq!(counter.outbound_connections_needed(), 1);
    counter.note_close_inbound_connection();
    counter.note_close_inbound_connection();
    counter.note_close_outbound_connection();
    assert_eq!(counter.inbound_connections(), (0, 1));
    assert_eq!(counter.outbound_connections(), (0, 2));
}

#[test]
fn factory_numbers_peers_apart() {
    let mut factory = InboundConnectionFactory::new();
    for index in 1..4 {
        let session = factory.create_sync_session(-1, Services { bits: 2 }, index);
        assert_eq!(session.inbound, InboundConnection { peer_index: index });
        assert_eq!(session.registration.peer_index, index);
    }
    assert_eq!(factory.peers_created(), 3);
}

#[test]
fn client_starts_as_it_is_told() {
    let start = |quiet: bool, windows: bool, name: &str, arguments: bool| {
        run(Ok(quiet), windows, &name.to_string(), arguments).unwrap()
    };
    assert_eq!(
        start(false, false, "", false),
        Startup { logging: Logging::File, command: ClientCommand::Start }
    );
    assert_eq!(
        start(false, true, "import", true),
        Startup { logging: Logging::Console, command: ClientCommand::Import }
    );
    assert_eq!(
        start(true, true, "rollback", true),
        Startup { logging: Logging::Environment, command: ClientCommand::Rollback }
    );
    assert_eq!(start(true, false, "import", false).command, ClientCommand::Start);
    assert_eq!(start(true, false, "rollback", false).command, ClientCommand::Start);
    assert_eq!(start(true, false, "imports", true).command, ClientCommand::Start);
}

#[test]
fn client_does_not_start_with_invalid_settings() {
    assert_eq!(
        run(Err("bad port".to_string()), false, &"import".to_string(), true),
        Err("bad port".to_string())
    );
}

#[test]
fn client_has_its_names_and_versions() {
    assert_eq!(PROTOCOL_VERSION, 70_014);
    assert_eq!(PROTOCOL_MINIMUM, 70_001);
    assert_eq!(USER_AGENT, "pbtc");
    assert_eq!(REGTEST_USER_AGENT, "/Satoshi:0.12.1/");
    assert_eq!(LOG_INFO, "sync=trace");
}
