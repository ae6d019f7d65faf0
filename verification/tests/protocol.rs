use bytes::Bytes;
use p2p::connection_counter::Direction;
use p2p::connections::PeerInfo;
use p2p::message::{
    Addr, AddrV31402, AddressEntry, Command, GetAddr, IpAddress, NetAddress, Services, SocketAddr,
};
use p2p::node_table::Node;
use p2p::protocol::{AddrProtocol, AddrStep, ProtocolEffect, SeednodeProtocol};

fn info(direction: Direction) -> PeerInfo {
    PeerInfo {
        id: 8,
        address: SocketAddr::V4 { ip: [1, 2, 3, 4], port: 8333 },
        direction,
        version: 70_001,
        magic: 1,
    }
}

fn entry(timestamp: u32) -> AddressEntry {
    AddressEntry {
        timestamp,
        address: NetAddress {
            services: Services { bits: 1 },
            address: IpAddress::V4([9, 9, 9, 9]),
            port: 18333,
        },
    }
}

fn addr(many: u32) -> Addr {
    Addr::new((0..many).map(entry).collect())
}

#[test]
fn commands_have_their_names() {
    assert_eq!(GetAddr::command().name(), "getaddr");
    assert_eq!(Addr::command().name(), "addr");
    assert_eq!(Addr::command(), Command::new("addr"));
    assert_ne!(Addr::command(), GetAddr::command());
}

#[test]
fn outbound_connections_ask_for_addresses() {
    let mut outbound = AddrProtocol::new(info(Direction::Outbound), false);
    assert_eq!(
        outbound.initialize(),
        Some(ProtocolEffect::RequestAddresses { request: GetAddr })
    );
    let mut inbound = AddrProtocol::new(info(Direction::Inbound), true);
    assert_eq!(inbound.initialize(), None);
}

#[test]
fn messages_are_read_by_their_command() {
    let mut protocol = AddrProtocol::new(info(Direction::Inbound), false);
    let payload = Bytes::from("xyz");
    assert_eq!(
        protocol.on_message(&Command::new("getaddr"), &payload),
        AddrStep::ReadGetAddr { payload: &payload, version: 70_001 }
    );
    assert_eq!(
        protocol.on_message(&Command::new("addr"), &payload),
        AddrStep::ReadAddr { payload: &payload, version: 70_001 }
    );
    assert_eq!(protocol.on_message(&Command::new("ping"), &payload), AddrStep::Ignore);
    assert_eq!(protocol.on_message(&Command::new("addr2"), &payload), AddrStep::Ignore);
    assert_eq!(protocol.on_message(&Command::new(""), &payload), AddrStep::Ignore);
}

#[test]
fn getaddr_is_answered_with_active_nodes() {
    let mut protocol = AddrProtocol::new(info(Direction::Inbound), false);
    assert_eq!(
        protocol.on_getaddr::<String>(Ok(GetAddr)),
        Ok(ProtocolEffect::FindActiveNodes)
    );
    let nodes = vec![
        Node {
            address: SocketAddr::V4 { ip: [9, 9, 9, 9], port: 18333 },
            services: Services { bits: 1 },
            time: 0,
        },
        Node {
            address: SocketAddr::V6 { ip: [7; 16], port: 1, flow_info: 2, scope_id: 3 },
            services: Services { bits: 4 },
            time: 99,
        },
    ];
    let second = AddressEntry {
        timestamp: 99,
        address: NetAddress {
            services: Services { bits: 4 },
            address: IpAddress::V6([7; 16]),
            port: 1,
        },
    };
    assert_eq!(
        protocol.on_active_nodes(&nodes),
        ProtocolEffect::Respond {
            response: Addr::V31402(AddrV31402 { addresses: vec![entry(0), second] }),
        }
    );
    assert_eq!(
        protocol.on_active_nodes(&vec![]),
        ProtocolEffect::Respond { response: addr(0) }
    );
}

#[test]
fn unreadable_messages_are_errors() {
    let mut protocol = AddrProtocol::new(info(Direction::Inbound), true);
    assert_eq!(protocol.on_getaddr(Err("short")), Err("short"));
    assert_eq!(protocol.on_addr(Err("long")), Err("long"));
}

#[test]
fn addresses_go_to_the_node_table() {
    for many in 0..3 {
        let mut protocol = AddrProtocol::new(info(Direction::Outbound), false);
        assert_eq!(
            protocol.on_addr::<String>(Ok(addr(many))),
            Ok(vec![ProtocolEffect::UpdateNodeTable { nodes: (0..many).map(entry).collect() }])
        );
    }
}

#[test]
fn seednode_is_left_after_several_addresses() {
    for many in 0..4 {
        let mut protocol = AddrProtocol::new(info(Direction::Outbound), true);
        let mut expected =
            vec![ProtocolEffect::UpdateNodeTable { nodes: (0..many).map(entry).collect() }];
        if many > 1 {
            expected.push(ProtocolEffect::CloseChannel { peer: 8 });
        }
        assert_eq!(protocol.on_addr::<String>(Ok(addr(many))), Ok(expected));
    }
}

#[test]
fn seednode_is_disconnected_once() {
    let mut protocol = SeednodeProtocol::new(info(Direction::Outbound));
    let payload = Bytes::from("");
    assert_eq!(protocol.on_message(&Command::new("ping"), &payload), None);
    assert!(!protocol.disconnecting);
    assert_eq!(
        protocol.on_message(&Command::new("addr"), &payload),
        Some(ProtocolEffect::CloseChannelAfter { peer: 8, seconds: 60 })
    );
    assert!(protocol.disconnecting);
    assert_eq!(protocol.on_message(&Command::new("addr"), &payload), None);
    assert_eq!(protocol.on_message(&Command::new("getaddr"), &payload), None);
    assert!(protocol.disconnecting);
}
