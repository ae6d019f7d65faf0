//! Values carried by network messages.
use vstd::prelude::*;

verus! {

/// `bytes::Bytes`, a shared buffer. Nothing is claimed of it: a value of it is handed on as it
/// came.
#[verifier::external_type_specification]
#[verifier::external_body]
pub struct ExBytes(bytes::Bytes);

/// Services that a node supports, one bit each.
#[derive(Clone, Copy, PartialEq, Eq, Debug, Structural)]
pub struct Services {
    pub bits: u64,
}

impl Default for Services {
    /// No service at all.
    fn default() -> (services: Services)
        ensures
            services.bits == 0,
    {
        Services { bits: 0 }
    }
}

/// Address of a host.
#[derive(Clone, Copy, PartialEq, Eq, Debug)]
pub enum IpAddress {
    V4([u8; 4]),
    V6([u8; 16]),
}

/// Address of a host together with a port.
#[derive(Clone, Copy, PartialEq, Eq, Debug)]
pub enum SocketAddr {
    V4 { ip: [u8; 4], port: u16 },
    V6 { ip: [u8; 16], port: u16, flow_info: u32, scope_id: u32 },
}

impl SocketAddr {
    pub open spec fn spec_ip(self) -> IpAddress {
        match self {
            SocketAddr::V4 { ip, .. } => IpAddress::V4(ip),
            SocketAddr::V6 { ip, .. } => IpAddress::V6(ip),
        }
    }

    pub open spec fn spec_port(self) -> u16 {
        match self {
            SocketAddr::V4 { port, .. } => port,
            SocketAddr::V6 { port, .. } => port,
        }
    }

    pub fn ip(&self) -> (ip: IpAddress)
        ensures
            ip == self.spec_ip(),
    {
        match *self {
            SocketAddr::V4 { ip, .. } => IpAddress::V4(ip),
            SocketAddr::V6 { ip, .. } => IpAddress::V6(ip),
        }
    }

    pub fn port(&self) -> (port: u16)
        ensures
            port == self.spec_port(),
    {
        match *self {
            SocketAddr::V4 { port, .. } => port,
            SocketAddr::V6 { port, .. } => port,
        }
    }
}

/// Address of a node as it is announced to other nodes.
#[derive(Clone, Copy, PartialEq, Eq, Debug)]
pub struct NetAddress {
    pub services: Services,
    pub address: IpAddress,
    pub port: u16,
}

/// One entry of an `addr` message.
#[derive(Clone, Copy, PartialEq, Eq, Debug)]
pub struct AddressEntry {
    pub timestamp: u32,
    pub address: NetAddress,
}

/// Name of a message.
#[derive(Clone, Debug)]
pub struct Command {
    name: String,
}

impl View for Command {
    type V = Seq<char>;

    closed spec fn view(&self) -> Seq<char> {
        self.name@
    }
}

impl Command {
    pub fn new(name: &str) -> (command: Command)
        ensures
            command@ == name@,
    {
        Command { name: name.to_owned() }
    }

    pub fn name(&self) -> (name: &str)
        ensures
            name@ == self@,
    {
        self.name.as_str()
    }
}

impl PartialEq for Command {
    fn eq(&self, other: &Command) -> (equal: bool) {
        self.name == other.name
    }
}

impl Eq for Command {

}

impl vstd::std_specs::cmp::PartialEqSpecImpl for Command {
    open spec fn obeys_eq_spec() -> bool {
        true
    }

    open spec fn eq_spec(&self, other: &Command) -> bool {
        self@ == other@
    }
}

/// Request for the addresses that a node knows.
#[derive(Clone, Copy, PartialEq, Eq, Debug)]
pub struct GetAddr;

impl GetAddr {
    pub fn command() -> (command: Command)
        ensures
            command@ == "getaddr"@,
    {
        Command::new("getaddr")
    }
}

/// Addresses in the format used since protocol version 31402.
#[derive(PartialEq, Debug)]
pub struct AddrV31402 {
    pub addresses: Vec<AddressEntry>,
}

/// Addresses in the format used before protocol version 31402.
#[derive(PartialEq, Debug)]
pub struct AddrV0 {
    pub addresses: Vec<NetAddress>,
}

/// Addresses that a node knows.
#[derive(PartialEq, Debug)]
pub enum Addr {
    V0(AddrV0),
    V31402(AddrV31402),
}

impl Addr {
    pub fn new(addresses: Vec<AddressEntry>) -> (addr: Addr)
        ensures
            addr == Addr::V31402(AddrV31402 { addresses }),
    {
        Addr::V31402(AddrV31402 { addresses })
    }

    pub fn command() -> (command: Command)
        ensures
            command@ == "addr"@,
    {
        Command::new("addr")
    }
}

} // verus!
