//! Plain network values: protocols, addresses and endpoints.

use vstd::prelude::*;

verus! {

/// The transport protocol of a connection.
#[derive(Debug, Clone, Copy, PartialEq, Eq, Structural, Hash)]
pub enum TransportProtocol {
    Udp,
    Tcp,
}

/// The version of the internet protocol.
#[derive(Debug, Clone, Copy, PartialEq, Eq, Structural, Hash)]
pub enum IpVersion {
    V4,
    V6,
}

/// The tunnel protocol of a relay.
#[derive(Debug, Clone, Copy, PartialEq, Eq, Structural, Hash)]
pub enum TunnelType {
    OpenVpn,
    Wireguard,
}

/// An IPv4 address, held as its 32 bits in network order.
#[derive(Debug, Clone, Copy, PartialEq, Eq, Structural, Hash)]
pub struct Ipv4Address {
    pub bits: u32,
}

/// An IPv6 address, held as its 128 bits in network order.
#[derive(Debug, Clone, Copy, PartialEq, Eq, Structural, Hash)]
pub struct Ipv6Address {
    pub bits: u128,
}

/// An address of either version.
#[derive(Debug, Clone, Copy, PartialEq, Eq, Structural, Hash)]
pub enum IpAddress {
    V4(Ipv4Address),
    V6(Ipv6Address),
}

/// An address and a port.
#[derive(Debug, Clone, Copy, PartialEq, Eq, Structural, Hash)]
pub struct SocketAddress {
    pub ip: IpAddress,
    pub port: u16,
}

impl SocketAddress {
    /// Pairs an address with a port.
    pub fn new(ip: IpAddress, port: u16) -> (address: SocketAddress)
        ensures
            address == (SocketAddress { ip, port }),
    {
        SocketAddress { ip, port }
    }

    /// The address without the port.
    pub fn ip(&self) -> (ip: IpAddress)
        ensures
            ip == self.ip,
    {
        self.ip
    }
}

/// Where a tunnel or proxy is reached, and over which transport.
#[derive(Debug, Clone, Copy, PartialEq, Eq, Structural, Hash)]
pub struct Endpoint {
    pub address: SocketAddress,
    pub protocol: TransportProtocol,
}

/// A proxy that the user has configured by hand, used in place of a bridge
/// relay.
#[derive(Debug, Clone, Copy, PartialEq, Eq, Structural, Hash)]
pub struct CustomProxy {
    pub endpoint: Endpoint,
}

/// A tunnel endpoint that the user has configured by hand.
#[derive(Debug, PartialEq, Eq)]
pub struct CustomTunnelEndpoint {
    pub host: String,
    pub endpoint: Endpoint,
}

impl CustomTunnelEndpoint {
    /// Where the tunnel is reached.
    pub fn endpoint(&self) -> (endpoint: Endpoint)
        ensures
            endpoint == self.endpoint,
    {
        self.endpoint
    }
}

impl Clone for CustomTunnelEndpoint {
    fn clone(&self) -> (copy: Self)
        ensures
            copy == *self,
    {
        CustomTunnelEndpoint { host: self.host.clone(), endpoint: self.endpoint }
    }
}

/// A network: an address and the number of its leading bits that all
/// addresses of the network share.
#[derive(Debug, Clone, Copy, PartialEq, Eq, Structural, Hash)]
#[allow(inconsistent_fields)]
pub enum IpNetwork {
    V4 { address: Ipv4Address, prefix: u8 },
    V6 { address: Ipv6Address, prefix: u8 },
}

impl IpNetwork {
    /// Whether the prefix is no longer than an address.
    pub open spec fn well_formed(self) -> bool {
        match self {
            IpNetwork::V4 { address, prefix } => prefix <= 32,
            IpNetwork::V6 { address, prefix } => prefix <= 128,
        }
    }

    /// The number of leading bits that all addresses of the network share.
    pub open spec fn prefix_length(self) -> u8 {
        match self {
            IpNetwork::V4 { address, prefix } => prefix,
            IpNetwork::V6 { address, prefix } => prefix,
        }
    }

    /// The network that holds the address `ip` and no other.
    pub open spec fn host_network(ip: IpAddress) -> IpNetwork {
        match ip {
            IpAddress::V4(address) => IpNetwork::V4 { address, prefix: 32 },
            IpAddress::V6(address) => IpNetwork::V6 { address, prefix: 128 },
        }
    }

    /// The length of the prefix.
    pub fn prefix(&self) -> (prefix: u8)
        ensures
            prefix == self.prefix_length(),
    {
        match self {
            IpNetwork::V4 { address: _, prefix } => *prefix,
            IpNetwork::V6 { address: _, prefix } => *prefix,
        }
    }

    /// Whether the network is one of IPv4 addresses.
    pub fn is_ipv4(&self) -> (v4: bool)
        ensures
            v4 == (self is V4),
    {
        match self {
            IpNetwork::V4 { .. } => true,
            IpNetwork::V6 { .. } => false,
        }
    }

    /// The network that holds a single address.
    pub fn host(ip: IpAddress) -> (network: IpNetwork)
        ensures
            network == Self::host_network(ip),
            network.well_formed(),
    {
        match ip {
            IpAddress::V4(address) => IpNetwork::V4 { address, prefix: 32 },
            IpAddress::V6(address) => IpNetwork::V6 { address, prefix: 128 },
        }
    }
}

/// The peer of a WireGuard tunnel.
#[derive(Debug, PartialEq, Eq)]
pub struct PeerConfig {
    /// The networks whose traffic is sent to the peer.
    pub allowed_ips: Vec<IpNetwork>,
    /// Where the peer is reached.
    pub endpoint: SocketAddress,
}

/// The WireGuard endpoint that was chosen on a relay.
#[derive(Debug, PartialEq, Eq)]
pub struct MullvadWireguardEndpoint {
    pub peer: PeerConfig,
}

/// How to reach the obfuscation service that goes with a relay.
#[derive(Debug, Clone, Copy, PartialEq, Eq, Structural, Hash)]
pub enum ObfuscatorConfig {
    Udp2Tcp { endpoint: SocketAddress },
    Shadowsocks { endpoint: SocketAddress },
}

impl ObfuscatorConfig {
    /// Where the obfuscation service is reached.
    pub open spec fn endpoint(self) -> SocketAddress {
        match self {
            ObfuscatorConfig::Udp2Tcp { endpoint } => endpoint,
            ObfuscatorConfig::Shadowsocks { endpoint } => endpoint,
        }
    }
}

} // verus!
