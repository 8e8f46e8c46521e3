//! What a WireGuard tunnel needs of the routing table, and how the wait for
//! its end turns out.

use crate::describe::{signed_decimal, signed_decimal_string, Describe};
use crate::net::{IpAddress, IpNetwork, Ipv4Address, Ipv6Address, PeerConfig};
use vstd::prelude::*;
use vstd::string::StringExecFns;

verus! {

/// The tunnel's own side of a configuration.
#[derive(Debug, PartialEq, Eq)]
pub struct TunnelConfig {
    /// The addresses of the tunnel interface.
    pub addresses: Vec<IpAddress>,
}

/// The configuration of a WireGuard tunnel.
#[derive(Debug, PartialEq, Eq)]
pub struct Config {
    pub tunnel: TunnelConfig,
    pub peers: Vec<PeerConfig>,
    pub ipv4_gateway: Ipv4Address,
    pub ipv6_gateway: Option<Ipv6Address>,
}

/// What is known of a tunnel that is up.
#[derive(Debug, PartialEq, Eq)]
pub struct TunnelMetadata {
    /// The name of the tunnel interface.
    pub interface: String,
    /// The addresses of the tunnel interface.
    pub ips: Vec<IpAddress>,
    pub ipv4_gateway: Ipv4Address,
    pub ipv6_gateway: Option<Ipv6Address>,
}

/// Where the traffic for a network is sent.
#[derive(Debug, PartialEq, Eq)]
pub enum NetNode {
    /// To the device of the given name.
    RealNode(String),
    /// To wherever the default route led before the tunnel came up.
    DefaultNode,
}

/// What a [`NetNode`] holds.
pub enum NetNodeView {
    RealNode(Seq<char>),
    DefaultNode,
}

impl View for NetNode {
    type V = NetNodeView;

    open spec fn view(&self) -> NetNodeView {
        match self {
            NetNode::RealNode(device) => NetNodeView::RealNode(device@),
            NetNode::DefaultNode => NetNodeView::DefaultNode,
        }
    }
}

impl Clone for NetNode {
    fn clone(&self) -> (copy: Self)
        ensures
            copy == *self,
    {
        match self {
            NetNode::RealNode(device) => NetNode::RealNode(device.clone()),
            NetNode::DefaultNode => NetNode::DefaultNode,
        }
    }
}

/// One route: a network and where its traffic is sent.
#[derive(Debug, PartialEq, Eq)]
pub struct Route {
    pub network: IpNetwork,
    pub node: NetNode,
}

/// The table that a list of routes stands for. Where a network occurs more
/// than once in the list, its last route holds.
pub open spec fn table_of(routes: Seq<Route>) -> Map<IpNetwork, NetNodeView>
    decreases routes.len(),
{
    if routes.len() == 0 {
        Map::empty()
    } else {
        table_of(routes.drop_last()).insert(routes.last().network, routes.last().node@)
    }
}

/// The first half of all IPv4 addresses.
pub open spec fn lower_half_v4() -> IpNetwork {
    IpNetwork::V4 { address: Ipv4Address { bits: 0 }, prefix: 1 }
}

/// The second half of all IPv4 addresses.
pub open spec fn upper_half_v4() -> IpNetwork {
    IpNetwork::V4 { address: Ipv4Address { bits: 0x8000_0000 }, prefix: 1 }
}

/// The first half of all IPv6 addresses.
pub open spec fn lower_half_v6() -> IpNetwork {
    IpNetwork::V6 { address: Ipv6Address { bits: 0 }, prefix: 1 }
}

/// The second half of all IPv6 addresses.
pub open spec fn upper_half_v6() -> IpNetwork {
    IpNetwork::V6 {
        address: Ipv6Address { bits: 0x8000_0000_0000_0000_0000_0000_0000_0000 },
        prefix: 1,
    }
}

/// The networks that are routed for an allowed network: the network itself,
/// or its two halves where it holds every address. A route for every address
/// would take the place of the default route; two routes for the halves take
/// precedence over it and leave it in place.
pub open spec fn routed_for(network: IpNetwork) -> Seq<IpNetwork> {
    match network {
        IpNetwork::V4 { address, prefix } => if prefix == 0 {
            seq![lower_half_v4(), upper_half_v4()]
        } else {
            seq![network]
        },
        IpNetwork::V6 { address, prefix } => if prefix == 0 {
            seq![upper_half_v6(), lower_half_v6()]
        } else {
            seq![network]
        },
    }
}

/// The networks that are routed for a list of allowed networks, in the
/// order of the list.
pub open spec fn routed_for_all(networks: Seq<IpNetwork>) -> Seq<IpNetwork>
    decreases networks.len(),
{
    if networks.len() == 0 {
        Seq::empty()
    } else {
        routed_for_all(networks.drop_last()) + routed_for(networks.last())
    }
}

/// The allowed networks of all peers, in the order of the peers.
pub open spec fn allowed_ips(peers: Seq<PeerConfig>) -> Seq<IpNetwork>
    decreases peers.len(),
{
    if peers.len() == 0 {
        Seq::empty()
    } else {
        allowed_ips(peers.drop_last()) + peers.last().allowed_ips@
    }
}

/// The networks whose traffic goes through the tunnel.
pub open spec fn tunnel_routes(config: &Config) -> Seq<IpNetwork> {
    routed_for_all(allowed_ips(config.peers@))
}

/// A table with a route to a device added for each of the networks.
pub open spec fn with_device_routes(
    table: Map<IpNetwork, NetNodeView>,
    networks: Seq<IpNetwork>,
    device: Seq<char>,
) -> Map<IpNetwork, NetNodeView>
    decreases networks.len(),
{
    if networks.len() == 0 {
        table
    } else {
        with_device_routes(table, networks.drop_last(), device).insert(
            networks.last(),
            NetNodeView::RealNode(device),
        )
    }
}

/// A table with a route that keeps the endpoint of each peer out of the
/// tunnel.
pub open spec fn with_endpoint_routes(
    table: Map<IpNetwork, NetNodeView>,
    peers: Seq<PeerConfig>,
) -> Map<IpNetwork, NetNodeView>
    decreases peers.len(),
{
    if peers.len() == 0 {
        table
    } else {
        with_endpoint_routes(table, peers.drop_last()).insert(
            IpNetwork::host_network(peers.last().endpoint.ip),
            NetNodeView::DefaultNode,
        )
    }
}

/// The routes of a tunnel: the tunnel routes lead to the tunnel interface,
/// but the endpoints of the peers are reached outside the tunnel.
pub open spec fn route_table(interface: Seq<char>, config: &Config) -> Map<
    IpNetwork,
    NetNodeView,
> {
    with_endpoint_routes(
        with_device_routes(Map::empty(), tunnel_routes(config), interface),
        config.peers@,
    )
}

/// The networks that are routed for a list with one more network are those
/// for the list and then those for the network.
proof fn lemma_routed_for_all_push(networks: Seq<IpNetwork>, network: IpNetwork)
    ensures
        routed_for_all(networks.push(network)) == routed_for_all(networks) + routed_for(network),
{
    assert(networks.push(network).drop_last() =~= networks);
}

/// The networks whose traffic goes through the tunnel: the allowed networks
/// of the peers, with the two halves in place of a network that holds every
/// address.
pub fn get_tunnel_routes(config: &Config) -> (routes: Vec<IpNetwork>)
    ensures
        routes@ == tunnel_routes(config),
{
    let mut routes: Vec<IpNetwork> = Vec::new();
    let mut peer_index: usize = 0;
    assert(config.peers@.take(0) =~= Seq::<PeerConfig>::empty());
    while peer_index < config.peers.len()
        invariant
            peer_index <= config.peers@.len(),
            routes@ == routed_for_all(allowed_ips(config.peers@.take(peer_index as int))),
        decreases config.peers@.len() - peer_index,
    {
        let peer = &config.peers[peer_index];
        let ghost before = allowed_ips(config.peers@.take(peer_index as int));
        let mut index: usize = 0;
        assert(before + peer.allowed_ips@.take(0) =~= before);
        while index < peer.allowed_ips.len()
            invariant
                index <= peer.allowed_ips@.len(),
                routes@ == routed_for_all(before + peer.allowed_ips@.take(index as int)),
            decreases peer.allowed_ips@.len() - index,
        {
            let allowed_ip = peer.allowed_ips[index];
            proof {
                let so_far = before + peer.allowed_ips@.take(index as int);
                assert(before + peer.allowed_ips@.take(index + 1) =~= so_far.push(allowed_ip));
                lemma_routed_for_all_push(so_far, allowed_ip);
            }
            if allowed_ip.prefix() == 0 {
                if allowed_ip.is_ipv4() {
                    routes.push(IpNetwork::V4 { address: Ipv4Address { bits: 0 }, prefix: 1 });
                    routes.push(
                        IpNetwork::V4 { address: Ipv4Address { bits: 0x8000_0000 }, prefix: 1 },
                    );
                } else {
                    routes.push(
                        IpNetwork::V6 {
                            address: Ipv6Address {
                                bits: 0x8000_0000_0000_0000_0000_0000_0000_0000,
                            },
                            prefix: 1,
                        },
                    );
                    routes.push(IpNetwork::V6 { address: Ipv6Address { bits: 0 }, prefix: 1 });
                }
                assert(routes@ =~= routed_for_all(before + peer.allowed_ips@.take(index as int))
                    + routed_for(allowed_ip));
            } else {
                routes.push(allowed_ip);
                assert(routes@ =~= routed_for_all(before + peer.allowed_ips@.take(index as int))
                    + routed_for(allowed_ip));
            }
            index += 1;
        }
        proof {
            assert(peer.allowed_ips@.take(index as int) =~= peer.allowed_ips@);
            assert(config.peers@.take(peer_index + 1).drop_last() =~= config.peers@.take(
                peer_index as int,
            ));
        }
        peer_index += 1;
    }
    assert(config.peers@.take(peer_index as int) =~= config.peers@);
    routes
}

/// The routes of a tunnel over the interface of the name `iface_name`, as a
/// list in which a later route for a network holds over an earlier one.
pub fn get_routes(iface_name: &str, config: &Config) -> (routes: Vec<Route>)
    ensures
        table_of(routes@) == route_table(iface_name@, config),
{
    let networks = get_tunnel_routes(config);
    let mut routes: Vec<Route> = Vec::new();
    let mut index: usize = 0;
    assert(networks@.take(0) =~= Seq::<IpNetwork>::empty());
    while index < networks.len()
        invariant
            index <= networks@.len(),
            table_of(routes@) == with_device_routes(
                Map::empty(),
                networks@.take(index as int),
                iface_name@,
            ),
        decreases networks@.len() - index,
    {
        let ghost before = routes@;
        routes.push(Route { network: networks[index], node: NetNode::RealNode(iface_name.to_owned()) });
        proof {
            assert(routes@.drop_last() =~= before);
            assert(networks@.take(index + 1).drop_last() =~= networks@.take(index as int));
        }
        index += 1;
    }
    assert(networks@.take(index as int) =~= networks@);

    // route endpoints with specific routes
    let ghost device_routes = table_of(routes@);
    let mut peer_index: usize = 0;
    assert(config.peers@.take(0) =~= Seq::<PeerConfig>::empty());
    while peer_index < config.peers.len()
        invariant
            peer_index <= config.peers@.len(),
            table_of(routes@) == with_endpoint_routes(
                device_routes,
                config.peers@.take(peer_index as int),
            ),
        decreases config.peers@.len() - peer_index,
    {
        let ghost before = routes@;
        routes.push(
            Route {
                network: IpNetwork::host(config.peers[peer_index].endpoint.ip()),
                node: NetNode::DefaultNode,
            },
        );
        proof {
            assert(routes@.drop_last() =~= before);
            assert(config.peers@.take(peer_index + 1).drop_last() =~= config.peers@.take(
                peer_index as int,
            ));
        }
        peer_index += 1;
    }
    assert(config.peers@.take(peer_index as int) =~= config.peers@);
    routes
}

/// Finds where the traffic for a network is sent by a list of routes.
pub fn find_route<'a>(routes: &'a [Route], network: IpNetwork) -> (found: Option<&'a NetNode>)
    ensures
        match found {
            Some(node) => table_of(routes@).contains_key(network) && table_of(routes@)[network]
                == node@,
            None => !table_of(routes@).contains_key(network),
        },
{
    let mut index: usize = routes.len();
    assert(routes@.take(index as int) =~= routes@);
    while index > 0
        invariant
            index <= routes@.len(),
            table_of(routes@).contains_key(network) == table_of(
                routes@.take(index as int),
            ).contains_key(network),
            table_of(routes@).contains_key(network) ==> table_of(routes@)[network] == table_of(
                routes@.take(index as int),
            )[network],
        decreases index,
    {
        index -= 1;
        assert(routes@.take(index + 1).drop_last() =~= routes@.take(index as int));
        if routes[index].network == network {
            return Some(&routes[index].node);
        }
    }
    None
}

/// What is known of the tunnel once it is up.
pub fn tunnel_metadata(interface_name: &str, config: &Config) -> (metadata: TunnelMetadata)
    ensures
        metadata.interface@ == interface_name@,
        metadata.ips@ == config.tunnel.addresses@,
        metadata.ipv4_gateway == config.ipv4_gateway,
        metadata.ipv6_gateway == config.ipv6_gateway,
{
    let ips = config.tunnel.addresses.clone();
    assert(ips@ =~= config.tunnel.addresses@);
    TunnelMetadata {
        interface: interface_name.to_owned(),
        ips,
        ipv4_gateway: config.ipv4_gateway,
        ipv6_gateway: config.ipv6_gateway,
    }
}

/// The tunnel routes never hold a network of every address: the default
/// route stays as it is.
pub proof fn lemma_no_default_route(networks: Seq<IpNetwork>, index: int)
    requires
        0 <= index < routed_for_all(networks).len(),
    ensures
        routed_for_all(networks)[index].prefix_length() != 0,
    decreases networks.len(),
{
    if networks.len() > 0 {
        let before = routed_for_all(networks.drop_last());
        if index < before.len() {
            lemma_no_default_route(networks.drop_last(), index);
        } else {
            assert(routed_for_all(networks)[index] == routed_for(networks.last())[index
                - before.len()]);
        }
    }
}

/// The route to the endpoint of a peer leads outside the tunnel, whatever
/// the allowed networks are.
pub proof fn lemma_endpoints_bypass_tunnel(
    table: Map<IpNetwork, NetNodeView>,
    peers: Seq<PeerConfig>,
    index: int,
)
    requires
        0 <= index < peers.len(),
    ensures
        with_endpoint_routes(table, peers).contains_key(IpNetwork::host_network(peers[index].endpoint.ip)),
        with_endpoint_routes(table, peers)[IpNetwork::host_network(peers[index].endpoint.ip)]
            == NetNodeView::DefaultNode,
    decreases peers.len(),
{
    if index < peers.len() - 1 {
        lemma_endpoints_bypass_tunnel(table, peers.drop_last(), index);
    }
}

/// A tunnel route leads to the tunnel interface, unless it is the route to
/// the endpoint of a peer.
pub proof fn lemma_tunnel_routes_lead_to_device(
    interface: Seq<char>,
    config: &Config,
    network: IpNetwork,
)
    requires
        tunnel_routes(config).contains(network),
        forall|index: int|
            0 <= index < config.peers@.len() ==> IpNetwork::host_network(
                (#[trigger] config.peers@[index]).endpoint.ip,
            ) != network,
    ensures
        route_table(interface, config).contains_key(network),
        route_table(interface, config)[network] == NetNodeView::RealNode(interface),
{
    let device_routes = with_device_routes(Map::empty(), tunnel_routes(config), interface);
    lemma_device_routes(Map::empty(), tunnel_routes(config), interface, network);
    lemma_endpoint_routes_keep_others(device_routes, config.peers@, network);
}

/// The table of a tunnel holds a route for nothing but the tunnel routes and
/// the endpoints of the peers.
pub proof fn lemma_route_table_holds_nothing_else(
    interface: Seq<char>,
    config: &Config,
    network: IpNetwork,
)
    requires
        route_table(interface, config).contains_key(network),
    ensures
        tunnel_routes(config).contains(network) || exists|index: int|
            0 <= index < config.peers@.len() && IpNetwork::host_network(
                (#[trigger] config.peers@[index]).endpoint.ip,
            ) == network,
{
    let device_routes = with_device_routes(Map::empty(), tunnel_routes(config), interface);
    if forall|index: int|
        0 <= index < config.peers@.len() ==> IpNetwork::host_network(
            (#[trigger] config.peers@[index]).endpoint.ip,
        ) != network {
        lemma_endpoint_routes_keep_others(device_routes, config.peers@, network);
        lemma_device_routes_hold_nothing_else(
            Map::empty(),
            tunnel_routes(config),
            interface,
            network,
        );
    }
}

/// Routes to a device are added for the given networks only.
proof fn lemma_device_routes_hold_nothing_else(
    table: Map<IpNetwork, NetNodeView>,
    networks: Seq<IpNetwork>,
    device: Seq<char>,
    network: IpNetwork,
)
    requires
        with_device_routes(table, networks, device).contains_key(network),
    ensures
        table.contains_key(network) || networks.contains(network),
    decreases networks.len(),
{
    if networks.len() > 0 {
        if networks.last() == network {
            assert(networks[networks.len() - 1] == network);
        } else {
            lemma_device_routes_hold_nothing_else(table, networks.drop_last(), device, network);
            if networks.drop_last().contains(network) {
                let index = choose|index: int|
                    0 <= index < networks.drop_last().len() && networks.drop_last()[index]
                        == network;
                assert(networks[index] == network);
            }
        }
    }
}

/// Routes to a device hold for the networks they are added for.
proof fn lemma_device_routes(
    table: Map<IpNetwork, NetNodeView>,
    networks: Seq<IpNetwork>,
    device: Seq<char>,
    network: IpNetwork,
)
    requires
        networks.contains(network),
    ensures
        with_device_routes(table, networks, device).contains_key(network),
        with_device_routes(table, networks, device)[network] == NetNodeView::RealNode(device),
    decreases networks.len(),
{
    if networks.last() != network {
        let index = choose|index: int| 0 <= index < networks.len() && networks[index] == network;
        assert(networks.drop_last()[index] == network);
        lemma_device_routes(table, networks.drop_last(), device, network);
    }
}

/// Routes to endpoints leave the routes of other networks as they are.
proof fn lemma_endpoint_routes_keep_others(
    table: Map<IpNetwork, NetNodeView>,
    peers: Seq<PeerConfig>,
    network: IpNetwork,
)
    requires
        forall|index: int|
            0 <= index < peers.len() ==> IpNetwork::host_network((#[trigger] peers[index]).endpoint.ip)
                != network,
    ensures
        with_endpoint_routes(table, peers).contains_key(network) == table.contains_key(network),
        table.contains_key(network) ==> with_endpoint_routes(table, peers)[network]
            == table[network],
    decreases peers.len(),
{
    if peers.len() > 0 {
        assert(peers.drop_last().len() == peers.len() - 1);
        assert forall|index: int| 0 <= index < peers.drop_last().len() implies IpNetwork::host_network(
            (#[trigger] peers.drop_last()[index]).endpoint.ip,
        ) != network by {
            assert(peers.drop_last()[index] == peers[index]);
        }
        lemma_endpoint_routes_keep_others(table, peers.drop_last(), network);
        assert(IpNetwork::host_network(peers[peers.len() - 1].endpoint.ip) != network);
    }
}

/// A request to the monitor of a tunnel to stop waiting.
#[derive(Debug, Clone, Copy, PartialEq, Eq, Structural)]
pub enum CloseMsg {
    /// The user asks for the tunnel to be closed.
    Stop,
    /// The tunnel no longer answers.
    PingErr,
}

/// What can go wrong with a tunnel.
#[derive(Debug, Clone, Copy, PartialEq, Eq, Structural)]
pub enum Error {
    /// A recoverable error occurred while starting the wireguard tunnel
    RecoverableStartWireguardError,
    /// An unrecoverable error occurred while starting the wireguard tunnel
    FatalStartWireguardError,
    /// Failed to tear down wireguard tunnel.
    StopWireguardError { status: i32 },
    /// Failed to get tunnel config
    GetConfigError,
    /// Tunnel handle is invalid
    InvalidTunnelHandle,
    /// Tunnel timed out
    TimeoutError,
}

impl Describe for Error {
    open spec fn description(&self) -> Seq<char> {
        match self {
            Error::RecoverableStartWireguardError => "Recoverable error while starting wireguard tunnel"@,
            Error::FatalStartWireguardError => "Failed to start wireguard tunnel"@,
            Error::StopWireguardError { status } => "Failed to stop wireguard tunnel - "@
                + signed_decimal(*status as int),
            Error::GetConfigError => "Failed to obtain tunnel config"@,
            Error::InvalidTunnelHandle => "Tunnel handle is invalid"@,
            Error::TimeoutError => "Tunnel timed out"@,
        }
    }

    fn describe(&self) -> (text: String) {
        match self {
            Error::RecoverableStartWireguardError => String::from_str(
                "Recoverable error while starting wireguard tunnel",
            ),
            Error::FatalStartWireguardError => String::from_str(
                "Failed to start wireguard tunnel",
            ),
            Error::StopWireguardError { status } => {
                let mut text = String::from_str("Failed to stop wireguard tunnel - ");
                text.append(signed_decimal_string(*status as i64).as_str());
                text
            },
            Error::GetConfigError => String::from_str("Failed to obtain tunnel config"),
            Error::InvalidTunnelHandle => String::from_str("Tunnel handle is invalid"),
            Error::TimeoutError => String::from_str("Tunnel timed out"),
        }
    }
}

/// How the wait for the end of a tunnel turns out, by the request that ended
/// it: a timeout where the tunnel no longer answers, and success where the
/// user asked for the end, or where nobody is left to ask (`None`).
pub fn wait_result(received: Option<CloseMsg>) -> (result: Result<(), Error>)
    ensures
        result == match received {
            Some(CloseMsg::PingErr) => Err::<(), Error>(Error::TimeoutError),
            Some(CloseMsg::Stop) => Ok::<(), Error>(()),
            None => Ok::<(), Error>(()),
        },
{
    match received {
        Some(CloseMsg::PingErr) => Err(Error::TimeoutError),
        Some(CloseMsg::Stop) => Ok(()),
        None => Ok(()),
    }
}

} // verus!
