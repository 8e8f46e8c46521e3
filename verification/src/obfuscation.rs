//! Obfuscation settings, and the choice of the obfuscator that goes with a
//! relay.
//!
//! An obfuscator is reached at the address of the relay's WireGuard endpoint,
//! on a separate port. For udp2tcp the relay list names the ports one by
//! one; for Shadowsocks it gives ranges of ports.

use crate::constraints::Constraint;
use crate::describe::{describe_port, port_description, Describe};
use crate::net::{MullvadWireguardEndpoint, ObfuscatorConfig, SocketAddress};
use crate::ports::{all_ports, in_some_range, select_random_port};
use crate::random::choose_random;
use crate::relay_list::Relay;
use vstd::prelude::*;
use vstd::string::StringExecFns;

verus! {

/// Which obfuscation the user has selected.
#[derive(Debug, Clone, Copy, PartialEq, Eq, Structural)]
pub enum SelectedObfuscation {
    Auto,
    Off,
    Udp2Tcp,
}

impl Describe for SelectedObfuscation {
    open spec fn description(&self) -> Seq<char> {
        match self {
            SelectedObfuscation::Auto => "auto"@,
            SelectedObfuscation::Off => "off"@,
            SelectedObfuscation::Udp2Tcp => "udp2tcp"@,
        }
    }

    fn describe(&self) -> (text: String) {
        match self {
            SelectedObfuscation::Auto => String::from_str("auto"),
            SelectedObfuscation::Off => String::from_str("off"),
            SelectedObfuscation::Udp2Tcp => String::from_str("udp2tcp"),
        }
    }
}

impl Default for SelectedObfuscation {
    fn default() -> (selected: Self)
        ensures
            selected == SelectedObfuscation::Auto,
    {
        SelectedObfuscation::Auto
    }
}

/// Settings of the udp2tcp obfuscation.
#[derive(Debug, Clone, Copy, PartialEq, Eq, Structural)]
pub struct Udp2TcpObfuscationSettings {
    pub port: Constraint<u16>,
}

/// The port: `any port`, or `port` and its number.
impl Describe for Udp2TcpObfuscationSettings {
    open spec fn description(&self) -> Seq<char> {
        port_description(self.port)
    }

    fn describe(&self) -> (text: String) {
        describe_port(self.port)
    }
}

impl Default for Udp2TcpObfuscationSettings {
    fn default() -> (settings: Self)
        ensures
            settings.port is Any,
    {
        Udp2TcpObfuscationSettings { port: Constraint::Any }
    }
}

/// Settings of the Shadowsocks obfuscation.
#[derive(Debug, Clone, Copy, PartialEq, Eq, Structural)]
pub struct ShadowsocksSettings {
    pub port: Constraint<u16>,
}

impl Default for ShadowsocksSettings {
    fn default() -> (settings: Self)
        ensures
            settings.port is Any,
    {
        ShadowsocksSettings { port: Constraint::Any }
    }
}

/// Contains obfuscation settings
#[derive(Debug, Clone, Copy, PartialEq, Eq, Structural)]
pub struct ObfuscationSettings {
    pub selected_obfuscation: SelectedObfuscation,
    pub udp2tcp: Udp2TcpObfuscationSettings,
}

impl Default for ObfuscationSettings {
    fn default() -> (settings: Self)
        ensures
            settings.selected_obfuscation == SelectedObfuscation::Auto,
            settings.udp2tcp.port is Any,
    {
        ObfuscationSettings {
            selected_obfuscation: SelectedObfuscation::default(),
            udp2tcp: Udp2TcpObfuscationSettings::default(),
        }
    }
}

/// A relay together with the obfuscator to reach it through.
#[derive(Debug, PartialEq, Eq)]
pub struct SelectedObfuscator {
    pub config: ObfuscatorConfig,
    pub relay: Relay,
}

/// The udp2tcp port that the settings ask for, if they ask for one.
pub open spec fn wanted_udp2tcp_port(settings: Constraint<Udp2TcpObfuscationSettings>) -> Option<
    u16,
> {
    match settings {
        Constraint::Only(settings) => match settings.port {
            Constraint::Only(port) => Some(port),
            Constraint::Any => None,
        },
        Constraint::Any => None,
    }
}

/// Whether `outcome` is a choice of udp2tcp port that the settings and the
/// ports on offer permit.
///
/// Where the settings ask for a port, that port is chosen if it is on offer,
/// and else none is: no other port takes its place. Where they ask for none,
/// any port on offer may be chosen, and none only if none is on offer.
pub open spec fn udp2tcp_port_permitted(
    settings: Constraint<Udp2TcpObfuscationSettings>,
    ports: Seq<u16>,
    outcome: Option<u16>,
) -> bool {
    match wanted_udp2tcp_port(settings) {
        Some(wanted) => outcome == if ports.contains(wanted) {
            Some(wanted)
        } else {
            None
        },
        None => match outcome {
            Some(port) => ports.contains(port),
            None => ports.len() == 0,
        },
    }
}

/// The Shadowsocks port that the settings ask for. Settings that are left
/// open ask for none.
pub open spec fn wanted_shadowsocks_port(settings: Constraint<ShadowsocksSettings>) -> Constraint<
    u16,
> {
    match settings {
        Constraint::Only(settings) => settings.port,
        Constraint::Any => Constraint::Any,
    }
}

/// Whether `outcome` is a choice of Shadowsocks port that the settings and
/// the port ranges permit.
///
/// Where the settings ask for a port, that port is chosen if it lies in one
/// of the ranges, and else none is. Where they ask for none, any port in the
/// ranges may be chosen, and none only if the ranges hold no port.
pub open spec fn shadowsocks_port_permitted(
    settings: Constraint<ShadowsocksSettings>,
    port_ranges: Seq<(u16, u16)>,
    outcome: Option<u16>,
) -> bool {
    match wanted_shadowsocks_port(settings) {
        Constraint::Only(wanted) => outcome == if in_some_range(wanted, port_ranges) {
            Some(wanted)
        } else {
            None
        },
        Constraint::Any => match outcome {
            Some(port) => all_ports(port_ranges).contains(port),
            None => all_ports(port_ranges).len() == 0,
        },
    }
}

/// Finds `wanted` among `ports`.
pub fn find_port(ports: &[u16], wanted: u16) -> (found: Option<u16>)
    ensures
        found == if ports@.contains(wanted) {
            Some(wanted)
        } else {
            None
        },
{
    let mut index: usize = 0;
    while index < ports.len()
        invariant
            index <= ports@.len(),
            forall|earlier: int| 0 <= earlier < index ==> ports@[earlier] != wanted,
        decreases ports@.len() - index,
    {
        if ports[index] == wanted {
            return Some(wanted);
        }
        index += 1;
    }
    None
}

/// Selects the port to reach a udp2tcp obfuscator on.
pub fn get_udp2tcp_obfuscator_port(
    obfuscation_settings_constraint: &Constraint<Udp2TcpObfuscationSettings>,
    udp2tcp_ports: &[u16],
) -> (selected: Option<u16>)
    ensures
        udp2tcp_port_permitted(*obfuscation_settings_constraint, udp2tcp_ports@, selected),
{
    match obfuscation_settings_constraint {
        Constraint::Only(obfuscation_settings) => match obfuscation_settings.port {
            Constraint::Only(wanted) => find_port(udp2tcp_ports, wanted),
            Constraint::Any => choose_port(udp2tcp_ports),
        },
        // There are no specific obfuscation settings to take into consideration in this case.
        Constraint::Any => choose_port(udp2tcp_ports),
    }
}

/// Picks one of the ports at random.
fn choose_port(ports: &[u16]) -> (chosen: Option<u16>)
    ensures
        match chosen {
            Some(port) => ports@.contains(port),
            None => ports@.len() == 0,
        },
{
    match choose_random(ports) {
        Some(port) => Some(*port),
        None => None,
    }
}

/// The udp2tcp obfuscator for a relay, reached at the address of `endpoint`
/// on a port that the settings permit, or no obfuscator where no port is
/// permitted.
pub fn get_udp2tcp_obfuscator(
    obfuscation_settings_constraint: &Constraint<Udp2TcpObfuscationSettings>,
    udp2tcp_ports: &[u16],
    relay: Relay,
    endpoint: &MullvadWireguardEndpoint,
) -> (selected: Option<SelectedObfuscator>)
    ensures
        match selected {
            Some(obfuscator) => {
                &&& obfuscator.relay == relay
                &&& obfuscator.config is Udp2Tcp
                &&& obfuscator.config.endpoint().ip == endpoint.peer.endpoint.ip
                &&& udp2tcp_port_permitted(
                    *obfuscation_settings_constraint,
                    udp2tcp_ports@,
                    Some(obfuscator.config.endpoint().port),
                )
            },
            None => udp2tcp_port_permitted(
                *obfuscation_settings_constraint,
                udp2tcp_ports@,
                None,
            ),
        },
{
    let udp2tcp_endpoint_port = get_udp2tcp_obfuscator_port(
        obfuscation_settings_constraint,
        udp2tcp_ports,
    );
    match udp2tcp_endpoint_port {
        Some(port) => {
            let config = ObfuscatorConfig::Udp2Tcp {
                endpoint: SocketAddress::new(endpoint.peer.endpoint.ip(), port),
            };
            Some(SelectedObfuscator { config, relay })
        },
        None => None,
    }
}

/// The Shadowsocks obfuscator for a relay, reached at the address of
/// `endpoint` on a port that the settings permit, or no obfuscator where no
/// port is permitted.
pub fn get_shadowsocks_obfuscator(
    settings: &Constraint<ShadowsocksSettings>,
    port_ranges: &[(u16, u16)],
    relay: Relay,
    endpoint: &MullvadWireguardEndpoint,
) -> (selected: Option<SelectedObfuscator>)
    ensures
        match selected {
            Some(obfuscator) => {
                &&& obfuscator.relay == relay
                &&& obfuscator.config is Shadowsocks
                &&& obfuscator.config.endpoint().ip == endpoint.peer.endpoint.ip
                &&& shadowsocks_port_permitted(
                    *settings,
                    port_ranges@,
                    Some(obfuscator.config.endpoint().port),
                )
            },
            None => shadowsocks_port_permitted(*settings, port_ranges@, None),
        },
{
    let wanted = match settings {
        Constraint::Only(settings) => settings.port,
        Constraint::Any => Constraint::Any,
    };
    match select_random_port(wanted, port_ranges) {
        Ok(port) => {
            let config = ObfuscatorConfig::Shadowsocks {
                endpoint: SocketAddress::new(endpoint.peer.endpoint.ip(), port),
            };
            Some(SelectedObfuscator { config, relay })
        },
        Err(_) => None,
    }
}

/// A udp2tcp port that the settings ask for is chosen or none is: an
/// explicit request is never answered with another port.
pub proof fn lemma_explicit_udp2tcp_port(
    settings: Constraint<Udp2TcpObfuscationSettings>,
    ports: Seq<u16>,
    wanted: u16,
    outcome: Option<u16>,
)
    requires
        wanted_udp2tcp_port(settings) == Some(wanted),
        udp2tcp_port_permitted(settings, ports, outcome),
    ensures
        ports.contains(wanted) ==> outcome == Some(wanted),
        !ports.contains(wanted) ==> outcome is None,
{
}

/// A udp2tcp port is chosen only from the ports on offer, whatever the
/// settings.
pub proof fn lemma_udp2tcp_port_is_on_offer(
    settings: Constraint<Udp2TcpObfuscationSettings>,
    ports: Seq<u16>,
    port: u16,
)
    requires
        udp2tcp_port_permitted(settings, ports, Some(port)),
    ensures
        ports.contains(port),
{
}

/// A Shadowsocks port is chosen only from the port ranges, whatever the
/// settings.
pub proof fn lemma_shadowsocks_port_is_in_range(
    settings: Constraint<ShadowsocksSettings>,
    port_ranges: Seq<(u16, u16)>,
    port: u16,
)
    requires
        shadowsocks_port_permitted(settings, port_ranges, Some(port)),
    ensures
        in_some_range(port, port_ranges),
{
    crate::ports::lemma_all_ports_are_union(port_ranges, port);
}

} // verus!
