//! What the user asks of a relay: where it stands, who runs and owns it, and
//! how the tunnel to it is set up.

use crate::constraints::{Constraint, Match};
use crate::custom_list::{CustomListsSettings, Id};
use crate::describe::{describe_port, port_description, Describe};
use crate::location::{
    any_accepts, location_views, GeographicLocationConstraint, GeographicLocationView,
};
use crate::net::{CustomTunnelEndpoint, IpVersion, TransportProtocol, TunnelType};
use crate::providers::{Ownership, Providers};
use crate::relay_list::Relay;
use vstd::prelude::*;
use vstd::string::StringExecFns;

verus! {

/// A location, given directly or as a custom list of locations.
#[derive(Debug, PartialEq, Eq)]
pub enum LocationConstraint {
    Location(GeographicLocationConstraint),
    CustomList { list_id: Id },
}

/// What a [`LocationConstraint`] holds.
pub enum LocationConstraintView {
    Location(GeographicLocationView),
    CustomList { list_id: Id },
}

impl View for LocationConstraint {
    type V = LocationConstraintView;

    open spec fn view(&self) -> LocationConstraintView {
        match self {
            LocationConstraint::Location(location) => LocationConstraintView::Location(location@),
            LocationConstraint::CustomList { list_id } => LocationConstraintView::CustomList {
                list_id: *list_id,
            },
        }
    }
}

impl Clone for LocationConstraint {
    fn clone(&self) -> (copy: Self)
        ensures
            copy == *self,
    {
        match self {
            LocationConstraint::Location(location) => LocationConstraint::Location(
                location.clone(),
            ),
            LocationConstraint::CustomList { list_id } => LocationConstraint::CustomList {
                list_id: *list_id,
            },
        }
    }
}

impl From<GeographicLocationConstraint> for LocationConstraint {
    fn from(location: GeographicLocationConstraint) -> (constraint: Self) {
        Self::Location(location)
    }
}

impl vstd::std_specs::convert::FromSpecImpl<GeographicLocationConstraint> for LocationConstraint {
    open spec fn obeys_from_spec() -> bool {
        true
    }

    open spec fn from_spec(location: GeographicLocationConstraint) -> Self {
        Self::Location(location)
    }
}

impl LocationConstraint {
    /// The locations that the constraint stands for: the one it names, or
    /// those of the custom list it names. A list that does not exist stands
    /// for no location.
    pub open spec fn locations(&self, custom_lists: &CustomListsSettings) -> Seq<
        GeographicLocationView,
    > {
        match self {
            LocationConstraint::Location(location) => seq![location@],
            LocationConstraint::CustomList { list_id } => match custom_lists.lookup(*list_id) {
                Some(list) => location_views(list.locations@),
                None => Seq::empty(),
            },
        }
    }

    /// Looks up the locations that the constraint stands for.
    pub fn resolve(&self, custom_lists: &CustomListsSettings) -> (resolved: Vec<
        GeographicLocationConstraint,
    >)
        ensures
            location_views(resolved@) == self.locations(custom_lists),
    {
        match self {
            LocationConstraint::Location(location) => {
                let mut resolved = Vec::new();
                resolved.push(location.clone());
                assert(location_views(resolved@) =~= seq![location@]);
                resolved
            },
            LocationConstraint::CustomList { list_id } => match custom_lists.find(*list_id) {
                Some(list) => {
                    let resolved = list.locations.clone();
                    assert(resolved@ =~= list.locations@);
                    resolved
                },
                None => {
                    let resolved = Vec::new();
                    assert(location_views(resolved@) =~= Seq::empty());
                    resolved
                },
            },
        }
    }
}

/// A location constraint together with the custom lists, among which the
/// name of the list that it refers to is looked up.
pub struct LocationConstraintFormatter<'a> {
    pub constraint: &'a LocationConstraint,
    pub custom_lists: &'a CustomListsSettings,
}

/// A location is described as such, and a custom list by its name. A list
/// that does not exist is described as `invalid custom list`.
impl<'a> Describe for LocationConstraintFormatter<'a> {
    open spec fn description(&self) -> Seq<char> {
        match self.constraint {
            LocationConstraint::Location(location) => location.description(),
            LocationConstraint::CustomList { list_id } => match self.custom_lists.lookup(
                *list_id,
            ) {
                Some(list) => list.name@,
                None => "invalid custom list"@,
            },
        }
    }

    fn describe(&self) -> (text: String) {
        match self.constraint {
            LocationConstraint::Location(location) => location.describe(),
            LocationConstraint::CustomList { list_id } => match self.custom_lists.find(*list_id) {
                Some(list) => list.name.clone(),
                None => String::from_str("invalid custom list"),
            },
        }
    }
}

/// The words for a constraint on the location: `any` for an open one, and
/// else those for the location.
pub open spec fn location_description(
    location: &Constraint<LocationConstraint>,
    custom_lists: &CustomListsSettings,
) -> Seq<char> {
    match location {
        Constraint::Any => "any"@,
        Constraint::Only(constraint) => (LocationConstraintFormatter {
            constraint,
            custom_lists,
        }).description(),
    }
}

/// Describes a constraint on the location.
pub fn describe_location(
    location: &Constraint<LocationConstraint>,
    custom_lists: &CustomListsSettings,
) -> (text: String)
    ensures
        text@ == location_description(location, custom_lists),
{
    match location {
        Constraint::Any => String::from_str("any"),
        Constraint::Only(constraint) => (LocationConstraintFormatter {
            constraint,
            custom_lists,
        }).describe(),
    }
}

/// Whether a constraint on the location accepts a relay: an open one accepts
/// every relay, another those that lie in one of the locations it stands
/// for.
pub open spec fn location_accepts(
    location: &Constraint<LocationConstraint>,
    custom_lists: &CustomListsSettings,
    relay: &Relay,
) -> bool {
    match location {
        Constraint::Any => true,
        Constraint::Only(location) => any_accepts(location.locations(custom_lists), relay@),
    }
}

/// Looks up the locations that a constraint on the location stands for.
pub fn resolve_location(
    location: &Constraint<LocationConstraint>,
    custom_lists: &CustomListsSettings,
) -> (resolved: Constraint<Vec<GeographicLocationConstraint>>)
    ensures
        location is Any <==> resolved is Any,
        location matches Constraint::Only(constraint) ==> location_views(resolved->0@)
            == constraint.locations(custom_lists),
        forall|relay: &Relay|
            #[trigger] resolved.accepts(relay) == location_accepts(location, custom_lists, relay),
{
    match location {
        Constraint::Any => Constraint::Any,
        Constraint::Only(constraint) => Constraint::Only(constraint.resolve(custom_lists)),
    }
}

/// A port together with the transport protocol it is used with.
#[derive(Debug, Clone, Copy, PartialEq, Eq, Structural)]
pub struct TransportPort {
    pub protocol: TransportProtocol,
    pub port: Constraint<u16>,
}

/// [`Constraint`]s applicable to OpenVPN relays.
#[derive(Debug, Clone, Copy, PartialEq, Eq, Structural)]
pub struct OpenVpnConstraints {
    pub port: Constraint<TransportPort>,
}

/// The port, as `any port` or `port` and its number, then a slash and the
/// transport protocol. Where nothing is asked for: `any port`.
impl Describe for OpenVpnConstraints {
    open spec fn description(&self) -> Seq<char> {
        match self.port {
            Constraint::Any => "any port"@,
            Constraint::Only(port) => port_description(port.port) + "/"@
                + port.protocol.description(),
        }
    }

    fn describe(&self) -> (text: String) {
        match self.port {
            Constraint::Any => String::from_str("any port"),
            Constraint::Only(port) => {
                let mut text = describe_port(port.port);
                text.append("/");
                text.append(port.protocol.describe().as_str());
                text
            },
        }
    }
}

impl Default for OpenVpnConstraints {
    fn default() -> (constraints: Self)
        ensures
            constraints.port is Any,
    {
        OpenVpnConstraints { port: Constraint::Any }
    }
}

/// [`Constraint`]s applicable to WireGuard relays.
#[derive(Debug, PartialEq, Eq)]
pub struct WireguardConstraints {
    pub port: Constraint<u16>,
    pub ip_version: Constraint<IpVersion>,
    pub use_multihop: bool,
    pub entry_location: Constraint<LocationConstraint>,
}

impl WireguardConstraints {
    /// Enable or disable multihop.
    pub fn use_multihop(&mut self, multihop: bool)
        ensures
            final(self).use_multihop == multihop,
            final(self).port == old(self).port,
            final(self).ip_version == old(self).ip_version,
            final(self).entry_location == old(self).entry_location,
    {
        self.use_multihop = multihop
    }

    /// Check if multihop is enabled.
    pub fn multihop(&self) -> (enabled: bool)
        ensures
            enabled == self.use_multihop,
    {
        self.use_multihop
    }
}

impl Default for WireguardConstraints {
    fn default() -> (constraints: Self)
        ensures
            constraints.port is Any,
            constraints.ip_version is Any,
            !constraints.use_multihop,
            constraints.entry_location is Any,
    {
        WireguardConstraints {
            port: Constraint::Any,
            ip_version: Constraint::Any,
            use_multihop: false,
            entry_location: Constraint::Any,
        }
    }
}

/// WireGuard constraints together with the custom lists, among which the
/// name of the list that the entry location refers to is looked up.
pub struct WireguardConstraintsFormatter<'a> {
    pub constraints: &'a WireguardConstraints,
    pub custom_lists: &'a CustomListsSettings,
}

/// The port, as `any port` or `port` and its number. Then, if one is asked
/// for, the version of the internet protocol, between commas. Then, with
/// multihop on, `multihop entry` and the entry location.
impl<'a> Describe for WireguardConstraintsFormatter<'a> {
    open spec fn description(&self) -> Seq<char> {
        let ip_version = match self.constraints.ip_version {
            Constraint::Any => Seq::<char>::empty(),
            Constraint::Only(ip_version) => ", "@ + ip_version.description() + ","@,
        };
        let multihop = if self.constraints.use_multihop {
            ", multihop entry "@ + location_description(
                &self.constraints.entry_location,
                self.custom_lists,
            )
        } else {
            Seq::<char>::empty()
        };
        port_description(self.constraints.port) + ip_version + multihop
    }

    fn describe(&self) -> (text: String) {
        let mut text = describe_port(self.constraints.port);
        let ghost port_text = text@;
        if let Constraint::Only(ip_version) = self.constraints.ip_version {
            text.append(", ");
            text.append(ip_version.describe().as_str());
            text.append(",");
        } else {
            assert(text@ =~= port_text + Seq::<char>::empty());
        }
        let ghost version_text = text@;
        if self.constraints.multihop() {
            text.append(", multihop entry ");
            text.append(
                describe_location(&self.constraints.entry_location, self.custom_lists).as_str(),
            );
            assert(text@ =~= version_text + (", multihop entry "@ + location_description(
                &self.constraints.entry_location,
                self.custom_lists,
            )));
        } else {
            assert(text@ =~= version_text + Seq::<char>::empty());
        }
        text
    }
}

/// Limits the set of [`Relay`]s that may be selected.
#[derive(Debug, PartialEq, Eq)]
pub struct RelayConstraints {
    pub location: Constraint<LocationConstraint>,
    pub providers: Constraint<Providers>,
    pub ownership: Constraint<Ownership>,
    pub tunnel_protocol: Constraint<TunnelType>,
    pub wireguard_constraints: WireguardConstraints,
    pub openvpn_constraints: OpenVpnConstraints,
}

impl Default for RelayConstraints {
    /// Constraints that accept every relay.
    fn default() -> (constraints: Self)
        ensures
            constraints.location is Any,
            constraints.providers is Any,
            constraints.ownership is Any,
            constraints.tunnel_protocol is Any,
            constraints.wireguard_constraints.port is Any,
            constraints.wireguard_constraints.ip_version is Any,
            !constraints.wireguard_constraints.use_multihop,
            constraints.wireguard_constraints.entry_location is Any,
            constraints.openvpn_constraints.port is Any,
    {
        RelayConstraints {
            location: Constraint::Any,
            providers: Constraint::Any,
            ownership: Constraint::Any,
            tunnel_protocol: Constraint::Any,
            wireguard_constraints: WireguardConstraints::default(),
            openvpn_constraints: OpenVpnConstraints::default(),
        }
    }
}

impl RelayConstraints {
    /// Whether a relay meets the constraints on the relay itself: it lies
    /// where `location` asks, and it is of a provider and of an ownership
    /// that are asked for.
    pub open spec fn accepts(&self, custom_lists: &CustomListsSettings, relay: &Relay) -> bool {
        &&& location_accepts(&self.location, custom_lists, relay)
        &&& self.providers.accepts(relay)
        &&& self.ownership.accepts(relay)
    }

    /// Whether a relay may serve as the entry of a multihop route: as
    /// `accepts`, but for the location, where `entry_location` of the
    /// WireGuard constraints takes the place of `location`.
    pub open spec fn accepts_entry(
        &self,
        custom_lists: &CustomListsSettings,
        relay: &Relay,
    ) -> bool {
        &&& location_accepts(&self.wireguard_constraints.entry_location, custom_lists, relay)
        &&& self.providers.accepts(relay)
        &&& self.ownership.accepts(relay)
    }
}

/// Relay constraints together with the custom lists, among which the names
/// of the lists that the locations refer to are looked up.
pub struct RelayConstraintsFormatter<'a> {
    pub constraints: &'a RelayConstraints,
    pub custom_lists: &'a CustomListsSettings,
}

/// Six lines: the tunnel protocol, the OpenVPN constraints, the WireGuard
/// constraints, the location, the providers and the ownership, each after
/// its heading.
impl<'a> Describe for RelayConstraintsFormatter<'a> {
    open spec fn description(&self) -> Seq<char> {
        "Tunnel protocol: "@ + self.constraints.tunnel_protocol.description()
            + "\nOpenVPN constraints: "@ + self.constraints.openvpn_constraints.description()
            + "\nWireguard constraints: "@ + (WireguardConstraintsFormatter {
            constraints: &self.constraints.wireguard_constraints,
            custom_lists: self.custom_lists,
        }).description() + "\n"@ + "Location: "@ + location_description(
            &self.constraints.location,
            self.custom_lists,
        ) + "\n"@ + "Provider(s): "@ + self.constraints.providers.description() + "\n"@
            + "Ownership: "@ + self.constraints.ownership.description()
    }

    fn describe(&self) -> (text: String) {
        let mut text = String::from_str("Tunnel protocol: ");
        text.append(self.constraints.tunnel_protocol.describe().as_str());
        text.append("\nOpenVPN constraints: ");
        text.append(self.constraints.openvpn_constraints.describe().as_str());
        text.append("\nWireguard constraints: ");
        text.append(
            (WireguardConstraintsFormatter {
                constraints: &self.constraints.wireguard_constraints,
                custom_lists: self.custom_lists,
            }).describe().as_str(),
        );
        text.append("\n");
        text.append("Location: ");
        text.append(describe_location(&self.constraints.location, self.custom_lists).as_str());
        text.append("\n");
        text.append("Provider(s): ");
        text.append(self.constraints.providers.describe().as_str());
        text.append("\n");
        text.append("Ownership: ");
        text.append(self.constraints.ownership.describe().as_str());
        text
    }
}

/// Specifies a specific endpoint or [`RelayConstraints`] to use when a relay
/// is selected.
#[derive(Debug, PartialEq, Eq)]
pub enum RelaySettings {
    CustomTunnelEndpoint(CustomTunnelEndpoint),
    Normal(RelayConstraints),
}

impl RelaySettings {
    /// Whether the settings leave room for a bridge: a custom endpoint does
    /// if it is reached over TCP, and constraints do unless they ask for
    /// OpenVPN over UDP.
    pub open spec fn leaves_room_for_bridge(&self) -> bool {
        match self {
            RelaySettings::CustomTunnelEndpoint(endpoint) => endpoint.endpoint.protocol
                == TransportProtocol::Tcp,
            RelaySettings::Normal(constraints) => !(constraints.openvpn_constraints.port matches Constraint::Only(
                port,
            ) && port.protocol == TransportProtocol::Udp),
        }
    }

    /// Returns false if the specified relay settings update explicitly do not allow for bridging
    /// (i.e. use UDP instead of TCP)
    pub fn supports_bridge(&self) -> (supported: bool)
        ensures
            supported == self.leaves_room_for_bridge(),
    {
        match self {
            RelaySettings::CustomTunnelEndpoint(endpoint) => {
                endpoint.endpoint().protocol == TransportProtocol::Tcp
            },
            RelaySettings::Normal(update) => match update.openvpn_constraints.port {
                Constraint::Only(port) => match port.protocol {
                    TransportProtocol::Udp => false,
                    TransportProtocol::Tcp => true,
                },
                Constraint::Any => true,
            },
        }
    }
}

/// Relay settings together with the custom lists, among which the names of
/// the lists that the locations refer to are looked up.
pub struct RelaySettingsFormatter<'a> {
    pub settings: &'a RelaySettings,
    pub custom_lists: &'a CustomListsSettings,
}

/// A custom endpoint is described as `custom endpoint` and the endpoint,
/// and constraints as such.
impl<'a> Describe for RelaySettingsFormatter<'a> {
    open spec fn description(&self) -> Seq<char> {
        match self.settings {
            RelaySettings::CustomTunnelEndpoint(endpoint) => "custom endpoint "@
                + endpoint.description(),
            RelaySettings::Normal(constraints) => (RelayConstraintsFormatter {
                constraints,
                custom_lists: self.custom_lists,
            }).description(),
        }
    }

    fn describe(&self) -> (text: String) {
        match self.settings {
            RelaySettings::CustomTunnelEndpoint(endpoint) => {
                let mut text = String::from_str("custom endpoint ");
                text.append(endpoint.describe().as_str());
                text
            },
            RelaySettings::Normal(constraints) => (RelayConstraintsFormatter {
                constraints,
                custom_lists: self.custom_lists,
            }).describe(),
        }
    }
}

} // verus!
