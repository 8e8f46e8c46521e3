use relay_selector::constraints::{Constraint, Match};
use relay_selector::custom_list::{CustomList, CustomListsSettings, Id};
use relay_selector::describe::{decimal_string, separate_by_commas, Describe};
use relay_selector::location::GeographicLocationConstraint;
use relay_selector::net::{
    CustomTunnelEndpoint, Endpoint, IpAddress, IpVersion, Ipv4Address, SocketAddress,
    TransportProtocol, TunnelType,
};
use relay_selector::ports::Error;
use relay_selector::providers::{Ownership, Providers};
use relay_selector::relay_constraints::{
    resolve_location, LocationConstraint, LocationConstraintFormatter, OpenVpnConstraints,
    RelayConstraints, RelayConstraintsFormatter, RelaySettings, RelaySettingsFormatter,
    TransportPort, WireguardConstraints, WireguardConstraintsFormatter,
};
use relay_selector::relay_list::{Location, Relay};

fn custom_lists() -> CustomListsSettings {
    CustomListsSettings {
        custom_lists: vec![
            CustomList {
                id: Id { value: 1 },
                name: "north".to_string(),
                locations: vec![
                    GeographicLocationConstraint::country("fi"),
                    GeographicLocationConstraint::city("se", "got"),
                ],
            },
            CustomList {
                id: Id { value: 1 },
                name: "shadowed".to_string(),
                locations: vec![GeographicLocationConstraint::country("no")],
            },
            CustomList { id: Id { value: 2 }, name: "none".to_string(), locations: Vec::new() },
        ],
    }
}

fn endpoint(protocol: TransportProtocol) -> CustomTunnelEndpoint {
    CustomTunnelEndpoint {
        host: "vpn.example.net".to_string(),
        endpoint: Endpoint {
            address: SocketAddress { ip: IpAddress::V4(Ipv4Address { bits: 1 }), port: 1194 },
            protocol,
        },
    }
}

fn relay(country: &str, city: &str) -> Relay {
    Relay {
        hostname: "host1".to_string(),
        location: Some(Location {
            country_code: country.to_string(),
            city_code: city.to_string(),
        }),
        owned: true,
        provider: "p1".to_string(),
        weight: 1,
        ipv4_addr_in: Ipv4Address { bits: 1 },
        ipv6_addr_in: None,
    }
}

#[test]
fn default_constraints_are_open() {
    let constraints = RelayConstraints::default();
    assert_eq!(constraints.location, Constraint::Any);
    assert_eq!(constraints.providers, Constraint::Any);
    assert_eq!(constraints.ownership, Constraint::Any);
    assert_eq!(constraints.tunnel_protocol, Constraint::Any);
    assert_eq!(constraints.openvpn_constraints.port, Constraint::Any);
    assert_eq!(constraints.wireguard_constraints, WireguardConstraints::default());
    let wireguard = WireguardConstraints::default();
    assert_eq!(wireguard.port, Constraint::Any);
    assert_eq!(wireguard.ip_version, Constraint::Any);
    assert!(!wireguard.multihop());
    assert_eq!(wireguard.entry_location, Constraint::Any);
    let any: Constraint<u16> = Constraint::default();
    assert_eq!(any, Constraint::Any);
}

#[test]
fn multihop_is_switched() {
    let mut wireguard = WireguardConstraints::default();
    wireguard.port = Constraint::Only(51820);
    wireguard.use_multihop(true);
    assert!(wireguard.multihop());
    assert_eq!(wireguard.port, Constraint::Only(51820));
    wireguard.use_multihop(false);
    assert!(!wireguard.multihop());
}

#[test]
fn location_becomes_a_location_constraint() {
    assert_eq!(
        LocationConstraint::from(GeographicLocationConstraint::country("se")),
        LocationConstraint::Location(GeographicLocationConstraint::country("se"))
    );
}

#[test]
fn location_constraint_resolves_to_locations() {
    let lists = custom_lists();
    let direct = LocationConstraint::Location(GeographicLocationConstraint::country("se"));
    assert_eq!(direct.resolve(&lists), vec![GeographicLocationConstraint::country("se")]);
    let listed = LocationConstraint::CustomList { list_id: Id { value: 1 } };
    assert_eq!(
        listed.resolve(&lists),
        vec![
            GeographicLocationConstraint::country("fi"),
            GeographicLocationConstraint::city("se", "got"),
        ]
    );
    let empty = LocationConstraint::CustomList { list_id: Id { value: 2 } };
    assert_eq!(empty.resolve(&lists), Vec::new());
    let missing = LocationConstraint::CustomList { list_id: Id { value: 3 } };
    assert_eq!(missing.resolve(&lists), Vec::new());

    assert_eq!(resolve_location(&Constraint::Any, &lists), Constraint::Any);
    let resolved = resolve_location(&Constraint::Only(listed), &lists);
    assert!(resolved.matches(&relay("fi", "hel")));
    assert!(resolved.matches(&relay("se", "got")));
    assert!(!resolved.matches(&relay("se", "sto")));
    assert!(!resolve_location(&Constraint::Only(missing), &lists).matches(&relay("fi", "hel")));
}

#[test]
fn first_list_with_an_id_is_found() {
    let lists = custom_lists();
    assert_eq!(lists.find(Id { value: 1 }).unwrap().name, "north");
    assert_eq!(lists.find(Id { value: 2 }).unwrap().name, "none");
    assert!(lists.find(Id { value: 3 }).is_none());
    assert!(CustomListsSettings::new().find(Id { value: 1 }).is_none());
    assert_eq!(lists.custom_lists[0].clone(), lists.custom_lists[0]);
}

#[test]
fn bridge_is_supported_unless_udp_is_asked_for() {
    assert!(RelaySettings::CustomTunnelEndpoint(endpoint(TransportProtocol::Tcp)).supports_bridge());
    assert!(!RelaySettings::CustomTunnelEndpoint(endpoint(TransportProtocol::Udp)).supports_bridge());
    assert!(RelaySettings::Normal(RelayConstraints::default()).supports_bridge());
    let with_port = |protocol: TransportProtocol, port: Constraint<u16>| {
        let mut constraints = RelayConstraints::default();
        constraints.openvpn_constraints =
            OpenVpnConstraints { port: Constraint::Only(TransportPort { protocol, port }) };
        RelaySettings::Normal(constraints)
    };
    assert!(!with_port(TransportProtocol::Udp, Constraint::Any).supports_bridge());
    assert!(!with_port(TransportProtocol::Udp, Constraint::Only(1194)).supports_bridge());
    assert!(with_port(TransportProtocol::Tcp, Constraint::Any).supports_bridge());
    assert!(with_port(TransportProtocol::Tcp, Constraint::Only(443)).supports_bridge());
}

#[test]
fn numbers_in_decimal() {
    assert_eq!(decimal_string(0), "0");
    assert_eq!(decimal_string(7), "7");
    assert_eq!(decimal_string(10), "10");
    assert_eq!(decimal_string(443), "443");
    assert_eq!(decimal_string(65535), "65535");
    assert_eq!(decimal_string(1234567890), "1234567890");
    assert_eq!(decimal_string(u64::MAX), "18446744073709551615");
}

#[test]
fn texts_between_commas() {
    assert_eq!(separate_by_commas(&Vec::new()), "");
    assert_eq!(separate_by_commas(&vec!["a".to_string()]), "a");
    assert_eq!(
        separate_by_commas(&vec!["a".to_string(), "".to_string(), "c".to_string()]),
        "a, , c"
    );
}

#[test]
fn locations_in_words() {
    assert_eq!(GeographicLocationConstraint::country("se").describe(), "country se");
    assert_eq!(GeographicLocationConstraint::city("se", "got").describe(), "city got, se");
    assert_eq!(
        GeographicLocationConstraint::hostname("se", "got", "se-got-001").describe(),
        "city got, se, hostname se-got-001"
    );
    let lists = custom_lists();
    let describe = |constraint: LocationConstraint| {
        (LocationConstraintFormatter { constraint: &constraint, custom_lists: &lists }).describe()
    };
    assert_eq!(
        describe(LocationConstraint::Location(GeographicLocationConstraint::country("se"))),
        "country se"
    );
    assert_eq!(describe(LocationConstraint::CustomList { list_id: Id { value: 1 } }), "north");
    assert_eq!(
        describe(LocationConstraint::CustomList { list_id: Id { value: 9 } }),
        "invalid custom list"
    );
}

#[test]
fn constraints_in_words() {
    let any: Constraint<Ownership> = Constraint::Any;
    assert_eq!(any.describe(), "any");
    assert_eq!(Constraint::Only(Ownership::Rented).describe(), "rented servers");
    assert_eq!(Constraint::Only(TunnelType::Wireguard).describe(), "WireGuard");
    assert_eq!(TunnelType::OpenVpn.describe(), "OpenVPN");
    assert_eq!(TransportProtocol::Udp.describe(), "UDP");
    assert_eq!(TransportProtocol::Tcp.describe(), "TCP");
    assert_eq!(IpVersion::V4.describe(), "IPv4");
    assert_eq!(IpVersion::V6.describe(), "IPv6");
}

#[test]
fn openvpn_constraints_in_words() {
    assert_eq!(OpenVpnConstraints::default().describe(), "any port");
    let with_port = |protocol: TransportProtocol, port: Constraint<u16>| OpenVpnConstraints {
        port: Constraint::Only(TransportPort { protocol, port }),
    };
    assert_eq!(with_port(TransportProtocol::Udp, Constraint::Any).describe(), "any port/UDP");
    assert_eq!(
        with_port(TransportProtocol::Tcp, Constraint::Only(443)).describe(),
        "port 443/TCP"
    );
}

#[test]
fn wireguard_constraints_in_words() {
    let lists = custom_lists();
    let describe = |constraints: &WireguardConstraints| {
        (WireguardConstraintsFormatter { constraints, custom_lists: &lists }).describe()
    };
    let mut constraints = WireguardConstraints::default();
    assert_eq!(describe(&constraints), "any port");
    constraints.port = Constraint::Only(51820);
    assert_eq!(describe(&constraints), "port 51820");
    constraints.ip_version = Constraint::Only(IpVersion::V6);
    assert_eq!(describe(&constraints), "port 51820, IPv6,");
    constraints.use_multihop(true);
    assert_eq!(describe(&constraints), "port 51820, IPv6,, multihop entry any");
    constraints.ip_version = Constraint::Any;
    constraints.entry_location =
        Constraint::Only(LocationConstraint::CustomList { list_id: Id { value: 1 } });
    assert_eq!(describe(&constraints), "port 51820, multihop entry north");
    constraints.entry_location = Constraint::Only(LocationConstraint::Location(
        GeographicLocationConstraint::city("se", "got"),
    ));
    assert_eq!(describe(&constraints), "port 51820, multihop entry city got, se");
    constraints.use_multihop(false);
    assert_eq!(describe(&constraints), "port 51820");
}

#[test]
fn relay_constraints_in_words() {
    let lists = custom_lists();
    let open = RelayConstraints::default();
    assert_eq!(
        (RelayConstraintsFormatter { constraints: &open, custom_lists: &lists }).describe(),
        "Tunnel protocol: any\nOpenVPN constraints: any port\nWireguard constraints: any port\n\
         Location: any\nProvider(s): any\nOwnership: any"
    );
    let mut narrow = RelayConstraints::default();
    narrow.location =
        Constraint::Only(LocationConstraint::Location(GeographicLocationConstraint::country("se")));
    narrow.providers = Constraint::Only(Providers::new(vec!["p1".to_string()]).unwrap());
    narrow.ownership = Constraint::Only(Ownership::MullvadOwned);
    narrow.tunnel_protocol = Constraint::Only(TunnelType::Wireguard);
    narrow.wireguard_constraints.port = Constraint::Only(53);
    narrow.openvpn_constraints = OpenVpnConstraints {
        port: Constraint::Only(TransportPort {
            protocol: TransportProtocol::Tcp,
            port: Constraint::Only(443),
        }),
    };
    let expected = "Tunnel protocol: WireGuard\nOpenVPN constraints: port 443/TCP\n\
                    Wireguard constraints: port 53\nLocation: country se\n\
                    Provider(s): provider(s) p1\nOwnership: Mullvad-owned servers";
    assert_eq!(
        (RelayConstraintsFormatter { constraints: &narrow, custom_lists: &lists }).describe(),
        expected
    );
    let settings = RelaySettings::Normal(narrow);
    assert_eq!(
        (RelaySettingsFormatter { settings: &settings, custom_lists: &lists }).describe(),
        expected
    );
}

#[test]
fn custom_endpoint_in_words() {
    let lists = custom_lists();
    let custom = endpoint(TransportProtocol::Udp);
    assert_eq!(custom.describe(), "vpn.example.net:1194/UDP");
    assert_eq!(custom.endpoint(), custom.endpoint);
    assert_eq!(custom.clone(), custom);
    let settings = RelaySettings::CustomTunnelEndpoint(custom);
    assert_eq!(
        (RelaySettingsFormatter { settings: &settings, custom_lists: &lists }).describe(),
        "custom endpoint vpn.example.net:1194/UDP"
    );
}

#[test]
fn port_errors_in_words() {
    assert_eq!(Error::PortSelectionAlgorithm.describe(), "Port selection algorithm is broken");
    assert_eq!(
        Error::PortNotInRange(80).describe(),
        "Invalid port argument: port 80 is not in any valid Wireguard port range"
    );
}
