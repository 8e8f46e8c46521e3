use relay_selector::constraints::Constraint;
use relay_selector::describe::Describe;
use relay_selector::net::{
    IpAddress, Ipv4Address, Ipv6Address, MullvadWireguardEndpoint, ObfuscatorConfig, PeerConfig,
    SocketAddress,
};
use relay_selector::obfuscation::{
    find_port, get_shadowsocks_obfuscator, get_udp2tcp_obfuscator, get_udp2tcp_obfuscator_port,
    ObfuscationSettings, SelectedObfuscation, SelectedObfuscator, ShadowsocksSettings,
    Udp2TcpObfuscationSettings,
};
use relay_selector::relay_list::Relay;

const RELAY_IP: IpAddress = IpAddress::V4(Ipv4Address { bits: 0xc0a8_0102 });

fn relay() -> Relay {
    Relay {
        hostname: "se1".to_string(),
        location: None,
        owned: true,
        provider: "p1".to_string(),
        weight: 1,
        ipv4_addr_in: Ipv4Address { bits: 0xc0a8_0102 },
        ipv6_addr_in: Some(Ipv6Address { bits: 1 }),
    }
}

fn endpoint() -> MullvadWireguardEndpoint {
    MullvadWireguardEndpoint {
        peer: PeerConfig {
            allowed_ips: Vec::new(),
            endpoint: SocketAddress { ip: RELAY_IP, port: 51820 },
        },
    }
}

fn only_port(port: u16) -> Constraint<Udp2TcpObfuscationSettings> {
    Constraint::Only(Udp2TcpObfuscationSettings { port: Constraint::Only(port) })
}

#[test]
fn explicit_udp2tcp_port_that_is_offered() {
    let ports = [80u16, 443, 5001];
    assert_eq!(get_udp2tcp_obfuscator_port(&only_port(443), &ports), Some(443));
    assert_eq!(
        get_udp2tcp_obfuscator(&only_port(443), &ports, relay(), &endpoint()),
        Some(SelectedObfuscator {
            config: ObfuscatorConfig::Udp2Tcp {
                endpoint: SocketAddress { ip: RELAY_IP, port: 443 }
            },
            relay: relay(),
        })
    );
}

#[test]
fn explicit_udp2tcp_port_that_is_not_offered() {
    let ports = [80u16, 443, 5001];
    for _ in 0..50 {
        assert_eq!(get_udp2tcp_obfuscator_port(&only_port(8080), &ports), None);
        assert_eq!(get_udp2tcp_obfuscator(&only_port(8080), &ports, relay(), &endpoint()), None);
    }
}

#[test]
fn open_udp2tcp_settings_pick_among_the_ports() {
    let ports = [80u16, 443, 5001];
    let open_settings = [
        Constraint::Any,
        Constraint::Only(Udp2TcpObfuscationSettings { port: Constraint::Any }),
    ];
    for settings in &open_settings {
        let mut seen = [0u32; 3];
        for _ in 0..3000 {
            let port = get_udp2tcp_obfuscator_port(settings, &ports).unwrap();
            let index = ports.iter().position(|offered| *offered == port).unwrap();
            seen[index] += 1;
        }
        for count in seen {
            assert!(count > 700 && count < 1300, "far from even: {count}");
        }
    }
}

#[test]
fn open_udp2tcp_settings_give_the_endpoint_of_the_relay() {
    let ports = [80u16, 443];
    for _ in 0..50 {
        let selected =
            get_udp2tcp_obfuscator(&Constraint::Any, &ports, relay(), &endpoint()).unwrap();
        assert_eq!(selected.relay, relay());
        match selected.config {
            ObfuscatorConfig::Udp2Tcp { endpoint } => {
                assert_eq!(endpoint.ip, RELAY_IP);
                assert!(ports.contains(&endpoint.port));
            }
            other => panic!("not udp2tcp: {other:?}"),
        }
    }
}

#[test]
fn no_udp2tcp_ports_give_no_obfuscator() {
    assert_eq!(get_udp2tcp_obfuscator_port(&Constraint::Any, &[]), None);
    assert_eq!(get_udp2tcp_obfuscator_port(&only_port(80), &[]), None);
    assert_eq!(get_udp2tcp_obfuscator(&Constraint::Any, &[], relay(), &endpoint()), None);
}

#[test]
fn find_port_finds_only_what_is_there() {
    assert_eq!(find_port(&[1, 2, 3], 2), Some(2));
    assert_eq!(find_port(&[1, 2, 3], 4), None);
    assert_eq!(find_port(&[], 4), None);
}

#[test]
fn explicit_shadowsocks_port() {
    let ranges = [(1000u16, 2000u16), (5000, 5000)];
    let wanted = Constraint::Only(ShadowsocksSettings { port: Constraint::Only(1500) });
    assert_eq!(
        get_shadowsocks_obfuscator(&wanted, &ranges, relay(), &endpoint()),
        Some(SelectedObfuscator {
            config: ObfuscatorConfig::Shadowsocks {
                endpoint: SocketAddress { ip: RELAY_IP, port: 1500 }
            },
            relay: relay(),
        })
    );
    let outside = Constraint::Only(ShadowsocksSettings { port: Constraint::Only(2001) });
    assert_eq!(get_shadowsocks_obfuscator(&outside, &ranges, relay(), &endpoint()), None);
}

#[test]
fn open_shadowsocks_settings_pick_within_the_ranges() {
    let ranges = [(1000u16, 1001u16), (5000, 5000)];
    let open_settings = [
        Constraint::Any,
        Constraint::Only(ShadowsocksSettings { port: Constraint::Any }),
    ];
    for settings in &open_settings {
        let mut seen = [false; 3];
        for _ in 0..300 {
            let selected =
                get_shadowsocks_obfuscator(settings, &ranges, relay(), &endpoint()).unwrap();
            assert_eq!(selected.relay, relay());
            match selected.config {
                ObfuscatorConfig::Shadowsocks { endpoint } => {
                    assert_eq!(endpoint.ip, RELAY_IP);
                    match endpoint.port {
                        1000 => seen[0] = true,
                        1001 => seen[1] = true,
                        5000 => seen[2] = true,
                        port => panic!("port {port} is in no range"),
                    }
                }
                other => panic!("not shadowsocks: {other:?}"),
            }
        }
        assert_eq!(seen, [true, true, true]);
    }
}

#[test]
fn no_shadowsocks_ports_give_no_obfuscator() {
    assert_eq!(get_shadowsocks_obfuscator(&Constraint::Any, &[], relay(), &endpoint()), None);
}

#[test]
fn default_obfuscation_settings() {
    let settings = ObfuscationSettings::default();
    assert_eq!(settings.selected_obfuscation, SelectedObfuscation::Auto);
    assert_eq!(settings.udp2tcp.port, Constraint::Any);
    assert_eq!(ShadowsocksSettings::default().port, Constraint::Any);
}

#[test]
fn obfuscation_settings_in_words() {
    assert_eq!(SelectedObfuscation::Auto.describe(), "auto");
    assert_eq!(SelectedObfuscation::Off.describe(), "off");
    assert_eq!(SelectedObfuscation::Udp2Tcp.describe(), "udp2tcp");
    assert_eq!(Udp2TcpObfuscationSettings { port: Constraint::Any }.describe(), "any port");
    assert_eq!(
        Udp2TcpObfuscationSettings { port: Constraint::Only(443) }.describe(),
        "port 443"
    );
}
