use relay_selector::constraints::Constraint;
use relay_selector::custom_list::{CustomList, CustomListsSettings, Id};
use relay_selector::location::GeographicLocationConstraint;
use relay_selector::net::{Ipv4Address, Ipv6Address};
use relay_selector::overrides::RelayOverride;
use relay_selector::providers::{Ownership, Providers};
use relay_selector::relay_constraints::{LocationConstraint, RelayConstraints};
use relay_selector::relay_list::{Location, Relay};
use relay_selector::sampling::{pick_random_relay, pick_relay_at, sum_weights};
use relay_selector::selector::{
    compose_route, filter_by, filter_relays, select_relays, SelectedRelays,
};

fn relay(hostname: &str, country: &str, weight: u64) -> Relay {
    Relay {
        hostname: hostname.to_string(),
        location: Some(Location {
            country_code: country.to_string(),
            city_code: format!("{country}-city"),
        }),
        owned: true,
        provider: "p1".to_string(),
        weight,
        ipv4_addr_in: Ipv4Address { bits: 0x0a00_0001 },
        ipv6_addr_in: None,
    }
}

fn pool() -> Vec<Relay> {
    vec![relay("se1", "SE", 1), relay("se2", "SE", 0), relay("fi1", "FI", 1)]
}

fn in_country(country: &str) -> Constraint<LocationConstraint> {
    Constraint::Only(LocationConstraint::Location(GeographicLocationConstraint::country(country)))
}

fn no_lists() -> CustomListsSettings {
    CustomListsSettings::new()
}

fn hostnames(relays: &[Relay]) -> Vec<&str> {
    relays.iter().map(|relay| relay.hostname.as_str()).collect()
}

#[test]
fn country_constraint_end_to_end() {
    let mut constraints = RelayConstraints::default();
    constraints.location = in_country("SE");
    let candidates = filter_relays(&pool(), &constraints, &[], &no_lists());
    assert_eq!(candidates, vec![relay("se1", "SE", 1), relay("se2", "SE", 0)]);

    let weights: Vec<u64> = candidates.iter().map(|relay| relay.weight).collect();
    let total = sum_weights(&weights);
    assert_eq!(total, 1);
    for draw in 1..=total {
        assert_eq!(pick_relay_at(&candidates, draw).hostname, "se1");
    }
    for _ in 0..200 {
        assert_eq!(pick_random_relay(&candidates).unwrap().hostname, "se1");
    }
    for _ in 0..200 {
        assert_eq!(
            select_relays(&pool(), &constraints, &[], &no_lists()),
            Some(SelectedRelays::Singlehop { exit: relay("se1", "SE", 1) })
        );
    }
}

#[test]
fn open_constraints_keep_every_relay() {
    let candidates = filter_relays(&pool(), &RelayConstraints::default(), &[], &no_lists());
    assert_eq!(candidates, pool());
}

#[test]
fn no_relay_may_match() {
    let mut constraints = RelayConstraints::default();
    constraints.location = in_country("NO");
    assert_eq!(filter_relays(&pool(), &constraints, &[], &no_lists()), Vec::new());
    assert_eq!(select_relays(&pool(), &constraints, &[], &no_lists()), None);
    assert_eq!(filter_relays(&[], &RelayConstraints::default(), &[], &no_lists()), Vec::new());
    assert_eq!(select_relays(&[], &RelayConstraints::default(), &[], &no_lists()), None);
}

#[test]
fn every_constrained_field_must_accept() {
    let mut relays = pool();
    relays[0].provider = "p2".to_string();
    relays[1].owned = false;
    relays[2].owned = false;

    let mut constraints = RelayConstraints::default();
    constraints.location = in_country("SE");
    constraints.ownership = Constraint::Only(Ownership::Rented);
    assert_eq!(hostnames(&filter_relays(&relays, &constraints, &[], &no_lists())), vec!["se2"]);

    constraints.providers = Constraint::Only(Providers::new(vec!["p2".to_string()]).unwrap());
    assert!(filter_relays(&relays, &constraints, &[], &no_lists()).is_empty());

    constraints.ownership = Constraint::Any;
    assert_eq!(hostnames(&filter_relays(&relays, &constraints, &[], &no_lists())), vec!["se1"]);

    constraints.location = Constraint::Any;
    constraints.providers = Constraint::Only(Providers::new(vec!["p1".to_string()]).unwrap());
    constraints.ownership = Constraint::Only(Ownership::Rented);
    assert_eq!(
        hostnames(&filter_relays(&relays, &constraints, &[], &no_lists())),
        vec!["se2", "fi1"]
    );
}

#[test]
fn overrides_patch_the_candidates() {
    let overrides = vec![
        RelayOverride {
            hostname: "se2".to_string(),
            ipv4_addr_in: Some(Ipv4Address { bits: 0xc000_0202 }),
            ipv6_addr_in: None,
        },
        RelayOverride {
            hostname: "fi1".to_string(),
            ipv4_addr_in: None,
            ipv6_addr_in: Some(Ipv6Address { bits: 0x2001_0db8 }),
        },
        RelayOverride::empty("se1".to_string()),
    ];
    let candidates = filter_relays(&pool(), &RelayConstraints::default(), &overrides, &no_lists());
    let mut expected = pool();
    expected[1].ipv4_addr_in = Ipv4Address { bits: 0xc000_0202 };
    expected[2].ipv6_addr_in = Some(Ipv6Address { bits: 0x2001_0db8 });
    assert_eq!(candidates, expected);
}

#[test]
fn custom_list_stands_for_its_locations() {
    let custom_lists = CustomListsSettings {
        custom_lists: vec![
            CustomList {
                id: Id { value: 1 },
                name: "north".to_string(),
                locations: vec![
                    GeographicLocationConstraint::country("FI"),
                    GeographicLocationConstraint::hostname("SE", "SE-city", "se2"),
                ],
            },
            CustomList { id: Id { value: 2 }, name: "none".to_string(), locations: Vec::new() },
        ],
    };
    let listed = |value: u128| {
        Constraint::Only(LocationConstraint::CustomList { list_id: Id { value } })
    };
    let providers = Constraint::Any;
    let ownership = Constraint::Any;
    assert_eq!(
        hostnames(&filter_by(&pool(), &listed(1), &providers, &ownership, &[], &custom_lists)),
        vec!["se2", "fi1"]
    );
    assert!(filter_by(&pool(), &listed(2), &providers, &ownership, &[], &custom_lists).is_empty());
    assert!(filter_by(&pool(), &listed(3), &providers, &ownership, &[], &custom_lists).is_empty());
}

#[test]
fn route_is_composed_from_the_picks() {
    let exit = relay("se1", "SE", 1);
    let entry = relay("fi1", "FI", 1);
    assert_eq!(
        compose_route(false, Some(&exit), None),
        Some(SelectedRelays::Singlehop { exit: relay("se1", "SE", 1) })
    );
    assert_eq!(
        compose_route(false, Some(&exit), Some(&entry)),
        Some(SelectedRelays::Singlehop { exit: relay("se1", "SE", 1) })
    );
    assert_eq!(
        compose_route(true, Some(&exit), Some(&entry)),
        Some(SelectedRelays::Multihop {
            entry: relay("fi1", "FI", 1),
            exit: relay("se1", "SE", 1)
        })
    );
    assert_eq!(
        compose_route(true, Some(&exit), Some(&exit)),
        Some(SelectedRelays::Multihop {
            entry: relay("se1", "SE", 1),
            exit: relay("se1", "SE", 1)
        })
    );
    assert_eq!(compose_route(true, Some(&exit), None), None);
    assert_eq!(compose_route(true, None, Some(&entry)), None);
    assert_eq!(compose_route(false, None, Some(&entry)), None);
    assert_eq!(compose_route(false, None, None), None);
}

#[test]
fn multihop_selects_entry_and_exit_apart() {
    let mut constraints = RelayConstraints::default();
    constraints.location = in_country("SE");
    constraints.wireguard_constraints.use_multihop(true);
    constraints.wireguard_constraints.entry_location = in_country("FI");
    for _ in 0..100 {
        assert_eq!(
            select_relays(&pool(), &constraints, &[], &no_lists()),
            Some(SelectedRelays::Multihop {
                entry: relay("fi1", "FI", 1),
                exit: relay("se1", "SE", 1)
            })
        );
    }
}

#[test]
fn multihop_needs_both_relays() {
    let mut constraints = RelayConstraints::default();
    constraints.location = in_country("SE");
    constraints.wireguard_constraints.use_multihop(true);
    constraints.wireguard_constraints.entry_location = in_country("NO");
    assert_eq!(select_relays(&pool(), &constraints, &[], &no_lists()), None);
    constraints.location = in_country("NO");
    constraints.wireguard_constraints.entry_location = in_country("SE");
    assert_eq!(select_relays(&pool(), &constraints, &[], &no_lists()), None);
}

#[test]
fn multihop_may_use_one_relay_twice() {
    let relays = vec![relay("se1", "SE", 1)];
    let mut constraints = RelayConstraints::default();
    constraints.wireguard_constraints.use_multihop(true);
    assert_eq!(
        select_relays(&relays, &constraints, &[], &no_lists()),
        Some(SelectedRelays::Multihop {
            entry: relay("se1", "SE", 1),
            exit: relay("se1", "SE", 1)
        })
    );
}

#[test]
fn entry_location_is_ignored_without_multihop() {
    let mut constraints = RelayConstraints::default();
    constraints.location = in_country("FI");
    constraints.wireguard_constraints.entry_location = in_country("NO");
    assert!(!constraints.wireguard_constraints.multihop());
    assert_eq!(
        select_relays(&pool(), &constraints, &[], &no_lists()),
        Some(SelectedRelays::Singlehop { exit: relay("fi1", "FI", 1) })
    );
}
