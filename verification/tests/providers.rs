use relay_selector::constraints::{Constraint, Match};
use relay_selector::describe::Describe;
use relay_selector::net::Ipv4Address;
use relay_selector::providers::{Ownership, OwnershipParseError, Providers};
use relay_selector::relay_list::Relay;

fn relay(provider: &str, owned: bool) -> Relay {
    Relay {
        hostname: "host1".to_string(),
        location: None,
        owned,
        provider: provider.to_string(),
        weight: 1,
        ipv4_addr_in: Ipv4Address { bits: 0x0a00_0001 },
        ipv6_addr_in: None,
    }
}

#[test]
fn no_providers_is_refused() {
    assert!(Providers::new(Vec::new()).is_err());
}

#[test]
fn one_provider_matches_its_relays_only() {
    let providers = Providers::new(vec!["p1".to_string()]).unwrap();
    assert!(providers.matches(&relay("p1", true)));
    assert!(!providers.matches(&relay("p2", true)));
    assert!(!providers.matches(&relay("", true)));
    assert!(!providers.matches(&relay("p11", true)));
}

#[test]
fn several_providers_match_each_of_theirs() {
    let providers =
        Providers::new(vec!["p1".to_string(), "p2".to_string(), "p3".to_string()]).unwrap();
    assert!(providers.matches(&relay("p1", true)));
    assert!(providers.matches(&relay("p2", false)));
    assert!(providers.matches(&relay("p3", true)));
    assert!(!providers.matches(&relay("p4", true)));
}

#[test]
fn a_provider_given_twice_counts_once() {
    let providers = Providers::new(vec![
        "p2".to_string(),
        "p1".to_string(),
        "p2".to_string(),
        "p1".to_string(),
        "p3".to_string(),
    ])
    .unwrap();
    assert_eq!(
        providers.into_vec(),
        vec!["p2".to_string(), "p1".to_string(), "p3".to_string()]
    );
}

#[test]
fn into_vec_gives_the_names_back() {
    let providers = Providers::new(vec!["p1".to_string()]).unwrap();
    assert_eq!(providers.into_vec(), vec!["p1".to_string()]);
}

#[test]
fn clone_keeps_the_providers() {
    let providers = Providers::new(vec!["p1".to_string(), "p2".to_string()]).unwrap();
    assert_eq!(providers.clone(), providers);
}

#[test]
fn open_provider_constraint_matches_all() {
    let any: Constraint<Providers> = Constraint::Any;
    assert!(any.matches(&relay("p1", true)));
    let only = Constraint::Only(Providers::new(vec!["p1".to_string()]).unwrap());
    assert!(only.matches(&relay("p1", true)));
    assert!(!only.matches(&relay("p2", true)));
}

#[test]
fn ownership_matches_by_the_owned_flag() {
    assert!(Ownership::MullvadOwned.matches(&relay("p1", true)));
    assert!(!Ownership::MullvadOwned.matches(&relay("p1", false)));
    assert!(Ownership::Rented.matches(&relay("p1", false)));
    assert!(!Ownership::Rented.matches(&relay("p1", true)));
    let any: Constraint<Ownership> = Constraint::Any;
    assert!(any.matches(&relay("p1", true)) && any.matches(&relay("p1", false)));
}

#[test]
fn ownership_is_read_from_its_names() {
    assert_eq!(Ownership::parse("owned"), Ok(Ownership::MullvadOwned));
    assert_eq!(Ownership::parse("mullvad-owned"), Ok(Ownership::MullvadOwned));
    assert_eq!(Ownership::parse("rented"), Ok(Ownership::Rented));
    assert_eq!(Ownership::parse("Rented"), Err(OwnershipParseError));
    assert_eq!(Ownership::parse(""), Err(OwnershipParseError));
    assert_eq!(Ownership::parse("owned "), Err(OwnershipParseError));
    assert_eq!("rented".parse::<Ownership>(), Ok(Ownership::Rented));
    assert_eq!("leased".parse::<Ownership>(), Err(OwnershipParseError));
}

#[test]
fn ownership_and_providers_in_words() {
    assert_eq!(Ownership::MullvadOwned.describe(), "Mullvad-owned servers");
    assert_eq!(Ownership::Rented.describe(), "rented servers");
    assert_eq!(OwnershipParseError.describe(), "Not a valid ownership setting");
    let providers = Providers::new(vec!["p1".to_string(), "p2".to_string()]).unwrap();
    assert_eq!(providers.describe(), "provider(s) p1, p2");
    let one = Providers::new(vec!["p1".to_string()]).unwrap();
    assert_eq!(one.describe(), "provider(s) p1");
}
