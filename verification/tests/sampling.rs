use relay_selector::net::Ipv4Address;
use relay_selector::relay_list::{Location, Relay};
use relay_selector::sampling::{
    pick_index_at, pick_random_relay, pick_random_relay_weighted, pick_relay_at, sum_weights,
};

fn relay(hostname: &str, country: &str, weight: u64) -> Relay {
    Relay {
        hostname: hostname.to_string(),
        location: Some(Location {
            country_code: country.to_string(),
            city_code: "cty".to_string(),
        }),
        owned: true,
        provider: "provider".to_string(),
        weight,
        ipv4_addr_in: Ipv4Address { bits: 0x0a00_0001 },
        ipv6_addr_in: None,
    }
}

#[test]
fn draw_selects_by_weight() {
    let weights = [0u64, 5, 0, 10];
    assert_eq!(sum_weights(&weights), 15);
    for draw in 1..=5u128 {
        assert_eq!(pick_index_at(&weights, draw), 1);
    }
    for draw in 6..=15u128 {
        assert_eq!(pick_index_at(&weights, draw), 3);
    }
}

#[test]
fn each_draw_falls_on_one_stretch() {
    let weights = [3u64, 1, 0, 2];
    let picked: Vec<usize> = (1..=6u128).map(|draw| pick_index_at(&weights, draw)).collect();
    assert_eq!(picked, vec![0, 0, 0, 1, 3, 3]);
}

#[test]
fn sum_of_no_weights_is_zero() {
    assert_eq!(sum_weights(&[]), 0);
}

#[test]
fn sum_of_large_weights_does_not_wrap() {
    let weights = [u64::MAX, u64::MAX, 1];
    assert_eq!(sum_weights(&weights), 2 * (u64::MAX as u128) + 1);
    assert_eq!(pick_index_at(&weights, u64::MAX as u128), 0);
    assert_eq!(pick_index_at(&weights, u64::MAX as u128 + 1), 1);
    assert_eq!(pick_index_at(&weights, 2 * (u64::MAX as u128) + 1), 2);
}

#[test]
fn empty_slice_gives_none() {
    let relays: Vec<Relay> = Vec::new();
    assert!(pick_random_relay(&relays).is_none());
    assert!(pick_random_relay_weighted(&relays, |relay: &Relay| relay.weight).is_none());
}

#[test]
fn single_relay_is_always_picked() {
    for weight in [0u64, 1, 7, u64::MAX] {
        let relays = vec![relay("se1", "se", weight)];
        for _ in 0..50 {
            assert_eq!(pick_random_relay(&relays), Some(&relays[0]));
        }
    }
}

#[test]
fn zero_weights_pick_every_relay() {
    let relays = vec![relay("a", "se", 0), relay("b", "se", 0), relay("c", "se", 0)];
    let mut seen = [0u32; 3];
    for _ in 0..3000 {
        let picked = pick_random_relay(&relays).expect("a relay of a list that is not empty");
        let index = relays.iter().position(|relay| relay == picked).unwrap();
        seen[index] += 1;
    }
    for count in seen {
        assert!(count > 700 && count < 1300, "far from even: {count}");
    }
}

#[test]
fn zero_weight_is_never_picked_beside_a_positive_one() {
    let relays = vec![relay("a", "se", 0), relay("b", "se", 5), relay("c", "se", 0), relay("d", "se", 10)];
    let mut seen = [0u32; 4];
    for _ in 0..3000 {
        let picked = pick_random_relay(&relays).unwrap();
        let index = relays.iter().position(|relay| relay == picked).unwrap();
        seen[index] += 1;
    }
    assert_eq!(seen[0], 0);
    assert_eq!(seen[2], 0);
    assert!(seen[1] > 700 && seen[1] < 1300, "far from a third: {}", seen[1]);
    assert!(seen[3] > 1700 && seen[3] < 2300, "far from two thirds: {}", seen[3]);
}

#[test]
fn both_relays_of_equal_weight_come_up() {
    let relays = vec![relay("a", "se", 1), relay("b", "se", 1)];
    let mut seen = [false; 2];
    for _ in 0..200 {
        let picked = pick_random_relay(&relays).unwrap();
        seen[relays.iter().position(|relay| relay == picked).unwrap()] = true;
    }
    assert_eq!(seen, [true, true]);
}

#[test]
fn weight_function_decides() {
    let relays = vec![relay("a", "se", 9), relay("b", "se", 0)];
    for _ in 0..100 {
        let picked = pick_random_relay_weighted(&relays, |relay: &Relay| {
            if relay.hostname == "b" {
                1
            } else {
                0
            }
        });
        assert_eq!(picked, Some(&relays[1]));
    }
}

#[test]
fn relay_at_draw() {
    let relays = vec![relay("a", "se", 2), relay("b", "se", 0), relay("c", "se", 1)];
    assert_eq!(pick_relay_at(&relays, 1).hostname, "a");
    assert_eq!(pick_relay_at(&relays, 2).hostname, "a");
    assert_eq!(pick_relay_at(&relays, 3).hostname, "c");
}
