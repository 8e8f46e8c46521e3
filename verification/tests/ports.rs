use relay_selector::constraints::Constraint;
use relay_selector::ports::{count_ports, port_at_index, port_in_ranges, select_random_port, Error};

#[test]
fn explicit_port_outside_all_ranges() {
    assert_eq!(
        select_random_port(Constraint::Only(80), &[(443, 443)]),
        Err(Error::PortNotInRange(80))
    );
}

#[test]
fn explicit_port_inside_a_range() {
    let ranges = [(53, 53), (4000, 5000), (443, 443)];
    assert_eq!(select_random_port(Constraint::Only(53), &ranges), Ok(53));
    assert_eq!(select_random_port(Constraint::Only(4000), &ranges), Ok(4000));
    assert_eq!(select_random_port(Constraint::Only(4500), &ranges), Ok(4500));
    assert_eq!(select_random_port(Constraint::Only(5000), &ranges), Ok(5000));
    assert_eq!(select_random_port(Constraint::Only(443), &ranges), Ok(443));
    assert_eq!(
        select_random_port(Constraint::Only(5001), &ranges),
        Err(Error::PortNotInRange(5001))
    );
    assert_eq!(
        select_random_port(Constraint::Only(3999), &ranges),
        Err(Error::PortNotInRange(3999))
    );
}

#[test]
fn explicit_port_with_no_ranges() {
    assert_eq!(select_random_port(Constraint::Only(1), &[]), Err(Error::PortNotInRange(1)));
}

#[test]
fn any_port_of_a_single_port_range() {
    for _ in 0..100 {
        assert_eq!(select_random_port(Constraint::Any, &[(1, 1)]), Ok(1));
    }
}

#[test]
fn any_port_with_no_ranges() {
    assert_eq!(select_random_port(Constraint::Any, &[]), Err(Error::PortSelectionAlgorithm));
}

#[test]
fn any_port_lies_in_a_range() {
    let ranges = [(100, 200), (1000, 1001), (65535, 65535)];
    for _ in 0..500 {
        let port = select_random_port(Constraint::Any, &ranges).unwrap();
        assert!(port_in_ranges(port, &ranges), "port {port} is in no range");
    }
}

#[test]
fn any_port_reaches_both_ends() {
    let ranges = [(10, 11)];
    let mut seen = [false; 2];
    for _ in 0..200 {
        let port = select_random_port(Constraint::Any, &ranges).unwrap();
        seen[(port - 10) as usize] = true;
    }
    assert_eq!(seen, [true, true]);
}

#[test]
fn larger_range_is_hit_more_often() {
    let ranges = [(1, 1), (100, 108)];
    let mut in_small = 0u32;
    for _ in 0..5000 {
        if select_random_port(Constraint::Any, &ranges).unwrap() == 1 {
            in_small += 1;
        }
    }
    assert!(in_small > 300 && in_small < 700, "far from a tenth: {in_small}");
}

#[test]
fn ports_are_counted_over_all_ranges() {
    assert_eq!(count_ports(&[]), 0);
    assert_eq!(count_ports(&[(1, 1)]), 1);
    assert_eq!(count_ports(&[(0, 65535)]), 65536);
    assert_eq!(count_ports(&[(10, 19), (30, 30), (40, 44)]), 16);
}

#[test]
fn inverted_range_holds_no_port() {
    assert_eq!(count_ports(&[(5, 3)]), 0);
    assert_eq!(select_random_port(Constraint::Any, &[(5, 3)]), Err(Error::PortSelectionAlgorithm));
    assert_eq!(
        select_random_port(Constraint::Only(4), &[(5, 3)]),
        Err(Error::PortNotInRange(4))
    );
    assert_eq!(port_at_index(&[(5, 3), (7, 8)], 1), 8);
}

#[test]
fn port_at_each_index() {
    let ranges = [(10, 12), (20, 20), (65534, 65535)];
    let ports: Vec<u16> = (0..6u128).map(|index| port_at_index(&ranges, index)).collect();
    assert_eq!(ports, vec![10, 11, 12, 20, 65534, 65535]);
}

#[test]
fn port_in_ranges_checks_both_bounds() {
    let ranges = [(10, 12), (20, 20)];
    assert!(!port_in_ranges(9, &ranges));
    assert!(port_in_ranges(10, &ranges));
    assert!(port_in_ranges(12, &ranges));
    assert!(!port_in_ranges(13, &ranges));
    assert!(port_in_ranges(20, &ranges));
    assert!(!port_in_ranges(21, &ranges));
}
