//! Selection of a port from a table of port ranges.
//!
//! A range is a pair of its first and last port, both included. The ports
//! of a table are those of its ranges, one range after the other, and a
//! random port is the one at a random position among them: so each port in
//! the table is as likely as any other, and a longer range is hit more often
//! than a shorter one. A range whose first port lies above its last holds no
//! port.

use crate::constraints::Constraint;
use crate::describe::{decimal, decimal_string, Describe};
use crate::random::random_in_range;
use vstd::prelude::*;
use vstd::string::StringExecFns;

verus! {

/// Why no port was selected.
#[derive(Debug, Clone, Copy, PartialEq, Eq, Structural)]
pub enum Error {
    /// The table of ranges holds no port at all.
    PortSelectionAlgorithm,
    /// The port asked for is in none of the ranges.
    PortNotInRange(u16),
}

impl Describe for Error {
    open spec fn description(&self) -> Seq<char> {
        match self {
            Error::PortSelectionAlgorithm => "Port selection algorithm is broken"@,
            Error::PortNotInRange(port) => "Invalid port argument: port "@ + decimal(
                *port as nat,
            ) + " is not in any valid Wireguard port range"@,
        }
    }

    fn describe(&self) -> (text: String) {
        match self {
            Error::PortSelectionAlgorithm => String::from_str(
                "Port selection algorithm is broken",
            ),
            Error::PortNotInRange(port) => {
                let mut text = String::from_str("Invalid port argument: port ");
                text.append(decimal_string(*port as u64).as_str());
                text.append(" is not in any valid Wireguard port range");
                text
            },
        }
    }
}

/// How many ports a range holds.
pub open spec fn range_size(range: (u16, u16)) -> nat {
    if range.0 <= range.1 {
        (range.1 - range.0 + 1) as nat
    } else {
        0
    }
}

/// The ports of a range, in rising order.
pub open spec fn range_ports(range: (u16, u16)) -> Seq<u16> {
    Seq::new(range_size(range), |offset: int| (range.0 + offset) as u16)
}

/// The ports of all ranges: those of the first range, then those of the
/// second, and so on.
pub open spec fn all_ports(ranges: Seq<(u16, u16)>) -> Seq<u16>
    decreases ranges.len(),
{
    if ranges.len() == 0 {
        Seq::empty()
    } else {
        all_ports(ranges.drop_last()) + range_ports(ranges.last())
    }
}

/// Whether a port lies in a range.
pub open spec fn in_range(port: u16, range: (u16, u16)) -> bool {
    range.0 <= port <= range.1
}

/// Whether a port lies in one of the ranges.
pub open spec fn in_some_range(port: u16, ranges: Seq<(u16, u16)>) -> bool {
    exists|index: int| 0 <= index < ranges.len() && in_range(port, #[trigger] ranges[index])
}

/// Whether two ranges have no port in common: one of them is empty, or one
/// ends before the other begins.
pub open spec fn ranges_apart(first: (u16, u16), second: (u16, u16)) -> bool {
    first.0 > first.1 || second.0 > second.1 || first.1 < second.0 || second.1 < first.0
}

/// Whether no port lies in two of the ranges.
pub open spec fn disjoint_ranges(ranges: Seq<(u16, u16)>) -> bool {
    forall|first: int, second: int|
        0 <= first < second < ranges.len() ==> ranges_apart(
            #[trigger] ranges[first],
            #[trigger] ranges[second],
        )
}

/// The ports of the first `count + 1` ranges are those of the first `count`
/// and then those of the range that follows.
pub proof fn lemma_all_ports_step(ranges: Seq<(u16, u16)>, count: int)
    requires
        0 <= count < ranges.len(),
    ensures
        all_ports(ranges.take(count + 1)) == all_ports(ranges.take(count)) + range_ports(
            ranges[count],
        ),
{
    assert(ranges.take(count + 1).drop_last() =~= ranges.take(count));
}

/// The ports of the first ranges stand at the start of the ports of all.
pub proof fn lemma_all_ports_prefix(ranges: Seq<(u16, u16)>, count: int)
    requires
        0 <= count <= ranges.len(),
    ensures
        all_ports(ranges.take(count)).is_prefix_of(all_ports(ranges)),
    decreases ranges.len() - count,
{
    if count < ranges.len() {
        lemma_all_ports_step(ranges, count);
        lemma_all_ports_prefix(ranges, count + 1);
    } else {
        assert(ranges.take(count) =~= ranges);
    }
}

/// A table holds at most 65536 ports for each of its ranges.
pub proof fn lemma_all_ports_bound(ranges: Seq<(u16, u16)>)
    ensures
        all_ports(ranges).len() <= ranges.len() * 0x1_0000,
    decreases ranges.len(),
{
    if ranges.len() > 0 {
        lemma_all_ports_bound(ranges.drop_last());
        assert((ranges.len() - 1) * 0x1_0000 + 0x1_0000 == ranges.len() * 0x1_0000)
            by (nonlinear_arith);
    }
}

/// The ports of a table are the ports that lie in one of its ranges.
pub proof fn lemma_all_ports_are_union(ranges: Seq<(u16, u16)>, port: u16)
    ensures
        all_ports(ranges).contains(port) <==> in_some_range(port, ranges),
    decreases ranges.len(),
{
    if ranges.len() > 0 {
        let before = ranges.drop_last();
        let last = ranges.last();
        lemma_all_ports_are_union(before, port);
        if all_ports(ranges).contains(port) {
            let position = choose|position: int|
                0 <= position < all_ports(ranges).len() && all_ports(ranges)[position] == port;
            if position < all_ports(before).len() {
                assert(all_ports(before)[position] == port);
                let index = choose|index: int|
                    0 <= index < before.len() && in_range(port, #[trigger] before[index]);
                assert(in_range(port, ranges[index]));
            } else {
                assert(range_ports(last)[position - all_ports(before).len()] == port);
                assert(in_range(port, ranges[ranges.len() - 1]));
            }
        }
        if in_some_range(port, ranges) {
            let index = choose|index: int|
                0 <= index < ranges.len() && in_range(port, #[trigger] ranges[index]);
            if index < before.len() {
                assert(in_range(port, before[index]));
                let position = choose|position: int|
                    0 <= position < all_ports(before).len() && all_ports(before)[position]
                        == port;
                assert(all_ports(ranges)[position] == port);
            } else {
                let offset = port - last.0;
                assert(range_ports(last)[offset] == port);
                assert(all_ports(ranges)[all_ports(before).len() + offset] == port);
            }
        }
    }
}

/// Where no port lies in two ranges, no port stands twice among the ports
/// of the table. Each port in the table then stands at exactly one position,
/// so a position that is as likely as any other gives a port that is as
/// likely as any other.
pub proof fn lemma_all_ports_distinct(ranges: Seq<(u16, u16)>)
    requires
        disjoint_ranges(ranges),
    ensures
        all_ports(ranges).no_duplicates(),
    decreases ranges.len(),
{
    if ranges.len() > 0 {
        let before = ranges.drop_last();
        let last = ranges.last();
        assert(disjoint_ranges(before)) by {
            assert forall|first: int, second: int| 0 <= first < second < before.len() implies ranges_apart(
                #[trigger] before[first],
                #[trigger] before[second],
            ) by {
                assert(ranges_apart(ranges[first], ranges[second]));
            }
        }
        lemma_all_ports_distinct(before);
        let ports = all_ports(ranges);
        assert forall|i: int, j: int| 0 <= i < ports.len() && 0 <= j < ports.len() && i != j implies ports[i] != ports[j] by {
            let split = all_ports(before).len() as int;
            if i < split && j < split {
                assert(all_ports(before)[i] == ports[i]);
                assert(all_ports(before)[j] == ports[j]);
            } else if i >= split && j >= split {
                assert(range_ports(last)[i - split] == ports[i]);
                assert(range_ports(last)[j - split] == ports[j]);
            } else {
                let (low, high) = if i < split {
                    (i, j)
                } else {
                    (j, i)
                };
                let port = ports[low];
                assert(all_ports(before)[low] == port);
                lemma_all_ports_are_union(before, port);
                let index = choose|index: int|
                    0 <= index < before.len() && in_range(port, #[trigger] before[index]);
                assert(ranges_apart(ranges[index], ranges[ranges.len() - 1]));
                assert(range_ports(last)[high - split] == ports[high]);
                assert(in_range(ports[high], last));
            }
        }
    }
}

/// Counts the ports of a table.
pub fn count_ports(port_ranges: &[(u16, u16)]) -> (amount: u128)
    ensures
        amount == all_ports(port_ranges@).len(),
{
    let mut amount: u128 = 0;
    let mut index: usize = 0;
    assert(port_ranges@.take(0) =~= Seq::<(u16, u16)>::empty());
    while index < port_ranges.len()
        invariant
            index <= port_ranges@.len(),
            amount == all_ports(port_ranges@.take(index as int)).len(),
        decreases port_ranges@.len() - index,
    {
        proof {
            lemma_all_ports_step(port_ranges@, index as int);
            lemma_all_ports_bound(port_ranges@.take(index + 1));
            assert((index + 1) * 0x1_0000 <= u128::MAX) by (nonlinear_arith)
                requires
                    index + 1 <= 0x1_0000_0000_0000_0000,
            ;
        }
        let range = port_ranges[index];
        if range.0 <= range.1 {
            amount = amount + ((range.1 - range.0) as u128 + 1);
        }
        index += 1;
    }
    assert(port_ranges@.take(index as int) =~= port_ranges@);
    amount
}

/// The port at a position among the ports of a table.
///
/// The ranges are walked in order, and the position is counted down by the
/// size of each range that lies before it.
pub fn port_at_index(port_ranges: &[(u16, u16)], port_index: u128) -> (port: u16)
    requires
        port_index < all_ports(port_ranges@).len(),
    ensures
        port == all_ports(port_ranges@)[port_index as int],
{
    let mut remaining: u128 = port_index;
    let mut index: usize = 0;
    proof {
        assert(port_ranges@.take(0) =~= Seq::<(u16, u16)>::empty());
        if port_ranges@.len() == 0 {
            assert(all_ports(port_ranges@).len() == 0);
        }
    }
    loop
        invariant
            index < port_ranges@.len(),
            remaining + all_ports(port_ranges@.take(index as int)).len() == port_index,
            port_index < all_ports(port_ranges@).len(),
        decreases port_ranges@.len() - index,
    {
        proof {
            lemma_all_ports_step(port_ranges@, index as int);
            lemma_all_ports_prefix(port_ranges@, index + 1);
        }
        let range = port_ranges[index];
        if range.0 <= range.1 {
            let ports_in_range: u128 = (range.1 - range.0) as u128 + 1;
            if remaining < ports_in_range {
                assert(range_ports(range)[remaining as int] == (range.0 + remaining) as u16);
                assert(all_ports(port_ranges@.take(index + 1))[port_index as int] == (range.0
                    + remaining) as u16);
                return remaining as u16 + range.0;
            }
            remaining = remaining - ports_in_range;
        }
        proof {
            if index + 1 == port_ranges@.len() {
                assert(port_ranges@.take(index + 1) =~= port_ranges@);
            }
        }
        index += 1;
    }
}

/// Whether `port` lies in one of the ranges.
pub fn port_in_ranges(port: u16, port_ranges: &[(u16, u16)]) -> (found: bool)
    ensures
        found == in_some_range(port, port_ranges@),
{
    let mut index: usize = 0;
    while index < port_ranges.len()
        invariant
            index <= port_ranges@.len(),
            forall|earlier: int|
                0 <= earlier < index ==> !in_range(port, #[trigger] port_ranges@[earlier]),
        decreases port_ranges@.len() - index,
    {
        let range = port_ranges[index];
        if range.0 <= port && port <= range.1 {
            assert(in_range(port, port_ranges@[index as int]));
            return true;
        }
        index += 1;
    }
    false
}

/// Selects a random port number from a list of provided port ranges.
///
/// This function iterates over a list of port ranges, each represented as a tuple (u16, u16)
/// where the first element is the start of the range and the second is the end (inclusive),
/// and selects a random port from the set of all ranges.
///
/// # Parameters
/// - `port`: Constraint to apply to the port selection
/// - `port_ranges`: A slice of tuples, each representing a range of valid port numbers.
///
/// # Returns
/// - With `Only(port)`: that port if it lies in one of the ranges, and else
///   `PortNotInRange` with the port.
/// - With `Any`: one of the ports of the table, or `PortSelectionAlgorithm`
///   if the table holds none.
pub fn select_random_port(port: Constraint<u16>, port_ranges: &[(u16, u16)]) -> (selected: Result<
    u16,
    Error,
>)
    ensures
        port matches Constraint::Only(wanted) ==> selected == if in_some_range(
            wanted,
            port_ranges@,
        ) {
            Ok::<u16, Error>(wanted)
        } else {
            Err::<u16, Error>(Error::PortNotInRange(wanted))
        },
        port is Any ==> match selected {
            Ok(found) => all_ports(port_ranges@).contains(found),
            Err(error) => error == Error::PortSelectionAlgorithm && all_ports(port_ranges@).len()
                == 0,
        },
{
    match port {
        Constraint::Any => select_random_port_inner(port_ranges),
        Constraint::Only(port) => {
            if port_in_ranges(port, port_ranges) {
                Ok(port)
            } else {
                Err(Error::PortNotInRange(port))
            }
        },
    }
}

/// Draws a position among the ports of the table, and hands out the port
/// that stands there.
fn select_random_port_inner(port_ranges: &[(u16, u16)]) -> (selected: Result<u16, Error>)
    ensures
        match selected {
            Ok(found) => all_ports(port_ranges@).contains(found),
            Err(error) => error == Error::PortSelectionAlgorithm && all_ports(port_ranges@).len()
                == 0,
        },
{
    let port_amount = count_ports(port_ranges);
    if port_amount < 1 {
        return Err(Error::PortSelectionAlgorithm);
    }
    let port_index = random_in_range(0, port_amount - 1);
    Ok(port_at_index(port_ranges, port_index))
}

} // verus!
