//! Selection of the relays of a route: the candidates that the constraints
//! leave of a relay list, and the choice of an exit and, for multihop, of an
//! entry among them.

use crate::constraints::{Constraint, Match};
use crate::custom_list::CustomListsSettings;
use crate::overrides::{apply_overrides, patched, RelayOverride};
use crate::providers::{Ownership, Providers};
use crate::relay_constraints::{
    location_accepts, resolve_location, LocationConstraint, RelayConstraints,
};
use crate::relay_list::Relay;
use crate::sampling::{pick_random_relay, relay_weights, selectable};
use vstd::prelude::*;

verus! {

/// Whether a relay lies where `location` asks and is of a provider and of an
/// ownership that are asked for.
pub open spec fn relay_accepted(
    location: &Constraint<LocationConstraint>,
    providers: &Constraint<Providers>,
    ownership: &Constraint<Ownership>,
    custom_lists: &CustomListsSettings,
    relay: &Relay,
) -> bool {
    &&& location_accepts(location, custom_lists, relay)
    &&& providers.accepts(relay)
    &&& ownership.accepts(relay)
}

/// The relays of a list that are accepted once the overrides are applied to
/// them, in the order of the list and with the overrides applied.
pub open spec fn candidates(
    relays: Seq<Relay>,
    location: &Constraint<LocationConstraint>,
    providers: &Constraint<Providers>,
    ownership: &Constraint<Ownership>,
    overrides: Seq<RelayOverride>,
    custom_lists: &CustomListsSettings,
) -> Seq<Relay> {
    relays.map_values(|relay: Relay| patched(relay, overrides)).filter(
        |relay: Relay| relay_accepted(location, providers, ownership, custom_lists, &relay),
    )
}

/// The candidates for the exit of a route, which is its only relay where
/// multihop is off.
pub open spec fn exit_candidates(
    relays: Seq<Relay>,
    constraints: &RelayConstraints,
    overrides: Seq<RelayOverride>,
    custom_lists: &CustomListsSettings,
) -> Seq<Relay> {
    candidates(
        relays,
        &constraints.location,
        &constraints.providers,
        &constraints.ownership,
        overrides,
        custom_lists,
    )
}

/// The candidates for the entry of a multihop route: as for the exit, but
/// for the location, which is the entry location of the WireGuard
/// constraints.
pub open spec fn entry_candidates(
    relays: Seq<Relay>,
    constraints: &RelayConstraints,
    overrides: Seq<RelayOverride>,
    custom_lists: &CustomListsSettings,
) -> Seq<Relay> {
    candidates(
        relays,
        &constraints.wireguard_constraints.entry_location,
        &constraints.providers,
        &constraints.ownership,
        overrides,
        custom_lists,
    )
}

/// Applies the overrides to each relay of a list and keeps those that the
/// constraints accept.
pub fn filter_by(
    relays: &[Relay],
    location: &Constraint<LocationConstraint>,
    providers: &Constraint<Providers>,
    ownership: &Constraint<Ownership>,
    overrides: &[RelayOverride],
    custom_lists: &CustomListsSettings,
) -> (found: Vec<Relay>)
    ensures
        found@ == candidates(relays@, location, providers, ownership, overrides@, custom_lists),
{
    let resolved = resolve_location(location, custom_lists);
    let mut found: Vec<Relay> = Vec::new();
    let mut index: usize = 0;
    let ghost patch = |relay: Relay| patched(relay, overrides@);
    let ghost accepted = |relay: Relay|
        relay_accepted(location, providers, ownership, custom_lists, &relay);
    assert(relays@.take(0).map_values(patch).filter(accepted) =~= Seq::<Relay>::empty()) by {
        reveal(Seq::filter);
    }
    while index < relays.len()
        invariant
            index <= relays@.len(),
            patch == |relay: Relay| patched(relay, overrides@),
            accepted == |relay: Relay|
                relay_accepted(location, providers, ownership, custom_lists, &relay),
            forall|relay: &Relay|
                #[trigger] resolved.accepts(relay) == location_accepts(
                    location,
                    custom_lists,
                    relay,
                ),
            found@ == relays@.take(index as int).map_values(patch).filter(accepted),
        decreases relays@.len() - index,
    {
        let mut relay = relays[index].clone();
        apply_overrides(overrides, &mut relay);
        let keep = resolved.matches(&relay) && providers.matches(&relay) && ownership.matches(
            &relay,
        );
        proof {
            let before = relays@.take(index as int).map_values(patch);
            let next = relays@.take(index + 1).map_values(patch);
            assert(next =~= before.push(relay));
            before.lemma_filter_push(relay, accepted);
            assert(keep == accepted(relay));
        }
        if keep {
            found.push(relay);
        }
        index += 1;
    }
    assert(relays@.take(index as int) =~= relays@);
    found
}

/// Applies the overrides to each relay of a list and keeps those that the
/// constraints accept. The list that comes out may be empty.
pub fn filter_relays(
    relays: &[Relay],
    constraints: &RelayConstraints,
    overrides: &[RelayOverride],
    custom_lists: &CustomListsSettings,
) -> (found: Vec<Relay>)
    ensures
        found@ == exit_candidates(relays@, constraints, overrides@, custom_lists),
{
    filter_by(
        relays,
        &constraints.location,
        &constraints.providers,
        &constraints.ownership,
        overrides,
        custom_lists,
    )
}

/// The relays of a route.
#[derive(Debug, PartialEq, Eq)]
pub enum SelectedRelays {
    /// One relay, which the tunnel leads to.
    Singlehop { exit: Relay },
    /// Two relays: the tunnel enters at the first and leaves at the second.
    Multihop { entry: Relay, exit: Relay },
}

/// The route that is made of the relays that were picked for it.
///
/// Without multihop the route is the exit, and with it the entry and the
/// exit. There is no route where a relay that it needs was not found.
/// Nothing keeps the entry and the exit from being the same relay.
pub open spec fn composed(multihop: bool, exit: Option<&Relay>, entry: Option<&Relay>) -> Option<
    SelectedRelays,
> {
    match (multihop, exit, entry) {
        (false, Some(exit), _) => Some(SelectedRelays::Singlehop { exit: *exit }),
        (true, Some(exit), Some(entry)) => Some(
            SelectedRelays::Multihop { entry: *entry, exit: *exit },
        ),
        _ => None,
    }
}

/// Whether a route is one that selection may give: of the right kind, and
/// made of relays that weighted selection may return from the candidates.
pub open spec fn route_permitted(
    selected: SelectedRelays,
    multihop: bool,
    exits: Seq<Relay>,
    entries: Seq<Relay>,
) -> bool {
    match selected {
        SelectedRelays::Singlehop { exit } => !multihop && may_be_picked(exits, exit),
        SelectedRelays::Multihop { entry, exit } => multihop && may_be_picked(exits, exit)
            && may_be_picked(entries, entry),
    }
}

/// Puts a route together from the relays that were picked for it.
pub fn compose_route(multihop: bool, exit: Option<&Relay>, entry: Option<&Relay>) -> (route: Option<
    SelectedRelays,
>)
    ensures
        route == composed(multihop, exit, entry),
{
    match exit {
        None => None,
        Some(exit) => if multihop {
            match entry {
                Some(entry) => Some(
                    SelectedRelays::Multihop { entry: entry.clone(), exit: exit.clone() },
                ),
                None => None,
            }
        } else {
            Some(SelectedRelays::Singlehop { exit: exit.clone() })
        },
    }
}

/// Selects the relays of a route from a relay list.
///
/// The exit is picked at random, by weight, among the exit candidates. With
/// multihop on, the entry is picked in the same way among the entry
/// candidates, from the same list and without regard to the exit. There is no
/// route if there is no candidate for a relay that it needs.
pub fn select_relays(
    relays: &[Relay],
    constraints: &RelayConstraints,
    overrides: &[RelayOverride],
    custom_lists: &CustomListsSettings,
) -> (route: Option<SelectedRelays>)
    ensures
        route is None <==> exit_candidates(relays@, constraints, overrides@, custom_lists).len()
            == 0 || (constraints.wireguard_constraints.use_multihop && entry_candidates(
            relays@,
            constraints,
            overrides@,
            custom_lists,
        ).len() == 0),
        route matches Some(selected) ==> route_permitted(
            selected,
            constraints.wireguard_constraints.use_multihop,
            exit_candidates(relays@, constraints, overrides@, custom_lists),
            entry_candidates(relays@, constraints, overrides@, custom_lists),
        ),
{
    let exits = filter_relays(relays, constraints, overrides, custom_lists);
    let exit = pick_random_relay(exits.as_slice());
    if constraints.wireguard_constraints.multihop() {
        let entries = filter_by(
            relays,
            &constraints.wireguard_constraints.entry_location,
            &constraints.providers,
            &constraints.ownership,
            overrides,
            custom_lists,
        );
        let entry = pick_random_relay(entries.as_slice());
        compose_route(true, exit, entry)
    } else {
        compose_route(false, exit, None)
    }
}

/// Whether `relay` is one of `relays` that weighted selection may return.
pub open spec fn may_be_picked(relays: Seq<Relay>, relay: Relay) -> bool {
    exists|index: int|
        selectable(relay_weights(relays), index) && #[trigger] relays[index] == relay
}

/// Every candidate is a relay of the list with the overrides applied, and
/// is accepted.
pub proof fn lemma_candidates_are_accepted(
    relays: Seq<Relay>,
    location: &Constraint<LocationConstraint>,
    providers: &Constraint<Providers>,
    ownership: &Constraint<Ownership>,
    overrides: Seq<RelayOverride>,
    custom_lists: &CustomListsSettings,
    candidate: Relay,
)
    requires
        candidates(relays, location, providers, ownership, overrides, custom_lists).contains(
            candidate,
        ),
    ensures
        relay_accepted(location, providers, ownership, custom_lists, &candidate),
        exists|index: int|
            0 <= index < relays.len() && patched(#[trigger] relays[index], overrides)
                == candidate,
{
    let patch = |relay: Relay| patched(relay, overrides);
    let accepted = |relay: Relay|
        relay_accepted(location, providers, ownership, custom_lists, &relay);
    let all = relays.map_values(patch);
    let kept = all.filter(accepted);
    let at = choose|at: int| 0 <= at < kept.len() && kept[at] == candidate;
    all.lemma_filter_pred(accepted, at);
    all.lemma_filter_contains_rev(accepted, candidate);
    let index = choose|index: int| 0 <= index < all.len() && all[index] == candidate;
    assert(patched(relays[index], overrides) == candidate);
}

/// Every relay of the list that is accepted once the overrides are applied is
/// a candidate.
pub proof fn lemma_accepted_is_candidate(
    relays: Seq<Relay>,
    location: &Constraint<LocationConstraint>,
    providers: &Constraint<Providers>,
    ownership: &Constraint<Ownership>,
    overrides: Seq<RelayOverride>,
    custom_lists: &CustomListsSettings,
    index: int,
)
    requires
        0 <= index < relays.len(),
        relay_accepted(
            location,
            providers,
            ownership,
            custom_lists,
            &patched(relays[index], overrides),
        ),
    ensures
        candidates(relays, location, providers, ownership, overrides, custom_lists).contains(
            patched(relays[index], overrides),
        ),
{
    let patch = |relay: Relay| patched(relay, overrides);
    let accepted = |relay: Relay|
        relay_accepted(location, providers, ownership, custom_lists, &relay);
    let all = relays.map_values(patch);
    assert(all[index] == patched(relays[index], overrides));
    all.lemma_filter_contains(accepted, index);
}

/// Constraints that are all open accept every relay.
pub proof fn lemma_open_constraints_accept_all(
    location: &Constraint<LocationConstraint>,
    providers: &Constraint<Providers>,
    ownership: &Constraint<Ownership>,
    custom_lists: &CustomListsSettings,
    relay: &Relay,
)
    requires
        location is Any,
        providers is Any,
        ownership is Any,
    ensures
        relay_accepted(location, providers, ownership, custom_lists, relay),
{
}

/// A relay that weighted selection may return is a candidate of weight
/// above 0, unless all candidates have the weight 0.
pub proof fn lemma_picked_has_weight(relays: Seq<Relay>, relay: Relay, other: int)
    requires
        may_be_picked(relays, relay),
        0 <= other < relays.len(),
        relays[other].weight > 0,
    ensures
        relay.weight > 0,
        relays.contains(relay),
{
    let index = choose|index: int|
        selectable(relay_weights(relays), index) && #[trigger] relays[index] == relay;
    crate::sampling::lemma_positive_weight(relay_weights(relays), other);
}

} // verus!
