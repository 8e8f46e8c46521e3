//! Addresses that the user has set for single relays, in place of those of
//! the relay list.

use crate::net::{Ipv4Address, Ipv6Address};
use crate::relay_list::{Hostname, Relay};
use vstd::prelude::*;

verus! {

/// Options to override for a particular relay to use instead of the ones specified in the relay
/// list
#[derive(Debug, PartialEq, Eq)]
pub struct RelayOverride {
    /// Hostname for which to override the given options
    pub hostname: Hostname,
    /// IPv4 address to use instead of the default
    pub ipv4_addr_in: Option<Ipv4Address>,
    /// IPv6 address to use instead of the default
    pub ipv6_addr_in: Option<Ipv6Address>,
}

impl Clone for RelayOverride {
    fn clone(&self) -> (copy: Self)
        ensures
            copy == *self,
    {
        RelayOverride {
            hostname: self.hostname.clone(),
            ipv4_addr_in: self.ipv4_addr_in,
            ipv6_addr_in: self.ipv6_addr_in,
        }
    }
}

impl RelayOverride {
    /// The relay with the addresses that the override sets in place of its
    /// own. Nothing else changes, and an address that the override does not
    /// set stays as it is.
    pub open spec fn applied_to(&self, relay: Relay) -> Relay {
        Relay {
            ipv4_addr_in: match self.ipv4_addr_in {
                Some(address) => address,
                None => relay.ipv4_addr_in,
            },
            ipv6_addr_in: match self.ipv6_addr_in {
                Some(address) => Some(address),
                None => relay.ipv6_addr_in,
            },
            ..relay
        }
    }

    /// An override for `hostname` that sets nothing.
    pub fn empty(hostname: Hostname) -> (made: RelayOverride)
        ensures
            made == (RelayOverride { hostname, ipv4_addr_in: None, ipv6_addr_in: None }),
    {
        RelayOverride { hostname, ipv4_addr_in: None, ipv6_addr_in: None }
    }

    /// Whether the override sets nothing.
    pub fn is_empty(&self) -> (empty: bool)
        ensures
            empty == (self.ipv4_addr_in is None && self.ipv6_addr_in is None),
    {
        self.ipv4_addr_in.is_none() && self.ipv6_addr_in.is_none()
    }

    /// Sets the addresses of the override on a relay.
    pub fn apply_to_relay(&self, relay: &mut Relay)
        ensures
            *final(relay) == self.applied_to(*old(relay)),
    {
        if let Some(ipv4_addr_in) = self.ipv4_addr_in {
            relay.ipv4_addr_in = ipv4_addr_in;
        }
        if let Some(ipv6_addr_in) = self.ipv6_addr_in {
            relay.ipv6_addr_in = Some(ipv6_addr_in);
        }
    }
}

/// The override that holds for a relay of the name `hostname`: the last one
/// in `overrides` that is made out for that name. The overrides are keyed by
/// hostname, so a later one for the same name takes the place of an earlier
/// one.
pub open spec fn override_for(overrides: Seq<RelayOverride>, hostname: Seq<char>) -> Option<
    RelayOverride,
>
    decreases overrides.len(),
{
    if overrides.len() == 0 {
        None
    } else if overrides.last().hostname@ == hostname {
        Some(overrides.last())
    } else {
        override_for(overrides.drop_last(), hostname)
    }
}

/// A relay as it stands once the overrides are applied: patched by the
/// override that holds for it, or unchanged if there is none.
pub open spec fn patched(relay: Relay, overrides: Seq<RelayOverride>) -> Relay {
    match override_for(overrides, relay.hostname@) {
        Some(relay_override) => relay_override.applied_to(relay),
        None => relay,
    }
}

/// Finds the override that holds for a relay of the name `hostname`.
pub fn find_override<'a>(overrides: &'a [RelayOverride], hostname: &Hostname) -> (found: Option<
    &'a RelayOverride,
>)
    ensures
        match found {
            Some(relay_override) => override_for(overrides@, hostname@) == Some(*relay_override),
            None => override_for(overrides@, hostname@) is None,
        },
{
    let mut index: usize = overrides.len();
    assert(overrides@.take(index as int) =~= overrides@);
    while index > 0
        invariant
            index <= overrides@.len(),
            override_for(overrides@, hostname@) == override_for(
                overrides@.take(index as int),
                hostname@,
            ),
        decreases index,
    {
        index -= 1;
        assert(overrides@.take(index + 1).drop_last() =~= overrides@.take(index as int));
        if overrides[index].hostname == *hostname {
            return Some(&overrides[index]);
        }
    }
    None
}

/// Applies the overrides to a relay.
pub fn apply_overrides(overrides: &[RelayOverride], relay: &mut Relay)
    ensures
        *final(relay) == patched(*old(relay), overrides@),
{
    let found = find_override(overrides, &relay.hostname);
    if let Some(relay_override) = found {
        relay_override.apply_to_relay(relay);
    }
}

/// Overrides change the addresses of a relay and nothing else: not its
/// name, location, owner, provider or weight.
pub proof fn lemma_patched_keeps_identity(relay: Relay, overrides: Seq<RelayOverride>)
    ensures
        patched(relay, overrides).hostname == relay.hostname,
        patched(relay, overrides).location == relay.location,
        patched(relay, overrides).owned == relay.owned,
        patched(relay, overrides).provider == relay.provider,
        patched(relay, overrides).weight == relay.weight,
{
}

/// Where no override is made out for a relay, the relay stays as it is.
pub proof fn lemma_no_override_is_identity(relay: Relay, overrides: Seq<RelayOverride>)
    requires
        forall|index: int|
            0 <= index < overrides.len() ==> (#[trigger] overrides[index]).hostname@
                != relay.hostname@,
    ensures
        patched(relay, overrides) == relay,
    decreases overrides.len(),
{
    if overrides.len() > 0 {
        lemma_no_override_is_identity(relay, overrides.drop_last());
    }
}

/// An override that sets nothing leaves a relay as it is.
pub proof fn lemma_empty_override_is_identity(relay_override: RelayOverride, relay: Relay)
    requires
        relay_override.ipv4_addr_in is None,
        relay_override.ipv6_addr_in is None,
    ensures
        relay_override.applied_to(relay) == relay,
{
}

} // verus!
