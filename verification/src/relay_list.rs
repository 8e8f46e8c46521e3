//! Relay records, as they come from the relay list.

use crate::net::{Ipv4Address, Ipv6Address};
use vstd::prelude::*;

verus! {

/// A country, by its two letter code.
pub type CountryCode = String;

/// A city, by its code.
pub type CityCode = String;

/// The name of a relay, which identifies it.
pub type Hostname = String;

/// Who runs a relay.
pub type Provider = String;

/// Where a relay stands.
#[derive(Debug, PartialEq, Eq)]
pub struct Location {
    pub country_code: CountryCode,
    pub city_code: CityCode,
}

/// What a [`Location`] holds.
pub struct LocationView {
    pub country_code: Seq<char>,
    pub city_code: Seq<char>,
}

impl View for Location {
    type V = LocationView;

    open spec fn view(&self) -> LocationView {
        LocationView { country_code: self.country_code@, city_code: self.city_code@ }
    }
}

impl Clone for Location {
    fn clone(&self) -> (copy: Self)
        ensures
            copy == *self,
    {
        Location { country_code: self.country_code.clone(), city_code: self.city_code.clone() }
    }
}

/// A candidate server.
#[derive(Debug, PartialEq, Eq)]
pub struct Relay {
    pub hostname: Hostname,
    pub location: Option<Location>,
    /// Whether the relay is owned rather than rented.
    pub owned: bool,
    pub provider: Provider,
    /// How strongly random selection favours the relay.
    pub weight: u64,
    pub ipv4_addr_in: Ipv4Address,
    pub ipv6_addr_in: Option<Ipv6Address>,
}

/// What a [`Relay`] holds.
pub struct RelayView {
    pub hostname: Seq<char>,
    pub location: Option<LocationView>,
    pub owned: bool,
    pub provider: Seq<char>,
    pub weight: u64,
    pub ipv4_addr_in: Ipv4Address,
    pub ipv6_addr_in: Option<Ipv6Address>,
}

impl View for Relay {
    type V = RelayView;

    open spec fn view(&self) -> RelayView {
        RelayView {
            hostname: self.hostname@,
            location: match self.location {
                Some(location) => Some(location@),
                None => None,
            },
            owned: self.owned,
            provider: self.provider@,
            weight: self.weight,
            ipv4_addr_in: self.ipv4_addr_in,
            ipv6_addr_in: self.ipv6_addr_in,
        }
    }
}

impl Clone for Relay {
    fn clone(&self) -> (copy: Self)
        ensures
            copy == *self,
    {
        Relay {
            hostname: self.hostname.clone(),
            location: match &self.location {
                Some(location) => Some(location.clone()),
                None => None,
            },
            owned: self.owned,
            provider: self.provider.clone(),
            weight: self.weight,
            ipv4_addr_in: self.ipv4_addr_in,
            ipv6_addr_in: self.ipv6_addr_in,
        }
    }
}

/// The views of the relays in `relays`, in order.
pub open spec fn relay_views(relays: Seq<Relay>) -> Seq<RelayView> {
    relays.map_values(|relay: Relay| relay@)
}

} // verus!
