//! Constraints on where a relay stands: a country, a city in it, or one
//! host in that city.

use crate::constraints::{Constraint, Match, Subset};
use crate::describe::Describe;
use crate::net::Ipv4Address;
use crate::relay_list::{CityCode, CountryCode, Hostname, LocationView, Relay, RelayView};
use vstd::prelude::*;
use vstd::string::StringExecFns;

verus! {

/// Limits relays by location.
#[derive(Debug, PartialEq, Eq, PartialOrd, Ord)]
pub enum GeographicLocationConstraint {
    /// A country is represented by its two letter country code.
    Country(CountryCode),
    /// A city is composed of a country code and a city code.
    City(CountryCode, CityCode),
    /// A single hostname in a given city.
    Hostname(CountryCode, CityCode, Hostname),
}

/// What a [`GeographicLocationConstraint`] holds.
pub enum GeographicLocationView {
    Country(Seq<char>),
    City(Seq<char>, Seq<char>),
    Hostname(Seq<char>, Seq<char>, Seq<char>),
}

impl View for GeographicLocationConstraint {
    type V = GeographicLocationView;

    open spec fn view(&self) -> GeographicLocationView {
        match self {
            GeographicLocationConstraint::Country(country) => GeographicLocationView::Country(
                country@,
            ),
            GeographicLocationConstraint::City(country, city) => GeographicLocationView::City(
                country@,
                city@,
            ),
            GeographicLocationConstraint::Hostname(
                country,
                city,
                hostname,
            ) => GeographicLocationView::Hostname(country@, city@, hostname@),
        }
    }
}

impl GeographicLocationView {
    /// Whether a relay lies in the location.
    ///
    /// A relay without a location lies nowhere.
    pub open spec fn accepts(self, relay: RelayView) -> bool {
        match relay.location {
            None => false,
            Some(location) => match self {
                GeographicLocationView::Country(country) => location.country_code == country,
                GeographicLocationView::City(country, city) => {
                    location.country_code == country && location.city_code == city
                },
                GeographicLocationView::Hostname(country, city, hostname) => {
                    location.country_code == country && location.city_code == city
                        && relay.hostname == hostname
                },
            },
        }
    }

    /// Whether the location is `other` or a part of it.
    ///
    /// A host is part of its city and of its country, a city is part of its
    /// country, and nothing is part of anything in another country.
    pub open spec fn within(self, other: GeographicLocationView) -> bool {
        match self {
            GeographicLocationView::Country(_) => self == other,
            GeographicLocationView::City(country, _) => match other {
                GeographicLocationView::Country(other_country) => country == other_country,
                GeographicLocationView::City(_, _) => self == other,
                GeographicLocationView::Hostname(_, _, _) => false,
            },
            GeographicLocationView::Hostname(country, city, _) => match other {
                GeographicLocationView::Country(other_country) => country == other_country,
                GeographicLocationView::City(other_country, other_city) => {
                    country == other_country && city == other_city
                },
                GeographicLocationView::Hostname(_, _, _) => self == other,
            },
        }
    }
}

impl GeographicLocationConstraint {
    /// Create a new [`GeographicLocationConstraint`] given a country.
    pub fn country(country: &str) -> (constraint: Self)
        ensures
            constraint@ == GeographicLocationView::Country(country@),
    {
        GeographicLocationConstraint::Country(country.to_owned())
    }

    /// Create a new [`GeographicLocationConstraint`] given a country and city.
    pub fn city(country: &str, city: &str) -> (constraint: Self)
        ensures
            constraint@ == GeographicLocationView::City(country@, city@),
    {
        GeographicLocationConstraint::City(country.to_owned(), city.to_owned())
    }

    /// Create a new [`GeographicLocationConstraint`] given a country, city and hostname.
    pub fn hostname(country: &str, city: &str, hostname: &str) -> (constraint: Self)
        ensures
            constraint@ == GeographicLocationView::Hostname(country@, city@, hostname@),
    {
        GeographicLocationConstraint::Hostname(
            country.to_owned(),
            city.to_owned(),
            hostname.to_owned(),
        )
    }

    /// Whether the constraint names a whole country.
    pub fn is_country(&self) -> (whole: bool)
        ensures
            whole == (self is Country),
            whole == (self@ is Country),
    {
        match self {
            GeographicLocationConstraint::Country(_) => true,
            _ => false,
        }
    }
}

impl Clone for GeographicLocationConstraint {
    fn clone(&self) -> (copy: Self)
        ensures
            copy == *self,
    {
        match self {
            GeographicLocationConstraint::Country(country) => {
                GeographicLocationConstraint::Country(country.clone())
            },
            GeographicLocationConstraint::City(country, city) => {
                GeographicLocationConstraint::City(country.clone(), city.clone())
            },
            GeographicLocationConstraint::Hostname(country, city, hostname) => {
                GeographicLocationConstraint::Hostname(
                    country.clone(),
                    city.clone(),
                    hostname.clone(),
                )
            },
        }
    }
}

/// A country is described as `country` and its code, a city as `city`, its
/// code and the code of its country, and a host as its city, followed by
/// `hostname` and the name of the host.
impl Describe for GeographicLocationConstraint {
    open spec fn description(&self) -> Seq<char> {
        match self {
            GeographicLocationConstraint::Country(country) => "country "@ + country@,
            GeographicLocationConstraint::City(country, city) => "city "@ + city@ + ", "@
                + country@,
            GeographicLocationConstraint::Hostname(country, city, hostname) => "city "@ + city@
                + ", "@ + country@ + ", hostname "@ + hostname@,
        }
    }

    fn describe(&self) -> (text: String) {
        match self {
            GeographicLocationConstraint::Country(country) => {
                let mut text = String::from_str("country ");
                text.append(country.as_str());
                text
            },
            GeographicLocationConstraint::City(country, city) => {
                let mut text = String::from_str("city ");
                text.append(city.as_str());
                text.append(", ");
                text.append(country.as_str());
                text
            },
            GeographicLocationConstraint::Hostname(country, city, hostname) => {
                let mut text = String::from_str("city ");
                text.append(city.as_str());
                text.append(", ");
                text.append(country.as_str());
                text.append(", hostname ");
                text.append(hostname.as_str());
                text
            },
        }
    }
}

impl Match<Relay> for GeographicLocationConstraint {
    open spec fn accepts(&self, relay: &Relay) -> bool {
        self@.accepts(relay@)
    }

    fn matches(&self, relay: &Relay) -> (accepted: bool) {
        match &relay.location {
            None => false,
            Some(location) => match self {
                GeographicLocationConstraint::Country(country) => {
                    location.country_code == *country
                },
                GeographicLocationConstraint::City(country, city) => {
                    location.country_code == *country && location.city_code == *city
                },
                GeographicLocationConstraint::Hostname(country, city, hostname) => {
                    location.country_code == *country && location.city_code == *city
                        && relay.hostname == *hostname
                },
            },
        }
    }
}

impl Subset<GeographicLocationConstraint> for GeographicLocationConstraint {
    open spec fn within(&self, other: &GeographicLocationConstraint) -> bool {
        self@.within(other@)
    }

    /// Returns whether `self` is equal to or a subset of `other`.
    fn is_subset(&self, other: &Self) -> (subset: bool) {
        match self {
            GeographicLocationConstraint::Country(country) => match other {
                GeographicLocationConstraint::Country(other_country) => *country == *other_country,
                _ => false,
            },
            GeographicLocationConstraint::City(country, city) => match other {
                GeographicLocationConstraint::Country(other_country) => *country == *other_country,
                GeographicLocationConstraint::City(other_country, other_city) => {
                    *country == *other_country && *city == *other_city
                },
                GeographicLocationConstraint::Hostname(_, _, _) => false,
            },
            GeographicLocationConstraint::Hostname(country, city, hostname) => match other {
                GeographicLocationConstraint::Country(other_country) => *country == *other_country,
                GeographicLocationConstraint::City(other_country, other_city) => {
                    *country == *other_country && *city == *other_city
                },
                GeographicLocationConstraint::Hostname(
                    other_country,
                    other_city,
                    other_hostname,
                ) => *country == *other_country && *city == *other_city && *hostname == *other_hostname,
            },
        }
    }
}

/// The views of the locations in `locations`, in order.
pub open spec fn location_views(
    locations: Seq<GeographicLocationConstraint>,
) -> Seq<GeographicLocationView> {
    locations.map_values(|location: GeographicLocationConstraint| location@)
}

/// Whether a relay lies in one of the locations of a list.
pub open spec fn any_accepts(locations: Seq<GeographicLocationView>, relay: RelayView) -> bool {
    exists|index: int| 0 <= index < locations.len() && (#[trigger] locations[index]).accepts(relay)
}

/// Whether every location of `narrow` lies within some location of `broad`.
pub open spec fn all_within(
    narrow: Seq<GeographicLocationView>,
    broad: Seq<GeographicLocationView>,
) -> bool {
    forall|index: int|
        0 <= index < narrow.len() ==> within_some(#[trigger] narrow[index], broad)
}

/// Whether `location` lies within some location of `broad`.
pub open spec fn within_some(
    location: GeographicLocationView,
    broad: Seq<GeographicLocationView>,
) -> bool {
    exists|index: int| 0 <= index < broad.len() && location.within(#[trigger] broad[index])
}

/// A list of locations accepts the relays that one of its locations
/// accepts. An empty list accepts none.
impl Match<Relay> for Vec<GeographicLocationConstraint> {
    open spec fn accepts(&self, relay: &Relay) -> bool {
        any_accepts(location_views(self@), relay@)
    }

    fn matches(&self, relay: &Relay) -> (accepted: bool) {
        let mut index: usize = 0;
        while index < self.len()
            invariant
                index <= self@.len(),
                forall|earlier: int|
                    0 <= earlier < index ==> !(#[trigger] location_views(self@)[earlier]).accepts(
                        relay@,
                    ),
            decreases self@.len() - index,
        {
            if self[index].matches(relay) {
                assert(location_views(self@)[index as int].accepts(relay@));
                return true;
            }
            index += 1;
        }
        false
    }
}

/// Whether `location` lies within one of the locations of `broad`.
fn lies_within_some(
    location: &GeographicLocationConstraint,
    broad: &Vec<GeographicLocationConstraint>,
) -> (found: bool)
    ensures
        found == within_some(location@, location_views(broad@)),
{
    let mut index: usize = 0;
    while index < broad.len()
        invariant
            index <= broad@.len(),
            forall|earlier: int|
                0 <= earlier < index ==> !location@.within(
                    #[trigger] location_views(broad@)[earlier],
                ),
        decreases broad@.len() - index,
    {
        if location.is_subset(&broad[index]) {
            assert(location@.within(location_views(broad@)[index as int]));
            return true;
        }
        index += 1;
    }
    false
}

/// Whether each location of `narrow` lies within one of the locations of
/// `broad`.
fn all_lie_within(
    narrow: &Vec<GeographicLocationConstraint>,
    broad: &Vec<GeographicLocationConstraint>,
) -> (all: bool)
    ensures
        all == all_within(location_views(narrow@), location_views(broad@)),
{
    let mut index: usize = 0;
    while index < narrow.len()
        invariant
            index <= narrow@.len(),
            forall|earlier: int|
                0 <= earlier < index ==> within_some(
                    #[trigger] location_views(narrow@)[earlier],
                    location_views(broad@),
                ),
        decreases narrow@.len() - index,
    {
        if !lies_within_some(&narrow[index], broad) {
            assert(!within_some(location_views(narrow@)[index as int], location_views(broad@)));
            return false;
        }
        index += 1;
    }
    true
}

/// A list of locations under a constraint lies within another if the other
/// is open, or if both are lists and each location of the first lies within
/// some location of the second. An open constraint lies within an open one
/// only.
impl Subset<Constraint<Vec<GeographicLocationConstraint>>> for Constraint<
    Vec<GeographicLocationConstraint>,
> {
    open spec fn within(&self, other: &Constraint<Vec<GeographicLocationConstraint>>) -> bool {
        match self {
            Constraint::Any => other is Any,
            Constraint::Only(locations) => match other {
                Constraint::Any => true,
                Constraint::Only(other_locations) => all_within(
                    location_views(locations@),
                    location_views(other_locations@),
                ),
            },
        }
    }

    fn is_subset(&self, other: &Self) -> (subset: bool) {
        match self {
            Constraint::Any => other.is_any(),
            Constraint::Only(locations) => match other {
                Constraint::Any => true,
                Constraint::Only(other_locations) => all_lie_within(locations, other_locations),
            },
        }
    }
}

/// Every location lies within itself.
pub proof fn lemma_within_reflexive(a: GeographicLocationView)
    ensures
        a.within(a),
{
}

/// A location within a second, which lies within a third, lies within the
/// third.
pub proof fn lemma_within_transitive(
    a: GeographicLocationView,
    b: GeographicLocationView,
    c: GeographicLocationView,
)
    requires
        a.within(b),
        b.within(c),
    ensures
        a.within(c),
{
}

/// Two locations that lie within each other are the same location: the
/// relation is an order, and never holds both ways between different
/// locations.
pub proof fn lemma_within_antisymmetric(a: GeographicLocationView, b: GeographicLocationView)
    requires
        a.within(b),
        b.within(a),
    ensures
        a == b,
{
}

/// A host lies within its city and its country, and a city within its
/// country, but not the other way round.
pub proof fn lemma_hierarchy(country: Seq<char>, city: Seq<char>, hostname: Seq<char>)
    ensures
        GeographicLocationView::Hostname(country, city, hostname).within(
            GeographicLocationView::City(country, city),
        ),
        GeographicLocationView::Hostname(country, city, hostname).within(
            GeographicLocationView::Country(country),
        ),
        GeographicLocationView::City(country, city).within(
            GeographicLocationView::Country(country),
        ),
        !GeographicLocationView::Country(country).within(
            GeographicLocationView::City(country, city),
        ),
        !GeographicLocationView::Country(country).within(
            GeographicLocationView::Hostname(country, city, hostname),
        ),
        !GeographicLocationView::City(country, city).within(
            GeographicLocationView::Hostname(country, city, hostname),
        ),
{
}

/// A country lies within nothing but itself.
pub proof fn lemma_country_within_itself_only(
    a: GeographicLocationView,
    b: GeographicLocationView,
)
    requires
        a is Country,
        a.within(b),
    ensures
        a == b,
{
}

/// The country that a location names.
pub open spec fn country_of(location: GeographicLocationView) -> Seq<char> {
    match location {
        GeographicLocationView::Country(country) => country,
        GeographicLocationView::City(country, _) => country,
        GeographicLocationView::Hostname(country, _, _) => country,
    }
}

/// Locations in different countries never lie within each other.
pub proof fn lemma_within_keeps_country(a: GeographicLocationView, b: GeographicLocationView)
    requires
        a.within(b),
    ensures
        country_of(a) == country_of(b),
{
}

/// A location that lies within another accepts no relay that the other
/// rejects.
pub proof fn lemma_within_sound(
    a: GeographicLocationView,
    b: GeographicLocationView,
    relay: RelayView,
)
    requires
        a.within(b),
        a.accepts(relay),
    ensures
        b.accepts(relay),
{
}

/// If every relay that one location accepts is accepted by another, the
/// first lies within the second.
pub proof fn lemma_within_complete(a: GeographicLocationView, b: GeographicLocationView)
    requires
        forall|relay: RelayView| a.accepts(relay) ==> b.accepts(relay),
    ensures
        a.within(b),
{
    let other_city = match b {
        GeographicLocationView::Country(_) => seq!['a'],
        GeographicLocationView::City(_, city) => city.push('a'),
        GeographicLocationView::Hostname(_, city, _) => city.push('a'),
    };
    let other_host = match b {
        GeographicLocationView::Hostname(_, _, hostname) => hostname.push('a'),
        _ => seq!['a'],
    };
    let witness = match a {
        GeographicLocationView::Country(country) => RelayView {
            hostname: other_host,
            location: Some(LocationView { country_code: country, city_code: other_city }),
            owned: false,
            provider: Seq::empty(),
            weight: 0,
            ipv4_addr_in: Ipv4Address { bits: 0 },
            ipv6_addr_in: None,
        },
        GeographicLocationView::City(country, city) => RelayView {
            hostname: other_host,
            location: Some(LocationView { country_code: country, city_code: city }),
            owned: false,
            provider: Seq::empty(),
            weight: 0,
            ipv4_addr_in: Ipv4Address { bits: 0 },
            ipv6_addr_in: None,
        },
        GeographicLocationView::Hostname(country, city, hostname) => RelayView {
            hostname,
            location: Some(LocationView { country_code: country, city_code: city }),
            owned: false,
            provider: Seq::empty(),
            weight: 0,
            ipv4_addr_in: Ipv4Address { bits: 0 },
            ipv6_addr_in: None,
        },
    };
    assert(a.accepts(witness));
    assert(b.accepts(witness));
    assert(other_city.len() > 0);
    assert(other_host.len() > 0);
}

/// A list of locations that lies within another accepts no relay that the
/// other rejects.
pub proof fn lemma_all_within_sound(
    narrow: Seq<GeographicLocationView>,
    broad: Seq<GeographicLocationView>,
    relay: RelayView,
)
    requires
        all_within(narrow, broad),
        any_accepts(narrow, relay),
    ensures
        any_accepts(broad, relay),
{
    let index = choose|index: int|
        0 <= index < narrow.len() && (#[trigger] narrow[index]).accepts(relay);
    assert(within_some(narrow[index], broad));
    let other = choose|other: int|
        0 <= other < broad.len() && narrow[index].within(#[trigger] broad[other]);
    lemma_within_sound(narrow[index], broad[other], relay);
}

/// Every list of locations lies within itself.
pub proof fn lemma_all_within_reflexive(locations: Seq<GeographicLocationView>)
    ensures
        all_within(locations, locations),
{
    assert forall|index: int| 0 <= index < locations.len() implies within_some(
        #[trigger] locations[index],
        locations,
    ) by {
        lemma_within_reflexive(locations[index]);
    }
}

/// A list within a second, which lies within a third, lies within the
/// third.
pub proof fn lemma_all_within_transitive(
    a: Seq<GeographicLocationView>,
    b: Seq<GeographicLocationView>,
    c: Seq<GeographicLocationView>,
)
    requires
        all_within(a, b),
        all_within(b, c),
    ensures
        all_within(a, c),
{
    assert forall|index: int| 0 <= index < a.len() implies within_some(#[trigger] a[index], c) by {
        assert(within_some(a[index], b));
        let middle = choose|middle: int|
            0 <= middle < b.len() && a[index].within(#[trigger] b[middle]);
        assert(within_some(b[middle], c));
        let last = choose|last: int| 0 <= last < c.len() && b[middle].within(#[trigger] c[last]);
        lemma_within_transitive(a[index], b[middle], c[last]);
    }
}

/// A length that no city code and no hostname in a list of locations
/// reaches.
spec fn beyond_all_names(locations: Seq<GeographicLocationView>) -> nat
    decreases locations.len(),
{
    if locations.len() == 0 {
        1
    } else {
        let rest = beyond_all_names(locations.drop_last());
        let (city, hostname) = match locations.last() {
            GeographicLocationView::Country(_) => (0, 0),
            GeographicLocationView::City(_, city) => (city.len(), 0),
            GeographicLocationView::Hostname(_, city, hostname) => (city.len(), hostname.len()),
        };
        rest + city + hostname + 1
    }
}

/// No city code and no hostname in a list of locations is as long as
/// `beyond_all_names` of the list.
proof fn lemma_beyond_all_names(locations: Seq<GeographicLocationView>, index: int)
    requires
        0 <= index < locations.len(),
    ensures
        match locations[index] {
            GeographicLocationView::Country(_) => true,
            GeographicLocationView::City(_, city) => city.len() < beyond_all_names(locations),
            GeographicLocationView::Hostname(_, city, hostname) => city.len() < beyond_all_names(
                locations,
            ) && hostname.len() < beyond_all_names(locations),
        },
    decreases locations.len(),
{
    if index < locations.len() - 1 {
        lemma_beyond_all_names(locations.drop_last(), index);
    }
}

/// If every relay that a list of locations accepts is accepted by another
/// list, the first lies within the second. With `lemma_all_within_sound`:
/// one list lies within another exactly if it accepts no relay that the other
/// rejects.
pub proof fn lemma_all_within_complete(
    narrow: Seq<GeographicLocationView>,
    broad: Seq<GeographicLocationView>,
)
    requires
        forall|relay: RelayView| any_accepts(narrow, relay) ==> any_accepts(broad, relay),
    ensures
        all_within(narrow, broad),
{
    assert forall|index: int| 0 <= index < narrow.len() implies within_some(
        #[trigger] narrow[index],
        broad,
    ) by {
        let unused = Seq::new(beyond_all_names(broad), |position: int| 'a');
        let location = narrow[index];
        let witness = RelayView {
            hostname: match location {
                GeographicLocationView::Hostname(_, _, hostname) => hostname,
                _ => unused,
            },
            location: Some(
                LocationView {
                    country_code: country_of(location),
                    city_code: match location {
                        GeographicLocationView::Country(_) => unused,
                        GeographicLocationView::City(_, city) => city,
                        GeographicLocationView::Hostname(_, city, _) => city,
                    },
                },
            ),
            owned: false,
            provider: Seq::empty(),
            weight: 0,
            ipv4_addr_in: Ipv4Address { bits: 0 },
            ipv6_addr_in: None,
        };
        assert(location.accepts(witness));
        assert(any_accepts(narrow, witness));
        assert(any_accepts(broad, witness));
        let other = choose|other: int|
            0 <= other < broad.len() && (#[trigger] broad[other]).accepts(witness);
        lemma_beyond_all_names(broad, other);
        assert(location.within(broad[other]));
    }
}

} // verus!
