//! Constraints on who runs a relay and who owns it.

use crate::constraints::Match;
use crate::describe::{comma_separated, separate_by_commas, text_views, Describe};
use crate::relay_list::{Provider, Relay};
use vstd::prelude::*;
use vstd::std_specs::convert::FromSpec;
use vstd::string::StringExecFns;

verus! {

/// Limits the set of servers to choose based on ownership.
#[derive(Debug, Clone, Copy, PartialEq, Eq, Structural, Hash)]
pub enum Ownership {
    MullvadOwned,
    Rented,
}

impl Match<Relay> for Ownership {
    open spec fn accepts(&self, relay: &Relay) -> bool {
        match self {
            Ownership::MullvadOwned => relay.owned,
            Ownership::Rented => !relay.owned,
        }
    }

    fn matches(&self, relay: &Relay) -> (accepted: bool) {
        match self {
            Ownership::MullvadOwned => relay.owned,
            Ownership::Rented => !relay.owned,
        }
    }
}

impl Describe for Ownership {
    open spec fn description(&self) -> Seq<char> {
        match self {
            Ownership::MullvadOwned => "Mullvad-owned servers"@,
            Ownership::Rented => "rented servers"@,
        }
    }

    fn describe(&self) -> (text: String) {
        match self {
            Ownership::MullvadOwned => String::from_str("Mullvad-owned servers"),
            Ownership::Rented => String::from_str("rented servers"),
        }
    }
}

/// Returned when a string names no [`Ownership`].
#[derive(Debug, Clone, Copy, PartialEq, Eq, Structural)]
pub struct OwnershipParseError;

impl Describe for OwnershipParseError {
    open spec fn description(&self) -> Seq<char> {
        "Not a valid ownership setting"@
    }

    fn describe(&self) -> (text: String) {
        String::from_str("Not a valid ownership setting")
    }
}

impl Ownership {
    /// The ownership that a string names, if it names one.
    pub open spec fn named_by(s: Seq<char>) -> Option<Ownership> {
        if s == "owned"@ || s == "mullvad-owned"@ {
            Some(Ownership::MullvadOwned)
        } else if s == "rented"@ {
            Some(Ownership::Rented)
        } else {
            None
        }
    }

    /// What reading a string as an ownership gives: the ownership that
    /// it names, or an error if it names none.
    pub open spec fn read_from(s: Seq<char>) -> Result<Ownership, OwnershipParseError> {
        match Self::named_by(s) {
            Some(ownership) => Ok(ownership),
            None => Err(OwnershipParseError),
        }
    }

    /// Reads an ownership from its name: `owned` or `mullvad-owned`, or
    /// `rented`.
    pub fn parse(s: &str) -> (parsed: Result<Ownership, OwnershipParseError>)
        ensures
            parsed == Self::read_from(s@),
    {
        let name = s.to_owned();
        if name == "owned".to_owned() || name == "mullvad-owned".to_owned() {
            Ok(Ownership::MullvadOwned)
        } else if name == "rented".to_owned() {
            Ok(Ownership::Rented)
        } else {
            Err(OwnershipParseError)
        }
    }
}

impl std::str::FromStr for Ownership {
    type Err = OwnershipParseError;

    fn from_str(s: &str) -> (parsed: Result<Ownership, OwnershipParseError>)
        ensures
            parsed == Ownership::read_from(s@),
    {
        Ownership::parse(s)
    }
}

/// The names in a list of providers.
pub open spec fn names_of(providers: Seq<Provider>) -> Set<Seq<char>> {
    Set::new(
        |name: Seq<char>|
            exists|index: int| 0 <= index < providers.len() && (#[trigger] providers[index])@ == name,
    )
}

/// The names of a list, each once, in the order in which they first
/// occur.
pub open spec fn first_occurrences(names: Seq<Seq<char>>) -> Seq<Seq<char>>
    decreases names.len(),
{
    if names.len() == 0 {
        Seq::empty()
    } else {
        let before = first_occurrences(names.drop_last());
        if before.contains(names.last()) {
            before
        } else {
            before.push(names.last())
        }
    }
}

/// Whether no name stands twice in a list of providers.
pub open spec fn distinct_names(providers: Seq<Provider>) -> bool {
    forall|first: int, second: int|
        0 <= first < second < providers.len() ==> (#[trigger] providers[first])@
            != (#[trigger] providers[second])@
}

/// Limits relays to those of some providers. There is always at least one
/// provider: no value of this type accepts no relay at all.
#[derive(Debug, PartialEq, Eq)]
pub struct Providers {
    providers: Vec<Provider>,
}

/// Returned if no provider was given.
#[derive(Debug)]
pub struct NoProviders(());

impl View for Providers {
    type V = Set<Seq<char>>;

    closed spec fn view(&self) -> Set<Seq<char>> {
        names_of(self.providers@)
    }
}

/// Whether `name` stands in `providers`.
fn holds_name(providers: &Vec<Provider>, name: &Provider) -> (found: bool)
    ensures
        found == names_of(providers@).contains(name@),
{
    let mut index: usize = 0;
    while index < providers.len()
        invariant
            index <= providers@.len(),
            forall|earlier: int| 0 <= earlier < index ==> (#[trigger] providers@[earlier])@ != name@,
        decreases providers@.len() - index,
    {
        if providers[index] == *name {
            return true;
        }
        index += 1;
    }
    false
}

impl Providers {
    #[verifier::type_invariant]
    spec fn well_formed(self) -> bool {
        self.providers@.len() > 0 && distinct_names(self.providers@)
    }

    /// The names of the providers, each once, in the order in which they
    /// were first given.
    pub closed spec fn names(&self) -> Seq<Seq<char>> {
        text_views(self.providers@)
    }

    /// Makes a constraint from the names of the providers to accept. A name
    /// given more than once counts once.
    pub fn new(providers: Vec<Provider>) -> (made: Result<Providers, NoProviders>)
        ensures
            made is Err <==> providers@.len() == 0,
            made matches Ok(constraint) ==> constraint@ == names_of(providers@),
            made matches Ok(constraint) ==> constraint.names() == first_occurrences(
                text_views(providers@),
            ),
    {
        let mut unique: Vec<Provider> = Vec::new();
        let mut index: usize = 0;
        assert(text_views(providers@.take(0)) =~= Seq::<Seq<char>>::empty());
        assert(text_views(unique@) =~= Seq::<Seq<char>>::empty());
        while index < providers.len()
            invariant
                index <= providers@.len(),
                distinct_names(unique@),
                names_of(unique@) == names_of(providers@.take(index as int)),
                index > 0 ==> unique@.len() > 0,
                unique@.len() <= index,
                text_views(unique@) == first_occurrences(text_views(providers@.take(index as int))),
            decreases providers@.len() - index,
        {
            let ghost seen = providers@.take(index as int);
            let ghost before = unique@;
            let found = holds_name(&unique, &providers[index]);
            if !found {
                unique.push(providers[index].clone());
            }
            proof {
                let next = providers@.take(index + 1);
                assert(text_views(next).drop_last() =~= text_views(seen));
                assert(text_views(next).last() == providers@[index as int]@);
                if found {
                    let at = choose|at: int|
                        0 <= at < before.len() && (#[trigger] before[at])@
                            == providers@[index as int]@;
                    assert(text_views(before)[at] == providers@[index as int]@);
                } else {
                    if text_views(before).contains(providers@[index as int]@) {
                        let at = choose|at: int|
                            0 <= at < text_views(before).len() && text_views(before)[at]
                                == providers@[index as int]@;
                        assert(before[at]@ == providers@[index as int]@);
                    }
                    assert(text_views(unique@) =~= text_views(before).push(
                        providers@[index as int]@,
                    ));
                }
                assert forall|name: Seq<char>| names_of(unique@).contains(name) <==> names_of(
                    next,
                ).contains(name) by {
                    if names_of(unique@).contains(name) {
                        let at = choose|at: int| 0 <= at < unique@.len() && (#[trigger] unique@[at])@ == name;
                        if at < before.len() {
                            assert(before[at]@ == name);
                            assert(names_of(seen).contains(name));
                            let from = choose|from: int| 0 <= from < seen.len() && (#[trigger] seen[from])@ == name;
                            assert(next[from]@ == name);
                        } else {
                            assert(next[index as int]@ == name);
                        }
                    }
                    if names_of(next).contains(name) {
                        let from = choose|from: int| 0 <= from < next.len() && (#[trigger] next[from])@ == name;
                        if from < index {
                            assert(seen[from]@ == name);
                            assert(names_of(before).contains(name));
                            let at = choose|at: int| 0 <= at < before.len() && (#[trigger] before[at])@ == name;
                            assert(unique@[at]@ == name);
                        } else if found {
                            assert(names_of(before).contains(name));
                        } else {
                            assert(unique@[before.len() as int]@ == name);
                        }
                    }
                }
                assert(names_of(unique@) =~= names_of(next));
            }
            index += 1;
        }
        assert(providers@.take(index as int) =~= providers@);
        if unique.len() == 0 {
            return Err(NoProviders(()));
        }
        Ok(Providers { providers: unique })
    }

    /// The names of the providers, each once.
    pub fn into_vec(self) -> (names: Vec<Provider>)
        ensures
            names_of(names@) == self@,
            text_views(names@) == self.names(),
            distinct_names(names@),
            names@.len() > 0,
    {
        proof {
            use_type_invariant(&self);
        }
        self.providers
    }
}

impl From<Providers> for Vec<Provider> {
    /// The names of the providers, each once.
    fn from(providers: Providers) -> (names: Vec<Provider>) {
        providers.providers
    }
}

impl vstd::std_specs::convert::FromSpecImpl<Providers> for Vec<Provider> {
    open spec fn obeys_from_spec() -> bool {
        true
    }

    closed spec fn from_spec(providers: Providers) -> Vec<Provider> {
        providers.providers
    }
}

/// The list that providers are converted into holds their names, each
/// once.
pub proof fn lemma_converted_names(providers: Providers)
    ensures
        text_views(Vec::<Provider>::from_spec(providers)@) == providers.names(),
        names_of(Vec::<Provider>::from_spec(providers)@) == providers@,
{
}

impl Clone for Providers {
    fn clone(&self) -> (copy: Self)
        ensures
            copy@ == self@,
    {
        proof {
            use_type_invariant(self);
        }
        let providers = self.providers.clone();
        assert(providers@ =~= self.providers@);
        Providers { providers }
    }
}

/// Providers are described as `provider(s)` and their names, with commas
/// between them.
impl Describe for Providers {
    open spec fn description(&self) -> Seq<char> {
        "provider(s) "@ + comma_separated(self.names())
    }

    fn describe(&self) -> (text: String) {
        let mut text = String::from_str("provider(s) ");
        text.append(separate_by_commas(&self.providers).as_str());
        text
    }
}

impl Match<Relay> for Providers {
    open spec fn accepts(&self, relay: &Relay) -> bool {
        self@.contains(relay.provider@)
    }

    fn matches(&self, relay: &Relay) -> (accepted: bool) {
        holds_name(&self.providers, &relay.provider)
    }
}

} // verus!
