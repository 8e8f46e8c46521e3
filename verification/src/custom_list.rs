//! Lists of locations that the user has put together under a name.

use crate::location::{location_views, GeographicLocationConstraint, GeographicLocationView};
use vstd::prelude::*;

verus! {

/// Identifies a custom list.
#[derive(Debug, Clone, Copy, PartialEq, Eq, Structural, Hash)]
pub struct Id {
    pub value: u128,
}

/// A named list of locations.
#[derive(Debug, PartialEq, Eq)]
pub struct CustomList {
    pub id: Id,
    pub name: String,
    pub locations: Vec<GeographicLocationConstraint>,
}

/// What a [`CustomList`] holds.
pub struct CustomListView {
    pub id: Id,
    pub name: Seq<char>,
    pub locations: Seq<GeographicLocationView>,
}

impl View for CustomList {
    type V = CustomListView;

    open spec fn view(&self) -> CustomListView {
        CustomListView {
            id: self.id,
            name: self.name@,
            locations: location_views(self.locations@),
        }
    }
}

impl Clone for CustomList {
    fn clone(&self) -> (copy: Self)
        ensures
            copy@ == self@,
    {
        let locations = self.locations.clone();
        assert(locations@ =~= self.locations@);
        CustomList { id: self.id, name: self.name.clone(), locations }
    }
}

/// All the custom lists of the user.
#[derive(Debug, PartialEq, Eq)]
pub struct CustomListsSettings {
    pub custom_lists: Vec<CustomList>,
}

impl CustomListsSettings {
    /// The position of the first list in `lists` that has the id `id`.
    pub open spec fn position(lists: Seq<CustomList>, id: Id) -> Option<int>
        decreases lists.len(),
    {
        if lists.len() == 0 {
            None
        } else if lists[0].id == id {
            Some(0)
        } else {
            match Self::position(lists.drop_first(), id) {
                Some(index) => Some(index + 1),
                None => None,
            }
        }
    }

    /// The first list with the id `id`, if there is one.
    pub open spec fn lookup(&self, id: Id) -> Option<CustomList> {
        match Self::position(self.custom_lists@, id) {
            Some(index) => Some(self.custom_lists@[index]),
            None => None,
        }
    }

    /// Settings without any list.
    pub fn new() -> (settings: Self)
        ensures
            settings.custom_lists@.len() == 0,
    {
        CustomListsSettings { custom_lists: Vec::new() }
    }

    /// Finds the first list with the id `id`.
    pub fn find(&self, id: Id) -> (found: Option<&CustomList>)
        ensures
            match found {
                Some(list) => self.lookup(id) == Some(*list),
                None => self.lookup(id) is None,
            },
    {
        let mut index: usize = 0;
        assert(self.custom_lists@.skip(0) =~= self.custom_lists@);
        while index < self.custom_lists.len()
            invariant
                index <= self.custom_lists@.len(),
                Self::position(self.custom_lists@, id) == match Self::position(
                    self.custom_lists@.skip(index as int),
                    id,
                ) {
                    Some(offset) => Some(offset + index),
                    None => None,
                },
            decreases self.custom_lists@.len() - index,
        {
            let ghost rest = self.custom_lists@.skip(index as int);
            assert(rest[0] == self.custom_lists@[index as int]);
            assert(rest.drop_first() =~= self.custom_lists@.skip(index + 1));
            if self.custom_lists[index].id == id {
                return Some(&self.custom_lists[index]);
            }
            index += 1;
        }
        assert(self.custom_lists@.skip(index as int).len() == 0);
        None
    }
}

/// What `position` finds is a list with the id asked for, and no list
/// before it has that id.
pub proof fn lemma_position_is_first(lists: Seq<CustomList>, id: Id)
    ensures
        match CustomListsSettings::position(lists, id) {
            Some(index) => {
                &&& 0 <= index < lists.len()
                &&& lists[index].id == id
                &&& forall|earlier: int| 0 <= earlier < index ==> lists[earlier].id != id
            },
            None => forall|index: int| 0 <= index < lists.len() ==> lists[index].id != id,
        },
    decreases lists.len(),
{
    if lists.len() > 0 && lists[0].id != id {
        let rest = lists.drop_first();
        lemma_position_is_first(rest, id);
        match CustomListsSettings::position(rest, id) {
            Some(index) => {
                assert forall|earlier: int| 0 <= earlier < index + 1 implies lists[earlier].id
                    != id by {
                    if earlier > 0 {
                        assert(rest[earlier - 1] == lists[earlier]);
                    }
                }
            },
            None => {
                assert forall|index: int| 0 <= index < lists.len() implies lists[index].id
                    != id by {
                    if index > 0 {
                        assert(rest[index - 1] == lists[index]);
                    }
                }
            },
        }
    }
}

} // verus!
