//! The constraint primitive and the two relations every filter is built from.

use vstd::prelude::*;

verus! {

/// Limits a setting to a specific value, or leaves it open.
///
/// `Any` carries meaning of its own: it accepts everything. It is not an
/// absent value.
#[derive(Debug, PartialEq, Eq, Structural)]
pub enum Constraint<T> {
    Any,
    Only(T),
}

impl<T: Clone> Clone for Constraint<T> {
    fn clone(&self) -> (copy: Self)
        ensures
            self is Any <==> copy is Any,
            self is Only ==> copy is Only && cloned::<T>(self->0, copy->0),
    {
        match self {
            Constraint::Any => Constraint::Any,
            Constraint::Only(value) => Constraint::Only(value.clone()),
        }
    }
}

impl<T: Copy> Copy for Constraint<T> {

}

/// A value that accepts or rejects candidates of type `T`.
pub trait Match<T> {
    /// Whether `self` accepts `other`.
    spec fn accepts(&self, other: &T) -> bool;

    fn matches(&self, other: &T) -> (accepted: bool)
        ensures
            accepted == self.accepts(other),
    ;
}

/// A value that denotes a set which may lie within the set that a `T`
/// denotes.
pub trait Subset<T> {
    /// Whether everything that `self` accepts is accepted by `other` too.
    spec fn within(&self, other: &T) -> bool;

    fn is_subset(&self, other: &T) -> (subset: bool)
        ensures
            subset == self.within(other),
    ;
}

impl<T> Constraint<T> {
    /// Returns true if the constraint is `Any`.
    pub fn is_any(&self) -> (any: bool)
        ensures
            any == (self is Any),
    {
        match self {
            Constraint::Any => true,
            Constraint::Only(_) => false,
        }
    }

    /// Returns true if the constraint is `Only`.
    pub fn is_only(&self) -> (only: bool)
        ensures
            only == (self is Only),
    {
        !self.is_any()
    }

    /// The same constraint, on a reference to the value.
    pub fn as_ref(&self) -> (borrowed: Constraint<&T>)
        ensures
            self is Any <==> borrowed is Any,
            self matches Constraint::Only(value) ==> borrowed == Constraint::Only(value),
    {
        match self {
            Constraint::Any => Constraint::Any,
            Constraint::Only(value) => Constraint::Only(value),
        }
    }

    /// The value that is asked for, or `other` where none is.
    pub fn unwrap_or(self, other: T) -> (value: T)
        ensures
            value == match self {
                Constraint::Any => other,
                Constraint::Only(value) => value,
            },
    {
        match self {
            Constraint::Any => other,
            Constraint::Only(value) => value,
        }
    }

    /// The value that is asked for, if one is.
    pub fn option(self) -> (value: Option<T>)
        ensures
            value == match self {
                Constraint::Any => None::<T>,
                Constraint::Only(value) => Some(value),
            },
    {
        match self {
            Constraint::Any => None,
            Constraint::Only(value) => Some(value),
        }
    }
}

impl<T> Default for Constraint<T> {
    /// The open constraint.
    fn default() -> (constraint: Self)
        ensures
            constraint is Any,
    {
        Constraint::Any
    }
}

impl<T: Match<U>, U> Match<U> for Constraint<T> {
    open spec fn accepts(&self, other: &U) -> bool {
        match self {
            Constraint::Any => true,
            Constraint::Only(value) => value.accepts(other),
        }
    }

    fn matches(&self, other: &U) -> (accepted: bool) {
        match self {
            Constraint::Any => true,
            Constraint::Only(value) => value.matches(other),
        }
    }
}

} // verus!
