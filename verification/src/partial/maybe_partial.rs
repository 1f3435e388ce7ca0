//! Objects that are either complete or still partial, and how two of them
//! are merged.

use crate::objects::{Objects, Stored};
use crate::storage::Handle;
use crate::validation::ValidationError;
use vstd::prelude::*;

verus! {


/// What a partial object must be able to do: merge with another of its kind,
/// and be built into a full object.
pub trait PartialObject: Sized + Copy {
    /// The object that this is a partial form of.
    type Full: Copy;

    /// Whether the two can be merged: they do not contradict each other.
    spec fn mergeable(self, other: Self) -> bool;

    /// The two merged: all that either of them knows.
    spec fn merged(self, other: Self) -> Self;

    /// Whether enough is known to build the full object.
    spec fn buildable(self) -> bool;

    /// What building does: the stores afterwards, and the object built or
    /// the error found.
    spec fn built(self, stored: Stored) -> (Stored, Result<Handle<Self::Full>, ValidationError>);

    /// Merge this partial object with another.
    fn merge_with(self, other: Self) -> (merged: Self)
        requires
            self.mergeable(other),
        ensures
            merged == self.merged(other),
    ;

    /// Build the full object and put it into its store.
    fn build(self, objects: &mut Objects) -> (result: Result<Handle<Self::Full>, ValidationError>)
        requires
            self.buildable(),
        ensures
            (final(objects)@, result) == self.built(old(objects)@),
    ;
}

/// An object that is either complete and stored, or still partial.
#[derive(Debug, PartialEq, Eq)]
pub enum MaybePartial<P: PartialObject> {
    Full(Handle<P::Full>),
    Partial(P),
}

impl<P: PartialObject> Clone for MaybePartial<P> {
    fn clone(&self) -> (copy: MaybePartial<P>)
        ensures
            copy == *self,
    {
        *self
    }
}

impl<P: PartialObject> Copy for MaybePartial<P> {

}

impl<P: PartialObject> MaybePartial<P> {
    /// Two full objects can be merged if they are the same object; a full
    /// and a partial one always; two partial ones if they agree.
    pub open spec fn mergeable(self, other: Self) -> bool {
        match (self, other) {
            (MaybePartial::Full(a), MaybePartial::Full(b)) => a.id == b.id,
            (MaybePartial::Partial(a), MaybePartial::Partial(b)) => a.mergeable(b),
            _ => true,
        }
    }

    /// The two merged: the full object if one of them is full, else the
    /// two partial objects merged.
    pub open spec fn merged(self, other: Self) -> Self {
        match (self, other) {
            (MaybePartial::Full(a), _) => MaybePartial::Full(a),
            (MaybePartial::Partial(_), MaybePartial::Full(b)) => MaybePartial::Full(b),
            (MaybePartial::Partial(a), MaybePartial::Partial(b)) => MaybePartial::Partial(
                a.merged(b),
            ),
        }
    }

    /// Whether the object is full, or partial with enough known to build it.
    pub open spec fn buildable(self) -> bool {
        match self {
            MaybePartial::Full(_) => true,
            MaybePartial::Partial(partial) => partial.buildable(),
        }
    }

    /// What `into_full` does: nothing to a full object; a partial one is
    /// built.
    pub open spec fn full(self, stored: Stored) -> (
        Stored,
        Result<Handle<P::Full>, ValidationError>,
    ) {
        match self {
            MaybePartial::Full(handle) => (stored, Ok(handle)),
            MaybePartial::Partial(partial) => partial.built(stored),
        }
    }

    /// Merge this object with another.
    pub fn merge_with(self, other: Self) -> (merged: Self)
        requires
            self.mergeable(other),
        ensures
            merged == self.merged(other),
    {
        match (self, other) {
            (MaybePartial::Full(a), _) => MaybePartial::Full(a),
            (MaybePartial::Partial(_), MaybePartial::Full(b)) => MaybePartial::Full(b),
            (MaybePartial::Partial(a), MaybePartial::Partial(b)) => MaybePartial::Partial(
                a.merge_with(b),
            ),
        }
    }

    /// The full object: the one that is there, or the partial one built.
    pub fn into_full(self, objects: &mut Objects) -> (result: Result<
        Handle<P::Full>,
        ValidationError,
    >)
        requires
            self.buildable(),
        ensures
            (final(objects)@, result) == self.full(old(objects)@),
    {
        match self {
            MaybePartial::Full(handle) => Ok(handle),
            MaybePartial::Partial(partial) => partial.build(objects),
        }
    }
}

/// Two values that may each be missing can be merged unless both are there
/// and differ.
pub open spec fn options_mergeable<T>(a: Option<T>, b: Option<T>) -> bool {
    a is None || b is None || a == b
}

/// The value that is there, of two that can be merged.
pub open spec fn options_merged<T>(a: Option<T>, b: Option<T>) -> Option<T> {
    if a is Some {
        a
    } else {
        b
    }
}

/// Merges two values that may each be missing.
pub fn merge_options<T: Copy>(a: Option<T>, b: Option<T>) -> (merged: Option<T>)
    requires
        options_mergeable(a, b),
    ensures
        merged == options_merged(a, b),
{
    match a {
        Some(_) => a,
        None => b,
    }
}

/// Whether the two pairs can be merged, first with first and second with
/// second.
pub open spec fn arrays_mergeable<P: PartialObject>(
    a: [MaybePartial<P>; 2],
    b: [MaybePartial<P>; 2],
) -> bool {
    a[0].mergeable(b[0]) && a[1].mergeable(b[1])
}

/// The two pairs merged, first with first and second with second.
pub open spec fn arrays_merged<P: PartialObject>(
    a: [MaybePartial<P>; 2],
    b: [MaybePartial<P>; 2],
) -> [MaybePartial<P>; 2] {
    [a[0].merged(b[0]), a[1].merged(b[1])]
}

/// Merges two pairs of objects, first with first and second with second.
pub fn merge_arrays<P: PartialObject>(a: [MaybePartial<P>; 2], b: [MaybePartial<P>; 2]) -> (merged:
    [MaybePartial<P>; 2])
    requires
        arrays_mergeable(a, b),
    ensures
        merged == arrays_merged(a, b),
{
    [a[0].merge_with(b[0]), a[1].merge_with(b[1])]
}

} // verus!
