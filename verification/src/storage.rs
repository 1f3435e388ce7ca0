//! Stores that give objects their identity.

use vstd::prelude::*;

verus! {

/// An object in a store, together with the identity the store gave it.
///
/// Two handles refer to the same object if they have the same identity; the
/// object itself is carried along for reading.
#[derive(Debug, PartialEq, Eq)]
pub struct Handle<T> {
    pub id: u64,
    pub object: T,
}

impl<T: Copy> Clone for Handle<T> {
    fn clone(&self) -> (copy: Handle<T>)
        ensures
            copy == *self,
    {
        *self
    }
}

impl<T: Copy> Copy for Handle<T> {

}

impl<T> Handle<T> {
    /// The identity of the object.
    pub fn id(&self) -> (id: u64)
        ensures
            id == self.id,
    {
        self.id
    }

    /// The object that the handle refers to.
    pub fn get(&self) -> (object: &T)
        ensures
            *object == self.object,
    {
        &self.object
    }

    /// Whether the two handles refer to the same object.
    pub fn is_same_object_as(&self, other: &Handle<T>) -> (same: bool)
        ensures
            same == (self.id == other.id),
    {
        self.id == other.id
    }
}

/// A store for objects of one kind. An object's identity is its place in the
/// store.
#[derive(Debug)]
pub struct Store<T> {
    pub objects: Vec<Handle<T>>,
}

impl<T: Copy> Store<T> {
    /// The handles of the stored objects, oldest first.
    pub open spec fn handles(&self) -> Seq<Handle<T>> {
        self.objects@
    }

    /// The handle that the next object to be inserted gets.
    pub open spec fn next(&self, object: T) -> Handle<T> {
        Handle { id: self.objects@.len() as u64, object }
    }

    /// A store that holds nothing yet.
    pub fn new() -> (store: Store<T>)
        ensures
            store.handles() == Seq::<Handle<T>>::empty(),
    {
        Store { objects: Vec::new() }
    }

    /// Puts the object into the store and returns its handle.
    pub fn insert(&mut self, object: T) -> (handle: Handle<T>)
        ensures
            handle == old(self).next(object),
            handle.id == old(self).handles().len(),
            handle.object == object,
            final(self).handles() == old(self).handles().push(handle),
    {
        let handle = Handle { id: self.objects.len() as u64, object };
        self.objects.push(handle);
        handle
    }
}

} // verus!
