//! The indexed-collection capability that stateful walkers consume: a length
//! and random access by index, with the walker guaranteeing that it only
//! resolves indices it has already validated against the live length.

use vstd::prelude::*;

verus! {

/// Anything that can report how many slots it currently holds.
pub trait Length {
    /// The current element count, as specification-level data.
    spec fn spec_length(&self) -> usize;

    /// The current element count, read live on every bound check.
    fn length(&self) -> (r: usize)
        ensures
            r == self.spec_length(),
    ;
}

/// A length-bearing collection with random read access by index.
///
/// Walkers only call `get` with indices already validated as
/// `0 < index < length()`, so an implementation may assume in-bounds access.
pub trait IndexedCollection: Length {
    type Output;

    /// The value held at `index`, as specification-level data.
    spec fn spec_get(&self, index: usize) -> &Self::Output
        recommends
            index < self.spec_length(),
    ;

    /// Random read access to the slot at `index`.
    fn get(&self, index: usize) -> (r: &Self::Output)
        requires
            index < self.spec_length(),
        ensures
            r == self.spec_get(index),
    ;
}

/// An indexed collection that additionally hands out exclusive access to a
/// slot. Mutation through the returned reference must leave every other slot,
/// and the length, unchanged.
pub trait IndexedCollectionMut: IndexedCollection {
    /// Random write access to the slot at `index`.
    fn get_mut(&mut self, index: usize) -> (r: &mut Self::Output)
        requires
            index < old(self).spec_length(),
        ensures
            *r == *old(self).spec_get(index),
            final(self).spec_length() == old(self).spec_length(),
            forall|j: usize|
                j < old(self).spec_length() && j != index ==> final(self).spec_get(j) == old(
                    self,
                ).spec_get(j),
            *final(self).spec_get(index) == *final(r),
    ;
}

impl<T> Length for Vec<T> {
    open spec fn spec_length(&self) -> usize {
        self.len()
    }

    fn length(&self) -> (r: usize) {
        self.len()
    }
}

impl<T> IndexedCollection for Vec<T> {
    type Output = T;

    open spec fn spec_get(&self, index: usize) -> &T {
        &self[index as int]
    }

    fn get(&self, index: usize) -> (r: &T) {
        &self[index]
    }
}

impl<T> IndexedCollectionMut for Vec<T> {
    fn get_mut(&mut self, index: usize) -> (r: &mut T) {
        &mut self[index]
    }
}

} // verus!
