//! The stateful walkers: a position bound to a borrowed backing collection,
//! read-only or exclusive. The movement arithmetic is identical to the
//! virtual walker's; the bound is the collection's live length, and a
//! validated index resolves to a reference into the collection.

use vstd::prelude::*;
use crate::fenwick::{IndexView, checked_index, compute_step, seek_outcome, sibling_index, step_outcome};
use crate::fenwick::bits::lowest_bit;
use crate::fenwick::errors::FenwickTreeError;
use crate::fenwick::traits::{IndexedCollection, IndexedCollectionMut, Length};
use crate::tree::{Direction, NodeSide, NodeType, TreeWalker, TreeWalkerMut, side_of, type_of};

verus! {

/// A walker over a shared borrow of a backing collection. Lookups output
/// shared references into the collection at the validated index.
#[derive(Debug)]
pub struct StatefulTreeView<'a, C: ?Sized + IndexedCollection> {
    pub collection: &'a C,
    pub curr: IndexView,
}

/// A walker over an exclusive borrow of a backing collection. Lookups
/// additionally come in mutable form, handing out exclusive references into
/// the collection; at most one such walker can exist over a collection at a
/// time, which the borrow itself enforces.
#[derive(Debug)]
pub struct StatefulTreeViewMut<'a, C: ?Sized + IndexedCollectionMut> {
    pub collection: &'a mut C,
    pub curr: IndexView,
}

impl<'a, C> StatefulTreeView<'a, C> where C: ?Sized + IndexedCollection, C::Output: Sized {
    /// A read-only walker over `collection`, starting at `index`; a starting
    /// index of zero is rejected.
    pub fn new(collection: &'a C, index: usize) -> (r: Result<Self, FenwickTreeError>)
        ensures
            index == 0 ==> (r matches Err(e) && e == (FenwickTreeError::OutOfBounds {
                index: 0,
                length: collection.spec_length(),
            })),
            index > 0 ==> (r matches Ok(w) && w.collection == collection && w.curr == (IndexView {
                index,
                lsb: lowest_bit(index),
            })),
    {
        if index == 0 {
            return Err(
                FenwickTreeError::OutOfBounds { index: 0, length: collection.length() },
            );
        }
        Ok(StatefulTreeView { collection, curr: IndexView::new(index) })
    }
}

/// A stateful walker reports the live length of its backing collection.
impl<'a, C> Length for StatefulTreeView<'a, C> where
    C: ?Sized + IndexedCollection,
    C::Output: Sized,
 {
    open spec fn spec_length(&self) -> usize {
        self.collection.spec_length()
    }

    fn length(&self) -> (r: usize) {
        self.collection.length()
    }
}

impl<'t, 'w, C> TreeWalker<'w> for StatefulTreeView<'t, C> where
    C: ?Sized + IndexedCollection,
    C::Output: Sized,
    't: 'w,
 {
    type Path = usize;

    type Output = &'w C::Output;

    type Error = FenwickTreeError;

    open spec fn wf(&self) -> bool {
        self.curr.wf()
    }

    open spec fn position(&self) -> IndexView {
        self.curr
    }

    open spec fn bound(&self) -> usize {
        self.collection.spec_length()
    }

    open spec fn resolves(&self, index: usize, output: &'w C::Output) -> bool {
        output == self.collection.spec_get(index)
    }

    open spec fn out_of_bounds(&self, index: usize, length: usize) -> FenwickTreeError {
        FenwickTreeError::OutOfBounds { index, length }
    }

    fn peek(&'w self, direction: Direction) -> (r: Result<&'w C::Output, FenwickTreeError>)
        ensures
            step_outcome(self.curr, direction, self.collection.spec_length()) matches Ok(n) ==> (
            r matches Ok(p) && p == self.collection.spec_get(n)),
            step_outcome(self.curr, direction, self.collection.spec_length()) matches Err(e)
                ==> r == Err::<&'w C::Output, FenwickTreeError>(e),
    {
        let length = self.collection.length();
        let index: usize = match compute_step(self.curr, direction) {
            Some(index) => index,
            None => {
                return Err(FenwickTreeError::OutOfBounds { index: self.curr.index, length });
            },
        };
        if 0 < index && index < length {
            Ok(self.collection.get(index))
        } else {
            Err(FenwickTreeError::OutOfBounds { index, length })
        }
    }

    fn probe(&'w self, path: usize) -> (r: Result<&'w C::Output, FenwickTreeError>)
        ensures
            checked_index(path, self.collection.spec_length()) matches Ok(n) ==> (r matches Ok(p)
                && p == self.collection.spec_get(n)),
            checked_index(path, self.collection.spec_length()) matches Err(e) ==> r == Err::<
                &'w C::Output,
                FenwickTreeError,
            >(e),
    {
        let length = self.collection.length();
        if 0 < path && path < length {
            Ok(self.collection.get(path))
        } else {
            Err(FenwickTreeError::OutOfBounds { index: path, length })
        }
    }

    fn current(&'w self) -> (r: Result<&'w C::Output, FenwickTreeError>)
        ensures
            checked_index(self.curr.index, self.collection.spec_length()) matches Ok(n) ==> (
            r matches Ok(p) && p == self.collection.spec_get(n)),
            checked_index(self.curr.index, self.collection.spec_length()) matches Err(e) ==> r
                == Err::<&'w C::Output, FenwickTreeError>(e),
    {
        let length = self.collection.length();
        if 0 < self.curr.index && self.curr.index < length {
            Ok(self.collection.get(self.curr.index))
        } else {
            Err(FenwickTreeError::OutOfBounds { index: self.curr.index, length })
        }
    }

    fn sibling(&'w self) -> (r: Result<&'w C::Output, FenwickTreeError>)
        ensures
            checked_index(sibling_index(self.curr), self.collection.spec_length()) matches Ok(n)
                ==> (r matches Ok(p) && p == self.collection.spec_get(n)),
            checked_index(sibling_index(self.curr), self.collection.spec_length()) matches Err(e)
                ==> r == Err::<&'w C::Output, FenwickTreeError>(e),
    {
        let length = self.collection.length();
        let sibling: usize = self.curr.index ^ (self.curr.lsb << 1);
        if 0 < sibling && sibling < length {
            Ok(self.collection.get(sibling))
        } else {
            Err(FenwickTreeError::OutOfBounds { index: sibling, length })
        }
    }

    fn traverse(&'w mut self, direction: Direction) -> (r: Result<&'w C::Output, FenwickTreeError>)
        ensures
            final(self).collection == old(self).collection,
            step_outcome(old(self).curr, direction, old(self).collection.spec_length()) matches Ok(
                n,
            ) ==> (r matches Ok(p) && p == old(self).collection.spec_get(n) && final(self).curr
                == (IndexView { index: n, lsb: lowest_bit(n) })),
            step_outcome(old(self).curr, direction, old(self).collection.spec_length()) matches Err(
                e,
            ) ==> (r == Err::<&'w C::Output, FenwickTreeError>(e) && final(self).curr == old(
                self,
            ).curr),
    {
        let collection = self.collection;
        let length = collection.length();
        let index: usize = match compute_step(self.curr, direction) {
            Some(index) => index,
            None => {
                return Err(FenwickTreeError::OutOfBounds { index: self.curr.index, length });
            },
        };
        if 0 < index && index < length {
            self.curr.update(index);
            Ok(collection.get(index))
        } else {
            Err(FenwickTreeError::OutOfBounds { index, length })
        }
    }

    fn seek(&'w mut self, path: usize) -> (r: Result<&'w C::Output, FenwickTreeError>)
        ensures
            final(self).collection == old(self).collection,
            path == 0 ==> final(self).curr == old(self).curr,
            path > 0 ==> final(self).curr == (IndexView { index: path, lsb: lowest_bit(path) }),
            seek_outcome(path, old(self).collection.spec_length()) matches Ok(n) ==> (r matches Ok(
                p,
            ) && p == old(self).collection.spec_get(n)),
            seek_outcome(path, old(self).collection.spec_length()) matches Err(e) ==> r == Err::<
                &'w C::Output,
                FenwickTreeError,
            >(e),
    {
        let collection = self.collection;
        let length = collection.length();
        if path == 0 {
            return Err(FenwickTreeError::OutOfBounds { index: 0, length });
        }
        self.curr.update(path);
        if path < length {
            Ok(collection.get(path))
        } else {
            Err(FenwickTreeError::OutOfBounds { index: path, length })
        }
    }

    fn reset(&'w mut self)
        ensures
            final(self).collection == old(self).collection,
            final(self).curr == (IndexView {
                index: old(self).collection.spec_length(),
                lsb: lowest_bit(old(self).collection.spec_length()),
            }),
    {
        let length = self.collection.length();
        self.curr.update(length);
    }

    fn type_(&'w self) -> (r: NodeType)
        ensures
            r == type_of(self.curr.index),
    {
        NodeType::from(&self.curr)
    }

    fn side(&'w self) -> (r: NodeSide)
        ensures
            r == side_of(self.curr.index),
    {
        NodeSide::from(&self.curr)
    }
}

impl<'a, C> StatefulTreeViewMut<'a, C> where C: ?Sized + IndexedCollectionMut, C::Output: Sized {
    /// An exclusive walker over `collection`, starting at `index`; a
    /// starting index of zero is rejected.
    pub fn new(collection: &'a mut C, index: usize) -> (r: Result<Self, FenwickTreeError>)
        ensures
            index == 0 ==> (r matches Err(e) && e == (FenwickTreeError::OutOfBounds {
                index: 0,
                length: old(collection).spec_length(),
            })),
            index > 0 ==> (r matches Ok(w) && w.curr == (IndexView {
                index,
                lsb: lowest_bit(index),
            }) && w.collection.spec_length() == old(collection).spec_length() && forall|j: usize|
                j < old(collection).spec_length() ==> w.collection.spec_get(j) == old(
                    collection,
                ).spec_get(j)),
    {
        if index == 0 {
            return Err(
                FenwickTreeError::OutOfBounds { index: 0, length: collection.length() },
            );
        }
        Ok(StatefulTreeViewMut { collection, curr: IndexView::new(index) })
    }

    /// The backing collection holds the same contents in `other` as in
    /// `self`.
    pub open spec fn same_collection(self, other: Self) -> bool {
        &&& other.collection.spec_length() == self.collection.spec_length()
        &&& forall|j: usize|
            j < self.collection.spec_length() ==> other.collection.spec_get(j)
                == self.collection.spec_get(j)
    }

    /// The backing collection of `other` differs from `self`'s at slot `n`
    /// alone, which now holds `v`.
    pub open spec fn collection_written(self, other: Self, n: usize, v: C::Output) -> bool {
        &&& other.collection.spec_length() == self.collection.spec_length()
        &&& forall|j: usize|
            j < self.collection.spec_length() && j != n ==> other.collection.spec_get(j)
                == self.collection.spec_get(j)
        &&& *other.collection.spec_get(n) == v
    }
}

/// An exclusive stateful walker reports the live length of its backing
/// collection.
impl<'a, C> Length for StatefulTreeViewMut<'a, C> where
    C: ?Sized + IndexedCollectionMut,
    C::Output: Sized,
 {
    open spec fn spec_length(&self) -> usize {
        self.collection.spec_length()
    }

    fn length(&self) -> (r: usize) {
        self.collection.length()
    }
}

impl<'t, 'w, C> TreeWalker<'w> for StatefulTreeViewMut<'t, C> where
    C: ?Sized + IndexedCollectionMut,
    C::Output: Sized,
    't: 'w,
 {
    type Path = usize;

    type Output = &'w C::Output;

    type Error = FenwickTreeError;

    open spec fn wf(&self) -> bool {
        self.curr.wf()
    }

    open spec fn position(&self) -> IndexView {
        self.curr
    }

    open spec fn bound(&self) -> usize {
        self.collection.spec_length()
    }

    open spec fn resolves(&self, index: usize, output: &'w C::Output) -> bool {
        output == self.collection.spec_get(index)
    }

    open spec fn out_of_bounds(&self, index: usize, length: usize) -> FenwickTreeError {
        FenwickTreeError::OutOfBounds { index, length }
    }

    fn peek(&'w self, direction: Direction) -> (r: Result<&'w C::Output, FenwickTreeError>)
        ensures
            step_outcome(self.curr, direction, old(self.collection).spec_length()) matches Ok(n) ==> (
            r matches Ok(p) && p == old(self.collection).spec_get(n)),
            step_outcome(self.curr, direction, old(self.collection).spec_length()) matches Err(e)
                ==> r == Err::<&'w C::Output, FenwickTreeError>(e),
    {
        let length = self.collection.length();
        let index: usize = match compute_step(self.curr, direction) {
            Some(index) => index,
            None => {
                return Err(FenwickTreeError::OutOfBounds { index: self.curr.index, length });
            },
        };
        if 0 < index && index < length {
            Ok(self.collection.get(index))
        } else {
            Err(FenwickTreeError::OutOfBounds { index, length })
        }
    }

    fn probe(&'w self, path: usize) -> (r: Result<&'w C::Output, FenwickTreeError>)
        ensures
            checked_index(path, old(self.collection).spec_length()) matches Ok(n) ==> (r matches Ok(p)
                && p == old(self.collection).spec_get(n)),
            checked_index(path, old(self.collection).spec_length()) matches Err(e) ==> r == Err::<
                &'w C::Output,
                FenwickTreeError,
            >(e),
    {
        let length = self.collection.length();
        if 0 < path && path < length {
            Ok(self.collection.get(path))
        } else {
            Err(FenwickTreeError::OutOfBounds { index: path, length })
        }
    }

    fn current(&'w self) -> (r: Result<&'w C::Output, FenwickTreeError>)
        ensures
            checked_index(self.curr.index, old(self.collection).spec_length()) matches Ok(n) ==> (
            r matches Ok(p) && p == old(self.collection).spec_get(n)),
            checked_index(self.curr.index, old(self.collection).spec_length()) matches Err(e) ==> r
                == Err::<&'w C::Output, FenwickTreeError>(e),
    {
        let length = self.collection.length();
        if 0 < self.curr.index && self.curr.index < length {
            Ok(self.collection.get(self.curr.index))
        } else {
            Err(FenwickTreeError::OutOfBounds { index: self.curr.index, length })
        }
    }

    fn sibling(&'w self) -> (r: Result<&'w C::Output, FenwickTreeError>)
        ensures
            checked_index(sibling_index(self.curr), old(self.collection).spec_length()) matches Ok(
                n,
            ) ==> (r matches Ok(p) && p == old(self.collection).spec_get(n)),
            checked_index(sibling_index(self.curr), old(self.collection).spec_length()) matches Err(
                e,
            ) ==> r == Err::<&'w C::Output, FenwickTreeError>(e),
    {
        let length = self.collection.length();
        let sibling: usize = self.curr.index ^ (self.curr.lsb << 1);
        if 0 < sibling && sibling < length {
            Ok(self.collection.get(sibling))
        } else {
            Err(FenwickTreeError::OutOfBounds { index: sibling, length })
        }
    }

    fn traverse(&'w mut self, direction: Direction) -> (r: Result<&'w C::Output, FenwickTreeError>)
        ensures
            old(self).same_collection(*final(self)),
            step_outcome(old(self).curr, direction, old(self).collection.spec_length()) matches Ok(
                n,
            ) ==> (r matches Ok(p) && p == old(self).collection.spec_get(n) && final(self).curr
                == (IndexView { index: n, lsb: lowest_bit(n) })),
            step_outcome(old(self).curr, direction, old(self).collection.spec_length()) matches Err(
                e,
            ) ==> (r == Err::<&'w C::Output, FenwickTreeError>(e) && final(self).curr == old(
                self,
            ).curr),
    {
        let length = self.collection.length();
        let index: usize = match compute_step(self.curr, direction) {
            Some(index) => index,
            None => {
                return Err(FenwickTreeError::OutOfBounds { index: self.curr.index, length });
            },
        };
        if 0 < index && index < length {
            self.curr.update(index);
            Ok(self.collection.get(index))
        } else {
            Err(FenwickTreeError::OutOfBounds { index, length })
        }
    }

    fn seek(&'w mut self, path: usize) -> (r: Result<&'w C::Output, FenwickTreeError>)
        ensures
            old(self).same_collection(*final(self)),
            path == 0 ==> final(self).curr == old(self).curr,
            path > 0 ==> final(self).curr == (IndexView { index: path, lsb: lowest_bit(path) }),
            seek_outcome(path, old(self).collection.spec_length()) matches Ok(n) ==> (r matches Ok(
                p,
            ) && p == old(self).collection.spec_get(n)),
            seek_outcome(path, old(self).collection.spec_length()) matches Err(e) ==> r == Err::<
                &'w C::Output,
                FenwickTreeError,
            >(e),
    {
        let length = self.collection.length();
        if path == 0 {
            return Err(FenwickTreeError::OutOfBounds { index: 0, length });
        }
        self.curr.update(path);
        if path < length {
            Ok(self.collection.get(path))
        } else {
            Err(FenwickTreeError::OutOfBounds { index: path, length })
        }
    }

    fn reset(&'w mut self)
        ensures
            old(self).same_collection(*final(self)),
            final(self).curr == (IndexView {
                index: old(self).collection.spec_length(),
                lsb: lowest_bit(old(self).collection.spec_length()),
            }),
    {
        let length = self.collection.length();
        self.curr.update(length);
    }

    fn type_(&'w self) -> (r: NodeType)
        ensures
            r == type_of(self.curr.index),
    {
        NodeType::from(&self.curr)
    }

    fn side(&'w self) -> (r: NodeSide)
        ensures
            r == side_of(self.curr.index),
    {
        NodeSide::from(&self.curr)
    }
}

impl<'t, 'w, C> TreeWalkerMut<'w> for StatefulTreeViewMut<'t, C> where
    C: ?Sized + IndexedCollectionMut,
    C::Output: Sized,
    't: 'w,
 {
    type OutputMut = &'w mut C::Output;

    fn peek_mut(&'w mut self, direction: Direction) -> (r: Result<
        &'w mut C::Output,
        FenwickTreeError,
    >)
        ensures
            final(self).curr == old(self).curr,
            step_outcome(old(self).curr, direction, old(self).collection.spec_length()) matches Ok(
                n,
            ) ==> (r is Ok && *r->Ok_0 == *old(self).collection.spec_get(n) && old(
                self,
            ).collection_written(*final(self), n, *final(r->Ok_0))),
            step_outcome(old(self).curr, direction, old(self).collection.spec_length()) matches Err(
                e,
            ) ==> (r matches Err(e2) && e2 == e && old(self).same_collection(*final(self))),
    {
        let length = self.collection.length();
        let index: usize = match compute_step(self.curr, direction) {
            Some(index) => index,
            None => {
                return Err(FenwickTreeError::OutOfBounds { index: self.curr.index, length });
            },
        };
        if 0 < index && index < length {
            Ok(self.collection.get_mut(index))
        } else {
            Err(FenwickTreeError::OutOfBounds { index, length })
        }
    }

    fn probe_mut(&'w mut self, path: usize) -> (r: Result<&'w mut C::Output, FenwickTreeError>)
        ensures
            final(self).curr == old(self).curr,
            checked_index(path, old(self).collection.spec_length()) matches Ok(n) ==> (r is Ok && *r
                ->Ok_0 == *old(self).collection.spec_get(n) && old(self).collection_written(
                *final(self),
                n,
                *final(r->Ok_0),
            )),
            checked_index(path, old(self).collection.spec_length()) matches Err(e) ==> (
            r matches Err(e2) && e2 == e && old(self).same_collection(*final(self))),
    {
        let length = self.collection.length();
        if 0 < path && path < length {
            Ok(self.collection.get_mut(path))
        } else {
            Err(FenwickTreeError::OutOfBounds { index: path, length })
        }
    }

    fn current_mut(&'w mut self) -> (r: Result<&'w mut C::Output, FenwickTreeError>)
        ensures
            final(self).curr == old(self).curr,
            checked_index(old(self).curr.index, old(self).collection.spec_length()) matches Ok(n)
                ==> (r is Ok && *r->Ok_0 == *old(self).collection.spec_get(n) && old(
                self,
            ).collection_written(*final(self), n, *final(r->Ok_0))),
            checked_index(old(self).curr.index, old(self).collection.spec_length()) matches Err(e)
                ==> (r matches Err(e2) && e2 == e && old(self).same_collection(*final(self))),
    {
        let length = self.collection.length();
        if 0 < self.curr.index && self.curr.index < length {
            let index = self.curr.index;
            Ok(self.collection.get_mut(index))
        } else {
            Err(FenwickTreeError::OutOfBounds { index: self.curr.index, length })
        }
    }

    fn sibling_mut(&'w mut self) -> (r: Result<&'w mut C::Output, FenwickTreeError>)
        ensures
            final(self).curr == old(self).curr,
            checked_index(sibling_index(old(self).curr), old(self).collection.spec_length())
                matches Ok(n) ==> (r is Ok && *r->Ok_0 == *old(self).collection.spec_get(n) && old(
                self,
            ).collection_written(*final(self), n, *final(r->Ok_0))),
            checked_index(sibling_index(old(self).curr), old(self).collection.spec_length())
                matches Err(e) ==> (r matches Err(e2) && e2 == e && old(self).same_collection(
                *final(self),
            )),
    {
        let length = self.collection.length();
        let sibling: usize = self.curr.index ^ (self.curr.lsb << 1);
        if 0 < sibling && sibling < length {
            Ok(self.collection.get_mut(sibling))
        } else {
            Err(FenwickTreeError::OutOfBounds { index: sibling, length })
        }
    }
}

} // verus!
