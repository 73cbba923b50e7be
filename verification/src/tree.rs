//! The shared tree vocabulary: interface traits for tree containers, the
//! navigation contract implemented by every walker kind, and the node
//! classification types derived from an index's bit pattern.

use vstd::prelude::*;
use crate::fenwick::bits::{log2_bin, lowest_bit, lsb};
use crate::fenwick::{FenwickTreeError, IndexView, checked_index, sibling_index, step_outcome};
use crate::fenwick::traits::Length;

verus! {

/// Anything that can report the height of the tree it holds.
pub trait Height {
    fn height(&self) -> usize;
}

/// Anything with a length has a height: the floor of the base-two
/// logarithm of the length, the number of levels an implicit tree over
/// that many slots spans.
impl<T: Length + ?Sized> Height for T {
    fn height(&self) -> (r: usize)
        ensures
            self.spec_length() >= 2 ==> vstd::arithmetic::power2::pow2(r as nat)
                <= self.spec_length() < vstd::arithmetic::power2::pow2((r + 1) as nat),
            self.spec_length() <= 1 ==> r == 1,
    {
        let length = self.length();
        log2_bin(&length)
    }
}

/// Read access to a tree container, phrased over whole nodes.
pub trait TreeRead {
    type Node;

    type Error;

    fn get(&self, node: &Self::Node) -> Result<&Self::Node, Self::Error>;

    fn contains(&self, node: &Self::Node) -> Result<bool, Self::Error>;
}

/// Read access that can also hand out exclusive references to nodes.
pub trait TreeReadMut: TreeRead {
    fn get_mut(&mut self, node: &Self::Node) -> Result<&mut Self::Node, Self::Error>;
}

/// Write access to a tree container.
pub trait TreeWrite: TreeReadMut {
    fn insert(&mut self, node: Self::Node) -> Result<Option<Self::Node>, Self::Error>;

    fn delete(&mut self, node: &Self::Node) -> Result<Self::Node, Self::Error>;

    fn pop(&mut self) -> Result<Self::Node, Self::Error>;
}

/// The navigation contract shared by every walker kind: relative and
/// absolute lookups evaluated against the current position, movement, and
/// classification of the current node.
///
/// `Output` is what a validated index resolves to: the raw index for the
/// virtual walker, a reference into the backing collection for the stateful
/// ones.
pub trait TreeWalker<'w> {
    type Path;

    type Output;

    type Error;

    /// The walker's cached position data is consistent.
    spec fn wf(&self) -> bool;

    /// The current position, with its cached lowest set bit.
    spec fn position(&self) -> IndexView;

    /// The bound every resolved index is validated against: the walker's
    /// fixed length, or the live length of its backing collection.
    spec fn bound(&self) -> usize;

    /// What it means for the walker to resolve a validated `index` to
    /// `output`: the raw index for the virtual walker, the collection's
    /// value at the index for the stateful ones.
    spec fn resolves(&self, index: usize, output: Self::Output) -> bool;

    /// The error value reporting that `index` fell outside `length`.
    spec fn out_of_bounds(&self, index: usize, length: usize) -> Self::Error;

    /// Resolves the neighbour of the current position in `direction`
    /// without moving the walker.
    fn peek(&'w self, direction: Direction) -> (r: Result<Self::Output, Self::Error>)
        requires
            self.wf(),
        ensures
            step_outcome(self.position(), direction, self.bound()) matches Ok(n) ==> (r matches Ok(
                p,
            ) && self.resolves(n, p)),
            step_outcome(self.position(), direction, self.bound()) matches Err(
                FenwickTreeError::OutOfBounds { index, length },
            ) ==> (r matches Err(e) && e == self.out_of_bounds(index, length)),
    ;

    /// Resolves an arbitrary caller-supplied index, bypassing relative
    /// navigation.
    fn probe(&'w self, path: Self::Path) -> Result<Self::Output, Self::Error>
        requires
            self.wf(),
    ;

    /// Resolves the current position.
    fn current(&'w self) -> (r: Result<Self::Output, Self::Error>)
        requires
            self.wf(),
        ensures
            checked_index(self.position().index, self.bound()) matches Ok(n) ==> (r matches Ok(p)
                && self.resolves(n, p)),
            checked_index(self.position().index, self.bound()) matches Err(
                FenwickTreeError::OutOfBounds { index, length },
            ) ==> (r matches Err(e) && e == self.out_of_bounds(index, length)),
    ;

    /// Resolves the same-level sibling of the current position without
    /// moving the walker.
    fn sibling(&'w self) -> (r: Result<Self::Output, Self::Error>)
        requires
            self.wf(),
        ensures
            checked_index(sibling_index(self.position()), self.bound()) matches Ok(n) ==> (
            r matches Ok(p) && self.resolves(n, p)),
            checked_index(sibling_index(self.position()), self.bound()) matches Err(
                FenwickTreeError::OutOfBounds { index, length },
            ) ==> (r matches Err(e) && e == self.out_of_bounds(index, length)),
    ;

    /// Moves the walker to the neighbour in `direction` and resolves it;
    /// on failure the walker stays where it was.
    fn traverse(&'w mut self, direction: Direction) -> (r: Result<Self::Output, Self::Error>)
        requires
            old(self).wf(),
        ensures
            final(self).wf(),
            final(self).bound() == old(self).bound(),
            step_outcome(old(self).position(), direction, old(self).bound()) matches Ok(n) ==> (
            r matches Ok(p) && old(self).resolves(n, p) && final(self).position() == (IndexView {
                index: n,
                lsb: lowest_bit(n),
            })),
            step_outcome(old(self).position(), direction, old(self).bound()) matches Err(
                FenwickTreeError::OutOfBounds { index, length },
            ) ==> (r matches Err(e) && e == old(self).out_of_bounds(index, length)
                && final(self).position() == old(self).position()),
    ;

    /// Moves the walker directly to a caller-supplied positive index; bound
    /// validation happens at resolution time, after the move.
    fn seek(&'w mut self, path: Self::Path) -> (r: Result<Self::Output, Self::Error>)
        requires
            old(self).wf(),
        ensures
            final(self).wf(),
    ;

    /// Places the walker on the sentinel super-root position equal to the
    /// walker's bound. The sentinel is not itself addressable: one `Down`
    /// traversal must follow before any lookup succeeds.
    fn reset(&'w mut self)
        requires
            old(self).wf(),
        ensures
            final(self).wf(),
            final(self).bound() == old(self).bound(),
            final(self).position() == (IndexView {
                index: old(self).bound(),
                lsb: lowest_bit(old(self).bound()),
            }),
    ;

    /// Classifies the current position as internal node or leaf.
    fn type_(&'w self) -> (r: NodeType)
        requires
            self.wf(),
        ensures
            r == type_of(self.position().index),
    ;

    /// Reports which branch of its parent the current position lies on.
    fn side(&'w self) -> (r: NodeSide)
        requires
            self.wf(),
        ensures
            r == side_of(self.position().index),
    ;
}

/// The additional operations of walkers bound to an exclusively borrowed
/// collection: the four lookups in mutable form.
pub trait TreeWalkerMut<'w>: TreeWalker<'w> {
    type OutputMut;

    fn peek_mut(&'w mut self, direction: Direction) -> (r: Result<Self::OutputMut, Self::Error>)
        requires
            old(self).wf(),
        ensures
            final(self).wf(),
    ;

    fn probe_mut(&'w mut self, path: Self::Path) -> (r: Result<Self::OutputMut, Self::Error>)
        requires
            old(self).wf(),
        ensures
            final(self).wf(),
    ;

    fn current_mut(&'w mut self) -> (r: Result<Self::OutputMut, Self::Error>)
        requires
            old(self).wf(),
        ensures
            final(self).wf(),
    ;

    fn sibling_mut(&'w mut self) -> (r: Result<Self::OutputMut, Self::Error>)
        requires
            old(self).wf(),
        ensures
            final(self).wf(),
    ;
}

/// A movement choice handed to `peek` and `traverse`.
pub enum Direction {
    Up,
    Down(NodeSide),
    Left,
    Right,
}

/// Which branch of its parent a node lies on, read from the bit of the
/// index immediately above its lowest set bit.
#[derive(Debug, Copy, Clone, PartialEq, Eq, Structural)]
pub enum NodeSide {
    Left,
    Right,
}

/// Whether a node is internal or a leaf, read from the parity of its index.
#[derive(Debug, Copy, Clone, PartialEq, Eq, Structural)]
pub enum NodeType {
    Node,
    Leaf,
}

/// The branch side encoded by `index`: the bit immediately above the lowest
/// set bit, `0` for `Left` and `1` for `Right`.
pub open spec fn side_of(index: usize) -> NodeSide {
    if index & (lowest_bit(index) << 1) == 0 {
        NodeSide::Left
    } else {
        NodeSide::Right
    }
}

/// The node kind encoded by `index`: odd indices are leaves, even indices
/// internal nodes.
pub open spec fn type_of(index: usize) -> NodeType {
    if index % 2 == 1 {
        NodeType::Leaf
    } else {
        NodeType::Node
    }
}

impl From<usize> for NodeSide {
    fn from(index: usize) -> (r: NodeSide) {
        let index_lsb: usize = if index == 0 {
            0
        } else {
            lsb(index)
        };
        if index & (index_lsb << 1) == 0 {
            NodeSide::Left
        } else {
            NodeSide::Right
        }
    }
}

impl vstd::std_specs::convert::FromSpecImpl<usize> for NodeSide {
    open spec fn obeys_from_spec() -> bool {
        true
    }

    open spec fn from_spec(index: usize) -> NodeSide {
        side_of(index)
    }
}

impl<'v> From<&'v IndexView> for NodeSide {
    fn from(view: &'v IndexView) -> (r: NodeSide) {
        if view.index & (view.lsb << 1) == 0 {
            NodeSide::Left
        } else {
            NodeSide::Right
        }
    }
}

impl<'v> vstd::std_specs::convert::FromSpecImpl<&'v IndexView> for NodeSide {
    open spec fn obeys_from_spec() -> bool {
        true
    }

    open spec fn from_spec(view: &'v IndexView) -> NodeSide {
        if view.index & (view.lsb << 1) == 0 {
            NodeSide::Left
        } else {
            NodeSide::Right
        }
    }
}

impl From<usize> for NodeType {
    fn from(index: usize) -> (r: NodeType) {
        proof {
            assert(index & 1 == index % 2) by (bit_vector);
        }
        if index & 1 == 1 {
            NodeType::Leaf
        } else {
            NodeType::Node
        }
    }
}

impl vstd::std_specs::convert::FromSpecImpl<usize> for NodeType {
    open spec fn obeys_from_spec() -> bool {
        true
    }

    open spec fn from_spec(index: usize) -> NodeType {
        type_of(index)
    }
}

impl<'v> From<&'v IndexView> for NodeType {
    fn from(view: &'v IndexView) -> (r: NodeType) {
        proof {
            let index = view.index;
            assert(index & 1 == index % 2) by (bit_vector);
        }
        if view.index & 1 == 1 {
            NodeType::Leaf
        } else {
            NodeType::Node
        }
    }
}

impl<'v> vstd::std_specs::convert::FromSpecImpl<&'v IndexView> for NodeType {
    open spec fn obeys_from_spec() -> bool {
        true
    }

    open spec fn from_spec(view: &'v IndexView) -> NodeType {
        type_of(view.index)
    }
}

} // verus!

