//! The Fenwick navigation core: the cached index position, the movement
//! arithmetic shared by every walker kind, and the virtual walker that
//! navigates pure index space against a fixed bound.
//!
//! Movement is plain bit arithmetic over the current index `i` and its
//! lowest set bit `L`:
//!
//! - `Up`: `(i | (L << 1)) ^ L`
//! - `Down(Left)`: `(i | (L >> 1)) ^ L`; `Down(Right)`: `(i | L) ^ (L >> 1)`
//! - `Left`: `i - min(L << 1, i)`, saturating at the floor of the range
//! - `Right`: `i + (L << 1)`, in word (wrapping) arithmetic
//! - sibling: `i ^ (L << 1)`
//!
//! A computed or supplied index is valid iff `0 < index < bound`, where the
//! bound is the virtual walker's fixed length or the live length of the
//! backing collection; any violation is reported as
//! [`FenwickTreeError::OutOfBounds`] carrying the offending index and the
//! bound that rejected it.

use vstd::prelude::*;
use crate::tree::{Direction, NodeSide, NodeType, TreeWalker, side_of, type_of};

pub mod bits;
pub mod errors;
pub mod stateful;
pub mod traits;

pub use self::bits::{lowest_bit, lsb, log2_bin};
pub use self::errors::FenwickTreeError;
pub use self::stateful::{StatefulTreeView, StatefulTreeViewMut};
pub use self::traits::{IndexedCollection, IndexedCollectionMut, Length};

verus! {

/// A position in the implicit tree: the current index together with the
/// cached value of its lowest set bit, kept consistent by every mutation.
#[derive(Debug, Copy, Clone, PartialEq, Eq, Structural)]
pub struct IndexView {
    pub index: usize,
    pub lsb: usize,
}

impl IndexView {
    /// The cache invariant: `lsb` holds the lowest set bit of `index`.
    pub open spec fn wf(self) -> bool {
        self.lsb == lowest_bit(self.index)
    }

    /// A fresh position at `index`, with the lowest-set-bit cache filled in.
    pub fn new(index: usize) -> (r: IndexView)
        ensures
            r == (IndexView { index, lsb: lowest_bit(index) }),
            r.wf(),
    {
        IndexView { index, lsb: if index == 0 { 0 } else { lsb(index) } }
    }

    /// Moves the position to `new`, recomputing the cached lowest set bit.
    pub fn update(&mut self, new: usize)
        ensures
            *final(self) == (IndexView { index: new, lsb: lowest_bit(new) }),
            final(self).wf(),
    {
        self.index = new;
        self.lsb = if new == 0 {
            0
        } else {
            lsb(new)
        };
    }
}

/// An index view compares equal to a bare index when its own index matches.
impl PartialEq<usize> for IndexView {
    fn eq(&self, other: &usize) -> (r: bool) {
        &self.index == other
    }
}

impl vstd::std_specs::cmp::PartialEqSpecImpl<usize> for IndexView {
    open spec fn obeys_eq_spec() -> bool {
        true
    }

    open spec fn eq_spec(&self, other: &usize) -> bool {
        self.index == *other
    }
}

/// Bitwise-or of the held index with a bare index.
impl core::ops::BitOr<usize> for IndexView {
    type Output = usize;

    fn bitor(self, rhs: usize) -> (r: usize) {
        self.index | rhs
    }
}

impl vstd::std_specs::ops::BitOrSpecImpl<usize> for IndexView {
    open spec fn obeys_bitor_spec() -> bool {
        true
    }

    open spec fn bitor_req(self, rhs: usize) -> bool {
        true
    }

    open spec fn bitor_spec(self, rhs: usize) -> usize {
        self.index | rhs
    }
}

/// Bitwise-xor of the held index with a bare index.
impl core::ops::BitXor<usize> for IndexView {
    type Output = usize;

    fn bitxor(self, rhs: usize) -> (r: usize) {
        self.index ^ rhs
    }
}

impl vstd::std_specs::ops::BitXorSpecImpl<usize> for IndexView {
    open spec fn obeys_bitxor_spec() -> bool {
        true
    }

    open spec fn bitxor_req(self, rhs: usize) -> bool {
        true
    }

    open spec fn bitxor_spec(self, rhs: usize) -> usize {
        self.index ^ rhs
    }
}

/// Bitwise-and of the held index with a bare index.
impl core::ops::BitAnd<usize> for IndexView {
    type Output = usize;

    fn bitand(self, rhs: usize) -> (r: usize) {
        self.index & rhs
    }
}

impl vstd::std_specs::ops::BitAndSpecImpl<usize> for IndexView {
    open spec fn obeys_bitand_spec() -> bool {
        true
    }

    open spec fn bitand_req(self, rhs: usize) -> bool {
        true
    }

    open spec fn bitand_spec(self, rhs: usize) -> usize {
        self.index & rhs
    }
}

/// Sum of the held index and a bare index; the sum must fit in a word.
impl core::ops::Add<usize> for IndexView {
    type Output = usize;

    fn add(self, rhs: usize) -> (r: usize) {
        self.index + rhs
    }
}

impl vstd::std_specs::ops::AddSpecImpl<usize> for IndexView {
    open spec fn obeys_add_spec() -> bool {
        true
    }

    open spec fn add_req(self, rhs: usize) -> bool {
        self.index + rhs <= usize::MAX
    }

    open spec fn add_spec(self, rhs: usize) -> usize {
        (self.index + rhs) as usize
    }
}

/// Difference of the held index and a bare index, which must not exceed it.
impl core::ops::Sub<usize> for IndexView {
    type Output = usize;

    fn sub(self, rhs: usize) -> (r: usize) {
        self.index - rhs
    }
}

impl vstd::std_specs::ops::SubSpecImpl<usize> for IndexView {
    open spec fn obeys_sub_spec() -> bool {
        true
    }

    open spec fn sub_req(self, rhs: usize) -> bool {
        rhs <= self.index
    }

    open spec fn sub_spec(self, rhs: usize) -> usize {
        (self.index - rhs) as usize
    }
}

/// An index view reports the size of its span of responsibility, which is
/// its lowest set bit, as its length.
impl Length for IndexView {
    open spec fn spec_length(&self) -> usize {
        self.lsb
    }

    fn length(&self) -> (r: usize) {
        self.lsb
    }
}

/// The index that moving from `curr` in `direction` computes. `Right` uses
/// word (wrapping) arithmetic; `Left` saturates at the bottom of the range;
/// the shift `lsb << 1` drops a bit shifted off the top of the word.
pub open spec fn step_index(curr: IndexView, direction: Direction) -> usize {
    match direction {
        Direction::Up => (curr.index | (curr.lsb << 1)) ^ curr.lsb,
        Direction::Down(NodeSide::Left) => (curr.index | (curr.lsb >> 1)) ^ curr.lsb,
        Direction::Down(NodeSide::Right) => (curr.index | curr.lsb) ^ (curr.lsb >> 1),
        Direction::Left => if (curr.lsb << 1) < curr.index {
            (curr.index - (curr.lsb << 1)) as usize
        } else {
            0
        },
        Direction::Right => curr.index.wrapping_add(curr.lsb << 1),
    }
}

/// The same-level sibling of `curr`: the bit above the lowest set bit
/// toggled.
pub open spec fn sibling_index(curr: IndexView) -> usize {
    curr.index ^ (curr.lsb << 1)
}

/// The same-level sibling of a bare index: the bit above its lowest set
/// bit toggled. This is `sibling_index` applied to a consistent
/// [`IndexView`] of the index.
pub open spec fn sibling_of(index: usize) -> usize {
    index ^ (lowest_bit(index) << 1)
}

/// Toggling over to the same-level sibling preserves the lowest set bit,
/// so taking the sibling twice returns to the starting index.
pub proof fn lemma_sibling_involution(index: usize)
    requires
        index > 0,
    ensures
        lowest_bit(sibling_of(index)) == lowest_bit(index),
        sibling_of(sibling_of(index)) == index,
{
    let l = lowest_bit(index);
    let s = index ^ (l << 1);
    crate::fenwick::bits::lemma_lowest_bit_word(index);
    assert(s > 0 && (s & !((s - 1) as usize)) == l && (s ^ (l << 1)) == index) by (bit_vector)
        requires
            index > 0 && l == (index & !((index - 1) as usize)) && s == (index ^ (l << 1)),
    ;
    crate::fenwick::bits::lemma_lowest_bit_word(s);
}

/// Up, Down and sibling are mutually consistent at every internal node:
/// both children sit one level below their parent, moving up from either
/// child returns to the parent, and the sibling of the left child is the
/// right child.
pub proof fn lemma_up_down_sibling_consistent(v: IndexView)
    requires
        v.wf(),
        v.index > 0,
        v.lsb > 1,
    ensures
        step_index(v, Direction::Down(NodeSide::Left)) > 0,
        step_index(v, Direction::Down(NodeSide::Right)) > 0,
        lowest_bit(step_index(v, Direction::Down(NodeSide::Left))) == v.lsb >> 1,
        lowest_bit(step_index(v, Direction::Down(NodeSide::Right))) == v.lsb >> 1,
        step_index(
            (IndexView { index: step_index(v, Direction::Down(NodeSide::Left)), lsb: v.lsb >> 1 }),
            Direction::Up,
        ) == v.index,
        step_index(
            (IndexView { index: step_index(v, Direction::Down(NodeSide::Right)), lsb: v.lsb >> 1 }),
            Direction::Up,
        ) == v.index,
        sibling_index(
            (IndexView { index: step_index(v, Direction::Down(NodeSide::Left)), lsb: v.lsb >> 1 }),
        ) == step_index(v, Direction::Down(NodeSide::Right)),
{
    let i = v.index;
    let l = v.lsb;
    let dl = (i | (l >> 1)) ^ l;
    let dr = (i | l) ^ (l >> 1);
    crate::fenwick::bits::lemma_lowest_bit_word(i);
    assert(dl > 0 && dr > 0 && (dl & !((dl - 1) as usize)) == l >> 1 && (dr & !((dr - 1)
        as usize)) == l >> 1 && ((dl | ((l >> 1) << 1)) ^ (l >> 1)) == i && ((dr | ((l >> 1) << 1))
        ^ (l >> 1)) == i && (dl ^ ((l >> 1) << 1)) == dr) by (bit_vector)
        requires
            i > 0 && l > 1 && l == (i & !((i - 1) as usize)) && dl == ((i | (l >> 1)) ^ l) && dr
                == ((i | l) ^ (l >> 1)),
    ;
    crate::fenwick::bits::lemma_lowest_bit_word(dl);
    crate::fenwick::bits::lemma_lowest_bit_word(dr);
}

/// Validation shared by every walker kind: an index resolves iff
/// `0 < index < length`; otherwise the offending index and the bound are
/// reported.
pub open spec fn checked_index(index: usize, length: usize) -> Result<usize, FenwickTreeError> {
    if 0 < index < length {
        Ok(index)
    } else {
        Err(FenwickTreeError::OutOfBounds { index, length })
    }
}

/// What `peek` and `traverse` resolve: descending from a leaf fails without
/// computing a degenerate index and reports the leaf's own index; any other
/// move computes `step_index` and validates it.
pub open spec fn step_outcome(curr: IndexView, direction: Direction, length: usize) -> Result<
    usize,
    FenwickTreeError,
> {
    if direction matches Direction::Down(_) && curr.lsb == 1 {
        Err(FenwickTreeError::OutOfBounds { index: curr.index, length })
    } else {
        checked_index(step_index(curr, direction), length)
    }
}

/// What `seek` resolves: a zero path is rejected outright, any other path
/// is validated against the bound after the walker has moved onto it.
pub open spec fn seek_outcome(path: usize, length: usize) -> Result<usize, FenwickTreeError> {
    if path == 0 {
        Err(FenwickTreeError::OutOfBounds { index: 0, length })
    } else {
        checked_index(path, length)
    }
}

/// Computes the index that moving from `curr` in `direction` would reach,
/// before validation; descending from a leaf has no child index and yields
/// nothing. Every walker kind routes its movement through this one place.
pub(crate) fn compute_step(curr: IndexView, direction: Direction) -> (r: Option<usize>)
    ensures
        r is None <==> (direction matches Direction::Down(_) && curr.lsb == 1),
        r matches Some(n) ==> n == step_index(curr, direction),
{
    match direction {
        Direction::Up => Some((curr.index | (curr.lsb << 1)) ^ curr.lsb),
        Direction::Down(side) => {
            if curr.lsb == 1 {
                return None;
            }
            match side {
                NodeSide::Left => Some((curr.index | (curr.lsb >> 1)) ^ curr.lsb),
                NodeSide::Right => Some((curr.index | curr.lsb) ^ (curr.lsb >> 1)),
            }
        },
        Direction::Left => {
            let step = curr.lsb << 1;
            let delta = if step < curr.index {
                step
            } else {
                curr.index
            };
            Some(curr.index - delta)
        },
        Direction::Right => Some(curr.index.wrapping_add(curr.lsb << 1)),
    }
}

/// Pure index-space navigation: a position plus a fixed upper bound, with
/// no backing data. Lookups output the validated raw index.
#[derive(Debug, Clone, PartialEq, Eq, Structural)]
pub struct VirtualTreeView {
    pub length: usize,
    pub curr: IndexView,
}

impl VirtualTreeView {
    /// A virtual walker over the index space of `collection`, starting at
    /// `index`. The bound is a snapshot of the collection's current length;
    /// a starting index of zero is rejected.
    pub fn new<L: Length + ?Sized>(collection: &L, index: usize) -> (r: Result<
        VirtualTreeView,
        FenwickTreeError,
    >)
        ensures
            index == 0 ==> r == Err::<VirtualTreeView, FenwickTreeError>(
                FenwickTreeError::OutOfBounds { index: 0, length: collection.spec_length() },
            ),
            index > 0 ==> r == Ok::<VirtualTreeView, FenwickTreeError>(
                (VirtualTreeView {
                    length: collection.spec_length(),
                    curr: IndexView { index, lsb: lowest_bit(index) },
                }),
            ),
    {
        if index == 0 {
            return Err(
                FenwickTreeError::OutOfBounds { index: 0, length: collection.length() },
            );
        }
        Ok(VirtualTreeView { length: collection.length(), curr: IndexView::new(index) })
    }
}

/// A virtual walker reports its fixed bound as its length.
impl Length for VirtualTreeView {
    open spec fn spec_length(&self) -> usize {
        self.length
    }

    fn length(&self) -> (r: usize) {
        self.length
    }
}

impl<'w> TreeWalker<'w> for VirtualTreeView {
    type Path = usize;

    type Output = usize;

    type Error = FenwickTreeError;

    open spec fn wf(&self) -> bool {
        self.curr.wf()
    }

    open spec fn position(&self) -> IndexView {
        self.curr
    }

    open spec fn bound(&self) -> usize {
        self.length
    }

    open spec fn resolves(&self, index: usize, output: usize) -> bool {
        output == index
    }

    open spec fn out_of_bounds(&self, index: usize, length: usize) -> FenwickTreeError {
        FenwickTreeError::OutOfBounds { index, length }
    }

    fn peek(&'w self, direction: Direction) -> (r: Result<usize, FenwickTreeError>)
        ensures
            r == step_outcome(self.curr, direction, self.length),
    {
        let index: usize = match compute_step(self.curr, direction) {
            Some(index) => index,
            None => {
                return Err(
                    FenwickTreeError::OutOfBounds { index: self.curr.index, length: self.length },
                );
            },
        };
        if 0 < index && index < self.length {
            Ok(index)
        } else {
            Err(FenwickTreeError::OutOfBounds { index, length: self.length })
        }
    }

    fn probe(&'w self, path: usize) -> (r: Result<usize, FenwickTreeError>)
        ensures
            r == checked_index(path, self.length),
    {
        if 0 < path && path < self.length {
            Ok(path)
        } else {
            Err(FenwickTreeError::OutOfBounds { index: path, length: self.length })
        }
    }

    fn current(&'w self) -> (r: Result<usize, FenwickTreeError>)
        ensures
            r == checked_index(self.curr.index, self.length),
    {
        if 0 < self.curr.index && self.curr.index < self.length {
            Ok(self.curr.index)
        } else {
            Err(FenwickTreeError::OutOfBounds { index: self.curr.index, length: self.length })
        }
    }

    fn sibling(&'w self) -> (r: Result<usize, FenwickTreeError>)
        ensures
            r == checked_index(sibling_index(self.curr), self.length),
    {
        let sibling: usize = self.curr.index ^ (self.curr.lsb << 1);
        if 0 < sibling && sibling < self.length {
            Ok(sibling)
        } else {
            Err(FenwickTreeError::OutOfBounds { index: sibling, length: self.length })
        }
    }

    fn traverse(&'w mut self, direction: Direction) -> (r: Result<usize, FenwickTreeError>)
        ensures
            r == step_outcome(old(self).curr, direction, old(self).length),
            final(self).length == old(self).length,
            r is Ok ==> final(self).curr == (IndexView {
                index: r->Ok_0,
                lsb: lowest_bit(r->Ok_0),
            }),
            r is Err ==> final(self).curr == old(self).curr,
    {
        let index: usize = match compute_step(self.curr, direction) {
            Some(index) => index,
            None => {
                return Err(
                    FenwickTreeError::OutOfBounds { index: self.curr.index, length: self.length },
                );
            },
        };
        if 0 < index && index < self.length {
            self.curr.update(index);
            Ok(index)
        } else {
            Err(FenwickTreeError::OutOfBounds { index, length: self.length })
        }
    }

    fn seek(&'w mut self, path: usize) -> (r: Result<usize, FenwickTreeError>)
        ensures
            r == seek_outcome(path, old(self).length),
            final(self).length == old(self).length,
            path == 0 ==> final(self).curr == old(self).curr,
            path > 0 ==> final(self).curr == (IndexView { index: path, lsb: lowest_bit(path) }),
    {
        if path == 0 {
            return Err(FenwickTreeError::OutOfBounds { index: 0, length: self.length });
        }
        self.curr.update(path);
        if path < self.length {
            Ok(path)
        } else {
            Err(FenwickTreeError::OutOfBounds { index: path, length: self.length })
        }
    }

    fn reset(&'w mut self)
        ensures
            final(self).length == old(self).length,
            final(self).curr == (IndexView {
                index: old(self).length,
                lsb: lowest_bit(old(self).length),
            }),
    {
        let length = self.length;
        self.curr.update(length);
    }

    fn type_(&'w self) -> (r: NodeType)
        ensures
            r == type_of(self.curr.index),
    {
        NodeType::from(&self.curr)
    }

    fn side(&'w self) -> (r: NodeSide)
        ensures
            r == side_of(self.curr.index),
    {
        NodeSide::from(&self.curr)
    }
}

} // verus!

