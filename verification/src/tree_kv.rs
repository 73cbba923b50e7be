//! Key-value node representation for tree containers that index their nodes
//! by key: a node either holds a key-value pair, carries a borrowed key used
//! purely for searching, or is empty.

use vstd::prelude::*;
use vstd::pervasive::unreached;

verus! {

/// A key-value tree node. `Occupied` holds real data, `Search` wraps a
/// borrowed key for lookups, and `Empty` marks the absence of a node.
#[derive(Debug)]
pub enum NodeKV<'a, K: PartialEq, V> {
    Occupied(K, V),
    Search(&'a K),
    Empty,
}

impl<'a, K: PartialEq, V> Default for NodeKV<'a, K, V> {
    fn default() -> (r: Self)
        ensures
            r is Empty,
    {
        NodeKV::Empty
    }
}

impl<'a, K: PartialEq, V> NodeKV<'a, K, V> {
    /// Takes the value out of an occupied node. Searching a tree must only
    /// ever surface occupied nodes, so any other variant is excluded here.
    pub fn unwrap(self) -> (r: V)
        requires
            self is Occupied,
        ensures
            self matches NodeKV::Occupied(_, v) && r == v,
    {
        match self {
            NodeKV::Occupied(_, v) => v,
            _ => unreached(),
        }
    }

    /// Borrows the value of an occupied node.
    pub fn inner(&self) -> (r: &V)
        requires
            self is Occupied,
        ensures
            self matches NodeKV::Occupied(_, v) && *r == v,
    {
        match self {
            NodeKV::Occupied(_, v) => v,
            _ => unreached(),
        }
    }

    /// Exclusively borrows the value of an occupied node; the key and the
    /// variant stay as they were, and the value tracks whatever is written
    /// through the returned reference.
    pub fn inner_mut(&mut self) -> (r: &mut V)
        requires
            *old(self) is Occupied,
        ensures
            *old(self) matches NodeKV::Occupied(k, v) && *r == v && *final(self)
                == (NodeKV::Occupied(k, *final(r))),
    {
        match self {
            NodeKV::Occupied(_, v) => v,
            _ => unreached(),
        }
    }
}

} // verus!
