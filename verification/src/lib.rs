//! Navigation engine for an implicit binary-indexed (Fenwick) tree laid out
//! over a flat, 1-based indexed collection.
//!
//! A Fenwick tree encodes a complete binary tree purely through integer index
//! arithmetic: each slot of the backing collection stands for a node whose
//! span of responsibility is the value of the lowest set bit of its index.
//! This crate provides the bit-trick arithmetic that computes neighbouring
//! tree positions (parent, children, same-level siblings) from a current
//! index, together with three walker kinds that apply that arithmetic either
//! in isolation ([`fenwick::VirtualTreeView`]) or against a borrowed backing
//! collection ([`fenwick::StatefulTreeView`], [`fenwick::StatefulTreeViewMut`]).
//!
//! Every navigation operation validates the index it resolves against the
//! walker's bound and reports violations as
//! [`fenwick::FenwickTreeError::OutOfBounds`] values rather than panicking.

pub mod fenwick;
pub mod tree;
pub mod tree_kv;

pub use tree::{
    Direction, Height, NodeSide, NodeType, TreeRead, TreeReadMut, TreeWalker, TreeWalkerMut,
    TreeWrite, side_of, type_of,
};
