//! The single error kind that index navigation reports.

use vstd::prelude::*;

verus! {

/// Every failing navigation, lookup or construction reports the offending
/// index together with the bound that rejected it. No failure is silently
/// corrected and none aborts the process.
#[derive(Debug, Copy, Clone, PartialEq, Eq, Structural)]
pub enum FenwickTreeError {
    OutOfBounds { index: usize, length: usize },
}

} // verus!
