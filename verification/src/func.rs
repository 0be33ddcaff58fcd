//! References to function entities.

use vstd::prelude::*;

verus! {

/// A cheap, copyable reference into the function arena.
///
/// Table slots hold either such a reference or no function at all; the
/// function entity itself lives inside the owning store.
#[derive(Debug, Copy, Clone, PartialEq, Eq, Structural)]
pub struct FuncRef {
    /// The function index this reference denotes.
    pub index: u32,
}

impl FuncRef {
    /// Creates a function reference denoting the given function index.
    pub fn new(index: u32) -> (r: Self)
        ensures
            r.index == index,
    {
        Self { index }
    }

    /// Returns the function index this reference denotes.
    pub fn into_index(self) -> (r: u32)
        ensures
            r == self.index,
    {
        self.index
    }
}

} // verus!
