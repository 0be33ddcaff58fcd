//! Resizable limits of a growable resource entity.

use vstd::prelude::*;

verus! {

/// The initial length and optional maximum length of a resizable resource,
/// fixed at entity creation.
///
/// When no maximum is present, an implicit bound of `u32::MAX` applies,
/// matching the 32-bit WebAssembly size space.
#[derive(Debug, Copy, Clone, PartialEq, Eq)]
pub struct ResizableLimits {
    /// The initial length of the resource.
    pub initial: usize,
    /// The optional maximum length the resource may reach.
    pub maximum: Option<usize>,
}

impl ResizableLimits {
    /// A pre-validated pair of limits: the initial length does not exceed the
    /// maximum where one is present, and both fit the 32-bit size space.
    pub open spec fn is_valid(self) -> bool {
        &&& self.initial <= u32::MAX
        &&& match self.maximum {
            Some(maximum) => self.initial <= maximum && maximum <= u32::MAX,
            None => true,
        }
    }

    /// The maximum length that bounds all growth: the declared maximum where
    /// present, and the implicit 32-bit bound otherwise.
    pub open spec fn spec_effective_maximum(self) -> int {
        match self.maximum {
            Some(maximum) => maximum as int,
            None => u32::MAX as int,
        }
    }

    /// Creates new resizable limits.
    ///
    /// Limits are validated by the module decoder before they reach this
    /// core, so a caller must hand in an already valid pair.
    pub fn new(initial: usize, maximum: Option<usize>) -> (r: Self)
        requires
            (Self { initial, maximum }).is_valid(),
        ensures
            r == (Self { initial, maximum }),
            r.is_valid(),
    {
        Self { initial, maximum }
    }

    /// Returns the initial length.
    pub fn initial(&self) -> (r: usize)
        ensures
            r == self.initial,
    {
        self.initial
    }

    /// Returns the optional maximum length.
    pub fn maximum(&self) -> (r: Option<usize>)
        ensures
            r == self.maximum,
    {
        self.maximum
    }

    /// Returns the effective maximum length that bounds all growth.
    pub fn effective_maximum(&self) -> (r: usize)
        requires
            self.is_valid(),
        ensures
            r == self.spec_effective_maximum(),
    {
        match self.maximum {
            Some(maximum) => maximum,
            None => u32::MAX as usize,
        }
    }
}

} // verus!
