//! The index abstraction: a bidirectional mapping between an opaque handle
//! value and a dense position in some backing collection.

use vstd::prelude::*;

verus! {

/// A total, injective mapping between a handle and a `usize` position.
///
/// Every resource kind defines its own handle type implementing this
/// mapping, so that a handle of one kind cannot be confused with a handle
/// of another at the type level.
///
/// Converting from a position that the handle type cannot represent (one at
/// or above its reserved ceiling, see [`Index::index_ok`]) is an internal
/// invariant violation, not bad host input, and is therefore excluded by
/// precondition rather than reported as a recoverable error.
pub trait Index: Sized + Copy {
    /// Whether a position is representable by this handle type.
    spec fn index_ok(value: int) -> bool;

    /// The position this handle denotes.
    spec fn as_position(self) -> int;

    /// Converts the handle into the position it denotes.
    fn into_usize(self) -> (r: usize)
        ensures
            r as int == self.as_position(),
    ;

    /// Converts a position into the handle denoting it.
    ///
    /// The mapping is injective: the returned handle is the one and only
    /// handle that denotes `value`, so `from_usize(into_usize(h)) == h` for
    /// every handle `h`.
    fn from_usize(value: usize) -> (r: Self)
        requires
            Self::index_ok(value as int),
        ensures
            r.as_position() == value as int,
            forall|h: Self| #[trigger] h.as_position() == value as int ==> h == r,
    ;
}

} // verus!
