//! A constant pool that stores unique untyped constant values.
//!
//! This allows constant values to be deduplicated and referenced through
//! compact indices that take up less space in bytecode than the values
//! themselves. The pool also resolves constant indices back to their
//! original constant data.

use vstd::prelude::*;

use crate::index::Index;
use crate::untyped::UntypedValue;

verus! {

/// The index of a constant stored in the [`ConstPool`].
///
/// Its numeric space is reserved to stay strictly below `i32::MAX` because
/// the bytecode's operand encoding shares one address space between
/// register and constant references, distinguished by value range.
#[derive(Debug, Copy, Clone, PartialEq, Eq, Structural)]
pub struct ConstRef(pub u32);

impl ConstRef {
    /// Returns the inner representation of the [`ConstRef`].
    pub fn into_inner(self) -> (r: u32)
        ensures
            r as int == self.as_position(),
    {
        self.0
    }
}

impl Index for ConstRef {
    open spec fn index_ok(value: int) -> bool {
        0 <= value < i32::MAX as int
    }

    open spec fn as_position(self) -> int {
        self.0 as int
    }

    fn into_usize(self) -> usize {
        self.0 as usize
    }

    fn from_usize(value: usize) -> Self {
        ConstRef(value as u32)
    }
}

/// All values of the sequence are pairwise distinct.
pub open spec fn distinct(s: Seq<UntypedValue>) -> bool {
    forall|i: int, j: int| 0 <= i < j < s.len() ==> s[i] != s[j]
}

/// The pool contents after allocating `value`: unchanged when an equal
/// value is already present, extended by `value` otherwise.
pub open spec fn spec_alloc_values(s: Seq<UntypedValue>, value: UntypedValue) -> Seq<UntypedValue> {
    if s.contains(value) {
        s
    } else {
        s.push(value)
    }
}

/// The position handed out for allocating `value`: the position of the
/// equal value already present, or the freshly appended one.
pub open spec fn spec_alloc_position(s: Seq<UntypedValue>, value: UntypedValue) -> int {
    if s.contains(value) {
        s.index_of(value)
    } else {
        s.len() as int
    }
}

/// What resolving a position returns: the stored value for an in-range
/// position, and nothing otherwise.
pub open spec fn spec_resolve(s: Seq<UntypedValue>, position: int) -> Option<UntypedValue> {
    if 0 <= position < s.len() {
        Some(s[position])
    } else {
        None
    }
}

/// A deduplicating arena over untyped constant values.
///
/// Inserting a value equal to one already present returns the existing
/// handle rather than allocating a new slot, so every stored value is
/// unique and a position, once handed out, never comes to denote a
/// different value.
#[derive(Debug)]
pub struct ConstPool {
    values: Vec<UntypedValue>,
}

impl View for ConstPool {
    type V = Seq<UntypedValue>;

    closed spec fn view(&self) -> Seq<UntypedValue> {
        self.values@
    }
}

impl Default for ConstPool {
    /// Creates an empty constant pool.
    fn default() -> (r: Self)
        ensures
            r@ == Seq::<UntypedValue>::empty(),
            r.wf(),
    {
        Self { values: Vec::new() }
    }
}

impl ConstPool {
    /// Well-formedness: all stored values are pairwise distinct and the
    /// pool stays below the reserved handle-space ceiling.
    pub open spec fn wf(self) -> bool {
        &&& distinct(self@)
        &&& self@.len() <= i32::MAX as int
    }

    /// Returns the number of stored unique constants in the pool.
    pub fn len(&self) -> (r: usize)
        ensures
            r == self@.len(),
    {
        self.values.len()
    }

    /// Returns `true` if the pool is empty.
    pub fn is_empty(&self) -> (r: bool)
        ensures
            r == (self@.len() == 0),
    {
        self.values.is_empty()
    }

    /// Allocates a new constant value and returns a unique index to it.
    ///
    /// An equal value already present is not inserted again: its existing
    /// index is returned. Exceeding the reserved handle-space ceiling is an
    /// internal compiler-scale limit violation, not a user-triggerable
    /// error, and is therefore excluded by precondition.
    pub fn alloc_const(&mut self, value: UntypedValue) -> (r: ConstRef)
        requires
            old(self).wf(),
            old(self)@.contains(value) || old(self)@.len() < i32::MAX as int,
        ensures
            final(self).wf(),
            final(self)@ == spec_alloc_values(old(self)@, value),
            r.as_position() == spec_alloc_position(old(self)@, value),
            0 <= r.as_position() < final(self)@.len(),
            final(self)@[r.as_position()] == value,
    {
        let n = self.values.len();
        let mut i: usize = 0;
        while i < n
            invariant
                self.values@ == old(self).values@,
                old(self).wf(),
                old(self)@.contains(value) || old(self)@.len() < i32::MAX as int,
                n == self.values@.len(),
                i <= n,
                forall|j: int| 0 <= j < i ==> self.values@[j] != value,
            decreases n - i,
        {
            if self.values[i] == value {
                proof {
                    assert(self.values@.contains(value)) by {
                        assert(self.values@[i as int] == value);
                    }
                    let k = self.values@.index_of(value);
                    assert(0 <= k < self.values@.len() && self.values@[k] == value);
                    if k != i {
                        assert(false);
                    }
                }
                return ConstRef::from_usize(i);
            }
            i += 1;
        }
        proof {
            assert(!self.values@.contains(value));
        }
        self.values.push(value);
        proof {
            assert forall|a: int, b: int| 0 <= a < b < self.values@.len()
                implies self.values@[a] != self.values@[b] by {
                if b < self.values@.len() - 1 {
                    assert(old(self)@[a] != old(self)@[b]);
                } else {
                    assert(self.values@[b] == value);
                    assert(old(self)@[a] == self.values@[a]);
                    if old(self)@[a] == value {
                        assert(old(self)@.contains(value));
                    }
                }
            }
        }
        ConstRef::from_usize(n)
    }

    /// Resolves the index to a stored constant if any.
    ///
    /// A handle outside the pool's current range resolves to `None`; a
    /// well-formed compiler never produces such a handle, so this is
    /// purely defensive.
    pub fn resolve(&self, index: ConstRef) -> (r: Option<UntypedValue>)
        ensures
            r == spec_resolve(self@, index.as_position()),
    {
        let position = index.into_usize();
        if position < self.values.len() {
            Some(self.values[position])
        } else {
            None
        }
    }
}

/// Two constant handles that denote the same position are the same handle.
pub proof fn lemma_const_ref_injective(a: ConstRef, b: ConstRef)
    requires
        a.as_position() == b.as_position(),
    ensures
        a == b,
{
}

/// Dedup law: allocating two equal values returns the same position, the
/// second allocation leaves the pool untouched, and resolving the shared
/// position returns the value that was allocated.
pub proof fn lemma_alloc_const_dedup(s: Seq<UntypedValue>, v1: UntypedValue, v2: UntypedValue)
    requires
        distinct(s),
        v1 == v2,
    ensures
        spec_alloc_position(spec_alloc_values(s, v1), v2) == spec_alloc_position(s, v1),
        spec_alloc_values(spec_alloc_values(s, v1), v2) == spec_alloc_values(s, v1),
        spec_resolve(spec_alloc_values(s, v1), spec_alloc_position(s, v1)) == Some(v1),
{
    let pool_after = spec_alloc_values(s, v1);
    if s.contains(v1) {
        let k = s.index_of(v1);
        assert(0 <= k < s.len() && s[k] == v1);
    } else {
        assert(pool_after[s.len() as int] == v1);
        assert(pool_after.contains(v1)) by {
            assert(pool_after[s.len() as int] == v1);
        }
        let k = pool_after.index_of(v1);
        assert(0 <= k < pool_after.len() && pool_after[k] == v1);
        if k < s.len() {
            assert(s[k] == v1);
            assert(s.contains(v1));
        }
        assert(k == s.len() as int);
    }
}

/// Non-dedup law: allocating two unequal values returns two different
/// positions, and the pool stays duplicate-free.
pub proof fn lemma_alloc_const_distinct(s: Seq<UntypedValue>, v1: UntypedValue, v2: UntypedValue)
    requires
        distinct(s),
        v1 != v2,
    ensures
        spec_alloc_position(spec_alloc_values(s, v1), v2) != spec_alloc_position(s, v1),
        distinct(spec_alloc_values(s, v1)),
{
    let pool_after = spec_alloc_values(s, v1);
    let first_position = spec_alloc_position(s, v1);
    if s.contains(v1) {
        let k = s.index_of(v1);
        assert(0 <= k < s.len() && s[k] == v1);
        if pool_after.contains(v2) {
            let j = pool_after.index_of(v2);
            assert(0 <= j < pool_after.len() && pool_after[j] == v2);
        }
    } else {
        assert(pool_after[s.len() as int] == v1);
        assert forall|a: int, b: int| 0 <= a < b < pool_after.len() implies pool_after[a] != pool_after[b] by {
            if b < s.len() {
                assert(s[a] != s[b]);
            } else {
                assert(pool_after[b] == v1);
                if s[a] == v1 {
                    assert(s.contains(v1));
                }
            }
        }
        if pool_after.contains(v2) {
            let j = pool_after.index_of(v2);
            assert(0 <= j < pool_after.len() && pool_after[j] == v2);
            if j == s.len() as int {
                assert(pool_after[j] == v1);
            }
        }
    }
}

/// Round trip: resolving the handle returned for an allocated value
/// returns a value equal to the one originally allocated.
pub proof fn lemma_alloc_const_round_trip(s: Seq<UntypedValue>, value: UntypedValue)
    requires
        distinct(s),
    ensures
        spec_resolve(spec_alloc_values(s, value), spec_alloc_position(s, value)) == Some(value),
{
    if s.contains(value) {
        let k = s.index_of(value);
        assert(0 <= k < s.len() && s[k] == value);
    } else {
        assert(spec_alloc_values(s, value)[s.len() as int] == value);
    }
}

} // verus!
