//! Wasm table entities and the store-bound table handle.

use vstd::prelude::*;

use crate::func::FuncRef;
use crate::index::Index;
use crate::limits::ResizableLimits;
use crate::store::{Store, Stored};

verus! {

/// A raw index to a table entity.
#[derive(Debug, Copy, Clone, PartialEq, Eq, PartialOrd, Ord, Structural)]
pub struct TableIdx(pub usize);

impl Index for TableIdx {
    open spec fn index_ok(value: int) -> bool {
        true
    }

    open spec fn as_position(self) -> int {
        self.0 as int
    }

    fn into_usize(self) -> usize {
        self.0
    }

    fn from_usize(value: usize) -> Self {
        TableIdx(value)
    }
}

/// Errors that may occur upon operating with table entities.
///
/// Both variants are recoverable, caller-facing failures that carry enough
/// context for a precise diagnostic or WebAssembly trap, and both leave the
/// entity unmodified.
#[derive(Debug, Copy, Clone, PartialEq, Eq, Structural)]
#[non_exhaustive]
pub enum TableError {
    /// Growth would overflow or exceed the effective maximum length.
    GrowOutOfBounds {
        /// The effective maximum length of the table.
        maximum: usize,
        /// The current length of the table.
        current: usize,
        /// The amount of elements the growth asked for.
        grow_by: usize,
    },
    /// An access at or beyond the current length.
    AccessOutOfBounds {
        /// The current length of the table.
        current: usize,
        /// The offset the access asked for.
        offset: usize,
    },
}

/// Relies on alloc's string formatting to render the growth diagnostic text.
#[verifier::external_body]
fn format_grow_error(maximum: usize, current: usize, grow_by: usize) -> String {
    format!(
        "tried to grow table with size of {} and maximum of {} by {} out of bounds",
        current, maximum, grow_by
    )
}

/// Relies on alloc's string formatting to render the access diagnostic text.
#[verifier::external_body]
fn format_access_error(current: usize, offset: usize) -> String {
    format!(
        "out of bounds access of table element {} of table with size {}",
        offset, current,
    )
}

impl TableError {
    /// Renders the error as a human-readable diagnostic.
    pub fn message(&self) -> String {
        match self {
            Self::GrowOutOfBounds { maximum, current, grow_by } => {
                format_grow_error(*maximum, *current, *grow_by)
            },
            Self::AccessOutOfBounds { current, offset } => {
                format_access_error(*current, *offset)
            },
        }
    }
}

/// A Wasm table entity: an ordered sequence of optional function references
/// plus the resizable limits fixed at creation.
///
/// Slots are only ever appended (by growth) and overwritten (by `set`),
/// never removed or reordered, and the length never exceeds the effective
/// maximum.
#[derive(Debug)]
pub struct TableEntity {
    limits: ResizableLimits,
    elements: Vec<Option<FuncRef>>,
}

impl View for TableEntity {
    type V = Seq<Option<FuncRef>>;

    closed spec fn view(&self) -> Seq<Option<FuncRef>> {
        self.elements@
    }
}

impl TableEntity {
    /// The resizable limits of the table.
    pub closed spec fn spec_limits(self) -> ResizableLimits {
        self.limits
    }

    /// The effective maximum length bounding all growth.
    pub open spec fn spec_max(self) -> int {
        self.spec_limits().spec_effective_maximum()
    }

    /// Well-formedness: the limits are valid and the live length never
    /// exceeds the effective maximum.
    pub open spec fn wf(self) -> bool {
        &&& self.spec_limits().is_valid()
        &&& self@.len() <= self.spec_max()
    }

    /// Whether growing by `grow_by` elements is admissible: the new length
    /// neither overflows nor reaches the effective maximum.
    ///
    /// The comparison against the maximum is strict, as the admissibility
    /// check performs it, although the declared maximum reads as an
    /// inclusive bound elsewhere; the boundary case of growing exactly to
    /// the maximum is therefore rejected.
    pub open spec fn grow_ok(self, grow_by: usize) -> bool {
        self@.len() + grow_by < self.spec_max()
    }

    /// The error reported for an inadmissible growth.
    pub open spec fn spec_grow_err(self, grow_by: usize) -> TableError {
        TableError::GrowOutOfBounds {
            maximum: self.spec_max() as usize,
            current: self@.len() as usize,
            grow_by,
        }
    }

    /// The error reported for an access at or beyond the current length.
    pub open spec fn spec_access_err(self, offset: usize) -> TableError {
        TableError::AccessOutOfBounds { current: self@.len() as usize, offset }
    }

    /// What `get` returns: the slot's value for an in-bounds offset, and an
    /// access error otherwise.
    pub open spec fn spec_get(self, offset: usize) -> Result<Option<FuncRef>, TableError> {
        if offset < self@.len() {
            Ok(self@[offset as int])
        } else {
            Err(self.spec_access_err(offset))
        }
    }

    /// Creates a new table entity with the given resizable limits,
    /// allocating `limits.initial` null slots.
    ///
    /// Limits are assumed pre-validated by the caller.
    pub fn new(limits: ResizableLimits) -> (r: Self)
        requires
            limits.is_valid(),
        ensures
            r.spec_limits() == limits,
            r@ == Seq::new(limits.initial as nat, |i: int| None::<FuncRef>),
            r.wf(),
    {
        let initial = limits.initial();
        let mut elements: Vec<Option<FuncRef>> = Vec::new();
        while elements.len() < initial
            invariant
                elements@.len() <= initial,
                forall|i: int| 0 <= i < elements@.len() ==> elements@[i] is None,
            decreases initial - elements@.len(),
        {
            elements.push(None);
        }
        let r = Self { elements, limits };
        proof {
            assert(r@ =~= Seq::new(limits.initial as nat, |i: int| None::<FuncRef>));
        }
        r
    }

    /// Returns the resizable limits of the table.
    pub fn limits(&self) -> (r: ResizableLimits)
        ensures
            r == self.spec_limits(),
    {
        self.limits
    }

    /// Returns the current length of the table.
    pub fn len(&self) -> (r: usize)
        ensures
            r == self@.len(),
    {
        self.elements.len()
    }

    /// Grows the table by the given amount of elements, initializing the
    /// newly added slots to `None`.
    ///
    /// # Errors
    ///
    /// If the new length would overflow or is not admissible under the
    /// effective maximum; the table is then left untouched, never partially
    /// grown.
    pub fn grow(&mut self, grow_by: usize) -> (r: Result<(), TableError>)
        requires
            old(self).wf(),
        ensures
            final(self).wf(),
            final(self).spec_limits() == old(self).spec_limits(),
            r is Ok <==> old(self).grow_ok(grow_by),
            match r {
                Ok(_) => final(self)@ == old(self)@
                    + Seq::new(grow_by as nat, |i: int| None::<FuncRef>),
                Err(e) => final(self)@ == old(self)@ && e == old(self).spec_grow_err(grow_by),
            },
    {
        let maximum = self.limits.effective_maximum();
        let current = self.elements.len();
        if grow_by > usize::MAX - current {
            return Err(TableError::GrowOutOfBounds { maximum, current, grow_by });
        }
        let new_len = current + grow_by;
        if new_len >= maximum {
            return Err(TableError::GrowOutOfBounds { maximum, current, grow_by });
        }
        let ghost prefix = self.elements@;
        let ghost limits0 = self.limits;
        while self.elements.len() < new_len
            invariant
                self.limits == limits0,
                prefix.len() <= self.elements@.len() <= new_len,
                self.elements@.subrange(0, prefix.len() as int) == prefix,
                forall|i: int| prefix.len() <= i < self.elements@.len()
                    ==> self.elements@[i] is None,
            decreases new_len - self.elements@.len(),
        {
            self.elements.push(None);
        }
        proof {
            assert(self.elements@ =~= prefix + Seq::new(grow_by as nat, |i: int| None::<FuncRef>));
        }
        Ok(())
    }

    /// Returns the element at the given offset if any.
    ///
    /// # Errors
    ///
    /// If the accessed element is out of bounds of the table.
    pub fn get(&self, offset: usize) -> (r: Result<Option<FuncRef>, TableError>)
        ensures
            r == self.spec_get(offset),
    {
        if offset < self.elements.len() {
            Ok(self.elements[offset])
        } else {
            Err(TableError::AccessOutOfBounds { current: self.elements.len(), offset })
        }
    }

    /// Sets a new value to the table element at the given offset.
    ///
    /// # Errors
    ///
    /// If the accessed element is out of bounds of the table; the table is
    /// then left untouched.
    pub fn set(&mut self, offset: usize, new_value: Option<FuncRef>) -> (r: Result<(), TableError>)
        ensures
            final(self).spec_limits() == old(self).spec_limits(),
            r is Ok <==> offset < old(self)@.len(),
            match r {
                Ok(_) => final(self)@ == old(self)@.update(offset as int, new_value),
                Err(e) => final(self)@ == old(self)@ && e == old(self).spec_access_err(offset),
            },
            old(self).wf() ==> final(self).wf(),
    {
        let current = self.elements.len();
        if offset < current {
            self.elements[offset] = new_value;
            Ok(())
        } else {
            Err(TableError::AccessOutOfBounds { current, offset })
        }
    }
}

/// A Wasm table reference.
///
/// A copyable, store-bound handle that must be resolved against a
/// caller-supplied context before every operation; this indirection lets
/// the same handle be copied freely while all mutation still routes
/// through the one canonical entity inside the store.
#[derive(Debug, Copy, Clone)]
pub struct Table(Stored<TableIdx>);

impl Table {
    /// The identity of the store this handle was minted by.
    pub closed spec fn spec_store_id(self) -> u64 {
        self.0.store_id
    }

    /// The position of the entity inside the owning store's table arena.
    pub closed spec fn spec_position(self) -> int {
        self.0.index.as_position()
    }

    /// Creates a new table reference from its stored representation.
    pub(crate) fn from_inner(stored: Stored<TableIdx>) -> (r: Self)
        ensures
            r.spec_store_id() == stored.store_id,
            r.spec_position() == stored.index.as_position(),
    {
        Self(stored)
    }

    /// Returns the underlying stored representation.
    pub(crate) fn into_inner(self) -> (r: Stored<TableIdx>)
        ensures
            r.store_id == self.spec_store_id(),
            r.index.as_position() == self.spec_position(),
    {
        self.0
    }

    /// Creates a new table in the store.
    pub fn new<T>(ctx: &mut Store<T>, limits: ResizableLimits) -> (r: Self)
        requires
            old(ctx).wf(),
            limits.is_valid(),
        ensures
            final(ctx).wf(),
            final(ctx).spec_id() == old(ctx).spec_id(),
            final(ctx).spec_user_state() == old(ctx).spec_user_state(),
            r.spec_store_id() == old(ctx).spec_id(),
            r.spec_position() == old(ctx).spec_tables().len(),
            final(ctx).contains_table(r),
            ({
                let entity = final(ctx).spec_tables()[r.spec_position()];
                &&& final(ctx).spec_tables() == old(ctx).spec_tables().push(entity)
                &&& entity.spec_limits() == limits
                &&& entity@ == Seq::new(limits.initial as nat, |i: int| None::<FuncRef>)
            }),
    {
        ctx.alloc_table(TableEntity::new(limits))
    }

    /// Returns the resizable limits of the table.
    pub fn limits<T>(&self, ctx: &Store<T>) -> (r: ResizableLimits)
        requires
            ctx.contains_table(*self),
        ensures
            r == ctx.spec_tables()[self.spec_position()].spec_limits(),
    {
        ctx.resolve_table(*self).limits()
    }

    /// Returns the current length of the table.
    pub fn len<T>(&self, ctx: &Store<T>) -> (r: usize)
        requires
            ctx.contains_table(*self),
        ensures
            r == ctx.spec_tables()[self.spec_position()]@.len(),
    {
        ctx.resolve_table(*self).len()
    }

    /// Grows the table by the given amount of elements, initializing the
    /// newly added slots to `None`.
    ///
    /// # Errors
    ///
    /// If the table is grown beyond its effective maximum limits; the
    /// entity is then left untouched.
    pub fn grow<T>(&mut self, ctx: &mut Store<T>, grow_by: usize) -> (r: Result<(), TableError>)
        requires
            old(ctx).wf(),
            old(ctx).contains_table(*old(self)),
        ensures
            *final(self) == *old(self),
            final(ctx).wf(),
            final(ctx).spec_id() == old(ctx).spec_id(),
            final(ctx).spec_user_state() == old(ctx).spec_user_state(),
            final(ctx).contains_table(*old(self)),
            ({
                let pos = old(self).spec_position();
                let before = old(ctx).spec_tables()[pos];
                let after = final(ctx).spec_tables()[pos];
                &&& final(ctx).spec_tables() == old(ctx).spec_tables().update(pos, after)
                &&& after.spec_limits() == before.spec_limits()
                &&& (r is Ok <==> before.grow_ok(grow_by))
                &&& match r {
                    Ok(_) => after@ == before@
                        + Seq::new(grow_by as nat, |i: int| None::<FuncRef>),
                    Err(e) => after@ == before@ && e == before.spec_grow_err(grow_by),
                }
            }),
    {
        let entity = ctx.resolve_table_mut(*self);
        entity.grow(grow_by)
    }

    /// Returns the element at the given offset if any.
    ///
    /// # Errors
    ///
    /// If the accessed element is out of bounds of the table.
    pub fn get<T>(
        &self,
        ctx: &Store<T>,
        offset: usize,
    ) -> (r: Result<Option<FuncRef>, TableError>)
        requires
            ctx.contains_table(*self),
        ensures
            r == ctx.spec_tables()[self.spec_position()].spec_get(offset),
    {
        ctx.resolve_table(*self).get(offset)
    }

    /// Sets a new value to the table element at the given offset.
    ///
    /// # Errors
    ///
    /// If the accessed element is out of bounds of the table; the entity is
    /// then left untouched.
    pub fn set<T>(
        &mut self,
        ctx: &mut Store<T>,
        offset: usize,
        new_value: Option<FuncRef>,
    ) -> (r: Result<(), TableError>)
        requires
            old(ctx).wf(),
            old(ctx).contains_table(*old(self)),
        ensures
            *final(self) == *old(self),
            final(ctx).wf(),
            final(ctx).spec_id() == old(ctx).spec_id(),
            final(ctx).spec_user_state() == old(ctx).spec_user_state(),
            final(ctx).contains_table(*old(self)),
            ({
                let pos = old(self).spec_position();
                let before = old(ctx).spec_tables()[pos];
                let after = final(ctx).spec_tables()[pos];
                &&& final(ctx).spec_tables() == old(ctx).spec_tables().update(pos, after)
                &&& after.spec_limits() == before.spec_limits()
                &&& (r is Ok <==> offset < before@.len())
                &&& match r {
                    Ok(_) => after@ == before@.update(offset as int, new_value),
                    Err(e) => after@ == before@ && e == before.spec_access_err(offset),
                }
            }),
    {
        let entity = ctx.resolve_table_mut(*self);
        entity.set(offset, new_value)
    }
}

/// After a successful `set` at `offset`, a subsequent `get` at the same
/// offset returns exactly the value that was stored.
pub proof fn lemma_set_then_get(
    before: TableEntity,
    after: TableEntity,
    offset: usize,
    value: Option<FuncRef>,
)
    requires
        offset < before@.len(),
        after@ == before@.update(offset as int, value),
    ensures
        after.spec_get(offset) == Ok::<Option<FuncRef>, TableError>(value),
{
}

/// `get` has no effect on the table and its result is a function of the
/// table state and offset alone, so two `get` calls with no intervening
/// `set` return identical results.
pub proof fn lemma_get_idempotent(table: TableEntity, offset: usize)
    ensures
        table.spec_get(offset) == table.spec_get(offset),
{
}

} // verus!
