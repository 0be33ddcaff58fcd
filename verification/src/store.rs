//! The store: the exclusive owner of all resource arenas for one execution
//! context, plus caller-supplied host data.

use vstd::prelude::*;

use crate::arena::Arena;
use crate::index::Index;
use crate::table::{Table, TableEntity, TableIdx};

verus! {

/// A handle paired with the identity of its owning store, so that a handle
/// minted against one execution context cannot silently be applied to
/// another.
#[derive(Debug, Copy, Clone)]
pub struct Stored<Idx> {
    /// The identity of the owning store.
    pub store_id: u64,
    /// The raw index into the owning store's arena.
    pub index: Idx,
}

/// The root of all resource lifetimes for one execution context.
///
/// The store owns one arena per resource kind plus a caller-supplied
/// payload, and resolves store-bound handles into live entity references.
/// It carries no resource-specific business logic of its own.
///
/// Resolving a handle against a store whose identity does not match is a
/// programming error of the host, never a recoverable result; every
/// resolution therefore demands a matching, in-range handle of its caller.
pub struct Store<T> {
    id: u64,
    tables: Arena<TableIdx, TableEntity>,
    user_state: T,
}

impl<T> Store<T> {
    /// The identity of this store.
    pub closed spec fn spec_id(self) -> u64 {
        self.id
    }

    /// The table entities this store owns, in allocation order.
    pub closed spec fn spec_tables(self) -> Seq<TableEntity> {
        self.tables@
    }

    /// The caller-supplied host data.
    pub closed spec fn spec_user_state(self) -> T {
        self.user_state
    }

    /// Well-formedness: every owned table entity is well-formed.
    pub open spec fn wf(self) -> bool {
        forall|i: int| 0 <= i < self.spec_tables().len()
            ==> (#[trigger] self.spec_tables()[i]).wf()
    }

    /// Whether the handle was minted by this store and denotes one of its
    /// live table entities.
    pub open spec fn contains_table(self, table: Table) -> bool {
        &&& table.spec_store_id() == self.spec_id()
        &&& 0 <= table.spec_position() < self.spec_tables().len()
    }

    /// Creates a new, empty store.
    ///
    /// The host chooses the identity; distinct execution contexts must be
    /// given distinct identities for cross-store misuse to be detectable.
    pub fn new(id: u64, user_state: T) -> (r: Self)
        ensures
            r.spec_id() == id,
            r.spec_tables() == Seq::<TableEntity>::empty(),
            r.spec_user_state() == user_state,
            r.wf(),
    {
        Self { id, tables: Arena::new(), user_state }
    }

    /// Returns the identity of this store.
    pub fn id(&self) -> (r: u64)
        ensures
            r == self.spec_id(),
    {
        self.id
    }

    /// Returns the caller-supplied host data.
    pub fn user_state(&self) -> (r: &T)
        ensures
            *r == self.spec_user_state(),
    {
        &self.user_state
    }

    /// Returns the number of table entities this store owns.
    pub fn table_count(&self) -> (r: usize)
        ensures
            r == self.spec_tables().len(),
    {
        self.tables.len()
    }

    /// Returns `true` if the handle was minted by this store and denotes
    /// one of its live table entities.
    pub fn has_table(&self, table: Table) -> (r: bool)
        ensures
            r == self.contains_table(table),
    {
        let stored = table.into_inner();
        stored.store_id == self.id && stored.index.into_usize() < self.tables.len()
    }

    /// Inserts a freshly constructed table entity and wraps the resulting
    /// handle as a store-bound handle tagged with this store's identity.
    pub fn alloc_table(&mut self, entity: TableEntity) -> (r: Table)
        requires
            old(self).wf(),
            entity.wf(),
        ensures
            final(self).wf(),
            final(self).spec_id() == old(self).spec_id(),
            final(self).spec_user_state() == old(self).spec_user_state(),
            final(self).spec_tables() == old(self).spec_tables().push(entity),
            r.spec_store_id() == old(self).spec_id(),
            r.spec_position() == old(self).spec_tables().len(),
            final(self).contains_table(r),
    {
        let ghost entity0 = entity;
        let index = self.tables.allocate(entity);
        proof {
            assert forall|i: int| 0 <= i < self.spec_tables().len()
                implies (#[trigger] self.spec_tables()[i]).wf() by {
                if i < old(self).spec_tables().len() {
                    assert(self.spec_tables()[i] == old(self).spec_tables()[i]);
                    assert(old(self).spec_tables()[i].wf());
                } else {
                    assert(self.spec_tables()[i] == entity0);
                }
            }
        }
        Table::from_inner(Stored { store_id: self.id, index })
    }

    /// Resolves a store-bound handle into the live table entity it denotes.
    pub fn resolve_table(&self, table: Table) -> (entity: &TableEntity)
        requires
            self.contains_table(table),
        ensures
            *entity == self.spec_tables()[table.spec_position()],
    {
        let stored = table.into_inner();
        match self.tables.get(stored.index) {
            Some(entity) => entity,
            None => vstd::pervasive::unreached(),
        }
    }

    /// Resolves a store-bound handle into a mutable reference to the live
    /// table entity it denotes; everything else the store owns is left
    /// untouched.
    pub fn resolve_table_mut(&mut self, table: Table) -> (entity: &mut TableEntity)
        requires
            old(self).contains_table(table),
        ensures
            *entity == old(self).spec_tables()[table.spec_position()],
            final(self).spec_tables() == old(self).spec_tables().update(
                table.spec_position(),
                *final(entity),
            ),
            final(self).spec_id() == old(self).spec_id(),
            final(self).spec_user_state() == old(self).spec_user_state(),
    {
        let stored = table.into_inner();
        self.tables.get_mut(stored.index)
    }
}

} // verus!
