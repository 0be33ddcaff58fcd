//! A resizable backing collection addressed exclusively through index
//! handles, never through raw positions.

use vstd::prelude::*;

use crate::index::Index;

verus! {

/// An ordered sequence of entities indexed by a handle type.
///
/// Positions are stable: the arena is only ever extended by allocation,
/// never shrunk or reordered, so a handle minted for an entity denotes that
/// entity for the lifetime of the arena.
pub struct Arena<Idx, T> {
    entities: Vec<T>,
    handle_kind: core::marker::PhantomData<Idx>,
}

impl<Idx, T> View for Arena<Idx, T> {
    type V = Seq<T>;

    closed spec fn view(&self) -> Seq<T> {
        self.entities@
    }
}

impl<Idx: Index, T> Arena<Idx, T> {
    /// Creates an empty arena.
    pub fn new() -> (r: Self)
        ensures
            r@ == Seq::<T>::empty(),
    {
        Self { entities: Vec::new(), handle_kind: core::marker::PhantomData }
    }

    /// Returns the number of entities in the arena.
    pub fn len(&self) -> (r: usize)
        ensures
            r == self@.len(),
    {
        self.entities.len()
    }

    /// Returns `true` if the arena holds no entity.
    pub fn is_empty(&self) -> (r: bool)
        ensures
            r == (self@.len() == 0),
    {
        self.entities.is_empty()
    }

    /// Appends an entity and returns the freshly minted handle to it.
    pub fn allocate(&mut self, entity: T) -> (r: Idx)
        requires
            Idx::index_ok(old(self)@.len() as int),
        ensures
            final(self)@ == old(self)@.push(entity),
            r.as_position() == old(self)@.len() as int,
    {
        let position = self.entities.len();
        self.entities.push(entity);
        Idx::from_usize(position)
    }

    /// Returns the entity the handle denotes, or `None` if the handle's
    /// position is beyond the arena's current length.
    pub fn get(&self, index: Idx) -> (r: Option<&T>)
        ensures
            match r {
                Some(entity) => {
                    &&& 0 <= index.as_position() < self@.len()
                    &&& *entity == self@[index.as_position()]
                },
                None => index.as_position() >= self@.len(),
            },
    {
        let position = index.into_usize();
        if position < self.entities.len() {
            Some(&self.entities[position])
        } else {
            None
        }
    }

    /// Returns a mutable reference to the entity the handle denotes.
    ///
    /// Mutable access demands an in-bounds handle of its caller: handing out
    /// a mutable reference for an unknown position would have no entity to
    /// stand behind it.
    pub fn get_mut(&mut self, index: Idx) -> (entity: &mut T)
        requires
            0 <= index.as_position() < old(self)@.len(),
        ensures
            *entity == old(self)@[index.as_position()],
            final(self)@ == old(self)@.update(index.as_position(), *final(entity)),
    {
        let position = index.into_usize();
        &mut self.entities[position]
    }
}

} // verus!
