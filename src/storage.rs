//! Handles and the append-only stores behind them.

use vstd::prelude::*;

verus! {

/// An identity reference to an object in a store.
///
/// Handles compare by identity (the position at which the object was
/// inserted), never by the value they refer to.
#[derive(Clone, Copy, Debug, PartialEq, Eq, Structural, Hash, PartialOrd, Ord)]
pub struct Handle {
    pub id: u64,
}

/// Append-only storage for objects of one kind.
pub struct Store<T> {
    items: Vec<T>,
}

impl<T> Store<T> {
    /// The objects in insertion order; a handle's id is its index here.
    pub closed spec fn view(&self) -> Seq<T> {
        self.items@
    }

    /// Whether `h` was handed out by this store.
    pub open spec fn holds(&self, h: Handle) -> bool {
        h.id < self@.len()
    }

    /// The object behind a handle of this store.
    pub open spec fn at(&self, h: Handle) -> T {
        self@[h.id as int]
    }

    /// The handle that the next insertion hands out.
    pub open spec fn next_handle(&self) -> Handle {
        Handle { id: self@.len() as u64 }
    }

    /// Whether `n` more objects can still be inserted.
    pub open spec fn has_room(&self, n: nat) -> bool {
        self@.len() + n < u64::MAX
    }

    pub fn new() -> (r: Self)
        ensures
            r@ == Seq::<T>::empty(),
    {
        Store { items: Vec::new() }
    }

    pub fn len(&self) -> (r: u64)
        requires
            self@.len() < u64::MAX,
        ensures
            r == self@.len(),
    {
        self.items.len() as u64
    }

    /// Stores `value` and returns its new, distinct handle.
    pub fn insert(&mut self, value: T) -> (h: Handle)
        requires
            old(self).has_room(1),
        ensures
            final(self)@ == old(self)@.push(value),
            h == old(self).next_handle(),
            h.id == old(self)@.len(),
    {
        let h = Handle { id: self.items.len() as u64 };
        self.items.push(value);
        h
    }

    /// Whether `h` was handed out by this store.
    pub fn contains(&self, h: Handle) -> (r: bool)
        ensures
            r == self.holds(h),
    {
        let n = self.items.len();
        h.id <= usize::MAX as u64 && (h.id as usize) < n
    }

    /// The object behind `h`; a handle of another store is a caller's bug.
    pub fn get(&self, h: Handle) -> (r: &T)
        requires
            self.holds(h),
        ensures
            *r == self.at(h),
    {
        let n = self.items.len();
        proof {
            assert(h.id < n);
        }
        &self.items[h.id as usize]
    }
}

} // verus!
