//! A small value cell with an API shaped like the standard cell type.
//!
//! On the single-threaded target runtime this type's role is to hold the
//! small mutable state of a driver. Every mutation goes through an exclusive
//! reference, which makes each operation's effect directly statable in its
//! contract.

use vstd::prelude::*;

verus! {

/// A cell holding a single value of type `T`.
pub struct SyncCell<T> {
    value: T,
}

impl<T> View for SyncCell<T> {
    type V = T;

    closed spec fn view(&self) -> T {
        self.value
    }
}

impl<T> SyncCell<T> {
    /// Creates a cell holding `value`.
    pub fn new(value: T) -> (r: SyncCell<T>)
        ensures
            r@ == value,
    {
        SyncCell { value }
    }

    /// Stores `val`, dropping the previous value.
    pub fn set(&mut self, val: T)
        ensures
            final(self)@ == val,
    {
        self.value = val;
    }

    /// Exchanges the contents of the two cells.
    pub fn swap(&mut self, other: &mut SyncCell<T>)
        ensures
            final(self)@ == old(other)@,
            final(other)@ == old(self)@,
    {
        core::mem::swap(&mut self.value, &mut other.value);
    }

    /// Stores `val` and returns the previous value.
    pub fn replace(&mut self, val: T) -> (r: T)
        ensures
            r == old(self)@,
            final(self)@ == val,
    {
        let mut val = val;
        core::mem::swap(&mut self.value, &mut val);
        val
    }

    /// Consumes the cell and returns its value.
    pub fn into_inner(self) -> (r: T)
        ensures
            r == self@,
    {
        self.value
    }

    /// Exclusive access to the value inside the cell.
    pub fn get_mut(&mut self) -> (r: &mut T)
        ensures
            *r == old(self)@,
            final(self)@ == *final(r),
    {
        &mut self.value
    }
}

impl<T: Default> SyncCell<T> {
    /// Takes the value, leaving the type's default in its place.
    pub fn take(&mut self) -> (r: T)
        ensures
            r == old(self)@,
            call_ensures(T::default, (), final(self)@),
    {
        self.replace(T::default())
    }
}

impl<T: Copy> SyncCell<T> {
    /// Returns a copy of the value inside the cell.
    pub fn get(&self) -> (r: T)
        ensures
            r == self@,
    {
        self.value
    }
}

} // verus!
