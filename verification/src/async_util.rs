//! Building blocks for the asynchronous drivers: the client/forwarder
//! callback protocol, readiness polling, and small containers for
//! process-lifetime state.

use vstd::prelude::*;

verus! {

/// The readiness of an asynchronous operation: either its result, or the
/// request to be polled again after the next event.
#[derive(Debug, PartialEq, Eq, Structural)]
pub enum Poll<T> {
    Ready(T),
    Pending,
}

/// A client of an asynchronous component: receives a callback carrying a
/// value of type `T` when the component's operation completes.
pub trait Client<T> {
    /// Delivers one completion value to the client.
    fn callback(&mut self, response: T);
}

/// A forwarder routes a completion value from an asynchronous component to
/// that component's client. Forwarders are `Copy` and take `self` by value,
/// so a zero-sized forwarder costs nothing to pass around.
pub trait Forwarder<T>: Copy {
    /// Routes one completion value to the client.
    fn invoke_callback(self, response: T);
}

/// Wrapper that marks a value as part of the process-lifetime state of a
/// single-threaded application.
pub struct TockStatic<T> {
    value: T,
}

impl<T> View for TockStatic<T> {
    type V = T;

    closed spec fn view(&self) -> T {
        self.value
    }
}

impl<T> TockStatic<T> {
    /// Wraps `value`.
    pub fn new(value: T) -> (r: TockStatic<T>)
        ensures
            r@ == value,
    {
        TockStatic { value }
    }

    /// Shared access to the wrapped value.
    pub fn get(&self) -> (r: &T)
        ensures
            *r == self@,
    {
        &self.value
    }

    /// Exclusive access to the wrapped value.
    pub fn get_mut(&mut self) -> (r: &mut T)
        ensures
            *r == old(self)@,
            final(self)@ == *final(r),
    {
        &mut self.value
    }
}

/// A container that hands its value out exclusively, checking at runtime
/// that at most one borrower holds it at a time: [`StaticMutCell::get`]
/// moves the value out (and fails while it is out), and
/// [`StaticMutCell::unborrow`] returns it.
pub struct StaticMutCell<T> {
    value: Option<T>,
}

impl<T> StaticMutCell<T> {
    /// What the cell currently holds: `None` while the value is lent out.
    pub closed spec fn spec_value(&self) -> Option<T> {
        self.value
    }

    /// Creates a cell holding `value`.
    pub fn new(value: T) -> (r: StaticMutCell<T>)
        ensures
            r.spec_value() == Some(value),
    {
        StaticMutCell { value: Some(value) }
    }

    /// Takes the value out, leaving the cell lent. Returns `None`, changing
    /// nothing, while the value is already out.
    pub fn get(&mut self) -> (r: Option<T>)
        ensures
            r == old(self).spec_value(),
            final(self).spec_value() is None,
    {
        self.value.take()
    }

    /// Returns a previously taken value. Accepted only while the cell is
    /// empty: only the cell's own borrower can return a value, so a second
    /// value handed to a full cell is dropped.
    pub fn unborrow(&mut self, reference: T)
        ensures
            old(self).spec_value() is None ==> final(self).spec_value() == Some(reference),
            old(self).spec_value() is Some ==> final(self).spec_value() == old(
                self,
            ).spec_value(),
    {
        if self.value.is_none() {
            self.value = Some(reference);
        }
    }
}

/// A compile-time list of clients, used to fan completion values out to a
/// statically known set of receivers.
pub trait List<T> {
    /// How many clients the list holds.
    spec fn spec_len(&self) -> nat;

    /// Returns how many clients the list holds.
    fn len(&self) -> (n: usize)
        requires
            self.spec_len() <= usize::MAX,
        ensures
            n == self.spec_len(),
    ;
}

/// The list of no clients.
pub struct EmptyList<T> {
    _phantom: core::marker::PhantomData<T>,
}

impl<T> EmptyList<T> {
    /// Creates the empty list.
    pub fn new() -> (r: EmptyList<T>)
        ensures
            r.spec_len() == 0,
    {
        EmptyList { _phantom: core::marker::PhantomData }
    }
}

impl<T> List<T> for EmptyList<T> {
    closed spec fn spec_len(&self) -> nat {
        0
    }

    fn len(&self) -> usize {
        0
    }
}

/// A list cell: one client in front of the rest of the list.
pub struct ClientList<T, C: Client<T>, L: List<T>> {
    client: C,
    rest: L,
    _phantom: core::marker::PhantomData<T>,
}

impl<T, C: Client<T>, L: List<T>> ClientList<T, C, L> {
    /// Prepends `client` to `rest`.
    pub fn new(client: C, rest: L) -> (r: ClientList<T, C, L>)
        ensures
            r.spec_len() == rest.spec_len() + 1,
    {
        ClientList { client, rest, _phantom: core::marker::PhantomData }
    }

    /// The client at the front of the list.
    pub fn client_mut(&mut self) -> &mut C {
        &mut self.client
    }

    /// The rest of the list.
    pub fn rest(&self) -> &L {
        &self.rest
    }
}

impl<T, C: Client<T>, L: List<T>> List<T> for ClientList<T, C, L> {
    closed spec fn spec_len(&self) -> nat {
        self.rest.spec_len() + 1
    }

    fn len(&self) -> usize {
        self.rest.len() + 1
    }
}

} // verus!
