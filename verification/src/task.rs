//! A one-slot task executor: holds at most one unit of deferred work and the
//! bookkeeping that keeps re-entrant wakes from recursing into the poll that
//! is already running.
//!
//! The polling itself is driven by the embedding: it borrows the work with
//! [`Task::begin_poll`], polls it, and hands it back with [`Task::end_poll`],
//! which reports whether a wake arrived in between and the work must be
//! polled once more.

use vstd::prelude::*;

verus! {

/// Error: a task tried to replace itself while it was being polled.
#[derive(Clone, Copy, Debug, PartialEq, Eq, Structural)]
pub struct CurrentlyPolling;

/// The executor slot for one unit of deferred work of type `F`.
pub struct Task<F> {
    future: Option<F>,
    polling: bool,
    pending_poll: bool,
}

impl<F> Task<F> {
    /// The work currently loaded, while it is not lent out for polling.
    pub closed spec fn spec_future(&self) -> Option<F> {
        self.future
    }

    /// Whether the work is currently lent out for polling.
    pub closed spec fn spec_polling(&self) -> bool {
        self.polling
    }

    /// Whether a wake arrived while the work was lent out.
    pub closed spec fn spec_pending_poll(&self) -> bool {
        self.pending_poll
    }

    /// An empty slot.
    pub fn new() -> (r: Task<F>)
        ensures
            r.spec_future() is None,
            !r.spec_polling(),
            !r.spec_pending_poll(),
    {
        Task { future: None, polling: false, pending_poll: false }
    }

    /// Loads new work into the slot, dropping whatever was there, and asks
    /// for it to be polled. Refused while the slot's current work is being
    /// polled: the running poll must not be replaced under itself.
    pub fn spawn(&mut self, future: F) -> (r: Result<(), CurrentlyPolling>)
        ensures
            old(self).spec_polling() ==> r == Err::<(), CurrentlyPolling>(CurrentlyPolling)
                && *final(self) == *old(self),
            !old(self).spec_polling() ==> r == Ok::<(), CurrentlyPolling>(()) && final(self).spec_future() == Some(future) && !final(self).spec_polling() && final(self).spec_pending_poll(),
    {
        if self.polling {
            return Err(CurrentlyPolling);
        }
        self.future = Some(future);
        self.pending_poll = true;
        Ok(())
    }

    /// Borrows the work for one poll. While a poll is already running (a
    /// re-entrant wake), nothing is handed out and the wake is recorded
    /// instead, to be reported by the running poll's [`Task::end_poll`].
    pub fn begin_poll(&mut self) -> (r: Option<F>)
        ensures
            old(self).spec_polling() ==> r is None && final(self).spec_future() == old(
                self,
            ).spec_future() && final(self).spec_polling() && final(self).spec_pending_poll(),
            !old(self).spec_polling() ==> r == old(self).spec_future() && final(self).spec_future() is None && !final(self).spec_pending_poll() && (final(self).spec_polling() <==> r is Some),
    {
        if self.polling {
            self.pending_poll = true;
            return None;
        }
        self.pending_poll = false;
        let future = self.future.take();
        if future.is_some() {
            self.polling = true;
        }
        future
    }

    /// Returns the work after one poll: completed work is not stored back.
    /// Reports whether a wake arrived during the poll, in which case the
    /// embedding polls once more.
    pub fn end_poll(&mut self, future: Option<F>, ready: bool) -> (again: bool)
        ensures
            !final(self).spec_polling(),
            final(self).spec_future() == (if ready {
                None::<F>
            } else {
                future
            }),
            again == (old(self).spec_pending_poll() && !ready && future is Some),
            !final(self).spec_pending_poll(),
    {
        self.polling = false;
        if ready {
            self.future = None;
        } else {
            self.future = future;
        }
        let again = self.pending_poll && self.future.is_some();
        self.pending_poll = false;
        again
    }
}

} // verus!
