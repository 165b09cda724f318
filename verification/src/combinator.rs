//! Combinators over waits: racing two waits against each other.

use vstd::prelude::*;
use crate::async_util::Poll;

verus! {

/// A race between two waits: resolves as soon as either side does. The
/// embedding polls each side (they may need different context) and combines
/// the outcomes with [`WaitFirst::first_ready`].
pub struct WaitFirst<L, R> {
    left: L,
    right: R,
}

impl<L, R> WaitFirst<L, R> {
    /// The left contestant.
    pub closed spec fn spec_left(&self) -> L {
        self.left
    }

    /// The right contestant.
    pub closed spec fn spec_right(&self) -> R {
        self.right
    }

    /// Pairs the two waits.
    pub fn new(left: L, right: R) -> (r: WaitFirst<L, R>)
        ensures
            r.spec_left() == left,
            r.spec_right() == right,
    {
        WaitFirst { left, right }
    }

    /// Exclusive access to the left contestant, for polling it.
    pub fn left_mut(&mut self) -> (r: &mut L)
        ensures
            *r == old(self).spec_left(),
            final(self).spec_left() == *final(r),
            final(self).spec_right() == old(self).spec_right(),
    {
        &mut self.left
    }

    /// Exclusive access to the right contestant, for polling it.
    pub fn right_mut(&mut self) -> (r: &mut R)
        ensures
            *r == old(self).spec_right(),
            final(self).spec_right() == *final(r),
            final(self).spec_left() == old(self).spec_left(),
    {
        &mut self.right
    }

    /// The race's outcome, given each side's: resolved exactly when either
    /// side has resolved.
    pub fn first_ready(left: Poll<()>, right: Poll<()>) -> (r: Poll<()>)
        ensures
            left is Ready || right is Ready ==> r == Poll::Ready(()),
            left is Pending && right is Pending ==> r == Poll::<()>::Pending,
    {
        match left {
            Poll::Ready(()) => Poll::Ready(()),
            Poll::Pending => match right {
                Poll::Ready(()) => Poll::Ready(()),
                Poll::Pending => Poll::Pending,
            },
        }
    }
}

} // verus!
