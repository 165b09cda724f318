//! A wait for a buffer of random bytes, built on the random-number driver.

use vstd::prelude::*;
use crate::async_util::{Forwarder, Poll};
use crate::rng::{FetchError, Rng};
use crate::returncode::{EBusy, ENoDevice, Fail};
use crate::syscalls::Syscalls;

verus! {

/// Where the one pending fetch currently stands.
pub enum RngState {
    /// No fetch pending; a new one may start.
    Idle,
    /// A fetch is in flight.
    Busy,
    /// The kernel refused to give the buffer back; no further fetch can ever
    /// start.
    LostBuffer,
    /// The filled buffer is ready to be collected.
    Done(Vec<u8>),
}

/// Error: the buffer of a completed fetch is gone, either because the kernel
/// kept it or because nothing was pending.
#[derive(Clone, Copy, Debug, PartialEq, Eq, Structural)]
pub struct LostBufferError;

/// The errors starting a fetch can report.
#[derive(Clone, Copy, Debug, PartialEq, Eq, Structural)]
pub enum StartError {
    FAIL,
    EBUSY,
    ENODEVICE,
}

impl Fail for StartError {
    fn fail() -> Self {
        StartError::FAIL
    }
}

impl EBusy for StartError {
    fn ebusy() -> Self {
        StartError::EBUSY
    }
}

impl ENoDevice for StartError {
    fn enodevice() -> Self {
        StartError::ENODEVICE
    }
}

/// Handles the driver's completion: a returned buffer is ready to collect; a
/// completion without one poisons the state.
pub fn on_fetch_complete(state: &mut RngState, response: Option<Vec<u8>>)
    ensures
        response matches Some(b) ==> *final(state) == RngState::Done(b),
        response is None ==> *final(state) == RngState::LostBuffer,
{
    match response {
        Some(buffer) => {
            *state = RngState::Done(buffer);
        },
        None => {
            *state = RngState::LostBuffer;
        },
    }
}

/// A wait for one buffer of random bytes.
#[derive(Debug)]
pub struct RngFuture {
    _private: (),
}

impl RngFuture {
    /// Starts filling `buffer` with random bytes: refused while another fetch
    /// is pending or its outcome has not been collected; otherwise the driver
    /// takes the buffer and the state turns busy. A buffer refused by the
    /// kernel is dropped with the error.
    pub fn new<F: Forwarder<Option<Vec<u8>>>, K: Syscalls>(
        state: &mut RngState,
        rng: &mut Rng<F>,
        kernel: &mut K,
        buffer: Vec<u8>,
    ) -> (r: Result<RngFuture, StartError>)
        ensures
            !(*old(state) is Idle) ==> r == Err::<RngFuture, StartError>(StartError::EBUSY)
                && *final(state) == *old(state),
            r is Ok ==> *old(state) is Idle && *final(state) is Busy && final(rng).spec_in_flight() == Some(buffer),
            r == Err::<RngFuture, StartError>(StartError::EBUSY) ==> !(*old(state) is Idle)
                || old(rng).spec_in_flight() is Some,
    {
        match state {
            RngState::Idle => {},
            _ => {
                return Err(StartError::EBUSY);
            },
        }
        match rng.fetch(kernel, buffer) {
            Ok(()) => {
                *state = RngState::Busy;
                Ok(RngFuture { _private: () })
            },
            Err((FetchError::FAIL, _)) => Err(StartError::FAIL),
            Err((FetchError::EBUSY, _)) => Err(StartError::EBUSY),
            Err((FetchError::ENODEVICE, _)) => Err(StartError::ENODEVICE),
        }
    }

    /// Collects the fetch's outcome: the filled buffer once it is ready, an
    /// error when the buffer is gone, and a request to poll again while the
    /// kernel is still working.
    pub fn poll(&self, state: &mut RngState) -> (r: Poll<Result<Vec<u8>, LostBufferError>>)
        ensures
            *old(state) is Busy ==> r == Poll::<Result<Vec<u8>, LostBufferError>>::Pending
                && *final(state) is Busy,
            *old(state) is Idle || *old(state) is LostBuffer ==> r == Poll::Ready(
                Err::<Vec<u8>, LostBufferError>(LostBufferError),
            ) && *final(state) == *old(state),
            *old(state) matches RngState::Done(b) ==> r == Poll::Ready(
                Ok::<Vec<u8>, LostBufferError>(b),
            ) && *final(state) is Idle,
    {
        let mut taken = RngState::Idle;
        core::mem::swap(state, &mut taken);
        match taken {
            RngState::Idle => Poll::Ready(Err(LostBufferError)),
            RngState::LostBuffer => {
                *state = RngState::LostBuffer;
                Poll::Ready(Err(LostBufferError))
            },
            RngState::Busy => {
                *state = RngState::Busy;
                Poll::Pending
            },
            RngState::Done(buffer) => Poll::Ready(Ok(buffer)),
        }
    }
}

} // verus!
