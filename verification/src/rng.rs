//! Interface to the random-number capsule: hands a byte buffer to the kernel,
//! which fills it with random bytes asynchronously and gives it back through
//! a completion upcall. No virtualization: one fetch at a time.

use vstd::prelude::*;
use crate::async_util::Forwarder;
use crate::returncode::{EBusy, ENoDevice, Fail, ENODEVICE, SUCCESS};
use crate::syscalls::{RawCall, Syscalls};

verus! {

/// Buffer slot the random-number capsule fills.
pub const BUFFER_NUM: usize = 0;

/// The random-number capsule's driver number.
pub const DRIVER_NUM: usize = 0x40001;

/// Operation number: start filling the lent buffer.
pub const GET_BYTES: usize = 1;

/// Upcall number: a fetch completed.
pub const GET_BYTES_DONE: usize = 0;

/// The errors a fetch can report.
#[derive(Clone, Copy, Debug, PartialEq, Eq, Structural)]
pub enum FetchError {
    /// Internal failure.
    FAIL,
    /// A fetch is already ongoing.
    EBUSY,
    /// The kernel does not have the random-number capsule.
    ENODEVICE,
}

impl Fail for FetchError {
    fn fail() -> Self {
        FetchError::FAIL
    }
}

impl EBusy for FetchError {
    fn ebusy() -> Self {
        FetchError::EBUSY
    }
}

impl ENoDevice for FetchError {
    fn enodevice() -> Self {
        FetchError::ENODEVICE
    }
}

/// The random-number driver. While a fetch is in flight the driver holds the
/// buffer; the completion upcall (routed here by the embedding through
/// [`Rng::complete`]) passes it, now filled, back to the client via the
/// forwarder.
pub struct Rng<F: Forwarder<Option<Vec<u8>>>> {
    in_flight: Option<Vec<u8>>,
    forwarder: F,
}

impl<F: Forwarder<Option<Vec<u8>>>> Rng<F> {
    /// The buffer the kernel currently holds, if a fetch is in flight.
    pub closed spec fn spec_in_flight(&self) -> Option<Vec<u8>> {
        self.in_flight
    }

    /// Creates the driver; no kernel interaction happens yet.
    pub fn new(forwarder: F) -> (r: Rng<F>)
        ensures
            r.spec_in_flight() is None,
    {
        Rng { in_flight: None, forwarder }
    }

    /// Starts filling `buffer` with random bytes. On any failure the buffer
    /// is handed back in the error, except in one corner: when the fetch
    /// could not start but the kernel also refused to give the buffer back,
    /// the error carries nothing and the kernel keeps the bytes.
    pub fn fetch<K: Syscalls>(&mut self, kernel: &mut K, buffer: Vec<u8>) -> (r: Result<
        (),
        (FetchError, Option<Vec<u8>>),
    >)
        ensures
            old(self).spec_in_flight() is Some ==> r == Err::<(), (FetchError, Option<Vec<u8>>)>(
                (FetchError::EBUSY, Some(buffer)),
            ) && final(self).spec_in_flight() == old(self).spec_in_flight(),
            r is Ok ==> old(self).spec_in_flight() is None && final(self).spec_in_flight()
                == Some(buffer),
            r is Err ==> final(self).spec_in_flight() == old(self).spec_in_flight(),
            r matches Err((e, bo)) ==> bo == Some(buffer) || (bo is None && e
                == FetchError::FAIL),
            r matches Err((e, bo)) && e == FetchError::EBUSY ==> old(self).spec_in_flight()
                is Some,
            old(self).spec_in_flight() is Some ==> final(kernel).log() == old(kernel).log(),
            r is Ok ==> final(kernel).log() == old(kernel).log().push(
                (RawCall::Subscribe {
                    driver_num: DRIVER_NUM,
                    subscribe_num: GET_BYTES_DONE,
                    result: SUCCESS,
                }),
            ).push(
                (RawCall::Allow {
                    driver_num: DRIVER_NUM,
                    buffer_num: BUFFER_NUM,
                    len: buffer@.len() as usize,
                    result: SUCCESS,
                }),
            ).push(
                (RawCall::Command {
                    driver_num: DRIVER_NUM,
                    op: GET_BYTES,
                    arg0: buffer@.len() as usize,
                    arg1: 0,
                    result: SUCCESS,
                }),
            ),
    {
        if self.in_flight.is_some() {
            return Err((FetchError::EBUSY, Some(buffer)));
        }
        let raw = kernel.subscribe(DRIVER_NUM, GET_BYTES_DONE);
        if raw != SUCCESS {
            if raw == ENODEVICE {
                return Err((FetchError::ENODEVICE, Some(buffer)));
            }
            return Err((FetchError::FAIL, Some(buffer)));
        }
        if kernel.allow(DRIVER_NUM, BUFFER_NUM, buffer.len()) != SUCCESS {
            return Err((FetchError::FAIL, Some(buffer)));
        }
        if kernel.command(DRIVER_NUM, GET_BYTES, buffer.len(), 0) != SUCCESS {
            // The fetch could not start, but the buffer is already lent out.
            // Try to get it back.
            if kernel.unallow(DRIVER_NUM, BUFFER_NUM) == SUCCESS {
                return Err((FetchError::FAIL, Some(buffer)));
            }
            return Err((FetchError::FAIL, None));
        }
        self.in_flight = Some(buffer);
        Ok(())
    }

    /// Handles the fetch-complete upcall: reclaims the buffer from the kernel
    /// and passes it to the client. When the kernel refuses to give the
    /// buffer back, the client is told (with an empty completion) and the
    /// driver stays busy forever rather than let the kernel keep a buffer the
    /// application believes it owns.
    pub fn complete<K: Syscalls>(&mut self, kernel: &mut K)
        requires
            old(self).spec_in_flight() is Some,
        ensures
            final(self).spec_in_flight() is None || final(self).spec_in_flight() == old(
                self,
            ).spec_in_flight(),
            final(kernel).log().drop_last() == old(kernel).log(),
            final(kernel).log().last() matches RawCall::Unallow {
                driver_num,
                buffer_num,
                result,
            } && driver_num == DRIVER_NUM && buffer_num == BUFFER_NUM && ((result == SUCCESS)
                <==> final(self).spec_in_flight() is None),
    {
        let raw = kernel.unallow(DRIVER_NUM, BUFFER_NUM);
        proof {
            assert(kernel.log().drop_last() =~= old(kernel).log());
        }
        if raw != SUCCESS {
            self.forwarder.invoke_callback(None);
            return ;
        }
        let buffer = self.in_flight.take();
        self.forwarder.invoke_callback(buffer);
    }
}

} // verus!
