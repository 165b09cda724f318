//! Console driver: hands a byte buffer to the kernel, which prints it and
//! gives it back through a completion upcall. Only writing is supported.
//!
//! The driver owns the in-flight buffer while the kernel works on it, so the
//! application cannot touch (or free) bytes the kernel is still reading.

use vstd::prelude::*;
use crate::async_util::Forwarder;
use crate::returncode::{EBusy, ENoDevice, ENoMem, Fail, ENODEVICE, ENOMEM, SUCCESS};
use crate::syscalls::{RawCall, Syscalls};

verus! {

/// The console capsule's driver number.
pub const DRIVER_NUM: usize = 1;

/// Operation number: start printing the lent buffer.
pub const WRITE: usize = 1;

/// Upcall number: a write completed.
pub const WRITE_COMPLETE: usize = 1;

/// Buffer slot the console reads from.
pub const WRITE_BUFFER: usize = 1;

/// The errors a console write can report.
#[derive(Clone, Copy, Debug, PartialEq, Eq, Structural)]
pub enum WriteError {
    FAIL,
    EBUSY,
    ENODEVICE,
    ENOMEM,
}

impl Fail for WriteError {
    fn fail() -> Self {
        WriteError::FAIL
    }
}

impl EBusy for WriteError {
    fn ebusy() -> Self {
        WriteError::EBUSY
    }
}

impl ENoDevice for WriteError {
    fn enodevice() -> Self {
        WriteError::ENODEVICE
    }
}

impl ENoMem for WriteError {
    fn enomem() -> Self {
        WriteError::ENOMEM
    }
}

/// The console driver. While a write is in flight the driver holds the
/// buffer; the completion upcall (routed here by the embedding through
/// [`Console::complete`]) passes it back to the client via the forwarder.
pub struct Console<F: Forwarder<Option<Vec<u8>>>> {
    in_flight: Option<Vec<u8>>,
    forwarder: F,
}

impl<F: Forwarder<Option<Vec<u8>>>> Console<F> {
    /// The buffer the kernel currently holds, if a write is in flight.
    pub closed spec fn spec_in_flight(&self) -> Option<Vec<u8>> {
        self.in_flight
    }

    /// Creates the driver; no kernel interaction happens yet.
    pub fn new(forwarder: F) -> (r: Console<F>)
        ensures
            r.spec_in_flight() is None,
    {
        Console { in_flight: None, forwarder }
    }

    /// Starts writing `buffer` to the console. On any failure the buffer is
    /// handed back in the error, except in one corner: when the write could
    /// not start but the kernel also refused to give the buffer back, the
    /// error carries nothing and the kernel keeps the bytes.
    pub fn write<K: Syscalls>(&mut self, kernel: &mut K, buffer: Vec<u8>) -> (r: Result<
        (),
        (WriteError, Option<Vec<u8>>),
    >)
        ensures
            old(self).spec_in_flight() is Some ==> r == Err::<(), (WriteError, Option<Vec<u8>>)>(
                (WriteError::EBUSY, Some(buffer)),
            ) && final(self).spec_in_flight() == old(self).spec_in_flight(),
            r is Ok ==> old(self).spec_in_flight() is None && final(self).spec_in_flight()
                == Some(buffer),
            r is Err ==> final(self).spec_in_flight() == old(self).spec_in_flight(),
            r matches Err((e, bo)) ==> bo == Some(buffer) || (bo is None && e
                == WriteError::FAIL),
            r matches Err((e, bo)) && e == WriteError::EBUSY ==> old(self).spec_in_flight()
                is Some,
            old(self).spec_in_flight() is Some ==> final(kernel).log() == old(kernel).log(),
            r is Ok ==> final(kernel).log() == old(kernel).log().push(
                (RawCall::Subscribe {
                    driver_num: DRIVER_NUM,
                    subscribe_num: WRITE_COMPLETE,
                    result: SUCCESS,
                }),
            ).push(
                (RawCall::Allow {
                    driver_num: DRIVER_NUM,
                    buffer_num: WRITE_BUFFER,
                    len: buffer@.len() as usize,
                    result: SUCCESS,
                }),
            ).push(
                (RawCall::Command {
                    driver_num: DRIVER_NUM,
                    op: WRITE,
                    arg0: buffer@.len() as usize,
                    arg1: 0,
                    result: SUCCESS,
                }),
            ),
    {
        if self.in_flight.is_some() {
            return Err((WriteError::EBUSY, Some(buffer)));
        }
        let raw = kernel.subscribe(DRIVER_NUM, WRITE_COMPLETE);
        if raw != SUCCESS {
            if raw == ENOMEM {
                return Err((WriteError::ENOMEM, Some(buffer)));
            }
            if raw == ENODEVICE {
                return Err((WriteError::ENODEVICE, Some(buffer)));
            }
            return Err((WriteError::FAIL, Some(buffer)));
        }
        if kernel.allow(DRIVER_NUM, WRITE_BUFFER, buffer.len()) != SUCCESS {
            return Err((WriteError::FAIL, Some(buffer)));
        }
        if kernel.command(DRIVER_NUM, WRITE, buffer.len(), 0) != SUCCESS {
            // The write could not start, but the buffer is already lent out.
            // Try to get it back.
            if kernel.unallow(DRIVER_NUM, WRITE_BUFFER) == SUCCESS {
                return Err((WriteError::FAIL, Some(buffer)));
            }
            return Err((WriteError::FAIL, None));
        }
        self.in_flight = Some(buffer);
        Ok(())
    }

    /// Handles the write-complete upcall: reclaims the buffer from the kernel
    /// and passes it to the client. When the kernel refuses to give the
    /// buffer back, the client is told (with an empty completion) and the
    /// driver stays busy forever rather than let the kernel keep a buffer the
    /// application believes it owns.
    pub fn complete<K: Syscalls>(&mut self, kernel: &mut K)
        requires
            old(self).spec_in_flight() is Some,
        ensures
            final(self).spec_in_flight() is None || final(self).spec_in_flight() == old(
                self,
            ).spec_in_flight(),
            final(kernel).log().drop_last() == old(kernel).log(),
            final(kernel).log().last() matches RawCall::Unallow {
                driver_num,
                buffer_num,
                result,
            } && driver_num == DRIVER_NUM && buffer_num == WRITE_BUFFER && ((result == SUCCESS)
                <==> final(self).spec_in_flight() is None),
    {
        let raw = kernel.unallow(DRIVER_NUM, WRITE_BUFFER);
        proof {
            assert(kernel.log().drop_last() =~= old(kernel).log());
        }
        if raw != SUCCESS {
            self.forwarder.invoke_callback(None);
            return ;
        }
        let buffer = self.in_flight.take();
        self.forwarder.invoke_callback(buffer);
    }
}

} // verus!
