//! Shared-buffer lifecycle management for a capability-based microkernel that
//! lends memory regions to kernel drivers through an allow/unallow protocol.
//!
//! The core of the crate is a family of buffer types that track, per buffer,
//! whether the kernel currently holds a reference to its storage. While a
//! buffer is shared, the application is denied access to the storage; access
//! returns only once the buffer has been reclaimed. The kernel itself is
//! reached through the [`SharePrimitive`] trait, so that the state machines
//! here can be checked against any implementation of the raw system calls.

use vstd::prelude::*;

pub mod alarm;
pub mod alarm_future;
pub mod allow_ref;
pub mod app;
pub mod async_util;
pub mod button;
pub mod button_future;
pub mod combinator;
pub mod console;
pub mod double_buffer;
pub mod dyncall;
pub mod dynamic_type;
pub mod full_dynamic;
pub mod gpio;
pub mod led;
pub mod lifecycle;
pub mod no_dynamic;
pub mod returncode;
pub mod rng;
pub mod rng_future;
pub mod sync_cell;
pub mod syscalls;
pub mod task;
pub mod time;
pub mod virt_time;

verus! {

/// Kernel error codes are small positive integers, passed through verbatim.
pub type ErrorCode = u32;

/// Error code returned when an operation requires an unshared buffer but the
/// buffer is currently shared. Matches the kernel's "already exists" code.
pub const ALREADY_SHARED: ErrorCode = 3;

/// Error code returned when an operation requires a shared buffer but the
/// buffer is not currently shared. Matches the kernel's "invalid" code.
pub const NOT_SHARED: ErrorCode = 6;

/// Whether a buffer is lent to the kernel read-only or read-write. The kernel
/// distinguishes the two by the system call class number.
#[derive(Clone, Copy, Debug, PartialEq, Eq, Structural)]
pub enum DynamicType {
    Rw,
    Ro,
}

impl DynamicType {
    /// The system call class number the kernel assigns to this allow type.
    pub fn class_number(self) -> (n: u32)
        ensures
            self is Rw ==> n == 3,
            self is Ro ==> n == 4,
    {
        match self {
            DynamicType::Rw => 3,
            DynamicType::Ro => 4,
        }
    }
}

/// Marker for buffers that are only ever lent read-only. Used only at the
/// type level; the variant is never constructed.
pub enum StaticRo {
    Marker,
}

/// Marker for buffers that may be lent read-write. Used only at the type
/// level; the variant is never constructed.
pub enum StaticRw {
    Marker,
}

/// A compile-time allow type: a marker type that fixes whether a buffer is
/// lent read-only or read-write.
pub trait StaticType {
    /// The allow type this marker stands for.
    spec fn spec_class() -> DynamicType;

    /// Returns the allow type this marker stands for.
    fn class() -> (c: DynamicType)
        ensures
            c == Self::spec_class(),
    ;
}

impl StaticType for StaticRo {
    open spec fn spec_class() -> DynamicType {
        DynamicType::Ro
    }

    fn class() -> DynamicType {
        DynamicType::Ro
    }
}

impl StaticType for StaticRw {
    open spec fn spec_class() -> DynamicType {
        DynamicType::Rw
    }

    fn class() -> DynamicType {
        DynamicType::Rw
    }
}

/// One invocation of the share/unshare protocol, with the verdict the kernel
/// gave: the unit of the specification-level call log that [`SharePrimitive`]
/// keeps, through which every buffer contract states which kernel calls were
/// made, with which arguments, and what they answered.
pub enum KernelCall {
    /// A registration request for `len` bytes under `(driver_num,
    /// buffer_num)` with the given access mode, and the kernel's verdict.
    Share {
        driver_num: u32,
        buffer_num: u32,
        len: usize,
        allow_type: DynamicType,
        result: Result<(), ErrorCode>,
    },
    /// A revocation of whatever is registered under `(driver_num,
    /// buffer_num)`.
    Unshare { driver_num: u32, buffer_num: u32, allow_type: DynamicType },
    /// A driver operation invocation, and the kernel's verdict.
    Command { driver_num: u32, op: u32, arg0: u32, arg1: u32, result: Result<(), ErrorCode> },
}

/// The length a buffer with storage type `B` is lent with: the storage's
/// size in bytes.
pub open spec fn spec_storage_len<B>() -> usize {
    vstd::layout::size_of::<B>() as usize
}

/// The raw share/unshare protocol between a process and the kernel: the
/// external collaborator every buffer in this crate lends its storage
/// through. Implementations perform the actual system calls (or simulate
/// them, for tests).
///
/// The trait carries a specification-level model: [`SharePrimitive::log`] is
/// the history of invocations served so far, and each method promises to
/// append exactly its own call, arguments and verdict included. The buffer
/// state machines are verified against these contracts, so their own
/// contracts can say which kernel calls stand behind each transition — and
/// that refusal paths make none. The kernel itself is outside the crate; for
/// an implementation that the verifier has not seen, this model is trusted
/// exactly as far as the raw transport is.
pub trait SharePrimitive {
    /// The history of invocations this connection has served. The default
    /// body only frees implementations outside the verifier from naming a
    /// ghost value; a verified implementation overrides it.
    open spec fn log(&self) -> Seq<KernelCall> {
        Seq::empty()
    }

    /// Registers `len` bytes under the id pair `(driver_num, buffer_num)`
    /// with the given access mode. Returns the kernel's error code verbatim
    /// on rejection.
    fn share(
        &mut self,
        driver_num: u32,
        buffer_num: u32,
        len: usize,
        allow_type: DynamicType,
    ) -> (r: Result<(), ErrorCode>)
        ensures
            final(self).log() == old(self).log().push(
                (KernelCall::Share { driver_num, buffer_num, len, allow_type, result: r }),
            ),
    ;

    /// Revokes whatever is registered under `(driver_num, buffer_num)`.
    /// Infallible and idempotent: an id that was never validly shared could
    /// not have been registered in the first place.
    fn unshare(&mut self, driver_num: u32, buffer_num: u32, allow_type: DynamicType)
        ensures
            final(self).log() == old(self).log().push(
                (KernelCall::Unshare { driver_num, buffer_num, allow_type }),
            ),
    ;

    /// Generic driver operation invocation, orthogonal to sharing.
    fn command(&mut self, driver_num: u32, op: u32, arg0: u32, arg1: u32) -> (r: Result<
        (),
        ErrorCode,
    >)
        ensures
            final(self).log() == old(self).log().push(
                (KernelCall::Command { driver_num, op, arg0, arg1, result: r }),
            ),
    ;
}

} // verus!
