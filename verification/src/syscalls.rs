//! The raw system-call interface the driver modules are written against.
//!
//! The kernel answers `command`, `subscribe` and `allow` invocations with raw
//! return codes (see [`crate::returncode`]); every driver in this crate takes
//! an implementation by reference and interprets those codes with verified
//! classification functions. Real implementations perform the machine-level
//! calls; test implementations script the answers.

use vstd::prelude::*;

verus! {

/// One raw invocation, with the raw value the kernel answered: the unit of
/// the specification-level call log that [`Syscalls`] keeps, through which
/// the driver contracts state which invocations they make, with which
/// arguments, and how the answer was interpreted.
pub enum RawCall {
    /// A driver operation, and its raw result.
    Command { driver_num: usize, op: usize, arg0: usize, arg1: usize, result: isize },
    /// An upcall registration, and its raw return code.
    Subscribe { driver_num: usize, subscribe_num: usize, result: isize },
    /// A buffer loan of `len` bytes, and its raw return code.
    Allow { driver_num: usize, buffer_num: usize, len: usize, result: isize },
    /// A buffer revocation, and its raw return code.
    Unallow { driver_num: usize, buffer_num: usize, result: isize },
}

/// The raw driver-invocation protocol. A return value below zero is one of
/// the kernel's error codes; the meaning of non-negative values is
/// per-operation (a count, a tick value, a pin level).
///
/// The trait carries a specification-level model: [`Syscalls::log`] is the
/// history of invocations served so far, and each method promises to append
/// exactly its own call, arguments and raw answer included. The kernel itself
/// is outside the crate; for an implementation the verifier has not seen,
/// this model is trusted exactly as far as the raw transport is.
pub trait Syscalls {
    /// The history of invocations this connection has served. The default
    /// body only frees implementations outside the verifier from naming a
    /// ghost value; a verified implementation overrides it.
    open spec fn log(&self) -> Seq<RawCall> {
        Seq::empty()
    }

    /// Invokes operation `op` of driver `driver_num` and returns the raw
    /// result.
    fn command(&mut self, driver_num: usize, op: usize, arg0: usize, arg1: usize) -> (r: isize)
        ensures
            final(self).log() == old(self).log().push(
                (RawCall::Command { driver_num, op, arg0, arg1, result: r }),
            ),
    ;

    /// Registers interest in upcall `subscribe_num` of driver `driver_num`;
    /// the upcalls themselves are delivered by the embedding, outside this
    /// crate. Returns a raw return code.
    fn subscribe(&mut self, driver_num: usize, subscribe_num: usize) -> (r: isize)
        ensures
            final(self).log() == old(self).log().push(
                (RawCall::Subscribe { driver_num, subscribe_num, result: r }),
            ),
    ;

    /// Lends `len` bytes to driver `driver_num` under buffer slot
    /// `buffer_num`. Returns a raw return code.
    fn allow(&mut self, driver_num: usize, buffer_num: usize, len: usize) -> (r: isize)
        ensures
            final(self).log() == old(self).log().push(
                (RawCall::Allow { driver_num, buffer_num, len, result: r }),
            ),
    ;

    /// Revokes whatever is lent to driver `driver_num` under buffer slot
    /// `buffer_num`. Returns a raw return code.
    fn unallow(&mut self, driver_num: usize, buffer_num: usize) -> (r: isize)
        ensures
            final(self).log() == old(self).log().push(
                (RawCall::Unallow { driver_num, buffer_num, result: r }),
            ),
    ;
}

} // verus!
