//! Continuous streaming over two buffers of identical shape: one side is
//! always lent to the kernel while the other is available to the application,
//! and every completion swaps the roles.

use vstd::prelude::*;
use crate::allow_ref::Allowable;
use crate::{spec_storage_len, DynamicType, ErrorCode, KernelCall, SharePrimitive,
    ALREADY_SHARED};

verus! {

/// Error code returned by [`DoubleBufferStream::advance`] when the stream has
/// not been started. Matches the kernel's powered-off code.
pub const NOT_STREAMING: ErrorCode = 4;

/// Which of the stream's two buffers is currently lent to the kernel.
#[derive(Clone, Copy, Debug, PartialEq, Eq, Structural)]
pub enum Side {
    A,
    B,
}

/// Mathematical model of a stream: which side is active, what each side's
/// share state is, the two storage values, and the mode and id pair both
/// sides are lent under.
pub struct StreamModel<B> {
    pub active: Option<Side>,
    pub shared_a: Option<DynamicType>,
    pub shared_b: Option<DynamicType>,
    pub storage_a: B,
    pub storage_b: B,
    pub allow_type: DynamicType,
    pub driver_num: u32,
    pub buffer_num: u32,
}

impl<B> StreamModel<B> {
    /// The stream's invariant: before a start nothing is shared, and after a
    /// successful start exactly the active side is shared.
    pub open spec fn wf(self) -> bool {
        &&& self.active == Some(Side::A) ==> self.shared_a is Some && self.shared_b is None
        &&& self.active == Some(Side::B) ==> self.shared_b is Some && self.shared_a is None
        &&& self.active is None ==> self.shared_a is None && self.shared_b is None
    }
}

/// While streaming, exactly one side is shared: never both, never neither.
pub proof fn lemma_one_side_shared<B>(m: StreamModel<B>)
    requires
        m.wf(),
        m.active is Some,
    ensures
        m.shared_a is Some || m.shared_b is Some,
        !(m.shared_a is Some && m.shared_b is Some),
{
    if m.active != Some(Side::A) {
        assert(m.active == Some(Side::B));
    }
}

/// Two buffers of identical shape streaming under one id pair: the kernel
/// fills (or reads) the active side while the application works on the other,
/// and [`DoubleBufferStream::advance`] swaps the roles after each completion.
///
/// The caller must only call `advance` after the external completion
/// notification for the active side has arrived; calling it earlier races
/// with the kernel and cannot be detected here.
pub struct DoubleBufferStream<B: Allowable> {
    storage_a: B,
    storage_b: B,
    shared_a: Option<DynamicType>,
    shared_b: Option<DynamicType>,
    active: Option<Side>,
    allow_type: DynamicType,
    driver_num: u32,
    buffer_num: u32,
}

impl<B: Allowable> View for DoubleBufferStream<B> {
    type V = StreamModel<B>;

    closed spec fn view(&self) -> StreamModel<B> {
        StreamModel {
            active: self.active,
            shared_a: self.shared_a,
            shared_b: self.shared_b,
            storage_a: self.storage_a,
            storage_b: self.storage_b,
            allow_type: self.allow_type,
            driver_num: self.driver_num,
            buffer_num: self.buffer_num,
        }
    }
}

impl<B: Allowable> DoubleBufferStream<B> {
    /// Builds a stream over the two storages; nothing is shared yet. Both
    /// sides will be lent under the same id pair and access mode.
    pub fn new(
        storage_a: B,
        storage_b: B,
        allow_type: DynamicType,
        driver_num: u32,
        buffer_num: u32,
    ) -> (r: DoubleBufferStream<B>)
        ensures
            r@ == (StreamModel {
                active: None::<Side>,
                shared_a: None::<DynamicType>,
                shared_b: None::<DynamicType>,
                storage_a,
                storage_b,
                allow_type,
                driver_num,
                buffer_num,
            }),
            r@.wf(),
    {
        DoubleBufferStream {
            storage_a,
            storage_b,
            shared_a: None,
            shared_b: None,
            active: None,
            allow_type,
            driver_num,
            buffer_num,
        }
    }

    /// Which side is currently lent to the kernel: `None` only before a
    /// successful [`DoubleBufferStream::start`].
    pub fn active_side(&self) -> (r: Option<Side>)
        ensures
            r == self@.active,
    {
        self.active
    }

    /// Starts streaming: lends side A to the kernel. Refused locally once the
    /// stream runs; a kernel rejection is passed through verbatim and leaves
    /// the stream stopped.
    pub fn start<K: SharePrimitive>(&mut self, kernel: &mut K) -> (r: Result<(), ErrorCode>)
        requires
            old(self)@.wf(),
        ensures
            final(self)@.wf(),
            old(self)@.active is Some ==> r == Err::<(), ErrorCode>(ALREADY_SHARED)
                && final(self)@.active == old(self)@.active,
            r is Ok ==> final(self)@.active == Some(Side::A),
            r is Ok ==> old(self)@.active is None && final(self)@ == (StreamModel {
                active: Some(Side::A),
                shared_a: Some(old(self)@.allow_type),
                ..old(self)@
            }),
            r is Err ==> final(self)@ == old(self)@,
            old(self)@.active is Some ==> final(kernel).log() == old(kernel).log(),
            old(self)@.active is None ==> final(kernel).log() == old(kernel).log().push(
                (KernelCall::Share {
                    driver_num: old(self)@.driver_num,
                    buffer_num: old(self)@.buffer_num,
                    len: spec_storage_len::<B>(),
                    allow_type: old(self)@.allow_type,
                    result: r,
                }),
            ),
    {
        if self.active.is_some() {
            return Err(ALREADY_SHARED);
        }
        let len = core::mem::size_of::<B>();
        let result = kernel.share(self.driver_num, self.buffer_num, len, self.allow_type);
        if result.is_ok() {
            self.shared_a = Some(self.allow_type);
            self.active = Some(Side::A);
        }
        result
    }

    /// Swaps the roles of the two sides: lends the inactive side to the
    /// kernel under the stream's id pair and mode (replacing the active
    /// side's registration), and on success returns the previously active
    /// side's storage for the application to work on.
    ///
    /// All-or-nothing: when the new share is rejected, the previously active
    /// side stays active and shared, nothing is torn down, and the error is
    /// passed through verbatim. Fails locally, with no kernel call, with
    /// [`NOT_STREAMING`] when the stream was never started.
    ///
    /// Call only after the completion notification for the active side has
    /// been observed.
    pub fn advance<K: SharePrimitive>(&mut self, kernel: &mut K) -> (r: Result<
        &mut B,
        ErrorCode,
    >)
        requires
            old(self)@.wf(),
        ensures
            final(self)@.wf(),
            old(self)@.active is Some ==> final(self)@.active is Some,
            old(self)@.active is None ==> r == Err::<&mut B, ErrorCode>(NOT_STREAMING),
            r is Err ==> final(self)@ == old(self)@,
            r matches Ok(buf) ==> old(self)@.active is Some,
            old(self)@.active == Some(Side::A) ==> (r matches Ok(buf) ==> *buf == old(
                self,
            )@.storage_a && final(self)@ == (StreamModel {
                active: Some(Side::B),
                shared_a: None::<DynamicType>,
                shared_b: Some(old(self)@.allow_type),
                storage_a: *final(buf),
                ..old(self)@
            })),
            old(self)@.active == Some(Side::B) ==> (r matches Ok(buf) ==> *buf == old(
                self,
            )@.storage_b && final(self)@ == (StreamModel {
                active: Some(Side::A),
                shared_a: Some(old(self)@.allow_type),
                shared_b: None::<DynamicType>,
                storage_b: *final(buf),
                ..old(self)@
            })),
            old(self)@.active is None ==> final(kernel).log() == old(kernel).log(),
            old(self)@.active is Some && r is Ok ==> final(kernel).log() == old(
                kernel,
            ).log().push(
                (KernelCall::Share {
                    driver_num: old(self)@.driver_num,
                    buffer_num: old(self)@.buffer_num,
                    len: spec_storage_len::<B>(),
                    allow_type: old(self)@.allow_type,
                    result: Ok::<(), ErrorCode>(()),
                }),
            ),
            old(self)@.active is Some ==> (r matches Err(e) ==> final(kernel).log() == old(
                kernel,
            ).log().push(
                (KernelCall::Share {
                    driver_num: old(self)@.driver_num,
                    buffer_num: old(self)@.buffer_num,
                    len: spec_storage_len::<B>(),
                    allow_type: old(self)@.allow_type,
                    result: Err::<(), ErrorCode>(e),
                }),
            )),
    {
        let active = match self.active {
            Some(side) => side,
            None => {
                return Err(NOT_STREAMING);
            },
        };
        let len = core::mem::size_of::<B>();
        let result = kernel.share(self.driver_num, self.buffer_num, len, self.allow_type);
        match result {
            Ok(o) => {
                // The verdict's payload is the unit value, so the verdict is
                // exactly the success the contract's log entry records.
                proof {
                    assert(result == Ok::<(), ErrorCode>(o));
                    assert(result == Ok::<(), ErrorCode>(()));
                }
                match active {
                Side::A => {
                    self.shared_b = Some(self.allow_type);
                    self.shared_a = None;
                    self.active = Some(Side::B);
                    Ok(&mut self.storage_a)
                },
                Side::B => {
                    self.shared_a = Some(self.allow_type);
                    self.shared_b = None;
                    self.active = Some(Side::A);
                    Ok(&mut self.storage_b)
                },
                }
            },
            Err(code) => Err(code),
        }
    }

    /// Tears the stream down: revokes whichever side's share is live and
    /// returns both storages by value. This is the disposal path; after it,
    /// the kernel holds no reference to either storage.
    pub fn into_storages<K: SharePrimitive>(self, kernel: &mut K) -> (r: (B, B))
        ensures
            r.0 == self@.storage_a,
            r.1 == self@.storage_b,
            self@.shared_a is Some || self@.shared_b is Some ==> final(kernel).log() == old(
                kernel,
            ).log().push(
                (KernelCall::Unshare {
                    driver_num: self@.driver_num,
                    buffer_num: self@.buffer_num,
                    allow_type: self@.allow_type,
                }),
            ),
            self@.shared_a is None && self@.shared_b is None ==> final(kernel).log() == old(
                kernel,
            ).log(),
    {
        if self.shared_a.is_some() || self.shared_b.is_some() {
            kernel.unshare(self.driver_num, self.buffer_num, self.allow_type);
        }
        (self.storage_a, self.storage_b)
    }
}

} // verus!
