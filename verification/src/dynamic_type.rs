//! A buffer whose allow type is chosen at runtime but whose id pair is fixed
//! at compile time, so that a whole family of call sites shares one pair of
//! const parameters.
//!
//! This variant also carries the exchange operation
//! ([`Buffer::replace_with`]): swap a fresh buffer in for one that is
//! currently lent out, without a window in which the kernel points at invalid
//! memory.

use vstd::prelude::*;
use crate::allow_ref::Allowable;
use crate::lifecycle::{BufferModel, access_allowed, reclaim_transition, share_transition};
use crate::{spec_storage_len, DynamicType, ErrorCode, KernelCall, SharePrimitive,
    ALREADY_SHARED, NOT_SHARED};

verus! {

/// A buffer that owns its storage, is identified by the const id pair
/// `(DRIVER_NUM, BUFFER_NUM)`, and tracks at runtime whether (and in which
/// mode) its storage is lent to the kernel.
///
/// Dispose of a buffer only through [`Buffer::unallow`] or
/// [`Buffer::into_storage`], so that the kernel never outlives its reference
/// to the storage.
pub struct Buffer<B: Allowable, const DRIVER_NUM: u32, const BUFFER_NUM: u32> {
    shared: Option<DynamicType>,
    buffer: B,
}

impl<B: Allowable, const DRIVER_NUM: u32, const BUFFER_NUM: u32> View for Buffer<
    B,
    DRIVER_NUM,
    BUFFER_NUM,
> {
    type V = BufferModel<DynamicType, B>;

    closed spec fn view(&self) -> BufferModel<DynamicType, B> {
        BufferModel { shared: self.shared, storage: self.buffer }
    }
}

impl<B: Allowable, const DRIVER_NUM: u32, const BUFFER_NUM: u32> Buffer<
    B,
    DRIVER_NUM,
    BUFFER_NUM,
> {
    /// Wraps storage in an unshared buffer.
    pub fn from_storage(buffer: B) -> (r: Buffer<B, DRIVER_NUM, BUFFER_NUM>)
        ensures
            r@ == (BufferModel { shared: None::<DynamicType>, storage: buffer }),
    {
        Buffer { shared: None, buffer }
    }

    /// Lends the storage to the kernel under the const id pair with the given
    /// access mode. Refused locally, with no kernel call, when the buffer is
    /// already shared; a kernel rejection is passed through verbatim and
    /// leaves the buffer unshared.
    pub fn allow<K: SharePrimitive>(
        &mut self,
        kernel: &mut K,
        allow_type: DynamicType,
    ) -> (r: Result<(), ErrorCode>)
        ensures
            old(self)@.shared is Some ==> r == Err::<(), ErrorCode>(ALREADY_SHARED)
                && final(self)@ == old(self)@,
            old(self)@.shared is None && r is Ok ==> final(self)@ == share_transition(
                old(self)@,
                allow_type,
            ),
            old(self)@.shared is None && r is Err ==> final(self)@ == old(self)@,
            final(self)@.storage == old(self)@.storage,
            old(self)@.shared is Some ==> final(kernel).log() == old(kernel).log(),
            old(self)@.shared is None ==> final(kernel).log() == old(kernel).log().push(
                (KernelCall::Share {
                    driver_num: DRIVER_NUM,
                    buffer_num: BUFFER_NUM,
                    len: spec_storage_len::<B>(),
                    allow_type,
                    result: r,
                }),
            ),
    {
        if self.shared.is_some() {
            return Err(ALREADY_SHARED);
        }
        let len = core::mem::size_of::<B>();
        let result = kernel.share(DRIVER_NUM, BUFFER_NUM, len, allow_type);
        if result.is_ok() {
            self.shared = Some(allow_type);
        }
        result
    }

    /// Read access to the storage: populated exactly while the buffer is
    /// unshared.
    pub fn buffer(&self) -> (r: Option<&B>)
        ensures
            r is Some <==> access_allowed(self@),
            r matches Some(b) ==> *b == self@.storage,
    {
        if self.shared.is_some() {
            return None;
        }
        Some(&self.buffer)
    }

    /// Write access to the storage: populated exactly while the buffer is
    /// unshared. The share state itself is never changed.
    pub fn buffer_mut(&mut self) -> (r: Option<&mut B>)
        ensures
            r is Some <==> access_allowed(old(self)@),
            r is None ==> final(self)@ == old(self)@,
            r matches Some(b) ==> *b == old(self)@.storage && final(self)@ == (BufferModel {
                shared: old(self)@.shared,
                storage: *final(b),
            }),
    {
        if self.shared.is_some() {
            return None;
        }
        Some(&mut self.buffer)
    }

    /// Reclaims the storage unconditionally: revokes the share if one is
    /// live, then hands back exclusive access. Idempotent, and never fails:
    /// an id pair that was never validly shared cannot fail to unshare, so
    /// the kernel call's outcome need not be inspected.
    pub fn unallow<K: SharePrimitive>(&mut self, kernel: &mut K) -> (r: &mut B)
        ensures
            *r == old(self)@.storage,
            final(self)@ == (BufferModel { shared: None::<DynamicType>, storage: *final(r) }),
            reclaim_transition(old(self)@) == (BufferModel {
                shared: None::<DynamicType>,
                storage: *r,
            }),
            old(self)@.shared matches Some(t) ==> final(kernel).log() == old(kernel).log().push(
                (KernelCall::Unshare {
                    driver_num: DRIVER_NUM,
                    buffer_num: BUFFER_NUM,
                    allow_type: t,
                }),
            ),
            old(self)@.shared is None ==> final(kernel).log() == old(kernel).log(),
    {
        if let Some(allow_type) = self.shared {
            kernel.unshare(DRIVER_NUM, BUFFER_NUM, allow_type);
            self.shared = None;
        }
        &mut self.buffer
    }

    /// Which access mode the storage is currently shared under, if any.
    pub fn share_status(&self) -> (r: Option<DynamicType>)
        ensures
            r == self@.shared,
    {
        self.shared
    }

    /// The exchange operation: lends `other`'s storage to the kernel under
    /// this buffer's id pair and mode, and only on success moves the shared
    /// state over, reclaiming this buffer's storage. All-or-nothing: on any
    /// failure both buffers keep their share state, and the returned
    /// reference always points at this buffer's pre-existing storage.
    ///
    /// Fails locally, with no kernel call, with [`NOT_SHARED`] when this
    /// buffer is not shared, and with [`ALREADY_SHARED`] when `other` already
    /// is; a kernel rejection of the new share is passed through verbatim.
    pub fn replace_with<OB: Allowable, K: SharePrimitive>(
        &mut self,
        kernel: &mut K,
        other: &mut Buffer<OB, DRIVER_NUM, BUFFER_NUM>,
    ) -> (ret: (&mut B, Result<(), ErrorCode>))
        ensures
            *ret.0 == old(self)@.storage,
            final(self)@.storage == *final(ret.0),
            final(other)@.storage == old(other)@.storage,
            old(self)@.shared is None ==> ret.1 == Err::<(), ErrorCode>(NOT_SHARED),
            old(self)@.shared is Some && old(other)@.shared is Some ==> ret.1 == Err::<
                (),
                ErrorCode,
            >(ALREADY_SHARED),
            ret.1 is Err ==> final(self)@.shared == old(self)@.shared && final(other)@.shared
                == old(other)@.shared,
            ret.1 is Ok ==> old(self)@.shared is Some && old(other)@.shared is None
                && final(self)@.shared is None && final(other)@.shared == old(self)@.shared,
            old(self)@.shared is None || old(other)@.shared is Some ==> final(kernel).log()
                == old(kernel).log(),
            old(self)@.shared matches Some(t) ==> (old(other)@.shared is None
                ==> final(kernel).log() == old(kernel).log().push(
                (KernelCall::Share {
                    driver_num: DRIVER_NUM,
                    buffer_num: BUFFER_NUM,
                    len: spec_storage_len::<OB>(),
                    allow_type: t,
                    result: ret.1,
                }),
            )),
    {
        let allow_type = match self.shared {
            Some(t) => t,
            None => {
                return (&mut self.buffer, Err(NOT_SHARED));
            },
        };
        if other.shared.is_some() {
            return (&mut self.buffer, Err(ALREADY_SHARED));
        }
        let len = core::mem::size_of::<OB>();
        let result = kernel.share(DRIVER_NUM, BUFFER_NUM, len, allow_type);
        if result.is_ok() {
            other.shared = Some(allow_type);
            self.shared = None;
        }
        (&mut self.buffer, result)
    }

    /// Tears the buffer down: revokes the share if one is live and returns
    /// the storage by value. This is the disposal path; after it, the kernel
    /// holds no reference to the storage.
    pub fn into_storage<K: SharePrimitive>(self, kernel: &mut K) -> (r: B)
        ensures
            r == self@.storage,
            self@.shared matches Some(t) ==> final(kernel).log() == old(kernel).log().push(
                (KernelCall::Unshare {
                    driver_num: DRIVER_NUM,
                    buffer_num: BUFFER_NUM,
                    allow_type: t,
                }),
            ),
            self@.shared is None ==> final(kernel).log() == old(kernel).log(),
    {
        if let Some(allow_type) = self.shared {
            kernel.unshare(DRIVER_NUM, BUFFER_NUM, allow_type);
        }
        self.buffer
    }
}

} // verus!
