//! A buffer whose allow type and id pair are both chosen at runtime: the most
//! flexible point of the design space, tracking the full [`ShareInfo`] while
//! shared.

use vstd::prelude::*;
use crate::allow_ref::Allowable;
use crate::lifecycle::{BufferModel, ShareInfo, access_allowed, reclaim_transition,
    share_transition};
use crate::{spec_storage_len, DynamicType, ErrorCode, KernelCall, SharePrimitive,
    ALREADY_SHARED};

verus! {

/// Error code returned by [`StaticBuffer::allow`] when the handle holds no
/// storage. Matches the kernel's out-of-memory code.
pub const NO_BUFFER: ErrorCode = 9;

/// A buffer that owns its storage and tracks, at runtime, whether the storage
/// is currently lent to the kernel, under which id pair, and with which
/// access mode.
///
/// While shared, the kernel may be reading (or, for the read-write mode,
/// writing) the storage, so [`Buffer::buffer`] and [`Buffer::buffer_mut`]
/// refuse access until [`Buffer::unallow`] reclaims it. Dispose of a buffer
/// only through [`Buffer::unallow`] (or [`Buffer::into_storage`]), so that
/// the kernel never outlives its reference to the storage.
pub struct Buffer<B: Allowable> {
    shared: Option<ShareInfo>,
    buffer: B,
}

impl<B: Allowable> View for Buffer<B> {
    type V = BufferModel<ShareInfo, B>;

    closed spec fn view(&self) -> BufferModel<ShareInfo, B> {
        BufferModel { shared: self.shared, storage: self.buffer }
    }
}

impl<B: Allowable> Buffer<B> {
    /// Wraps storage in an unshared buffer.
    pub fn from_storage(buffer: B) -> (r: Buffer<B>)
        ensures
            r@ == (BufferModel { shared: None::<ShareInfo>, storage: buffer }),
    {
        Buffer { shared: None, buffer }
    }

    /// Lends the storage to the kernel under `(driver_num, buffer_num)` with
    /// the given access mode. Refused locally, with no kernel call, when the
    /// buffer is already shared; a kernel rejection is passed through
    /// verbatim and leaves the buffer unshared. Only on success does the
    /// buffer enter the shared state.
    pub fn allow<K: SharePrimitive>(
        &mut self,
        kernel: &mut K,
        allow_type: DynamicType,
        driver_num: u32,
        buffer_num: u32,
    ) -> (r: Result<(), ErrorCode>)
        ensures
            old(self)@.shared is Some ==> r == Err::<(), ErrorCode>(ALREADY_SHARED)
                && final(self)@ == old(self)@,
            old(self)@.shared is None && r is Ok ==> final(self)@ == share_transition(
                old(self)@,
                ShareInfo { allow_type, driver_num, buffer_num },
            ),
            old(self)@.shared is None && r is Err ==> final(self)@ == old(self)@,
            final(self)@.storage == old(self)@.storage,
            old(self)@.shared is Some ==> final(kernel).log() == old(kernel).log(),
            old(self)@.shared is None ==> final(kernel).log() == old(kernel).log().push(
                (KernelCall::Share {
                    driver_num,
                    buffer_num,
                    len: spec_storage_len::<B>(),
                    allow_type,
                    result: r,
                }),
            ),
    {
        if self.shared.is_some() {
            return Err(ALREADY_SHARED);
        }
        let len = core::mem::size_of::<B>();
        let result = kernel.share(driver_num, buffer_num, len, allow_type);
        if result.is_ok() {
            self.shared = Some(ShareInfo { allow_type, driver_num, buffer_num });
        }
        result
    }

    /// Read access to the storage: populated exactly while the buffer is
    /// unshared.
    pub fn buffer(&self) -> (r: Option<&B>)
        ensures
            r is Some <==> access_allowed(self@),
            r matches Some(b) ==> *b == self@.storage,
    {
        if self.shared.is_some() {
            return None;
        }
        Some(&self.buffer)
    }

    /// Write access to the storage: populated exactly while the buffer is
    /// unshared. The share state itself is never changed.
    pub fn buffer_mut(&mut self) -> (r: Option<&mut B>)
        ensures
            r is Some <==> access_allowed(old(self)@),
            r is None ==> final(self)@ == old(self)@,
            r matches Some(b) ==> *b == old(self)@.storage && final(self)@ == (BufferModel {
                shared: old(self)@.shared,
                storage: *final(b),
            }),
    {
        if self.shared.is_some() {
            return None;
        }
        Some(&mut self.buffer)
    }

    /// Reclaims the storage unconditionally: revokes the share if one is
    /// live, then hands back exclusive access. Idempotent, and never fails:
    /// an id pair that was never validly shared cannot fail to unshare, so
    /// the kernel call's outcome need not be inspected.
    pub fn unallow<K: SharePrimitive>(&mut self, kernel: &mut K) -> (r: &mut B)
        ensures
            *r == old(self)@.storage,
            final(self)@ == (BufferModel { shared: None::<ShareInfo>, storage: *final(r) }),
            reclaim_transition(old(self)@) == (BufferModel {
                shared: None::<ShareInfo>,
                storage: *r,
            }),
            old(self)@.shared matches Some(i) ==> final(kernel).log() == old(kernel).log().push(
                (KernelCall::Unshare {
                    driver_num: i.driver_num,
                    buffer_num: i.buffer_num,
                    allow_type: i.allow_type,
                }),
            ),
            old(self)@.shared is None ==> final(kernel).log() == old(kernel).log(),
    {
        if let Some(info) = self.shared {
            kernel.unshare(info.driver_num, info.buffer_num, info.allow_type);
            self.shared = None;
        }
        &mut self.buffer
    }

    /// Which id pair and mode the storage is currently shared under, if any.
    pub fn share_info(&self) -> (r: Option<ShareInfo>)
        ensures
            r == self@.shared,
    {
        self.shared
    }

    /// Tears the buffer down: revokes the share if one is live and returns
    /// the storage by value. This is the disposal path; after it, the kernel
    /// holds no reference to the storage.
    pub fn into_storage<K: SharePrimitive>(self, kernel: &mut K) -> (r: B)
        ensures
            r == self@.storage,
            self@.shared matches Some(i) ==> final(kernel).log() == old(kernel).log().push(
                (KernelCall::Unshare {
                    driver_num: i.driver_num,
                    buffer_num: i.buffer_num,
                    allow_type: i.allow_type,
                }),
            ),
            self@.shared is None ==> final(kernel).log() == old(kernel).log(),
    {
        if let Some(info) = self.shared {
            kernel.unshare(info.driver_num, info.buffer_num, info.allow_type);
        }
        self.buffer
    }
}

/// A buffer for read-only, process-lifetime storage: the storage sits behind
/// a `&'static` reference (so its address is pinned structurally) and is only
/// ever lent to the kernel read-only. The handle may also be empty.
pub struct StaticBuffer<B: Allowable + 'static> {
    buffer_ref: Option<&'static B>,
    shared: Option<ShareInfo>,
}

impl<B: Allowable + 'static> View for StaticBuffer<B> {
    type V = BufferModel<ShareInfo, Option<B>>;

    closed spec fn view(&self) -> BufferModel<ShareInfo, Option<B>> {
        BufferModel {
            shared: self.shared,
            storage: match self.buffer_ref {
                Some(b) => Some(*b),
                None => None,
            },
        }
    }
}

impl<B: Allowable + 'static> StaticBuffer<B> {
    /// An empty handle: no storage, nothing shared.
    pub fn empty() -> (r: StaticBuffer<B>)
        ensures
            r@ == (BufferModel { shared: None::<ShareInfo>, storage: None::<B> }),
    {
        StaticBuffer { buffer_ref: None, shared: None }
    }

    /// Wraps a reference to process-lifetime storage in an unshared handle.
    pub fn from_static(buffer: &'static B) -> (r: StaticBuffer<B>)
        ensures
            r@ == (BufferModel { shared: None::<ShareInfo>, storage: Some(*buffer) }),
    {
        StaticBuffer { buffer_ref: Some(buffer), shared: None }
    }

    /// Lends the storage to the kernel read-only under
    /// `(driver_num, buffer_num)`. Refused locally when already shared or
    /// when the handle is empty; a kernel rejection is passed through
    /// verbatim and leaves the handle unshared.
    pub fn allow<K: SharePrimitive>(
        &mut self,
        kernel: &mut K,
        driver_num: u32,
        buffer_num: u32,
    ) -> (r: Result<(), ErrorCode>)
        ensures
            old(self)@.shared is Some ==> r == Err::<(), ErrorCode>(ALREADY_SHARED)
                && final(self)@ == old(self)@,
            old(self)@.shared is None && old(self)@.storage is None ==> r == Err::<
                (),
                ErrorCode,
            >(NO_BUFFER) && final(self)@ == old(self)@,
            old(self)@.shared is None && old(self)@.storage is Some && r is Ok ==> final(self)@
                == share_transition(
                old(self)@,
                ShareInfo { allow_type: DynamicType::Ro, driver_num, buffer_num },
            ),
            old(self)@.shared is None && r is Err ==> final(self)@ == old(self)@,
            final(self)@.storage == old(self)@.storage,
            old(self)@.shared is Some || old(self)@.storage is None ==> final(kernel).log()
                == old(kernel).log(),
            old(self)@.shared is None && old(self)@.storage is Some ==> final(kernel).log()
                == old(kernel).log().push(
                (KernelCall::Share {
                    driver_num,
                    buffer_num,
                    len: spec_storage_len::<B>(),
                    allow_type: DynamicType::Ro,
                    result: r,
                }),
            ),
    {
        if self.shared.is_some() {
            return Err(ALREADY_SHARED);
        }
        if self.buffer_ref.is_none() {
            return Err(NO_BUFFER);
        }
        let len = core::mem::size_of::<B>();
        let result = kernel.share(driver_num, buffer_num, len, DynamicType::Ro);
        if result.is_ok() {
            self.shared = Some(ShareInfo { allow_type: DynamicType::Ro, driver_num, buffer_num });
        }
        result
    }

    /// Read access to the storage: populated exactly while the handle is
    /// unshared and holds storage.
    pub fn buffer(&self) -> (r: Option<&B>)
        ensures
            r is Some <==> access_allowed(self@) && self@.storage is Some,
            r matches Some(b) ==> self@.storage == Some(*b),
    {
        if self.shared.is_some() {
            return None;
        }
        self.buffer_ref
    }

    /// Reclaims the storage unconditionally: revokes the share if one is
    /// live, then hands back whatever storage the handle holds. Idempotent
    /// and infallible, like [`Buffer::unallow`].
    pub fn unallow<K: SharePrimitive>(&mut self, kernel: &mut K) -> (r: Option<&B>)
        ensures
            final(self)@ == reclaim_transition(old(self)@),
            r is Some <==> old(self)@.storage is Some,
            r matches Some(b) ==> old(self)@.storage == Some(*b),
            old(self)@.shared matches Some(i) ==> final(kernel).log() == old(kernel).log().push(
                (KernelCall::Unshare {
                    driver_num: i.driver_num,
                    buffer_num: i.buffer_num,
                    allow_type: i.allow_type,
                }),
            ),
            old(self)@.shared is None ==> final(kernel).log() == old(kernel).log(),
    {
        if let Some(info) = self.shared {
            kernel.unshare(info.driver_num, info.buffer_num, info.allow_type);
            self.shared = None;
        }
        self.buffer_ref
    }
}

} // verus!
