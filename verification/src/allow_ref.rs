//! Access-mode markers and a mode-typed handle for sharing process-lifetime
//! storage with the kernel.
//!
//! [`Permissions`] lifts the read-only/read-write distinction to the type
//! level, so that an API can be fixed at compile time to one of the two allow
//! classes while the rest of the lifecycle logic stays shared.

use vstd::prelude::*;
use crate::lifecycle::ShareInfo;
use crate::{spec_storage_len, DynamicType, ErrorCode, KernelCall, SharePrimitive,
    ALREADY_SHARED};

verus! {

/// Supertrait that keeps [`Permissions`] closed to outside implementations.
pub trait Sealed {}

/// A type-level access mode: whether a handle lends its buffer to the kernel
/// read-only or read-write.
pub trait Permissions: Sealed {
    /// The allow type this marker stands for.
    spec fn spec_class() -> DynamicType;

    /// Returns the allow type this marker stands for.
    fn class() -> (c: DynamicType)
        ensures
            c == Self::spec_class(),
    ;
}

/// Read-only access marker. Used only at the type level; the variant is never
/// constructed.
pub enum Ro {
    Marker,
}

/// Read-write access marker. Used only at the type level; the variant is
/// never constructed.
pub enum Rw {
    Marker,
}

impl Sealed for Ro {}

impl Permissions for Ro {
    open spec fn spec_class() -> DynamicType {
        DynamicType::Ro
    }

    fn class() -> DynamicType {
        DynamicType::Ro
    }
}

impl Sealed for Rw {}

impl Permissions for Rw {
    open spec fn spec_class() -> DynamicType {
        DynamicType::Rw
    }

    fn class() -> DynamicType {
        DynamicType::Rw
    }
}

/// Marker for payload types whose bytes may be handed to the kernel: plain
/// data with no pointers, so that any byte pattern the kernel writes back is
/// a valid value.
pub trait Allowable {}

impl Allowable for u8 {}

impl Allowable for u16 {}

impl Allowable for u32 {}

impl Allowable for u64 {}

impl Allowable for usize {}

impl Allowable for i8 {}

impl Allowable for i16 {}

impl Allowable for i32 {}

impl Allowable for i64 {}

impl Allowable for isize {}

impl<T: Allowable, const N: usize> Allowable for [T; N] {}

/// A handle to process-lifetime storage that can be lent to the kernel under
/// the access mode `P`. The storage sits behind a shared reference, so its
/// address is stable for as long as the handle exists: the pinning the kernel
/// requires is structural.
pub struct Ref<P: Permissions, T: Allowable + 'static> {
    buffer: &'static T,
    share_info: Option<ShareInfo>,
    _perms: core::marker::PhantomData<P>,
}

impl<P: Permissions, T: Allowable + 'static> Ref<P, T> {
    /// Which id pair the storage is currently shared under, if any.
    pub closed spec fn spec_share_info(&self) -> Option<ShareInfo> {
        self.share_info
    }

    /// The storage value behind the handle.
    pub closed spec fn spec_buffer(&self) -> T {
        *self.buffer
    }

    /// Creates an unshared handle to the given storage.
    pub fn new(buffer: &'static T) -> (r: Ref<P, T>)
        ensures
            r.spec_share_info() is None,
            r.spec_buffer() == *buffer,
    {
        Ref { buffer, share_info: None, _perms: core::marker::PhantomData }
    }

    /// Lends the storage to the kernel under `(driver_num, buffer_num)` with
    /// the mode fixed by `P`. Refused locally when already shared; otherwise
    /// the kernel's verdict is passed through and the handle records the
    /// share only on success.
    pub fn share<K: SharePrimitive>(
        &mut self,
        kernel: &mut K,
        driver_num: u32,
        buffer_num: u32,
    ) -> (r: Result<(), ErrorCode>)
        ensures
            old(self).spec_share_info() is Some ==> r == Err::<(), ErrorCode>(ALREADY_SHARED)
                && final(self).spec_share_info() == old(self).spec_share_info(),
            old(self).spec_share_info() is None && r is Ok ==> final(self).spec_share_info()
                == Some(
                ShareInfo { allow_type: P::spec_class(), driver_num, buffer_num },
            ),
            old(self).spec_share_info() is None && r is Err ==> final(self).spec_share_info()
                is None,
            final(self).spec_buffer() == old(self).spec_buffer(),
            old(self).spec_share_info() is Some ==> final(kernel).log() == old(kernel).log(),
            old(self).spec_share_info() is None ==> final(kernel).log() == old(
                kernel,
            ).log().push(
                (KernelCall::Share {
                    driver_num,
                    buffer_num,
                    len: spec_storage_len::<T>(),
                    allow_type: P::spec_class(),
                    result: r,
                }),
            ),
    {
        if self.share_info.is_some() {
            return Err(ALREADY_SHARED);
        }
        let allow_type = P::class();
        let len = core::mem::size_of::<T>();
        let result = kernel.share(driver_num, buffer_num, len, allow_type);
        if result.is_ok() {
            self.share_info = Some(ShareInfo { allow_type, driver_num, buffer_num });
        }
        result
    }

    /// Revokes the share, if one is live. Safe to call at any time; after the
    /// call the kernel no longer holds the storage.
    pub fn unshare_if_shared<K: SharePrimitive>(&mut self, kernel: &mut K)
        ensures
            final(self).spec_share_info() is None,
            final(self).spec_buffer() == old(self).spec_buffer(),
            old(self).spec_share_info() matches Some(i) ==> final(kernel).log() == old(
                kernel,
            ).log().push(
                (KernelCall::Unshare {
                    driver_num: i.driver_num,
                    buffer_num: i.buffer_num,
                    allow_type: i.allow_type,
                }),
            ),
            old(self).spec_share_info() is None ==> final(kernel).log() == old(kernel).log(),
    {
        if let Some(info) = self.share_info {
            kernel.unshare(info.driver_num, info.buffer_num, info.allow_type);
            self.share_info = None;
        }
    }

    /// Read access to the storage: granted only while the kernel does not
    /// hold it (for the read-write mode the kernel may be mutating it).
    pub fn get(&self) -> (r: Option<&T>)
        ensures
            r is Some <==> self.spec_share_info() is None,
            r matches Some(b) ==> *b == self.spec_buffer(),
    {
        if self.share_info.is_some() {
            return None;
        }
        Some(self.buffer)
    }
}

} // verus!
