//! The maximally static buffer variant: the access mode and the id pair are
//! both fixed at compile time, and no share state is tracked at runtime.
//! Every operation that needs the buffer back simply revokes the share
//! unconditionally — the kernel's unshare is idempotent, so reclaiming an
//! unshared buffer is harmless.
//!
//! Retrieving the buffer performs an unallow even if a different buffer is
//! currently shared under the same id pair; keeping one live buffer per id
//! pair is this variant's usage contract.

use vstd::prelude::*;
use crate::allow_ref::Allowable;
use crate::{spec_storage_len, DynamicType, ErrorCode, KernelCall, SharePrimitive, StaticRo,
    StaticRw, StaticType};

verus! {

/// A buffer that owns its storage, with the access mode `P` and the id pair
/// `(DRIVER_NUM, BUFFER_NUM)` all fixed at compile time. It carries no
/// runtime share flag: the storage value is its whole state.
pub struct Buffer<
    P: StaticType,
    B: Allowable,
    const DRIVER_NUM: u32,
    const BUFFER_NUM: u32,
> {
    buffer: B,
    _perms: core::marker::PhantomData<P>,
}

impl<P: StaticType, B: Allowable, const DRIVER_NUM: u32, const BUFFER_NUM: u32> View for Buffer<
    P,
    B,
    DRIVER_NUM,
    BUFFER_NUM,
> {
    type V = B;

    closed spec fn view(&self) -> B {
        self.buffer
    }
}

// Methods shared by the read-only and the read-write mode.
impl<P: StaticType, B: Allowable, const DRIVER_NUM: u32, const BUFFER_NUM: u32> Buffer<
    P,
    B,
    DRIVER_NUM,
    BUFFER_NUM,
> {
    /// Wraps storage in a buffer.
    pub fn from_storage(buffer: B) -> (r: Buffer<P, B, DRIVER_NUM, BUFFER_NUM>)
        ensures
            r@ == buffer,
    {
        Buffer { buffer, _perms: core::marker::PhantomData }
    }

    /// Lends the storage to the kernel under the const id pair with the mode
    /// fixed by `P`. The kernel's verdict is passed through verbatim; the
    /// storage itself is untouched.
    pub fn allow<K: SharePrimitive>(&mut self, kernel: &mut K) -> (r: Result<(), ErrorCode>)
        ensures
            final(self)@ == old(self)@,
            final(kernel).log() == old(kernel).log().push(
                (KernelCall::Share {
                    driver_num: DRIVER_NUM,
                    buffer_num: BUFFER_NUM,
                    len: spec_storage_len::<B>(),
                    allow_type: P::spec_class(),
                    result: r,
                }),
            ),
    {
        let len = core::mem::size_of::<B>();
        kernel.share(DRIVER_NUM, BUFFER_NUM, len, P::class())
    }

    /// Reclaims the storage: revokes whatever is shared under the const id
    /// pair, then hands back exclusive access.
    pub fn buffer_mut<K: SharePrimitive>(&mut self, kernel: &mut K) -> (r: &mut B)
        ensures
            *r == old(self)@,
            final(self)@ == *final(r),
            final(kernel).log() == old(kernel).log().push(
                (KernelCall::Unshare {
                    driver_num: DRIVER_NUM,
                    buffer_num: BUFFER_NUM,
                    allow_type: P::spec_class(),
                }),
            ),
    {
        kernel.unshare(DRIVER_NUM, BUFFER_NUM, P::class());
        &mut self.buffer
    }

    /// Lends `new`'s storage to the kernel in place of this buffer's, and
    /// returns read access to this buffer's storage together with the share
    /// result. The share of `new` replaces this buffer's share because both
    /// use the same id pair.
    pub fn replace_with<OB: Allowable, K: SharePrimitive>(
        &self,
        kernel: &mut K,
        new: &mut Buffer<P, OB, DRIVER_NUM, BUFFER_NUM>,
    ) -> (ret: (&B, Result<(), ErrorCode>))
        ensures
            *ret.0 == self@,
            final(new)@ == old(new)@,
            final(kernel).log() == old(kernel).log().push(
                (KernelCall::Share {
                    driver_num: DRIVER_NUM,
                    buffer_num: BUFFER_NUM,
                    len: spec_storage_len::<OB>(),
                    allow_type: P::spec_class(),
                    result: ret.1,
                }),
            ),
    {
        let result = new.allow(kernel);
        (&self.buffer, result)
    }

    /// Lends `new`'s storage to the kernel in place of this buffer's, and
    /// returns write access to this buffer's storage together with the share
    /// result.
    pub fn replace_with_mut<OB: Allowable, K: SharePrimitive>(
        &mut self,
        kernel: &mut K,
        new: &mut Buffer<P, OB, DRIVER_NUM, BUFFER_NUM>,
    ) -> (ret: (&mut B, Result<(), ErrorCode>))
        ensures
            *ret.0 == old(self)@,
            final(self)@ == *final(ret.0),
            final(new)@ == old(new)@,
            final(kernel).log() == old(kernel).log().push(
                (KernelCall::Share {
                    driver_num: DRIVER_NUM,
                    buffer_num: BUFFER_NUM,
                    len: spec_storage_len::<OB>(),
                    allow_type: P::spec_class(),
                    result: ret.1,
                }),
            ),
    {
        let result = new.allow(kernel);
        (&mut self.buffer, result)
    }
}

// Methods only available in the read-only mode.
impl<B: Allowable, const DRIVER_NUM: u32, const BUFFER_NUM: u32> Buffer<
    StaticRo,
    B,
    DRIVER_NUM,
    BUFFER_NUM,
> {
    /// Lends the storage to the kernel read-only. A shared reference
    /// suffices: the kernel never writes a read-only buffer.
    pub fn allow_ro<K: SharePrimitive>(&self, kernel: &mut K) -> (r: Result<(), ErrorCode>)
        ensures
            final(kernel).log() == old(kernel).log().push(
                (KernelCall::Share {
                    driver_num: DRIVER_NUM,
                    buffer_num: BUFFER_NUM,
                    len: spec_storage_len::<B>(),
                    allow_type: DynamicType::Ro,
                    result: r,
                }),
            ),
    {
        let len = core::mem::size_of::<B>();
        kernel.share(DRIVER_NUM, BUFFER_NUM, len, StaticRo::class())
    }

    /// Read access to the storage. No unallow is needed: the kernel never
    /// writes a read-only buffer, so reading beside it is harmless.
    pub fn buffer(&self) -> (r: &B)
        ensures
            *r == self@,
    {
        &self.buffer
    }

    /// Lends `new`'s storage to the kernel in place of this buffer's,
    /// read-only, and returns read access to this buffer's storage together
    /// with the share result.
    pub fn replace_with_ro<OB: Allowable, K: SharePrimitive>(
        &self,
        kernel: &mut K,
        new: &Buffer<StaticRo, OB, DRIVER_NUM, BUFFER_NUM>,
    ) -> (ret: (&B, Result<(), ErrorCode>))
        ensures
            *ret.0 == self@,
            final(kernel).log() == old(kernel).log().push(
                (KernelCall::Share {
                    driver_num: DRIVER_NUM,
                    buffer_num: BUFFER_NUM,
                    len: spec_storage_len::<OB>(),
                    allow_type: DynamicType::Ro,
                    result: ret.1,
                }),
            ),
    {
        let result = new.allow_ro(kernel);
        (&self.buffer, result)
    }

    /// Lends `new`'s storage to the kernel in place of this buffer's,
    /// read-only, and returns write access to this buffer's storage together
    /// with the share result.
    pub fn replace_with_mut_ro<OB: Allowable, K: SharePrimitive>(
        &mut self,
        kernel: &mut K,
        new: &Buffer<StaticRo, OB, DRIVER_NUM, BUFFER_NUM>,
    ) -> (ret: (&mut B, Result<(), ErrorCode>))
        ensures
            *ret.0 == old(self)@,
            final(self)@ == *final(ret.0),
            final(kernel).log() == old(kernel).log().push(
                (KernelCall::Share {
                    driver_num: DRIVER_NUM,
                    buffer_num: BUFFER_NUM,
                    len: spec_storage_len::<OB>(),
                    allow_type: DynamicType::Ro,
                    result: ret.1,
                }),
            ),
    {
        let result = new.allow_ro(kernel);
        (&mut self.buffer, result)
    }
}

// Methods only available in the read-write mode.
impl<B: Allowable, const DRIVER_NUM: u32, const BUFFER_NUM: u32> Buffer<
    StaticRw,
    B,
    DRIVER_NUM,
    BUFFER_NUM,
> {
    /// Read access to the storage. Because the kernel may be writing a
    /// read-write buffer, the share under the const id pair is revoked first.
    pub fn buffer<K: SharePrimitive>(&self, kernel: &mut K) -> (r: &B)
        ensures
            *r == self@,
            final(kernel).log() == old(kernel).log().push(
                (KernelCall::Unshare {
                    driver_num: DRIVER_NUM,
                    buffer_num: BUFFER_NUM,
                    allow_type: DynamicType::Rw,
                }),
            ),
    {
        kernel.unshare(DRIVER_NUM, BUFFER_NUM, StaticRw::class());
        &self.buffer
    }
}

} // verus!
