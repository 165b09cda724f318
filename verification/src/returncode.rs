//! The kernel's raw return-code values, and one capability trait per value.
//!
//! Driver error enums cover only the subset of codes their driver can
//! actually produce, to keep match arms few. Each trait below is implemented
//! by every error enum that contains the corresponding code, so generic code
//! can construct exactly the errors a given enum supports.

use vstd::prelude::*;

verus! {

/// Raw return-code value: operation succeeded.
pub const SUCCESS: isize = 0;

/// Raw return-code value: unspecified internal failure.
pub const FAIL: isize = -1;

/// Raw return-code value: the driver is busy.
pub const EBUSY: isize = -2;

/// Raw return-code value: the operation is already in progress or the
/// resource is already in the requested state.
pub const EALREADY: isize = -3;

/// Raw return-code value: the device is powered off.
pub const EOFF: isize = -4;

/// Raw return-code value: a reservation is required first.
pub const ERESERVE: isize = -5;

/// Raw return-code value: an argument was invalid.
pub const EINVAL: isize = -6;

/// Raw return-code value: a size or length was unacceptable.
pub const ESIZE: isize = -7;

/// Raw return-code value: the operation was cancelled.
pub const ECANCEL: isize = -8;

/// Raw return-code value: the kernel is out of memory for this request.
pub const ENOMEM: isize = -9;

/// Raw return-code value: the operation is not supported.
pub const ENOSUPPORT: isize = -10;

/// Raw return-code value: no such device.
pub const ENODEVICE: isize = -11;

/// Raw return-code value: the device is not physically installed.
pub const EUNINSTALLED: isize = -12;

/// Raw return-code value: the packet was not acknowledged.
pub const ENOACK: isize = -13;

/// Implemented by error types that can express the success value.
pub trait Success: Sized {
    /// The value standing for [`SUCCESS`].
    fn success() -> Self;
}

/// Implemented by error types that can express an unspecified failure.
pub trait Fail: Sized {
    /// The value standing for [`FAIL`].
    fn fail() -> Self;
}

/// Implemented by error types that can express a busy driver.
pub trait EBusy: Sized {
    /// The value standing for [`EBUSY`].
    fn ebusy() -> Self;
}

/// Implemented by error types that can express an already-pending operation.
pub trait EAlready: Sized {
    /// The value standing for [`EALREADY`].
    fn ealready() -> Self;
}

/// Implemented by error types that can express a powered-off device.
pub trait EOff: Sized {
    /// The value standing for [`EOFF`].
    fn eoff() -> Self;
}

/// Implemented by error types that can express a missing reservation.
pub trait EReserve: Sized {
    /// The value standing for [`ERESERVE`].
    fn ereserve() -> Self;
}

/// Implemented by error types that can express an invalid argument.
pub trait EInval: Sized {
    /// The value standing for [`EINVAL`].
    fn einval() -> Self;
}

/// Implemented by error types that can express an unacceptable size.
pub trait ESize: Sized {
    /// The value standing for [`ESIZE`].
    fn esize() -> Self;
}

/// Implemented by error types that can express a cancelled operation.
pub trait ECancel: Sized {
    /// The value standing for [`ECANCEL`].
    fn ecancel() -> Self;
}

/// Implemented by error types that can express kernel memory exhaustion.
pub trait ENoMem: Sized {
    /// The value standing for [`ENOMEM`].
    fn enomem() -> Self;
}

/// Implemented by error types that can express an unsupported operation.
pub trait ENoSupport: Sized {
    /// The value standing for [`ENOSUPPORT`].
    fn enosupport() -> Self;
}

/// Implemented by error types that can express a missing device.
pub trait ENoDevice: Sized {
    /// The value standing for [`ENODEVICE`].
    fn enodevice() -> Self;
}

/// Implemented by error types that can express an uninstalled device.
pub trait EUninstalled: Sized {
    /// The value standing for [`EUNINSTALLED`].
    fn euninstalled() -> Self;
}

/// Implemented by error types that can express an unacknowledged packet.
pub trait ENoAck: Sized {
    /// The value standing for [`ENOACK`].
    fn enoack() -> Self;
}

} // verus!
