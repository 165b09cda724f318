//! Scenario tests for the buffer lifecycle, driven by scripted kernels.

use allow_pin::dynamic_type;
use allow_pin::full_dynamic::{Buffer, StaticBuffer, NO_BUFFER};
use allow_pin::lifecycle::ShareInfo;
use allow_pin::{DynamicType, ErrorCode, SharePrimitive, ALREADY_SHARED, NOT_SHARED};

/// A kernel that accepts every share and records how it was called.
struct OkKernel {
    shares: Vec<(u32, u32, usize, DynamicType)>,
    unshares: Vec<(u32, u32)>,
}

impl OkKernel {
    fn new() -> OkKernel {
        OkKernel { shares: Vec::new(), unshares: Vec::new() }
    }
}

impl SharePrimitive for OkKernel {
    fn share(
        &mut self,
        driver_num: u32,
        buffer_num: u32,
        len: usize,
        allow_type: DynamicType,
    ) -> Result<(), ErrorCode> {
        self.shares.push((driver_num, buffer_num, len, allow_type));
        Ok(())
    }

    fn unshare(&mut self, driver_num: u32, buffer_num: u32, _allow_type: DynamicType) {
        self.unshares.push((driver_num, buffer_num));
    }

    fn command(&mut self, _d: u32, _op: u32, _a0: u32, _a1: u32) -> Result<(), ErrorCode> {
        Ok(())
    }
}

/// A kernel that answers each share from a script, in order.
struct ScriptedKernel {
    responses: Vec<Result<(), ErrorCode>>,
    next: usize,
}

impl ScriptedKernel {
    fn new(responses: Vec<Result<(), ErrorCode>>) -> ScriptedKernel {
        ScriptedKernel { responses, next: 0 }
    }
}

impl SharePrimitive for ScriptedKernel {
    fn share(&mut self, _d: u32, _b: u32, _len: usize, _t: DynamicType) -> Result<(), ErrorCode> {
        let r = self.responses[self.next];
        self.next += 1;
        r
    }

    fn unshare(&mut self, _d: u32, _b: u32, _t: DynamicType) {}

    fn command(&mut self, _d: u32, _op: u32, _a0: u32, _a1: u32) -> Result<(), ErrorCode> {
        Ok(())
    }
}

#[test]
fn share_then_access_then_reclaim() {
    // A pure state-machine walk: share succeeds, access is denied while
    // shared, reclaim returns the untouched storage.
    let mut kernel = OkKernel::new();
    let mut buffer = Buffer::from_storage([0u8, 0, 0, 0]);
    assert!(buffer.buffer().is_some());
    assert_eq!(buffer.allow(&mut kernel, DynamicType::Rw, 7, 1), Ok(()));
    assert!(buffer.buffer().is_none());
    assert!(buffer.buffer_mut().is_none());
    let storage = buffer.unallow(&mut kernel);
    assert_eq!(*storage, [0u8, 0, 0, 0]);
    assert!(buffer.share_info().is_none());
    assert_eq!(kernel.shares, vec![(7, 1, 4, DynamicType::Rw)]);
    assert_eq!(kernel.unshares, vec![(7, 1)]);
}

#[test]
fn access_populated_iff_unshared() {
    let mut kernel = OkKernel::new();
    let mut buffer = Buffer::from_storage(42u32);
    assert!(buffer.buffer().is_some());
    buffer.allow(&mut kernel, DynamicType::Ro, 1, 0).unwrap();
    assert!(buffer.buffer().is_none());
    buffer.unallow(&mut kernel);
    assert_eq!(buffer.buffer(), Some(&42u32));
}

#[test]
fn share_while_shared_is_refused_locally() {
    let mut kernel = OkKernel::new();
    let mut buffer = Buffer::from_storage(5u64);
    buffer.allow(&mut kernel, DynamicType::Rw, 3, 2).unwrap();
    let again = buffer.allow(&mut kernel, DynamicType::Ro, 9, 9);
    assert_eq!(again, Err(ALREADY_SHARED));
    // The share state is unchanged and no second kernel call was made.
    assert_eq!(
        buffer.share_info(),
        Some(ShareInfo { allow_type: DynamicType::Rw, driver_num: 3, buffer_num: 2 })
    );
    assert_eq!(kernel.shares.len(), 1);
}

#[test]
fn kernel_rejection_is_passed_through_and_leaves_buffer_unshared() {
    let mut kernel = ScriptedKernel::new(vec![Err(11)]);
    let mut buffer = Buffer::from_storage(1u8);
    assert_eq!(buffer.allow(&mut kernel, DynamicType::Rw, 1, 1), Err(11));
    assert!(buffer.share_info().is_none());
    assert!(buffer.buffer().is_some());
}

#[test]
fn reclaim_is_idempotent() {
    let mut kernel = OkKernel::new();
    let mut buffer = Buffer::from_storage([9u8; 3]);
    buffer.allow(&mut kernel, DynamicType::Rw, 2, 0).unwrap();
    let first = *buffer.unallow(&mut kernel);
    let second = *buffer.unallow(&mut kernel);
    assert_eq!(first, [9u8; 3]);
    assert_eq!(second, [9u8; 3]);
    assert!(buffer.share_info().is_none());
    // Only the first reclaim had a share to revoke.
    assert_eq!(kernel.unshares.len(), 1);
}

#[test]
fn share_reclaim_round_trip_keeps_storage() {
    let mut kernel = OkKernel::new();
    let mut buffer = Buffer::from_storage([1u8, 2, 3, 4, 5, 6, 7, 8]);
    buffer.allow(&mut kernel, DynamicType::Ro, 4, 4).unwrap();
    let storage = buffer.unallow(&mut kernel);
    assert_eq!(*storage, [1u8, 2, 3, 4, 5, 6, 7, 8]);
    assert!(buffer.buffer().is_some());
}

#[test]
fn exchange_moves_share_to_other_buffer() {
    let mut kernel = OkKernel::new();
    let mut active: dynamic_type::Buffer<[u8; 2], 5, 0> =
        dynamic_type::Buffer::from_storage([1u8, 2]);
    let mut spare: dynamic_type::Buffer<[u8; 2], 5, 0> =
        dynamic_type::Buffer::from_storage([3u8, 4]);
    active.allow(&mut kernel, DynamicType::Rw).unwrap();
    let (storage, result) = active.replace_with(&mut kernel, &mut spare);
    assert_eq!(result, Ok(()));
    assert_eq!(*storage, [1u8, 2]);
    assert_eq!(active.share_status(), None);
    assert_eq!(spare.share_status(), Some(DynamicType::Rw));
}

#[test]
fn exchange_without_share_is_refused() {
    let mut kernel = OkKernel::new();
    let mut active: dynamic_type::Buffer<u32, 5, 0> = dynamic_type::Buffer::from_storage(10);
    let mut spare: dynamic_type::Buffer<u32, 5, 0> = dynamic_type::Buffer::from_storage(20);
    let (storage, result) = active.replace_with(&mut kernel, &mut spare);
    assert_eq!(result, Err(NOT_SHARED));
    assert_eq!(*storage, 10);
    assert!(kernel.shares.is_empty());
}

#[test]
fn exchange_failure_leaves_self_shared() {
    // The new share is rejected by the kernel: nothing is torn down, the
    // error is passed through, and the returned storage is still valid.
    let mut kernel = ScriptedKernel::new(vec![Ok(()), Err(17)]);
    let mut active: dynamic_type::Buffer<u32, 8, 1> = dynamic_type::Buffer::from_storage(77);
    let mut spare: dynamic_type::Buffer<u32, 8, 1> = dynamic_type::Buffer::from_storage(88);
    active.allow(&mut kernel, DynamicType::Rw).unwrap();
    let (storage, result) = active.replace_with(&mut kernel, &mut spare);
    assert_eq!(result, Err(17));
    assert_eq!(*storage, 77);
    assert_eq!(active.share_status(), Some(DynamicType::Rw));
    assert_eq!(spare.share_status(), None);
}

#[test]
fn exchange_into_shared_buffer_is_refused() {
    let mut kernel = OkKernel::new();
    let mut active: dynamic_type::Buffer<u8, 1, 0> = dynamic_type::Buffer::from_storage(1);
    let mut spare: dynamic_type::Buffer<u8, 1, 0> = dynamic_type::Buffer::from_storage(2);
    active.allow(&mut kernel, DynamicType::Rw).unwrap();
    spare.allow(&mut kernel, DynamicType::Ro).unwrap();
    let (_storage, result) = active.replace_with(&mut kernel, &mut spare);
    assert_eq!(result, Err(ALREADY_SHARED));
    assert_eq!(active.share_status(), Some(DynamicType::Rw));
    assert_eq!(spare.share_status(), Some(DynamicType::Ro));
}

#[test]
fn into_storage_unshares_first() {
    let mut kernel = OkKernel::new();
    let mut buffer = Buffer::from_storage(3u16);
    buffer.allow(&mut kernel, DynamicType::Rw, 6, 0).unwrap();
    let storage = buffer.into_storage(&mut kernel);
    assert_eq!(storage, 3u16);
    assert_eq!(kernel.unshares, vec![(6, 0)]);
}

#[test]
fn static_buffer_without_storage_is_refused() {
    let mut kernel = OkKernel::new();
    let mut buffer: StaticBuffer<u32> = StaticBuffer::empty();
    assert_eq!(buffer.allow(&mut kernel, 1, 0), Err(NO_BUFFER));
    assert!(kernel.shares.is_empty());
}

#[test]
fn static_buffer_lifecycle() {
    let data: &'static [u8; 4] = Box::leak(Box::new([4u8, 3, 2, 1]));
    let mut kernel = OkKernel::new();
    let mut buffer = StaticBuffer::from_static(data);
    assert_eq!(buffer.buffer(), Some(&[4u8, 3, 2, 1]));
    assert_eq!(buffer.allow(&mut kernel, 2, 3), Ok(()));
    assert!(buffer.buffer().is_none());
    assert_eq!(buffer.allow(&mut kernel, 2, 3), Err(ALREADY_SHARED));
    let reclaimed = buffer.unallow(&mut kernel);
    assert_eq!(reclaimed, Some(&[4u8, 3, 2, 1]));
    // Every static share is read-only.
    assert_eq!(kernel.shares, vec![(2, 3, 4, DynamicType::Ro)]);
}
