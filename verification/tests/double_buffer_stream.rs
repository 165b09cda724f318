//! Scenario tests for the double-buffer stream.

use allow_pin::double_buffer::{DoubleBufferStream, Side, NOT_STREAMING};
use allow_pin::{DynamicType, ErrorCode, SharePrimitive, ALREADY_SHARED};

/// A kernel that answers each share from a script, in order, and counts
/// every call.
struct Kernel {
    responses: Vec<Result<(), ErrorCode>>,
    next: usize,
    unshares: usize,
}

impl Kernel {
    fn accepting(n: usize) -> Kernel {
        Kernel { responses: vec![Ok(()); n], next: 0, unshares: 0 }
    }

    fn scripted(responses: Vec<Result<(), ErrorCode>>) -> Kernel {
        Kernel { responses, next: 0, unshares: 0 }
    }
}

impl SharePrimitive for Kernel {
    fn share(&mut self, _d: u32, _b: u32, _len: usize, _t: DynamicType) -> Result<(), ErrorCode> {
        let r = self.responses[self.next];
        self.next += 1;
        r
    }

    fn unshare(&mut self, _d: u32, _b: u32, _t: DynamicType) {
        self.unshares += 1;
    }

    fn command(&mut self, _d: u32, _op: u32, _a0: u32, _a1: u32) -> Result<(), ErrorCode> {
        Ok(())
    }
}

#[test]
fn stream_advances_through_both_sides() {
    // Two 8-byte buffers: start lends side A; the first advance swaps to B
    // and hands back A's storage; the second swaps back and hands B's.
    let mut kernel = Kernel::accepting(3);
    let mut stream = DoubleBufferStream::new(
        [1u8, 2, 3, 4, 5, 6, 7, 8],
        [11u8, 12, 13, 14, 15, 16, 17, 18],
        DynamicType::Rw,
        7,
        0,
    );
    assert_eq!(stream.active_side(), None);
    assert_eq!(stream.start(&mut kernel), Ok(()));
    assert_eq!(stream.active_side(), Some(Side::A));
    let first = stream.advance(&mut kernel).unwrap();
    assert_eq!(*first, [1u8, 2, 3, 4, 5, 6, 7, 8]);
    assert_eq!(stream.active_side(), Some(Side::B));
    let second = stream.advance(&mut kernel).unwrap();
    assert_eq!(*second, [11u8, 12, 13, 14, 15, 16, 17, 18]);
    assert_eq!(stream.active_side(), Some(Side::A));
}

#[test]
fn advance_before_start_is_refused() {
    let mut kernel = Kernel::accepting(0);
    let mut stream = DoubleBufferStream::new(0u32, 0u32, DynamicType::Ro, 1, 1);
    assert_eq!(stream.advance(&mut kernel), Err(NOT_STREAMING));
    assert_eq!(stream.active_side(), None);
}

#[test]
fn start_twice_is_refused() {
    let mut kernel = Kernel::accepting(2);
    let mut stream = DoubleBufferStream::new(0u8, 0u8, DynamicType::Rw, 1, 1);
    stream.start(&mut kernel).unwrap();
    assert_eq!(stream.start(&mut kernel), Err(ALREADY_SHARED));
    assert_eq!(stream.active_side(), Some(Side::A));
}

#[test]
fn start_failure_leaves_stream_stopped() {
    let mut kernel = Kernel::scripted(vec![Err(2)]);
    let mut stream = DoubleBufferStream::new(0u8, 0u8, DynamicType::Rw, 1, 1);
    assert_eq!(stream.start(&mut kernel), Err(2));
    assert_eq!(stream.active_side(), None);
}

#[test]
fn advance_failure_keeps_active_side() {
    // The new share is rejected: the previously active side stays active and
    // lent out, and nothing is torn down.
    let mut kernel = Kernel::scripted(vec![Ok(()), Err(9)]);
    let mut stream = DoubleBufferStream::new([1u8, 1], [2u8, 2], DynamicType::Rw, 3, 0);
    stream.start(&mut kernel).unwrap();
    assert_eq!(stream.advance(&mut kernel), Err(9));
    assert_eq!(stream.active_side(), Some(Side::A));
    assert_eq!(kernel.unshares, 0);
}

#[test]
fn teardown_returns_both_storages() {
    let mut kernel = Kernel::accepting(1);
    let mut stream = DoubleBufferStream::new([7u8; 4], [8u8; 4], DynamicType::Rw, 2, 1);
    stream.start(&mut kernel).unwrap();
    let (a, b) = stream.into_storages(&mut kernel);
    assert_eq!(a, [7u8; 4]);
    assert_eq!(b, [8u8; 4]);
    // The live share was revoked on disposal.
    assert_eq!(kernel.unshares, 1);
}
