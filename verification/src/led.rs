//! Driver for the LED capsule. Two interface levels: a write-only interface
//! that sets and toggles LEDs, and a tracking interface that also remembers
//! what the LED was last told to be.

use vstd::prelude::*;
use crate::returncode::{EINVAL, ENODEVICE, SUCCESS};
use crate::syscalls::{RawCall, Syscalls};

verus! {

/// The LED capsule's driver number.
pub const DRIVER_NUM: usize = 2;

/// Operation number: turn an LED on.
pub const TURN_ON: usize = 1;

/// Operation number: turn an LED off.
pub const TURN_OFF: usize = 2;

/// Operation number: toggle an LED.
pub const TOGGLE: usize = 3;

/// The errors the LED capsule can report.
#[derive(Clone, Copy, Debug, PartialEq, Eq, Structural)]
pub enum Error {
    FAIL,
    EINVAL,
    ENODEVICE,
}

/// How a raw LED answer reads: success, the two errors the capsule
/// documents, and everything else coerced to an unspecified failure.
pub open spec fn spec_led_result(raw: isize) -> Result<(), Error> {
    if raw == SUCCESS {
        Ok(())
    } else if raw == EINVAL {
        Err(Error::EINVAL)
    } else if raw == ENODEVICE {
        Err(Error::ENODEVICE)
    } else {
        Err(Error::FAIL)
    }
}

/// Interprets the raw return value of an LED operation, exactly as
/// [`spec_led_result`] reads it.
pub fn classify_led_result(raw: isize) -> (r: Result<(), Error>)
    ensures
        r == spec_led_result(raw),
{
    if raw == SUCCESS {
        Ok(())
    } else if raw == EINVAL {
        Err(Error::EINVAL)
    } else if raw == ENODEVICE {
        Err(Error::ENODEVICE)
    } else {
        Err(Error::FAIL)
    }
}

/// Whether `c` is an LED operation `op` on the LED at `idx`, answered with
/// `raw`.
pub open spec fn is_led_command(c: RawCall, op: usize, idx: usize, raw: isize) -> bool {
    c == (RawCall::Command { driver_num: DRIVER_NUM, op, arg0: idx, arg1: 0, result: raw })
}

/// A compile-time LED index.
pub trait LedIdx {
    /// The index of the LED this marker stands for. The default body only
    /// frees implementations outside the verifier from the specification
    /// item; a verified implementation overrides it.
    open spec fn spec_idx() -> usize {
        0
    }

    /// Returns the index of the LED this marker stands for.
    fn idx() -> (i: usize)
        ensures
            i == Self::spec_idx(),
    ;
}

/// Write-only interface to the LED at index `I`.
pub struct Led<I: LedIdx> {
    _phantom: core::marker::PhantomData<I>,
}

impl<I: LedIdx> Led<I> {
    /// Creates the interface; no kernel interaction happens yet.
    pub fn new() -> Led<I> {
        Led { _phantom: core::marker::PhantomData }
    }

    /// Runs one LED operation and classifies the kernel's answer.
    fn led_op<K: Syscalls>(&self, kernel: &mut K, op: usize) -> (r: Result<(), Error>)
        ensures
            final(kernel).log().drop_last() == old(kernel).log(),
            final(kernel).log().len() == old(kernel).log().len() + 1,
            exists|raw: isize|
                #[trigger] is_led_command(final(kernel).log().last(), op, I::spec_idx(), raw)
                    && r == spec_led_result(raw),
    {
        let raw = kernel.command(DRIVER_NUM, op, I::idx(), 0);
        let r = classify_led_result(raw);
        proof {
            assert(kernel.log().drop_last() =~= old(kernel).log());
            assert(is_led_command(kernel.log().last(), op, I::spec_idx(), raw));
        }
        r
    }

    /// Turns the LED on: one turn-on command to the LED capsule, its answer
    /// classified.
    pub fn turn_on<K: Syscalls>(&self, kernel: &mut K) -> (r: Result<(), Error>)
        ensures
            final(kernel).log().drop_last() == old(kernel).log(),
            final(kernel).log().len() == old(kernel).log().len() + 1,
            exists|raw: isize|
                #[trigger] is_led_command(final(kernel).log().last(), TURN_ON, I::spec_idx(), raw)
                    && r == spec_led_result(raw),
    {
        self.led_op(kernel, TURN_ON)
    }

    /// Turns the LED off: one turn-off command to the LED capsule, its answer
    /// classified.
    pub fn turn_off<K: Syscalls>(&self, kernel: &mut K) -> (r: Result<(), Error>)
        ensures
            final(kernel).log().drop_last() == old(kernel).log(),
            final(kernel).log().len() == old(kernel).log().len() + 1,
            exists|raw: isize|
                #[trigger] is_led_command(final(kernel).log().last(), TURN_OFF, I::spec_idx(), raw)
                    && r == spec_led_result(raw),
    {
        self.led_op(kernel, TURN_OFF)
    }

    /// Toggles the LED: one toggle command to the LED capsule, its answer
    /// classified.
    pub fn toggle<K: Syscalls>(&self, kernel: &mut K) -> (r: Result<(), Error>)
        ensures
            final(kernel).log().drop_last() == old(kernel).log(),
            final(kernel).log().len() == old(kernel).log().len() + 1,
            exists|raw: isize|
                #[trigger] is_led_command(final(kernel).log().last(), TOGGLE, I::spec_idx(), raw)
                    && r == spec_led_result(raw),
    {
        self.led_op(kernel, TOGGLE)
    }
}

/// LED driver that also tracks the state the LED was last told to be in.
/// The state is recorded before the kernel is asked, so it reflects the
/// request even when the kernel rejects it.
pub struct TrackedLed<I: LedIdx> {
    led: Led<I>,
    state: Option<bool>,
}

impl<I: LedIdx> TrackedLed<I> {
    /// What the LED was last told to be, if anything: `None` until the first
    /// request, and after a toggle from an unknown state.
    pub closed spec fn spec_state(&self) -> Option<bool> {
        self.state
    }

    /// Creates the interface; the LED state is unknown.
    pub fn new() -> (r: TrackedLed<I>)
        ensures
            r.spec_state() is None,
    {
        TrackedLed { led: Led::new(), state: None }
    }

    /// The LED's state, if known. `None` while it is not known whether the
    /// LED is currently on.
    pub fn get_state(&self) -> (r: Option<bool>)
        ensures
            r == self.spec_state(),
    {
        self.state
    }

    /// Turns the LED on: records the request, then asks the capsule, whose
    /// classified answer is passed through.
    pub fn turn_on<K: Syscalls>(&mut self, kernel: &mut K) -> (r: Result<(), Error>)
        ensures
            final(self).spec_state() == Some(true),
            final(kernel).log().drop_last() == old(kernel).log(),
            exists|raw: isize|
                #[trigger] is_led_command(final(kernel).log().last(), TURN_ON, I::spec_idx(), raw)
                    && r == spec_led_result(raw),
    {
        self.state = Some(true);
        self.led.turn_on(kernel)
    }

    /// Turns the LED off: records the request, then asks the capsule, whose
    /// classified answer is passed through.
    pub fn turn_off<K: Syscalls>(&mut self, kernel: &mut K) -> (r: Result<(), Error>)
        ensures
            final(self).spec_state() == Some(false),
            final(kernel).log().drop_last() == old(kernel).log(),
            exists|raw: isize|
                #[trigger] is_led_command(final(kernel).log().last(), TURN_OFF, I::spec_idx(), raw)
                    && r == spec_led_result(raw),
    {
        self.state = Some(false);
        self.led.turn_off(kernel)
    }

    /// Toggles the LED: a known state flips, an unknown state stays unknown,
    /// and the capsule's classified answer is passed through.
    pub fn toggle<K: Syscalls>(&mut self, kernel: &mut K) -> (r: Result<(), Error>)
        ensures
            old(self).spec_state() matches Some(b) ==> final(self).spec_state() == Some(!b),
            old(self).spec_state() is None ==> final(self).spec_state() is None,
            final(kernel).log().drop_last() == old(kernel).log(),
            exists|raw: isize|
                #[trigger] is_led_command(final(kernel).log().last(), TOGGLE, I::spec_idx(), raw)
                    && r == spec_led_result(raw),
    {
        self.state = match self.state {
            Some(b) => Some(!b),
            None => None,
        };
        self.led.toggle(kernel)
    }
}

} // verus!
