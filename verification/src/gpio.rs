//! Basic GPIO driver: one output pin driving a light and one input pin with a
//! button, which is what the blink application needs.

use vstd::prelude::*;
use crate::async_util::Poll;
use crate::syscalls::{RawCall, Syscalls};

verus! {

/// The GPIO capsule's driver number.
pub const DRIVER_NUM: usize = 4;

/// Operation number: configure a pin as output.
pub const ENABLE_OUTPUT: usize = 1;

/// Operation number: drive a pin high.
pub const SET_PIN: usize = 2;

/// Operation number: drive a pin low.
pub const CLEAR_PIN: usize = 3;

/// Operation number: configure a pin as input.
pub const ENABLE_INPUT: usize = 5;

/// Operation number: read a pin's level.
pub const READ_PIN: usize = 6;

/// Operation number: configure a pin's interrupts.
pub const CONFIG_INTERRUPTS: usize = 7;

/// The pin driving the light.
pub const LED_PIN: usize = 0;

/// The pin the button is on.
pub const BUTTON_PIN: usize = 1;

/// Interrupt configuration: report both edges.
pub const EITHER_EDGE: usize = 0;

/// Upcall number: a pin changed level.
pub const PIN_CALLBACK: usize = 0;

/// Whether `c` is a read of the button pin whose answer means the button was
/// pressed exactly when `pressed` holds.
pub open spec fn is_button_read(c: RawCall, pressed: bool) -> bool {
    c matches RawCall::Command { driver_num, op, arg0, arg1, result } && driver_num == DRIVER_NUM
        && op == READ_PIN && arg0 == BUTTON_PIN && arg1 == 0 && pressed == (result == 1)
}

/// Whether `c` drives the light pin to the level `on`.
pub open spec fn is_light_update(c: RawCall, on: bool) -> bool {
    c matches RawCall::Command { driver_num, op, arg0, arg1, result } && driver_num == DRIVER_NUM
        && op == (if on {
        SET_PIN
    } else {
        CLEAR_PIN
    }) && arg0 == LED_PIN && arg1 == 0
}

/// The GPIO driver's state: the last button level reported by a pin
/// interrupt.
pub struct GpioState {
    button_value: bool,
}

impl GpioState {
    /// The last button level reported by a pin interrupt.
    pub closed spec fn spec_button_value(&self) -> bool {
        self.button_value
    }

    /// Fresh state: no interrupt seen yet, button assumed released.
    pub fn new() -> (r: GpioState)
        ensures
            !r.spec_button_value(),
    {
        GpioState { button_value: false }
    }
}

/// Configures the pins: light as output, button as input with interrupts on
/// both edges.
pub fn start<K: Syscalls>(kernel: &mut K) {
    kernel.command(DRIVER_NUM, ENABLE_OUTPUT, LED_PIN, 0);
    kernel.command(DRIVER_NUM, ENABLE_INPUT, BUTTON_PIN, 0);
    kernel.subscribe(DRIVER_NUM, PIN_CALLBACK);
    kernel.command(DRIVER_NUM, CONFIG_INTERRUPTS, BUTTON_PIN, EITHER_EDGE);
}

/// Reads the button pin directly: one read command, pressed exactly when the
/// kernel answers the high level. Call only after [`start`].
pub fn read_button<K: Syscalls>(kernel: &mut K) -> (r: bool)
    ensures
        final(kernel).log().drop_last() == old(kernel).log(),
        final(kernel).log().len() == old(kernel).log().len() + 1,
        is_button_read(final(kernel).log().last(), r),
{
    let raw = kernel.command(DRIVER_NUM, READ_PIN, BUTTON_PIN, 0);
    proof {
        assert(kernel.log().drop_last() =~= old(kernel).log());
    }
    raw == 1
}

/// Sets or clears the light pin: one command driving the pin to the requested
/// level. Call only after [`start`].
pub fn update<K: Syscalls>(kernel: &mut K, enable_light: bool)
    ensures
        final(kernel).log().drop_last() == old(kernel).log(),
        final(kernel).log().len() == old(kernel).log().len() + 1,
        is_light_update(final(kernel).log().last(), enable_light),
{
    let command = if enable_light {
        SET_PIN
    } else {
        CLEAR_PIN
    };
    kernel.command(DRIVER_NUM, command, LED_PIN, 0);
    proof {
        assert(kernel.log().drop_last() =~= old(kernel).log());
    }
}

/// Handles a pin interrupt: records the level the kernel reported.
pub fn button_interrupt(state: &mut GpioState, value: usize)
    ensures
        final(state).spec_button_value() == (value != 0),
{
    state.button_value = value != 0;
}

/// A wait for the button level to change: resolves once the level differs
/// from what it was when the wait began.
pub struct ButtonFuture {
    need_value: bool,
}

impl ButtonFuture {
    /// The button level this wait resolves on.
    pub closed spec fn spec_need_value(&self) -> bool {
        self.need_value
    }

    /// Checks whether the awaited level has been reached.
    pub fn poll(&self, state: &GpioState) -> (r: Poll<bool>)
        ensures
            state.spec_button_value() == self.spec_need_value() ==> r == Poll::Ready(
                state.spec_button_value(),
            ),
            state.spec_button_value() != self.spec_need_value() ==> r == Poll::<bool>::Pending,
    {
        if state.button_value == self.need_value {
            return Poll::Ready(state.button_value);
        }
        Poll::Pending
    }
}

/// Begins a wait for the button level to change from its current value.
pub fn wait_button(state: &GpioState) -> (f: ButtonFuture)
    ensures
        f.spec_need_value() == !state.spec_button_value(),
{
    ButtonFuture { need_value: !state.button_value }
}

} // verus!
