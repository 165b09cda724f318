//! A wait for a button to reach a chosen level, built on the button driver.

use vstd::prelude::*;
use crate::async_util::{Forwarder, Poll};
use crate::button::{Driver, Event, GetStateError, InterruptError};
use crate::returncode::{EBusy, EInval, ENoDevice, ENoMem, Fail};
use crate::syscalls::{RawCall, Syscalls};

verus! {

/// Where a button's wait currently stands.
#[derive(Clone, Copy, Debug, PartialEq, Eq, Structural)]
pub enum ButtonState {
    /// No wait has ever been started on this button.
    Uninitialized,
    /// A previous wait finished; a new one may start.
    Idle,
    /// A wait is pending for the carried transition.
    WaitingFor(Event),
    /// The awaited transition arrived.
    Fired,
}

/// Per-button bookkeeping for waits: at most one wait is pending per button.
pub struct Button {
    state: ButtonState,
}

impl Button {
    /// Where this button's wait currently stands.
    pub closed spec fn spec_state(&self) -> ButtonState {
        self.state
    }

    /// Fresh bookkeeping: nothing waited on yet.
    pub fn new() -> (r: Button)
        ensures
            r.spec_state() == ButtonState::Uninitialized,
    {
        Button { state: ButtonState::Uninitialized }
    }

    /// Handles one decoded button event: a pending wait for exactly this
    /// transition fires; anything else is left untouched.
    pub fn on_event(&mut self, response: Event)
        ensures
            old(self).spec_state() == ButtonState::WaitingFor(response) ==> final(self).spec_state() == ButtonState::Fired,
            old(self).spec_state() != ButtonState::WaitingFor(response) ==> final(self).spec_state() == old(self).spec_state(),
    {
        if let ButtonState::WaitingFor(event) = self.state {
            if event == response {
                self.state = ButtonState::Fired;
            }
        }
    }
}

/// The errors starting a wait can report.
#[derive(Clone, Copy, Debug, PartialEq, Eq, Structural)]
pub enum StartError {
    FAIL,
    EBUSY,
    ENOMEM,
    EINVAL,
    ENODEVICE,
}

impl Fail for StartError {
    fn fail() -> Self {
        StartError::FAIL
    }
}

impl EBusy for StartError {
    fn ebusy() -> Self {
        StartError::EBUSY
    }
}

impl ENoMem for StartError {
    fn enomem() -> Self {
        StartError::ENOMEM
    }
}

impl EInval for StartError {
    fn einval() -> Self {
        StartError::EINVAL
    }
}

impl ENoDevice for StartError {
    fn enodevice() -> Self {
        StartError::ENODEVICE
    }
}

/// Carries an interrupt-control error over into a wait-start error, code for
/// code.
pub fn map_interrupt_error(e: InterruptError) -> (r: StartError)
    ensures
        e == InterruptError::FAIL ==> r == StartError::FAIL,
        e == InterruptError::ENOMEM ==> r == StartError::ENOMEM,
        e == InterruptError::EINVAL ==> r == StartError::EINVAL,
        e == InterruptError::ENODEVICE ==> r == StartError::ENODEVICE,
{
    match e {
        InterruptError::FAIL => StartError::FAIL,
        InterruptError::ENOMEM => StartError::ENOMEM,
        InterruptError::EINVAL => StartError::EINVAL,
        InterruptError::ENODEVICE => StartError::ENODEVICE,
    }
}

/// A wait for one button transition.
#[derive(Clone, Copy, Debug, PartialEq, Eq, Structural)]
pub struct ButtonFuture {
    wanted: Event,
}

impl ButtonFuture {
    /// The transition this wait resolves on.
    pub closed spec fn spec_wanted(&self) -> Event {
        self.wanted
    }

    /// Starts a wait for the button at `index` to reach level `new_value`:
    /// refuses a button whose wait is already pending or unconsumed, enables
    /// the interrupt, and records what is awaited.
    pub fn new<F: Forwarder<Event>, K: Syscalls>(
        button: &mut Button,
        driver: &Driver<F>,
        kernel: &mut K,
        index: usize,
        new_value: bool,
    ) -> (r: Result<ButtonFuture, StartError>)
        ensures
            old(button).spec_state() matches ButtonState::WaitingFor(_) ==> r == Err::<
                ButtonFuture,
                StartError,
            >(StartError::EBUSY) && final(button).spec_state() == old(button).spec_state(),
            old(button).spec_state() == ButtonState::Fired ==> r == Err::<
                ButtonFuture,
                StartError,
            >(StartError::EBUSY) && final(button).spec_state() == old(button).spec_state(),
            r matches Ok(f) ==> f.spec_wanted() == (Event { index, new_value }) && final(button).spec_state() == ButtonState::WaitingFor(Event { index, new_value }),
            r is Err ==> final(button).spec_state() == old(button).spec_state(),
            r == Err::<ButtonFuture, StartError>(StartError::EBUSY) ==> (old(
                button,
            ).spec_state() matches ButtonState::WaitingFor(_)) || old(button).spec_state()
                == ButtonState::Fired,
    {
        match button.state {
            ButtonState::Uninitialized => {},
            ButtonState::Idle => {},
            _ => {
                return Err(StartError::EBUSY);
            },
        }
        match driver.enable_interrupt(kernel, index) {
            Ok(()) => {},
            Err(e) => {
                return Err(map_interrupt_error(e));
            },
        }
        let wanted = Event { index, new_value };
        button.state = ButtonState::WaitingFor(wanted);
        Ok(ButtonFuture { wanted })
    }

    /// Checks whether the awaited transition has arrived.
    pub fn poll(&self, button: &Button) -> (r: Poll<()>)
        ensures
            button.spec_state() matches ButtonState::WaitingFor(_) ==> r == Poll::<()>::Pending,
            !(button.spec_state() matches ButtonState::WaitingFor(_)) ==> r == Poll::Ready(()),
    {
        if let ButtonState::WaitingFor(_) = button.state {
            Poll::Pending
        } else {
            Poll::Ready(())
        }
    }
}

/// Reads the current level of the button at `index`: one command to the
/// button capsule, its answer classified.
pub fn get_state<F: Forwarder<Event>, K: Syscalls>(
    driver: &Driver<F>,
    kernel: &mut K,
    index: usize,
) -> (r: Result<bool, GetStateError>)
    ensures
        final(kernel).log().drop_last() == old(kernel).log(),
        final(kernel).log().last() matches RawCall::Command {
            driver_num,
            op,
            arg0,
            arg1,
            result,
        } && driver_num == crate::button::DRIVER_NUM && op == crate::button::GET_STATE && arg0
            == index && arg1 == 0 && r == crate::button::spec_level(result),
{
    driver.get_state(kernel, index)
}

} // verus!
