//! Interface to the button capsule: reading button state and managing the
//! interrupts that report state changes. The upcalls themselves arrive
//! through the embedding; [`decode_event`] is the verified half of that path.

use vstd::prelude::*;
use crate::async_util::Forwarder;
use crate::returncode::{EInval, ENoDevice, ENoMem, Fail, EINVAL, ENODEVICE, ENOMEM, SUCCESS};
use crate::syscalls::{RawCall, Syscalls};

verus! {

/// The button capsule's driver number.
pub const DRIVER_NUM: usize = 3;

/// Operation number: how many buttons exist.
pub const NUM_BUTTONS: usize = 0;

/// Operation number: enable a button's interrupt.
pub const ENABLE_INTERRUPT: usize = 1;

/// Operation number: disable a button's interrupt.
pub const DISABLE_INTERRUPT: usize = 2;

/// Operation number: read a button's level.
pub const GET_STATE: usize = 3;

/// Upcall number: a button changed state.
pub const BUTTON_EVENT: usize = 0;

/// One observed button transition: which button, and the level it changed to.
#[derive(Clone, Copy, Debug, PartialEq, Eq, Structural)]
pub struct Event {
    pub index: usize,
    pub new_value: bool,
}

/// The errors a button-count query can report.
#[derive(Clone, Copy, Debug, PartialEq, Eq, Structural)]
pub enum CountError {
    ENODEVICE,
}

impl ENoDevice for CountError {
    fn enodevice() -> Self {
        CountError::ENODEVICE
    }
}

/// The errors an interrupt-control request can report.
#[derive(Clone, Copy, Debug, PartialEq, Eq, Structural)]
pub enum InterruptError {
    FAIL,
    ENOMEM,
    EINVAL,
    ENODEVICE,
}

impl Fail for InterruptError {
    fn fail() -> Self {
        InterruptError::FAIL
    }
}

impl ENoMem for InterruptError {
    fn enomem() -> Self {
        InterruptError::ENOMEM
    }
}

impl EInval for InterruptError {
    fn einval() -> Self {
        InterruptError::EINVAL
    }
}

impl ENoDevice for InterruptError {
    fn enodevice() -> Self {
        InterruptError::ENODEVICE
    }
}

/// The errors a state query can report.
#[derive(Clone, Copy, Debug, PartialEq, Eq, Structural)]
pub enum GetStateError {
    ENODEVICE,
}

impl ENoDevice for GetStateError {
    fn enodevice() -> Self {
        GetStateError::ENODEVICE
    }
}

/// How a raw button-count answer reads: any error is coerced to a missing
/// device, the only error the capsule should report.
pub open spec fn spec_count(raw: isize) -> Result<usize, CountError> {
    if raw < 0 {
        Err(CountError::ENODEVICE)
    } else {
        Ok(raw as usize)
    }
}

/// How a raw interrupt-control answer reads: codes outside the documented set
/// are coerced to an unspecified failure.
pub open spec fn spec_interrupt(raw: isize) -> Result<(), InterruptError> {
    if raw == SUCCESS {
        Ok(())
    } else if raw == ENOMEM {
        Err(InterruptError::ENOMEM)
    } else if raw == EINVAL {
        Err(InterruptError::EINVAL)
    } else if raw == ENODEVICE {
        Err(InterruptError::ENODEVICE)
    } else {
        Err(InterruptError::FAIL)
    }
}

/// How a raw state-query answer reads: the two levels, with anything else
/// coerced to a missing device.
pub open spec fn spec_level(raw: isize) -> Result<bool, GetStateError> {
    if raw == 0 {
        Ok(false)
    } else if raw == 1 {
        Ok(true)
    } else {
        Err(GetStateError::ENODEVICE)
    }
}

/// Interprets the raw answer to a button-count query, exactly as
/// [`spec_count`] reads it.
pub fn classify_count(raw: isize) -> (r: Result<usize, CountError>)
    ensures
        r == spec_count(raw),
        raw < 0 ==> r == Err::<usize, CountError>(CountError::ENODEVICE),
        raw >= 0 ==> r == Ok::<usize, CountError>(raw as usize),
{
    if raw < 0 {
        Err(CountError::ENODEVICE)
    } else {
        Ok(raw as usize)
    }
}

/// Interprets the raw answer to an interrupt-control request, exactly as
/// [`spec_interrupt`] reads it.
pub fn classify_interrupt(raw: isize) -> (r: Result<(), InterruptError>)
    ensures
        r == spec_interrupt(raw),
        raw == SUCCESS ==> r == Ok::<(), InterruptError>(()),
        raw == ENOMEM ==> r == Err::<(), InterruptError>(InterruptError::ENOMEM),
        raw == EINVAL ==> r == Err::<(), InterruptError>(InterruptError::EINVAL),
        raw == ENODEVICE ==> r == Err::<(), InterruptError>(InterruptError::ENODEVICE),
        raw != SUCCESS && raw != ENOMEM && raw != EINVAL && raw != ENODEVICE ==> r == Err::<
            (),
            InterruptError,
        >(InterruptError::FAIL),
{
    if raw == SUCCESS {
        Ok(())
    } else if raw == ENOMEM {
        Err(InterruptError::ENOMEM)
    } else if raw == EINVAL {
        Err(InterruptError::EINVAL)
    } else if raw == ENODEVICE {
        Err(InterruptError::ENODEVICE)
    } else {
        Err(InterruptError::FAIL)
    }
}

/// Interprets the raw answer to a state query, exactly as [`spec_level`]
/// reads it.
pub fn classify_state(raw: isize) -> (r: Result<bool, GetStateError>)
    ensures
        r == spec_level(raw),
        raw == 0 ==> r == Ok::<bool, GetStateError>(false),
        raw == 1 ==> r == Ok::<bool, GetStateError>(true),
        raw != 0 && raw != 1 ==> r == Err::<bool, GetStateError>(GetStateError::ENODEVICE),
{
    if raw == 0 {
        Ok(false)
    } else if raw == 1 {
        Ok(true)
    } else {
        Err(GetStateError::ENODEVICE)
    }
}

/// Decodes the raw upcall arguments into an [`Event`]. Capsules are not
/// trusted, so a level other than the two valid ones is dropped rather than
/// interpreted.
pub fn decode_event(index: usize, pressed: usize) -> (r: Option<Event>)
    ensures
        pressed == 0 ==> r == Some(Event { index, new_value: false }),
        pressed == 1 ==> r == Some(Event { index, new_value: true }),
        pressed > 1 ==> r is None,
{
    match pressed {
        0 => Some(Event { index, new_value: false }),
        1 => Some(Event { index, new_value: true }),
        _ => None,
    }
}

/// The button driver. Its forwarder routes decoded events to the client
/// interested in them.
pub struct Driver<F: Forwarder<Event>> {
    forwarder: F,
}

impl<F: Forwarder<Event>> Driver<F> {
    /// Creates the driver; no kernel interaction happens yet.
    pub fn new(forwarder: F) -> Driver<F> {
        Driver { forwarder }
    }

    /// Asks the kernel how many buttons exist: one count command, its answer
    /// classified.
    pub fn get_num_buttons<K: Syscalls>(&self, kernel: &mut K) -> (r: Result<usize, CountError>)
        ensures
            final(kernel).log().drop_last() == old(kernel).log(),
            final(kernel).log().last() matches RawCall::Command {
                driver_num,
                op,
                arg0,
                arg1,
                result,
            } && driver_num == DRIVER_NUM && op == NUM_BUTTONS && arg0 == 0 && arg1 == 0 && r
                == spec_count(result),
    {
        let raw = kernel.command(DRIVER_NUM, NUM_BUTTONS, 0, 0);
        proof {
            assert(kernel.log().drop_last() =~= old(kernel).log());
        }
        classify_count(raw)
    }

    /// Subscribes to button events and, once the subscription is accepted,
    /// enables the interrupt for the button at `index`. The first refused
    /// step's classified answer is the result; after a refused subscription
    /// no command is attempted.
    pub fn enable_interrupt<K: Syscalls>(&self, kernel: &mut K, index: usize) -> (r: Result<
        (),
        InterruptError,
    >)
        ensures
            final(kernel).log()[old(kernel).log().len() as int] matches RawCall::Subscribe {
                driver_num,
                subscribe_num,
                result,
            } && driver_num == DRIVER_NUM && subscribe_num == BUTTON_EVENT && (result != SUCCESS
                ==> final(kernel).log() == old(kernel).log().push(
                (RawCall::Subscribe { driver_num, subscribe_num, result }),
            ) && r == spec_interrupt(result)),
            final(kernel).log().last() matches RawCall::Command {
                driver_num,
                op,
                arg0,
                arg1,
                result,
            } ==> final(kernel).log().drop_last().drop_last() == old(kernel).log() && driver_num
                == DRIVER_NUM && op == ENABLE_INTERRUPT && arg0 == index && arg1 == 0 && r
                == spec_interrupt(result),
    {
        let raw = kernel.subscribe(DRIVER_NUM, BUTTON_EVENT);
        if raw != SUCCESS {
            proof {
                assert(kernel.log().drop_last() =~= old(kernel).log());
            }
            return classify_interrupt(raw);
        }
        let raw = kernel.command(DRIVER_NUM, ENABLE_INTERRUPT, index, 0);
        proof {
            assert(kernel.log().drop_last().drop_last() =~= old(kernel).log());
        }
        classify_interrupt(raw)
    }

    /// Disables the interrupt for the button at `index`: one command, its
    /// answer classified.
    pub fn disable_interrupt<K: Syscalls>(&self, kernel: &mut K, index: usize) -> (r: Result<
        (),
        InterruptError,
    >)
        ensures
            final(kernel).log().drop_last() == old(kernel).log(),
            final(kernel).log().last() matches RawCall::Command {
                driver_num,
                op,
                arg0,
                arg1,
                result,
            } && driver_num == DRIVER_NUM && op == DISABLE_INTERRUPT && arg0 == index && arg1
                == 0 && r == spec_interrupt(result),
    {
        let raw = kernel.command(DRIVER_NUM, DISABLE_INTERRUPT, index, 0);
        proof {
            assert(kernel.log().drop_last() =~= old(kernel).log());
        }
        classify_interrupt(raw)
    }

    /// Reads the current level of the button at `index`: one command, its
    /// answer classified.
    pub fn get_state<K: Syscalls>(&self, kernel: &mut K, index: usize) -> (r: Result<
        bool,
        GetStateError,
    >)
        ensures
            final(kernel).log().drop_last() == old(kernel).log(),
            final(kernel).log().last() matches RawCall::Command {
                driver_num,
                op,
                arg0,
                arg1,
                result,
            } && driver_num == DRIVER_NUM && op == GET_STATE && arg0 == index && arg1 == 0 && r
                == spec_level(result),
    {
        let raw = kernel.command(DRIVER_NUM, GET_STATE, index, 0);
        proof {
            assert(kernel.log().drop_last() =~= old(kernel).log());
        }
        classify_state(raw)
    }

    /// Routes one decoded upcall to the driver's client; an invalid level is
    /// dropped, as in [`decode_event`].
    pub fn deliver(&self, index: usize, pressed: usize) {
        if let Some(event) = decode_event(index, pressed) {
            self.forwarder.invoke_callback(event);
        }
    }
}

} // verus!
