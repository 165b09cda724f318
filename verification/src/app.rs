//! The blink application: blinks a light, except that while a button is held
//! the light is forced off. Written both as a plain event-driven state
//! machine ([`App`]) and as a pair of waits polled in a loop ([`AppFuture`]).

use vstd::prelude::*;
use crate::alarm::{self, AlarmFuture, AlarmState};
use crate::async_util::{Forwarder, Poll};
use crate::button::{Driver, Event};
use crate::gpio::{self, ButtonFuture, GpioState};
use crate::syscalls::Syscalls;

verus! {

const BUTTON_IDX: usize = 0;

/// The event-driven application: the last seen button level and whether the
/// light is currently meant to be on.
pub struct App {
    button: bool,
    light: bool,
}

impl App {
    /// The last seen button level.
    pub closed spec fn spec_button(&self) -> bool {
        self.button
    }

    /// Whether the light is currently meant to be on.
    pub closed spec fn spec_light(&self) -> bool {
        self.light
    }

    /// Fresh application state: button released, light off.
    pub fn new() -> (r: App)
        ensures
            !r.spec_button(),
            !r.spec_light(),
    {
        App { button: false, light: false }
    }

    /// Whether the light is currently meant to be on.
    pub fn light_on(&self) -> (r: bool)
        ensures
            r == self.spec_light(),
    {
        self.light
    }

    /// Whether the button was held when last observed.
    pub fn button_held(&self) -> (r: bool)
        ensures
            r == self.spec_button(),
    {
        self.button
    }

    /// Asks the button driver for interrupts on the application's button. A
    /// rejection is ignored: without interrupts the light simply never
    /// pauses.
    pub fn init<F: Forwarder<Event>, K: Syscalls>(&self, driver: &Driver<F>, kernel: &mut K) {
        let _ = driver.enable_interrupt(kernel, BUTTON_IDX);
    }

    /// Begins blinking: light off, button level sampled, first alarm set.
    /// Call after the GPIO pins and the periodic alarm are initialized.
    pub fn start<K: Syscalls>(&mut self, kernel: &mut K, alarm_state: &AlarmState)
        ensures
            !final(self).spec_light(),
    {
        gpio::update(kernel, false);
        self.light = false;
        self.button = gpio::read_button(kernel);
        alarm::start(kernel, alarm_state);
    }

    /// Handles a button transition: holding the button forces the light off;
    /// releasing it turns the light on (the next alarms resume blinking).
    pub fn button_change<K: Syscalls>(&mut self, kernel: &mut K, value: bool)
        ensures
            final(self).spec_button() == value,
            final(self).spec_light() == !value,
    {
        if value {
            gpio::update(kernel, false);
            self.light = false;
        } else {
            gpio::update(kernel, true);
            self.light = true;
        }
        self.button = value;
    }

    /// Handles an alarm: toggles the light, unless the button is held, in
    /// which case the alarm is ignored.
    pub fn alarm_fired<K: Syscalls>(&mut self, kernel: &mut K)
        ensures
            final(self).spec_button() == old(self).spec_button(),
            old(self).spec_button() ==> final(self).spec_light() == old(self).spec_light(),
            !old(self).spec_button() ==> final(self).spec_light() == !old(self).spec_light(),
    {
        if self.button {
            return ;
        }
        self.light = !self.light;
        gpio::update(kernel, self.light);
    }
}

/// The same application as a pair of waits: one for the next blink, one for
/// the next button transition. The embedding polls it whenever either the
/// alarm or the GPIO state may have changed.
pub struct AppFuture {
    alarm: AlarmFuture,
    button: ButtonFuture,
    light: bool,
}

impl AppFuture {
    /// Whether the light is currently meant to be on.
    pub closed spec fn spec_light(&self) -> bool {
        self.light
    }

    /// The time the pending blink wait resolves at.
    pub closed spec fn spec_alarm_target(&self) -> u64 {
        self.alarm.spec_target()
    }

    /// The button level the pending button wait resolves on.
    pub closed spec fn spec_button_need(&self) -> bool {
        self.button.spec_need_value()
    }

    /// Starts the application: light off, waits armed for the next period
    /// boundary and the next button transition.
    pub fn new<K: Syscalls>(
        kernel: &mut K,
        alarm_state: &AlarmState,
        gpio_state: &GpioState,
    ) -> (r: AppFuture)
        ensures
            !r.spec_light(),
            r.spec_alarm_target() == if alarm_state.spec_cur_time() + alarm_state.spec_period()
                > u64::MAX {
                u64::MAX
            } else {
                (alarm_state.spec_cur_time() + alarm_state.spec_period()) as u64
            },
            r.spec_button_need() == !gpio_state.spec_button_value(),
    {
        gpio::update(kernel, false);
        AppFuture {
            alarm: alarm::wait(alarm_state),
            button: gpio::wait_button(gpio_state),
            light: false,
        }
    }

    /// Handles a resolved blink wait: reads the button and, unless it is
    /// held, toggles the light.
    pub fn alarm_fired<K: Syscalls>(&mut self, kernel: &mut K)
        ensures
            final(kernel).log().len() > old(kernel).log().len(),
            gpio::is_button_read(final(kernel).log()[old(kernel).log().len() as int], true)
                ==> final(self).spec_light() == old(self).spec_light(),
            gpio::is_button_read(final(kernel).log()[old(kernel).log().len() as int], false)
                ==> final(self).spec_light() == !old(self).spec_light() && gpio::is_light_update(
                final(kernel).log().last(),
                !old(self).spec_light(),
            ),
    {
        if gpio::read_button(kernel) {
            return ;
        }
        self.light = !self.light;
        gpio::update(kernel, self.light);
    }

    /// Handles a resolved button wait: reads the button; holding it forces
    /// the light off, releasing it turns the light on.
    pub fn button_event<K: Syscalls>(&mut self, kernel: &mut K)
        ensures
            final(kernel).log().len() > old(kernel).log().len(),
            gpio::is_button_read(final(kernel).log()[old(kernel).log().len() as int], true)
                ==> !final(self).spec_light() && gpio::is_light_update(
                final(kernel).log().last(),
                false,
            ),
            gpio::is_button_read(final(kernel).log()[old(kernel).log().len() as int], false)
                ==> final(self).spec_light() && gpio::is_light_update(
                final(kernel).log().last(),
                true,
            ),
    {
        if gpio::read_button(kernel) {
            gpio::update(kernel, false);
            self.light = false;
        } else {
            gpio::update(kernel, true);
            self.light = true;
        }
    }

    /// One poll of the application: whichever wait has resolved is handled
    /// and re-armed. The application runs until dropped, so the poll itself
    /// never resolves.
    pub fn poll<K: Syscalls>(
        &mut self,
        kernel: &mut K,
        alarm_state: &AlarmState,
        gpio_state: &GpioState,
    ) -> (r: Poll<()>)
        ensures
            r == Poll::<()>::Pending,
            alarm_state.spec_cur_time() < old(self).spec_alarm_target()
                && gpio_state.spec_button_value() != old(self).spec_button_need() ==> *final(self)
                == *old(self) && final(kernel).log() == old(kernel).log(),
    {
        let alarm_ready = match self.alarm.poll(alarm_state) {
            Poll::Ready(()) => true,
            Poll::Pending => false,
        };
        if alarm_ready {
            self.alarm_fired(kernel);
            self.alarm = alarm::wait(alarm_state);
        }
        let button_ready = match self.button.poll(gpio_state) {
            Poll::Ready(_) => true,
            Poll::Pending => false,
        };
        if button_ready {
            self.button_event(kernel);
            self.button = gpio::wait_button(gpio_state);
        }
        Poll::Pending
    }
}

} // verus!
