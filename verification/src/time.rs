//! Lightweight timer/alarm interface.
//!
//! Most of the clock's work is un-wrapping the 32-bit counter exposed by the
//! kernel into a 64-bit counter: alarms are set no further than
//! `UPDATE_PERIOD` ticks apart, so that every wrap of the hardware counter is
//! observed and [`calc_new_unwrapped`] can reconstruct the full time.

use vstd::prelude::*;
use vstd::arithmetic::div_mod::{lemma_fundamental_div_mod, lemma_mod_multiples_vanish,
    lemma_small_mod};
use crate::async_util::Forwarder;
use crate::syscalls::Syscalls;

verus! {

const DRIVER_NUM: usize = 0;

const GET_TICKS: usize = 2;

const SET_ALARM: usize = 4;

const ALARM_FIRED: usize = 0;

/// The longest stretch between two kernel alarms: short enough that the
/// 32-bit hardware counter can wrap at most once in between, so the 64-bit
/// reconstruction never loses a wrap.
pub const UPDATE_PERIOD: u32 = 1_000_000_000;

/// Completion value delivered to the clock's client when its alarm fires.
#[derive(Clone, Copy, Debug, PartialEq, Eq, Structural)]
pub struct AlarmFired;

/// Error: the requested alarm time had already passed when it was set.
#[derive(Clone, Copy, Debug, PartialEq, Eq, Structural)]
pub struct InPast;

/// The smallest 64-bit time value that is at least `unwrapped` and whose low
/// 32 bits equal the kernel's current counter value `ticks`.
pub fn calc_new_unwrapped(unwrapped: u64, ticks: u32) -> (r: u64)
    requires
        unwrapped <= u64::MAX - 0x1_0000_0000,
    ensures
        unwrapped <= r < unwrapped + 0x1_0000_0000,
        r as int % 0x1_0000_0000 == ticks,
{
    let low: u32 = (unwrapped & 0xffff_ffff) as u32;
    let delta: u32 = ticks.wrapping_sub(low);
    let r = unwrapped + (delta as u64);
    proof {
        let m: int = 0x1_0000_0000;
        assert((unwrapped & 0xffff_ffffu64) == unwrapped % 0x1_0000_0000u64) by (bit_vector);
        lemma_fundamental_div_mod(unwrapped as int, m);
        let q = unwrapped as int / m;
        if ticks >= low {
            assert(r as int == m * q + ticks);
            lemma_mod_multiples_vanish(q, ticks as int, m);
            lemma_small_mod(ticks as nat, m as nat);
        } else {
            assert(r as int == m * (q + 1) + ticks);
            lemma_mod_multiples_vanish(q + 1, ticks as int, m);
            lemma_small_mod(ticks as nat, m as nat);
        }
    }
    r
}

/// A clock over a 32-bit hardware counter. The client asks for an alarm at a
/// 64-bit time; the clock keeps kernel alarms frequent enough to observe
/// every counter wrap and notifies the client through its forwarder.
pub struct Clock<F: Forwarder<AlarmFired>> {
    // The time at which the client wants to be alerted.
    client_setpoint: u64,
    // Time as of the last kernel alarm (or of initialization). The lower 32
    // bits equal the kernel counter value at that moment.
    last_callback: u64,
    forwarder: F,
}

/// The alarm-clock interface the clock (and its virtualized multiplexer
/// clients) expose to the application.
pub trait AlarmClock {
    /// The pending alarm time the clock is tracking for its client;
    /// `u64::MAX` while none is pending.
    spec fn spec_alarm(&self) -> u64;

    /// The current 64-bit time.
    fn get_time<K: Syscalls>(&self, kernel: &mut K) -> u64;

    /// The currently requested alarm time; `u64::MAX` when none is set.
    fn get_alarm(&self) -> (r: u64)
        ensures
            r == self.spec_alarm(),
    ;

    /// Asks to be alerted at `time`. On success the request is pending; a
    /// request reported as already past is withdrawn.
    fn set_alarm<K: Syscalls>(&mut self, kernel: &mut K, time: u64) -> (r: Result<(), InPast>)
        ensures
            r is Ok ==> final(self).spec_alarm() == time,
            r is Err ==> final(self).spec_alarm() == u64::MAX,
    ;
}

impl<F: Forwarder<AlarmFired>> Clock<F> {
    /// The reconstructed 64-bit time as of the last kernel alarm.
    pub closed spec fn spec_last_callback(&self) -> u64 {
        self.last_callback
    }

    /// Creates the clock; call [`Clock::init`] before using it.
    pub fn new(forwarder: F) -> (r: Clock<F>)
        ensures
            r.spec_alarm() == 0,
            r.spec_last_callback() == 0,
    {
        Clock { client_setpoint: 0, last_callback: 0, forwarder }
    }

    /// Subscribes to the kernel alarm, reads the initial counter value, and
    /// schedules the first wrap-tracking alarm.
    pub fn init<K: Syscalls>(&mut self, kernel: &mut K)
        ensures
            final(self).spec_alarm() == u64::MAX,
            final(self).spec_last_callback() < 0x1_0000_0000,
    {
        kernel.subscribe(DRIVER_NUM, ALARM_FIRED);
        self.client_setpoint = u64::MAX;
        let ticks = kernel.command(DRIVER_NUM, GET_TICKS, 0, 0);
        self.last_callback = (ticks as u32) as u64;
        let callback_ticks = (self.last_callback as u32).wrapping_add(UPDATE_PERIOD);
        kernel.command(DRIVER_NUM, SET_ALARM, callback_ticks as usize, 0);
    }

    /// Handles one kernel-alarm upcall: advances the reconstructed time using
    /// the counter value `expired` the kernel reported, schedules the next
    /// wrap-tracking (or client) alarm, and notifies the client if its
    /// requested time has been reached. Returns whether the client was
    /// notified; the embedding repeats the call while this is true, since the
    /// notification may have consumed time.
    pub fn process_alarm<K: Syscalls>(&mut self, kernel: &mut K, expired: u32) -> (fired: bool)
        ensures
            fired ==> final(self).spec_alarm() == u64::MAX,
    {
        if self.last_callback <= u64::MAX - 0x1_0000_0000 {
            self.last_callback = calc_new_unwrapped(self.last_callback, expired);
        }
        let update_target = self.saturating_update_target();
        let tgt = if self.client_setpoint < update_target {
            self.client_setpoint
        } else {
            update_target
        };
        kernel.command(DRIVER_NUM, SET_ALARM, tgt as usize, 0);
        if self.get_time(kernel) >= self.client_setpoint {
            self.client_setpoint = u64::MAX;
            self.forwarder.invoke_callback(AlarmFired);
            return true;
        }
        false
    }

    /// One update period past the last kernel alarm, saturating at the end of
    /// the 64-bit clock.
    fn saturating_update_target(&self) -> (r: u64)
        ensures
            r == if self.spec_last_callback() + UPDATE_PERIOD > u64::MAX {
                u64::MAX
            } else {
                (self.spec_last_callback() + UPDATE_PERIOD) as u64
            },
    {
        if self.last_callback > u64::MAX - (UPDATE_PERIOD as u64) {
            u64::MAX
        } else {
            self.last_callback + (UPDATE_PERIOD as u64)
        }
    }
}

impl<F: Forwarder<AlarmFired>> AlarmClock for Clock<F> {
    closed spec fn spec_alarm(&self) -> u64 {
        self.client_setpoint
    }

    /// The current 64-bit time: the last reconstructed time advanced to the
    /// kernel counter's present value. Saturates at the end of the 64-bit
    /// clock.
    fn get_time<K: Syscalls>(&self, kernel: &mut K) -> u64 {
        if self.last_callback > u64::MAX - 0x1_0000_0000 {
            return u64::MAX;
        }
        let ticks = kernel.command(DRIVER_NUM, GET_TICKS, 0, 0);
        calc_new_unwrapped(self.last_callback, ticks as u32)
    }

    fn get_alarm(&self) -> u64 {
        self.client_setpoint
    }

    /// Records the client's requested time. When the request is nearer than
    /// the next wrap-tracking alarm, asks the kernel for it directly; a
    /// request that turns out to lie in the past is withdrawn and reported as
    /// [`InPast`].
    fn set_alarm<K: Syscalls>(&mut self, kernel: &mut K, time: u64) -> Result<(), InPast> {
        self.client_setpoint = time;
        if time >= self.saturating_update_target() {
            return Ok(());
        }
        kernel.command(DRIVER_NUM, SET_ALARM, time as usize, 0);
        if self.get_time(kernel) >= time {
            let callback_ticks = (self.last_callback as u32).wrapping_add(UPDATE_PERIOD);
            kernel.command(DRIVER_NUM, SET_ALARM, callback_ticks as usize, 0);
            self.client_setpoint = u64::MAX;
            return Err(InPast);
        }
        Ok(())
    }
}

} // verus!
