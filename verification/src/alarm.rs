//! Periodic timer: keeps a kernel alarm firing once per period and exposes
//! waits for the next expiration.

use vstd::prelude::*;
use crate::async_util::Poll;
use crate::syscalls::Syscalls;

verus! {

const ALARM: usize = 0;

const GET_FREQ: usize = 1;

const READ: usize = 2;

const SET_ALARM: usize = 4;

const ALARM_NOTIFICATIONS: usize = 0;

const PERIOD_MS: u64 = 200;

/// How often a failed alarm registration is retried before giving up; the
/// kernel answers a registration immediately, so one retry normally suffices.
const MAX_SET_TRIES: usize = 8;

/// The periodic timer's state: the period in ticks and the approximate
/// current time, advanced once per kernel notification.
pub struct AlarmState {
    period: usize,
    cur_time: u64,
}

impl AlarmState {
    /// The period in ticks.
    pub closed spec fn spec_period(&self) -> usize {
        self.period
    }

    /// The approximate current time in ticks.
    pub closed spec fn spec_cur_time(&self) -> u64 {
        self.cur_time
    }

    /// Fresh state; call [`init`] to learn the timer frequency.
    pub fn new() -> (r: AlarmState)
        ensures
            r.spec_period() == 0,
            r.spec_cur_time() == 0,
    {
        AlarmState { period: 0, cur_time: 0 }
    }
}

/// Reads the timer frequency, converts the fixed period to ticks, and
/// subscribes to alarm notifications. The approximate time is left alone, so
/// re-initialization never turns the clock back.
pub fn init<K: Syscalls>(kernel: &mut K, state: &mut AlarmState)
    ensures
        final(state).spec_cur_time() == old(state).spec_cur_time(),
{
    let freq = kernel.command(ALARM, GET_FREQ, 0, 0) as u32;
    let ticks: u64 = PERIOD_MS * (freq as u64) / 1000;
    state.period = if ticks > (usize::MAX as u64) {
        usize::MAX
    } else {
        ticks as usize
    };
    kernel.subscribe(ALARM, ALARM_NOTIFICATIONS);
    set_delay(kernel, state);
}

/// Starts the periodic alarm. Call after [`init`].
pub fn start<K: Syscalls>(kernel: &mut K, state: &AlarmState) {
    set_delay(kernel, state);
}

/// Registers an alarm one period in the future. When the registered time has
/// already passed by the time the kernel answers, retries with a later time,
/// a bounded number of times. Returns whether a registration stuck.
fn set_delay<K: Syscalls>(kernel: &mut K, state: &AlarmState) -> (ok: bool) {
    let delay_tics = state.period;
    let mut tries: usize = 0;
    while tries < MAX_SET_TRIES
        decreases MAX_SET_TRIES - tries,
    {
        let cur_tics = kernel.command(ALARM, READ, 0, 0) as usize;
        let target_time = cur_tics.wrapping_add(delay_tics);
        kernel.command(ALARM, SET_ALARM, target_time, 0);
        let after_time = kernel.command(ALARM, READ, 0, 0) as usize;
        if target_time.wrapping_sub(after_time) <= delay_tics {
            return true;
        }
        tries += 1;
    }
    false
}

/// Handles one alarm notification: advances the approximate time by one
/// period (saturating at the end of the 64-bit clock) and re-arms the alarm.
pub fn alarm_interrupt<K: Syscalls>(kernel: &mut K, state: &mut AlarmState)
    ensures
        final(state).spec_period() == old(state).spec_period(),
        final(state).spec_cur_time() == if old(state).spec_cur_time() + old(
            state,
        ).spec_period() > u64::MAX {
            u64::MAX
        } else {
            (old(state).spec_cur_time() + old(state).spec_period()) as u64
        },
{
    state.cur_time = state.cur_time.saturating_add(state.period as u64);
    set_delay(kernel, state);
}

/// A wait for a point in time: resolves once the timer's approximate time
/// reaches the target.
pub struct AlarmFuture {
    target: u64,
}

impl AlarmFuture {
    /// The time this wait resolves at.
    pub closed spec fn spec_target(&self) -> u64 {
        self.target
    }

    /// Checks whether the target time has been reached.
    pub fn poll(&self, state: &AlarmState) -> (r: Poll<()>)
        ensures
            state.spec_cur_time() >= self.spec_target() ==> r == Poll::Ready(()),
            state.spec_cur_time() < self.spec_target() ==> r == Poll::<()>::Pending,
    {
        if state.cur_time >= self.target {
            return Poll::Ready(());
        }
        Poll::Pending
    }
}

/// Begins a wait for the next period boundary (saturating at the end of the
/// 64-bit clock).
pub fn wait(state: &AlarmState) -> (f: AlarmFuture)
    ensures
        f.spec_target() == if state.spec_cur_time() + state.spec_period() > u64::MAX {
            u64::MAX
        } else {
            (state.spec_cur_time() + state.spec_period()) as u64
        },
{
    AlarmFuture { target: state.cur_time.saturating_add(state.period as u64) }
}

} // verus!
