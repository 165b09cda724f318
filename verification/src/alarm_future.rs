//! A wait for a given amount of time on top of any [`AlarmClock`].

use vstd::prelude::*;
use crate::async_util::{Client, Poll};
use crate::syscalls::Syscalls;
use crate::time::{AlarmClock, AlarmFired};

verus! {

/// A client that needs no notification handling: futures built on the clock
/// poll it instead of reacting to the callback.
pub struct AlarmClockClient;

impl Client<AlarmFired> for AlarmClockClient {
    fn callback(&mut self, _response: AlarmFired) {
    }
}

/// A wait for a point in time on an alarm clock.
pub struct AlarmFuture {
    setpoint: u64,
}

impl AlarmFuture {
    /// The time this wait resolves at.
    pub closed spec fn spec_setpoint(&self) -> u64 {
        self.setpoint
    }

    /// Begins a wait for `delay` ticks past the clock's current time
    /// (saturating at the end of the 64-bit clock).
    pub fn new<C: AlarmClock, K: Syscalls>(clock: &C, kernel: &mut K, delay: u64) -> AlarmFuture {
        let now = clock.get_time(kernel);
        AlarmFuture { setpoint: delay.saturating_add(now) }
    }

    /// Checks whether the wait has resolved, keeping the clock's alarm no
    /// later than this wait's setpoint. A setpoint the clock reports as
    /// already past resolves immediately, and the clock's previous alarm is
    /// restored (or withdrawn, when it too is reported past).
    pub fn poll<C: AlarmClock, K: Syscalls>(&self, clock: &mut C, kernel: &mut K) -> (r: Poll<()>)
        ensures
            old(clock).spec_alarm() <= self.spec_setpoint() ==> r == Poll::<()>::Pending
                && *final(clock) == *old(clock) && final(kernel).log() == old(kernel).log(),
            old(clock).spec_alarm() > self.spec_setpoint() && r == Poll::<()>::Pending ==> final(clock).spec_alarm() == self.spec_setpoint(),
            r == Poll::Ready(()) ==> old(clock).spec_alarm() > self.spec_setpoint() && (final(clock).spec_alarm() == old(clock).spec_alarm() || final(clock).spec_alarm() == u64::MAX),
    {
        let cur_alarm = clock.get_alarm();
        if cur_alarm > self.setpoint {
            if clock.set_alarm(kernel, self.setpoint).is_ok() {
                return Poll::Pending;
            }
            let _ = clock.set_alarm(kernel, cur_alarm);
            return Poll::Ready(());
        }
        Poll::Pending
    }
}

/// Marker for the route from the clock's completion to the waiting futures:
/// nothing to do on delivery, since the futures poll the clock to learn that
/// they have expired.
#[derive(Clone, Copy)]
pub struct FutureForwarder;

impl crate::async_util::Forwarder<AlarmFired> for FutureForwarder {
    fn invoke_callback(self, _response: AlarmFired) {
    }
}

} // verus!
